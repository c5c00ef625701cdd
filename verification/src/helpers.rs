//! Buffer utilities and the native-amount reader.

use vstd::prelude::*;
use vstd::pervasive::VecAdditionalExecFns;
use crate::error::Error;
use crate::fields::AmountType;
use crate::encode::spec_encode_drops;

verus! {

/// Copies a byte buffer.
pub fn copy_buf(src: &Vec<u8>) -> (r: Vec<u8>)
    ensures
        r@ == src@,
{
    let mut r: Vec<u8> = Vec::new();
    let mut i: usize = 0;
    while i < src.len()
        invariant
            i <= src@.len(),
            r@ == src@.subrange(0, i as int),
        decreases src@.len() - i,
    {
        r.push(src[i]);
        i = i + 1;
    }
    proof {
        assert(r@ =~= src@);
    }
    r
}

/// True exactly when the two buffers hold the same bytes.
pub fn is_buffer_equal(buf_1: &Vec<u8>, buf_2: &Vec<u8>) -> (r: bool)
    ensures
        r == (buf_1@ == buf_2@),
{
    if buf_1.len() != buf_2.len() {
        return false;
    }
    let mut i: usize = 0;
    while i < buf_1.len()
        invariant
            buf_1@.len() == buf_2@.len(),
            i <= buf_1@.len(),
            forall|j: int| 0 <= j < i ==> buf_1@[j] == buf_2@[j],
        decreases buf_1@.len() - i,
    {
        if buf_1[i] != buf_2[i] {
            return false;
        }
        i = i + 1;
    }
    proof {
        assert(buf_1@ =~= buf_2@);
    }
    true
}

/// Sets every byte of the buffer to zero.
pub fn buffer_zeroize(buf: &mut Vec<u8>)
    ensures
        final(buf)@.len() == old(buf)@.len(),
        forall|j: int| 0 <= j < final(buf)@.len() ==> final(buf)@[j] == 0u8,
{
    let mut i: usize = 0;
    while i < buf.len()
        invariant
            i <= buf@.len(),
            buf@.len() == old(buf)@.len(),
            forall|j: int| 0 <= j < i ==> buf@[j] == 0u8,
        decreases buf@.len() - i,
    {
        buf.set(i, 0);
        i = i + 1;
    }
}

/// True exactly when the originating transaction comes from the hook's own
/// account: its Account field equals the executing account's id. The two ids
/// are fetched over the boundary (the executing account and the originating
/// transaction's Account field) and handed in here.
pub fn is_txn_outgoing(hook_acc_id: &Vec<u8>, otxn_acc_id: &Vec<u8>) -> (r: bool)
    ensures
        r == (hook_acc_id@ == otxn_acc_id@),
{
    is_buffer_equal(hook_acc_id, otxn_acc_id)
}

/// True exactly when the originating transaction comes from some other
/// account than the hook's own; the negation of [`is_txn_outgoing`].
pub fn is_txn_ingoing(hook_acc_id: &Vec<u8>, otxn_acc_id: &Vec<u8>) -> (r: bool)
    ensures
        r == (hook_acc_id@ != otxn_acc_id@),
{
    !is_txn_outgoing(hook_acc_id, otxn_acc_id)
}

/// The drops value held in the first eight bytes of a serialized native
/// amount: the low six bits of the first byte and the next seven bytes,
/// big-endian.
pub open spec fn spec_amount_to_drops(b: Seq<u8>) -> u64
    recommends
        b.len() >= 8,
{
    (
        (((b[0] as u64) & 0x3F) << 56)
        + ((b[1] as u64) << 48)
        + ((b[2] as u64) << 40)
        + ((b[3] as u64) << 32)
        + ((b[4] as u64) << 24)
        + ((b[5] as u64) << 16)
        + ((b[6] as u64) << 8)
        + (b[7] as u64)
    ) as u64
}

/// Reads a serialized amount as a native drops value.
///
/// A set top bit marks a non-native (or negative) amount, which is refused;
/// otherwise the drops value is recovered from the remaining 62 bits and the
/// next seven bytes.
pub fn amount_to_drops(amount_buf: &Vec<u8>) -> (r: Result<u64, Error>)
    requires
        amount_buf.len() >= 8,
    ensures
        amount_buf@[0] >> 7 == 1 ==> r == Err::<u64, Error>(Error::InternalError),
        amount_buf@[0] >> 7 != 1 ==> r == Ok::<u64, Error>(spec_amount_to_drops(amount_buf@)),
{
    let b0 = amount_buf[0];
    if b0 >> 7 == 1 {
        return Err(Error::InternalError);
    }
    let x0: u64 = (b0 as u64) & 0x3F;
    let x1: u64 = amount_buf[1] as u64;
    let x2: u64 = amount_buf[2] as u64;
    let x3: u64 = amount_buf[3] as u64;
    let x4: u64 = amount_buf[4] as u64;
    let x5: u64 = amount_buf[5] as u64;
    let x6: u64 = amount_buf[6] as u64;
    let x7: u64 = amount_buf[7] as u64;
    proof {
        assert(x0 <= 0x3F) by (bit_vector)
            requires
                x0 == (b0 as u64) & 0x3F,
        ;
        assert((x0 << 56) + (x1 << 48) + (x2 << 40) + (x3 << 32) + (x4 << 24) + (x5 << 16) + (
        x6 << 8) + x7 < 0x1_0000_0000_0000_0000) by (bit_vector)
            requires
                x0 <= 0x3F,
                x1 <= 0xFF,
                x2 <= 0xFF,
                x3 <= 0xFF,
                x4 <= 0xFF,
                x5 <= 0xFF,
                x6 <= 0xFF,
                x7 <= 0xFF,
        ;
    }
    Ok(
        (x0 << 56) + (x1 << 48) + (x2 << 40) + (x3 << 32) + (x4 << 24) + (x5 << 16) + (x6 << 8)
            + x7,
    )
}

/// Law: a native amount round-trips. For any drops value below `2^62` and any
/// role, the eight payload bytes written by the amount encoder read back as
/// the same drops value, and their top bit is clear.
pub proof fn lemma_drops_round_trip(drops: u64, t: AmountType)
    requires
        drops < 0x4000_0000_0000_0000,
    ensures
        spec_encode_drops(drops, t).subrange(1, 9)[0] >> 7 != 1,
        spec_amount_to_drops(spec_encode_drops(drops, t).subrange(1, 9)) == drops,
{
    let payload = spec_encode_drops(drops, t).subrange(1, 9);
    let p0 = (0b0100_0000 + ((drops >> 56) & 0b0011_1111)) as u8;
    let p1 = ((drops >> 48) & 0xFF) as u8;
    let p2 = ((drops >> 40) & 0xFF) as u8;
    let p3 = ((drops >> 32) & 0xFF) as u8;
    let p4 = ((drops >> 24) & 0xFF) as u8;
    let p5 = ((drops >> 16) & 0xFF) as u8;
    let p6 = ((drops >> 8) & 0xFF) as u8;
    let p7 = (drops & 0xFF) as u8;
    assert(payload[0] == p0 && payload[1] == p1 && payload[2] == p2 && payload[3] == p3
        && payload[4] == p4 && payload[5] == p5 && payload[6] == p6 && payload[7] == p7);
    assert(p0 >> 7 != 1 && ((((p0 as u64) & 0x3F) << 56) + ((p1 as u64) << 48) + ((p2 as u64)
        << 40) + ((p3 as u64) << 32) + ((p4 as u64) << 24) + ((p5 as u64) << 16) + ((p6 as u64)
        << 8) + (p7 as u64)) as u64 == drops) by (bit_vector)
        requires
            drops < 0x4000_0000_0000_0000,
            p0 == (0b0100_0000 + ((drops >> 56) & 0b0011_1111)) as u8,
            p1 == ((drops >> 48) & 0xFF) as u8,
            p2 == ((drops >> 40) & 0xFF) as u8,
            p3 == ((drops >> 32) & 0xFF) as u8,
            p4 == ((drops >> 24) & 0xFF) as u8,
            p5 == ((drops >> 16) & 0xFF) as u8,
            p6 == ((drops >> 8) & 0xFF) as u8,
            p7 == (drops & 0xFF) as u8,
    ;
}

} // verus!
