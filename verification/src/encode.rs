//! The canonical field encoders.
//!
//! Each encoder writes exactly one typed field into a caller-supplied byte
//! range of an output buffer, following the host's binary serialization rules
//! bit-exactly; the host parses strictly and tolerates no alternate encoding.
//! An encoder touches nothing outside its range, and its contract gives the
//! written bytes in full.

use vstd::prelude::*;
use vstd::pervasive::VecAdditionalExecFns;
use crate::fields::{
    AccountType, AmountType, TxnType, account_type_code, amount_type_code,
    spec_account_type_code, spec_amount_type_code, spec_txn_type_code, txn_type_code,
};

verus! {

/// Bytes of a transaction-type field: prefix `0x12`, then the 16-bit type
/// code, big-endian.
pub open spec fn spec_encode_tt(tt: TxnType) -> Seq<u8> {
    seq![
        0x12u8,
        ((spec_txn_type_code(tt) >> 8) & 0xFF) as u8,
        (spec_txn_type_code(tt) & 0xFF) as u8,
    ]
}

/// Bytes of a common (field code at most 15) unsigned 32-bit integer field:
/// prefix `0x20 | field`, then the value, big-endian.
pub open spec fn spec_encode_u32_common(i: u32, field: u8) -> Seq<u8> {
    seq![
        (0x20 + (field & 0x0F)) as u8,
        ((i >> 24) & 0xFF) as u8,
        ((i >> 16) & 0xFF) as u8,
        ((i >> 8) & 0xFF) as u8,
        (i & 0xFF) as u8,
    ]
}

/// Bytes of an uncommon (field code above 15) unsigned 32-bit integer field:
/// the two-byte prefix `0x20, field`, then the value, big-endian.
pub open spec fn spec_encode_u32_uncommon(i: u32, field: u8) -> Seq<u8> {
    seq![
        0x20u8,
        field,
        ((i >> 24) & 0xFF) as u8,
        ((i >> 16) & 0xFF) as u8,
        ((i >> 8) & 0xFF) as u8,
        (i & 0xFF) as u8,
    ]
}

/// Bytes of a native-currency amount field: prefix `0x60 | role`, then eight
/// payload bytes holding the drops value big-endian, with bit 6 of the first
/// payload byte forced to one (the "positive, native" marker).
pub open spec fn spec_encode_drops(drops: u64, amount_type: AmountType) -> Seq<u8> {
    seq![
        (0x60 + (spec_amount_type_code(amount_type) & 0x0F)) as u8,
        (0b0100_0000 + ((drops >> 56) & 0b0011_1111)) as u8,
        ((drops >> 48) & 0xFF) as u8,
        ((drops >> 40) & 0xFF) as u8,
        ((drops >> 32) & 0xFF) as u8,
        ((drops >> 24) & 0xFF) as u8,
        ((drops >> 16) & 0xFF) as u8,
        ((drops >> 8) & 0xFF) as u8,
        (drops & 0xFF) as u8,
    ]
}

/// Bytes of a null signing-public-key field: the prefix `0x73, 0x21` and 33
/// zero bytes, meaning "no public key supplied".
pub open spec fn spec_encode_signing_pubkey_null() -> Seq<u8> {
    seq![0x73u8, 0x21u8] + Seq::new(33, |i: int| 0u8)
}

/// Bytes of an account-id field: prefix `0x80 | role`, the fixed length byte
/// `0x14`, then the 20 id bytes verbatim.
pub open spec fn spec_encode_account(account_id: Seq<u8>, account_type: AccountType) -> Seq<u8> {
    seq![(0x80 + spec_account_type_code(account_type)) as u8, 0x14u8] + account_id
}

/// Writes a transaction-type field at `pos`.
pub fn encode_tt(buf_out: &mut Vec<u8>, pos: usize, tt: TxnType)
    requires
        pos + 3 <= old(buf_out).len(),
    ensures
        final(buf_out)@.len() == old(buf_out)@.len(),
        final(buf_out)@.subrange(pos as int, pos + 3) == spec_encode_tt(tt),
        forall|k: int|
            0 <= k < old(buf_out)@.len() && !(pos <= k < pos + 3)
                ==> final(buf_out)@[k] == old(buf_out)@[k],
{
    let code = txn_type_code(tt);
    buf_out.set(pos, 0x12);
    buf_out.set(pos + 1, ((code >> 8) & 0xFF) as u8);
    buf_out.set(pos + 2, (code & 0xFF) as u8);
    proof {
        assert(buf_out@.subrange(pos as int, pos + 3) =~= spec_encode_tt(tt));
    }
}

/// Writes a common unsigned 32-bit integer field at `pos`.
pub fn encode_u32_common(buf_out: &mut Vec<u8>, pos: usize, i: u32, field: u8)
    requires
        pos + 5 <= old(buf_out).len(),
    ensures
        final(buf_out)@.len() == old(buf_out)@.len(),
        final(buf_out)@.subrange(pos as int, pos + 5) == spec_encode_u32_common(i, field),
        forall|k: int|
            0 <= k < old(buf_out)@.len() && !(pos <= k < pos + 5)
                ==> final(buf_out)@[k] == old(buf_out)@[k],
{
    proof {
        assert(field & 0x0F < 0x10) by (bit_vector);
    }
    buf_out.set(pos, 0x20 + (field & 0x0F));
    buf_out.set(pos + 1, ((i >> 24) & 0xFF) as u8);
    buf_out.set(pos + 2, ((i >> 16) & 0xFF) as u8);
    buf_out.set(pos + 3, ((i >> 8) & 0xFF) as u8);
    buf_out.set(pos + 4, (i & 0xFF) as u8);
    proof {
        assert(buf_out@.subrange(pos as int, pos + 5) =~= spec_encode_u32_common(i, field));
    }
}

/// Writes an uncommon unsigned 32-bit integer field at `pos`.
pub fn encode_u32_uncommon(buf_out: &mut Vec<u8>, pos: usize, i: u32, field: u8)
    requires
        pos + 6 <= old(buf_out).len(),
    ensures
        final(buf_out)@.len() == old(buf_out)@.len(),
        final(buf_out)@.subrange(pos as int, pos + 6) == spec_encode_u32_uncommon(i, field),
        forall|k: int|
            0 <= k < old(buf_out)@.len() && !(pos <= k < pos + 6)
                ==> final(buf_out)@[k] == old(buf_out)@[k],
{
    buf_out.set(pos, 0x20);
    buf_out.set(pos + 1, field);
    buf_out.set(pos + 2, ((i >> 24) & 0xFF) as u8);
    buf_out.set(pos + 3, ((i >> 16) & 0xFF) as u8);
    buf_out.set(pos + 4, ((i >> 8) & 0xFF) as u8);
    buf_out.set(pos + 5, (i & 0xFF) as u8);
    proof {
        assert(buf_out@.subrange(pos as int, pos + 6) =~= spec_encode_u32_uncommon(i, field));
    }
}

/// Writes a native-currency amount field at `pos`.
pub fn encode_drops(buf_out: &mut Vec<u8>, pos: usize, drops: u64, amount_type: AmountType)
    requires
        pos + 9 <= old(buf_out).len(),
    ensures
        final(buf_out)@.len() == old(buf_out)@.len(),
        final(buf_out)@.subrange(pos as int, pos + 9) == spec_encode_drops(drops, amount_type),
        forall|k: int|
            0 <= k < old(buf_out)@.len() && !(pos <= k < pos + 9)
                ==> final(buf_out)@[k] == old(buf_out)@[k],
{
    let code = amount_type_code(amount_type);
    proof {
        assert(code & 0x0F < 0x10) by (bit_vector);
        assert((drops >> 56) & 0b0011_1111 <= 0b0011_1111) by (bit_vector);
    }
    buf_out.set(pos, 0x60 + (code & 0x0F));
    buf_out.set(pos + 1, (0b0100_0000u64 + ((drops >> 56) & 0b0011_1111)) as u8);
    buf_out.set(pos + 2, ((drops >> 48) & 0xFF) as u8);
    buf_out.set(pos + 3, ((drops >> 40) & 0xFF) as u8);
    buf_out.set(pos + 4, ((drops >> 32) & 0xFF) as u8);
    buf_out.set(pos + 5, ((drops >> 24) & 0xFF) as u8);
    buf_out.set(pos + 6, ((drops >> 16) & 0xFF) as u8);
    buf_out.set(pos + 7, ((drops >> 8) & 0xFF) as u8);
    buf_out.set(pos + 8, (drops & 0xFF) as u8);
    proof {
        assert(buf_out@.subrange(pos as int, pos + 9) =~= spec_encode_drops(drops, amount_type));
    }
}

/// Writes a null signing-public-key field at `pos`.
pub fn encode_signing_pubkey_null(buf_out: &mut Vec<u8>, pos: usize)
    requires
        pos + 35 <= old(buf_out).len(),
    ensures
        final(buf_out)@.len() == old(buf_out)@.len(),
        final(buf_out)@.subrange(pos as int, pos + 35) == spec_encode_signing_pubkey_null(),
        forall|k: int|
            0 <= k < old(buf_out)@.len() && !(pos <= k < pos + 35)
                ==> final(buf_out)@[k] == old(buf_out)@[k],
{
    buf_out.set(pos, 0x73);
    buf_out.set(pos + 1, 0x21);
    let mut i: usize = 0;
    while i < 33
        invariant
            i <= 33,
            pos + 35 <= usize::MAX,
            pos + 35 <= buf_out@.len(),
            buf_out@.len() == old(buf_out)@.len(),
            buf_out@[pos as int] == 0x73u8,
            buf_out@[pos + 1] == 0x21u8,
            forall|j: int| pos + 2 <= j < pos + 2 + i ==> buf_out@[j] == 0u8,
            forall|k: int|
                0 <= k < old(buf_out)@.len() && !(pos <= k < pos + 35)
                    ==> buf_out@[k] == old(buf_out)@[k],
        decreases 33 - i,
    {
        buf_out.set(pos + 2 + i, 0);
        i = i + 1;
    }
    proof {
        assert(buf_out@.subrange(pos as int, pos + 35) =~= spec_encode_signing_pubkey_null());
    }
}

/// Writes an account-id field at `pos`.
pub fn encode_account(
    buf_out: &mut Vec<u8>,
    pos: usize,
    account_id: &Vec<u8>,
    account_type: AccountType,
)
    requires
        pos + 22 <= old(buf_out).len(),
        account_id.len() == 20,
    ensures
        final(buf_out)@.len() == old(buf_out)@.len(),
        final(buf_out)@.subrange(pos as int, pos + 22) == spec_encode_account(
            account_id@,
            account_type,
        ),
        forall|k: int|
            0 <= k < old(buf_out)@.len() && !(pos <= k < pos + 22)
                ==> final(buf_out)@[k] == old(buf_out)@[k],
{
    let code = account_type_code(account_type);
    buf_out.set(pos, 0x80 + code);
    buf_out.set(pos + 1, 0x14);
    let mut i: usize = 0;
    while i < 20
        invariant
            i <= 20,
            pos + 22 <= usize::MAX,
            pos + 22 <= buf_out@.len(),
            account_id@.len() == 20,
            buf_out@.len() == old(buf_out)@.len(),
            buf_out@[pos as int] == (0x80 + spec_account_type_code(account_type)) as u8,
            buf_out@[pos + 1] == 0x14u8,
            forall|j: int| pos + 2 <= j < pos + 2 + i ==> buf_out@[j] == account_id@[j - pos - 2],
            forall|k: int|
                0 <= k < old(buf_out)@.len() && !(pos <= k < pos + 22)
                    ==> buf_out@[k] == old(buf_out)@[k],
        decreases 20 - i,
    {
        buf_out.set(pos + 2 + i, account_id[i]);
        i = i + 1;
    }
    proof {
        assert(buf_out@.subrange(pos as int, pos + 22) =~= spec_encode_account(
            account_id@,
            account_type,
        ));
    }
}

/// Writes the canonical-order flags field (a common integer field with field
/// code 2) at `pos`.
pub fn encode_flags(buf_out: &mut Vec<u8>, pos: usize, flags: u32)
    requires
        pos + 5 <= old(buf_out).len(),
    ensures
        final(buf_out)@.len() == old(buf_out)@.len(),
        final(buf_out)@.subrange(pos as int, pos + 5) == spec_encode_u32_common(flags, 0x2),
        forall|k: int|
            0 <= k < old(buf_out)@.len() && !(pos <= k < pos + 5)
                ==> final(buf_out)@[k] == old(buf_out)@[k],
{
    encode_u32_common(buf_out, pos, flags, 0x2)
}

/// Writes the source-tag field (a common integer field with field code 3) at
/// `pos`.
pub fn encode_tag_src(buf_out: &mut Vec<u8>, pos: usize, tag: u32)
    requires
        pos + 5 <= old(buf_out).len(),
    ensures
        final(buf_out)@.len() == old(buf_out)@.len(),
        final(buf_out)@.subrange(pos as int, pos + 5) == spec_encode_u32_common(tag, 0x3),
        forall|k: int|
            0 <= k < old(buf_out)@.len() && !(pos <= k < pos + 5)
                ==> final(buf_out)@[k] == old(buf_out)@[k],
{
    encode_u32_common(buf_out, pos, tag, 0x3)
}

/// Writes the sequence field (a common integer field with field code 4) at
/// `pos`.
pub fn encode_sequence(buf_out: &mut Vec<u8>, pos: usize, sequence: u32)
    requires
        pos + 5 <= old(buf_out).len(),
    ensures
        final(buf_out)@.len() == old(buf_out)@.len(),
        final(buf_out)@.subrange(pos as int, pos + 5) == spec_encode_u32_common(sequence, 0x4),
        forall|k: int|
            0 <= k < old(buf_out)@.len() && !(pos <= k < pos + 5)
                ==> final(buf_out)@[k] == old(buf_out)@[k],
{
    encode_u32_common(buf_out, pos, sequence, 0x4)
}

/// Writes the destination-tag field (a common integer field with field code
/// 14) at `pos`.
pub fn encode_tag_dst(buf_out: &mut Vec<u8>, pos: usize, tag: u32)
    requires
        pos + 5 <= old(buf_out).len(),
    ensures
        final(buf_out)@.len() == old(buf_out)@.len(),
        final(buf_out)@.subrange(pos as int, pos + 5) == spec_encode_u32_common(tag, 0xE),
        forall|k: int|
            0 <= k < old(buf_out)@.len() && !(pos <= k < pos + 5)
                ==> final(buf_out)@[k] == old(buf_out)@[k],
{
    encode_u32_common(buf_out, pos, tag, 0xE)
}

/// Writes the first-valid-ledger-sequence field (an uncommon integer field
/// with field code 26) at `pos`.
pub fn encode_fls(buf_out: &mut Vec<u8>, pos: usize, fls: u32)
    requires
        pos + 6 <= old(buf_out).len(),
    ensures
        final(buf_out)@.len() == old(buf_out)@.len(),
        final(buf_out)@.subrange(pos as int, pos + 6) == spec_encode_u32_uncommon(fls, 0x1A),
        forall|k: int|
            0 <= k < old(buf_out)@.len() && !(pos <= k < pos + 6)
                ==> final(buf_out)@[k] == old(buf_out)@[k],
{
    encode_u32_uncommon(buf_out, pos, fls, 0x1A)
}

/// Writes the last-valid-ledger-sequence field (an uncommon integer field
/// with field code 27) at `pos`.
pub fn encode_lls(buf_out: &mut Vec<u8>, pos: usize, lls: u32)
    requires
        pos + 6 <= old(buf_out).len(),
    ensures
        final(buf_out)@.len() == old(buf_out)@.len(),
        final(buf_out)@.subrange(pos as int, pos + 6) == spec_encode_u32_uncommon(lls, 0x1B),
        forall|k: int|
            0 <= k < old(buf_out)@.len() && !(pos <= k < pos + 6)
                ==> final(buf_out)@[k] == old(buf_out)@[k],
{
    encode_u32_uncommon(buf_out, pos, lls, 0x1B)
}

/// Writes the payment-amount field (a native amount in the Amount role) at
/// `pos`.
pub fn encode_drops_amount(buf_out: &mut Vec<u8>, pos: usize, drops: u64)
    requires
        pos + 9 <= old(buf_out).len(),
    ensures
        final(buf_out)@.len() == old(buf_out)@.len(),
        final(buf_out)@.subrange(pos as int, pos + 9) == spec_encode_drops(
            drops,
            AmountType::Amount,
        ),
        forall|k: int|
            0 <= k < old(buf_out)@.len() && !(pos <= k < pos + 9)
                ==> final(buf_out)@[k] == old(buf_out)@[k],
{
    encode_drops(buf_out, pos, drops, AmountType::Amount)
}

/// Writes the fee field (a native amount in the Fee role) at `pos`.
pub fn encode_drops_fee(buf_out: &mut Vec<u8>, pos: usize, drops: u64)
    requires
        pos + 9 <= old(buf_out).len(),
    ensures
        final(buf_out)@.len() == old(buf_out)@.len(),
        final(buf_out)@.subrange(pos as int, pos + 9) == spec_encode_drops(drops, AmountType::Fee),
        forall|k: int|
            0 <= k < old(buf_out)@.len() && !(pos <= k < pos + 9)
                ==> final(buf_out)@[k] == old(buf_out)@[k],
{
    encode_drops(buf_out, pos, drops, AmountType::Fee)
}

/// Writes the source-account field (an account id in the Account role) at
/// `pos`.
pub fn encode_account_src(buf_out: &mut Vec<u8>, pos: usize, account_id: &Vec<u8>)
    requires
        pos + 22 <= old(buf_out).len(),
        account_id.len() == 20,
    ensures
        final(buf_out)@.len() == old(buf_out)@.len(),
        final(buf_out)@.subrange(pos as int, pos + 22) == spec_encode_account(
            account_id@,
            AccountType::Account,
        ),
        forall|k: int|
            0 <= k < old(buf_out)@.len() && !(pos <= k < pos + 22)
                ==> final(buf_out)@[k] == old(buf_out)@[k],
{
    encode_account(buf_out, pos, account_id, AccountType::Account)
}

/// Writes the destination-account field (an account id in the Destination
/// role) at `pos`.
pub fn encode_account_dst(buf_out: &mut Vec<u8>, pos: usize, account_id: &Vec<u8>)
    requires
        pos + 22 <= old(buf_out).len(),
        account_id.len() == 20,
    ensures
        final(buf_out)@.len() == old(buf_out)@.len(),
        final(buf_out)@.subrange(pos as int, pos + 22) == spec_encode_account(
            account_id@,
            AccountType::Destination,
        ),
        forall|k: int|
            0 <= k < old(buf_out)@.len() && !(pos <= k < pos + 22)
                ==> final(buf_out)@[k] == old(buf_out)@[k],
{
    encode_account(buf_out, pos, account_id, AccountType::Destination)
}

/// Law: encoding a 20-byte account id is length-exact and loses nothing. The
/// encoding is exactly 22 bytes, `0x80 | role` then `0x14` then the id
/// verbatim, so reading those ranges back recovers both the id and the role.
pub proof fn lemma_encode_account_round_trip(id: Seq<u8>, t: AccountType)
    requires
        id.len() == 20,
    ensures
        spec_encode_account(id, t).len() == 22,
        spec_encode_account(id, t)[0] == 0x80 + spec_account_type_code(t),
        spec_encode_account(id, t)[1] == 0x14,
        spec_encode_account(id, t).subrange(2, 22) == id,
        spec_encode_account(id, t)[0] - 0x80 == spec_account_type_code(t),
{
    assert(spec_encode_account(id, t).subrange(2, 22) =~= id);
}

/// Law: a native-currency amount field is exactly 9 bytes for every role,
/// and bit 6 of its first payload byte is set whatever the drops value.
pub proof fn lemma_native_amount_marker(drops: u64, t: AmountType)
    ensures
        spec_encode_drops(drops, t).len() == 9,
        spec_encode_drops(drops, t)[1] & 0x40 == 0x40,
{
    let b1 = (0b0100_0000 + ((drops >> 56) & 0b0011_1111)) as u8;
    assert(((0b0100_0000 + ((drops >> 56) & 0b0011_1111)) as u8) & 0x40 == 0x40) by (bit_vector);
    assert(spec_encode_drops(drops, t)[1] == b1);
}

} // verus!
