//! The canonical simple-Payment transaction assembler.
//!
//! A minimal canonical Payment transaction is a fixed 237-byte buffer laid
//! out as a strict sequence of disjoint ranges, each owned by exactly one
//! encoder step. Two of its inputs come from the host before assembly (the
//! executing account id and the current ledger sequence) and one after the
//! fields (the opaque emission-detail block); the embedding fetches those
//! three and aborts the whole attempt if any fetch fails, so this assembler
//! only ever runs on complete inputs and fills the buffer in full.

use vstd::prelude::*;
use vstd::pervasive::VecAdditionalExecFns;
use crate::encode::{
    encode_account_dst, encode_account_src, encode_drops_amount, encode_drops_fee, encode_flags,
    encode_fls, encode_lls, encode_sequence, encode_signing_pubkey_null, encode_tag_dst,
    encode_tag_src, encode_tt, spec_encode_account, spec_encode_drops,
    spec_encode_signing_pubkey_null, spec_encode_tt, spec_encode_u32_common,
    spec_encode_u32_uncommon,
};
use crate::fields::{AccountType, AmountType, TxnType, PREPARE_PAYMENT_SIMPLE_SIZE, TF_CANONICAL};

verus! {

/// Copies a whole buffer into the byte range of `buf_out` starting at `pos`.
pub fn write_buf(buf_out: &mut Vec<u8>, pos: usize, src: &Vec<u8>)
    requires
        pos + src.len() <= old(buf_out).len(),
    ensures
        final(buf_out)@.len() == old(buf_out)@.len(),
        final(buf_out)@.subrange(pos as int, pos + src.len()) == src@,
        forall|k: int|
            0 <= k < old(buf_out)@.len() && !(pos <= k < pos + src.len())
                ==> final(buf_out)@[k] == old(buf_out)@[k],
{
    let mut i: usize = 0;
    while i < src.len()
        invariant
            i <= src@.len(),
            pos + src@.len() <= usize::MAX,
            pos + src@.len() <= buf_out@.len(),
            buf_out@.len() == old(buf_out)@.len(),
            forall|j: int| pos <= j < pos + i ==> buf_out@[j] == src@[j - pos],
            forall|k: int|
                0 <= k < old(buf_out)@.len() && !(pos <= k < pos + src@.len())
                    ==> buf_out@[k] == old(buf_out)@[k],
        decreases src@.len() - i,
    {
        buf_out.set(pos + i, src[i]);
        i = i + 1;
    }
    proof {
        assert(buf_out@.subrange(pos as int, pos + src@.len()) =~= src@);
    }
}

/// Assembles a minimal canonical Payment transaction.
///
/// Writes, in this order, into the buffer's fixed disjoint ranges: the
/// transaction type (Payment), the flags (canonical order only), the source
/// tag, the sequence (fixed to zero: this helper does not resolve the
/// account's real next sequence, a documented simplification), the
/// destination tag, the first and last valid ledger sequences (the current
/// one plus one and plus five), the amount and fee in drops, a null signing
/// public key, the source and destination accounts, and the host-computed
/// emission-detail block. The contract pins every byte of the result.
pub fn prepare_payment_simple(
    buf_out: &mut Vec<u8>,
    drops_amount: u64,
    drops_fee: u64,
    to_address: &Vec<u8>,
    dest_tag: u32,
    src_tag: u32,
    hook_acc_id: &Vec<u8>,
    current_ledger_seq: u32,
    emit_details: &Vec<u8>,
)
    requires
        old(buf_out).len() == PREPARE_PAYMENT_SIMPLE_SIZE,
        to_address.len() == 20,
        hook_acc_id.len() == 20,
        emit_details.len() == 105,
        current_ledger_seq + 5 <= u32::MAX,
    ensures
        final(buf_out)@.len() == PREPARE_PAYMENT_SIMPLE_SIZE,
        final(buf_out)@.subrange(0, 3) == spec_encode_tt(TxnType::Payment),
        final(buf_out)@.subrange(3, 8) == spec_encode_u32_common(TF_CANONICAL, 0x2),
        final(buf_out)@.subrange(8, 13) == spec_encode_u32_common(src_tag, 0x3),
        final(buf_out)@.subrange(13, 18) == spec_encode_u32_common(0, 0x4),
        final(buf_out)@.subrange(18, 23) == spec_encode_u32_common(dest_tag, 0xE),
        final(buf_out)@.subrange(23, 29) == spec_encode_u32_uncommon(
            (current_ledger_seq + 1) as u32,
            0x1A,
        ),
        final(buf_out)@.subrange(29, 35) == spec_encode_u32_uncommon(
            (current_ledger_seq + 5) as u32,
            0x1B,
        ),
        final(buf_out)@.subrange(35, 44) == spec_encode_drops(drops_amount, AmountType::Amount),
        final(buf_out)@.subrange(44, 53) == spec_encode_drops(drops_fee, AmountType::Fee),
        final(buf_out)@.subrange(53, 88) == spec_encode_signing_pubkey_null(),
        final(buf_out)@.subrange(88, 110) == spec_encode_account(
            hook_acc_id@,
            AccountType::Account,
        ),
        final(buf_out)@.subrange(110, 132) == spec_encode_account(
            to_address@,
            AccountType::Destination,
        ),
        final(buf_out)@.subrange(132, 237) == emit_details@,
{
    encode_tt(buf_out, 0, TxnType::Payment);
    encode_flags(buf_out, 3, TF_CANONICAL);
    encode_tag_src(buf_out, 8, src_tag);
    encode_sequence(buf_out, 13, 0);
    encode_tag_dst(buf_out, 18, dest_tag);
    encode_fls(buf_out, 23, current_ledger_seq + 1);
    encode_lls(buf_out, 29, current_ledger_seq + 5);
    encode_drops_amount(buf_out, 35, drops_amount);
    encode_drops_fee(buf_out, 44, drops_fee);
    encode_signing_pubkey_null(buf_out, 53);
    encode_account_src(buf_out, 88, hook_acc_id);
    encode_account_dst(buf_out, 110, to_address);
    write_buf(buf_out, 132, emit_details);
    proof {
        assert(buf_out@.subrange(0, 3) =~= spec_encode_tt(TxnType::Payment));
        assert(buf_out@.subrange(3, 8) =~= spec_encode_u32_common(TF_CANONICAL, 0x2));
        assert(buf_out@.subrange(8, 13) =~= spec_encode_u32_common(src_tag, 0x3));
        assert(buf_out@.subrange(13, 18) =~= spec_encode_u32_common(0, 0x4));
        assert(buf_out@.subrange(18, 23) =~= spec_encode_u32_common(dest_tag, 0xE));
        assert(buf_out@.subrange(23, 29) =~= spec_encode_u32_uncommon(
            (current_ledger_seq + 1) as u32,
            0x1A,
        ));
        assert(buf_out@.subrange(29, 35) =~= spec_encode_u32_uncommon(
            (current_ledger_seq + 5) as u32,
            0x1B,
        ));
        assert(buf_out@.subrange(35, 44) =~= spec_encode_drops(drops_amount, AmountType::Amount));
        assert(buf_out@.subrange(44, 53) =~= spec_encode_drops(drops_fee, AmountType::Fee));
        assert(buf_out@.subrange(53, 88) =~= spec_encode_signing_pubkey_null());
        assert(buf_out@.subrange(88, 110) =~= spec_encode_account(
            hook_acc_id@,
            AccountType::Account,
        ));
        assert(buf_out@.subrange(110, 132) =~= spec_encode_account(
            to_address@,
            AccountType::Destination,
        ));
        assert(buf_out@.subrange(132, 237) =~= emit_details@);
    }
}

} // verus!
