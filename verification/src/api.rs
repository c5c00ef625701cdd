//! The boundary-call vocabulary.
//!
//! Each function here marshals one host call's typed arguments into a
//! [`HostCall`] value, or interprets the signed status a call came back
//! with. The unverified embedding performs the raw call in between: it lays
//! the buffers out as pointer-and-length pairs, passes the integers, and
//! returns the host's signed 64-bit status unchanged.
//!
//! A field lookup composes three of these: [`sto_subfield`] (or
//! [`sto_subarray`]) names the call, the embedding runs it, and
//! [`sto_located`] either maps a negative status to its error kind — never
//! decoding it as a location — or unpacks the location and returns the bytes
//! it denotes.

use vstd::prelude::*;
use crate::error::{error_from_code, spec_error_code, valid_error_code, Error};
use crate::fields::{field_code, spec_field_code, FieldId};
use crate::helpers::copy_buf;
use crate::host::{HostArgs, HostCall, HostFn};
use crate::location::{range_from_location, spec_loc_len, spec_loc_start};

verus! {

/// Interpretation of a status as a yes-or-no answer: one means yes and every
/// other status, failures included, means no.
pub fn bool_result(res: i64) -> (b: bool)
    ensures
        b == (res == 1),
{
    res == 1
}

/// The bytes a successful lookup located inside `sto`, or the failure kind a
/// negative status names.
///
/// A negative status is propagated as its error kind and never decoded as a
/// location. A non-negative one is unpacked into a byte range of `sto`; the
/// host warrants that the range lies inside the object it searched, so a
/// range that leaves the buffer is a boundary-contract breach the caller
/// rules out before decoding.
pub fn sto_located(sto: &Vec<u8>, res: i64) -> (r: Result<Vec<u8>, Error>)
    requires
        res >= 0 ==> spec_loc_start(res) + spec_loc_len(res) <= sto@.len(),
        res < 0 ==> valid_error_code(res as int),
    ensures
        res < 0 ==> (r matches Err(e) && spec_error_code(e) == res as int),
        res >= 0 ==> (r matches Ok(sub) && sub@ == sto@.subrange(
            spec_loc_start(res) as int,
            spec_loc_start(res) + spec_loc_len(res),
        )),
{
    if res < 0 {
        return Err(error_from_code(res));
    }
    let range = range_from_location(res);
    let total: usize = sto.len();
    let start: usize = range.start as usize;
    let end: usize = range.end as usize;
    let mut out: Vec<u8> = Vec::new();
    proof {
        assert(out@ =~= sto@.subrange(start as int, start as int));
    }
    let mut i: usize = start;
    while i < end
        invariant
            start <= i <= end,
            end <= sto@.len(),
            out@ == sto@.subrange(start as int, i as int),
        decreases end - i,
    {
        out.push(sto[i]);
        i = i + 1;
        proof {
            assert(out@ =~= sto@.subrange(start as int, i as int));
        }
    }
    Ok(out)
}

/// Marshals the call converting a 20-byte account id to an r-address.
pub fn util_raddr(raddr_out_len: usize, accid: &Vec<u8>) -> (c: HostCall)
    ensures
        c.func == HostFn::UtilRaddr,
        (c.args matches HostArgs::BufWriteRead { len, data } && len == raddr_out_len && data@
            == accid@),
{
    HostCall {
        func: HostFn::UtilRaddr,
        args: HostArgs::BufWriteRead { len: raddr_out_len, data: copy_buf(accid) },
    }
}

/// Marshals the call converting an r-address to a 20-byte account id.
pub fn util_accid(accid_out_len: usize, raddr_in: &Vec<u8>) -> (c: HostCall)
    ensures
        c.func == HostFn::UtilAccid,
        (c.args matches HostArgs::BufWriteRead { len, data } && len == accid_out_len && data@
            == raddr_in@),
{
    HostCall {
        func: HostFn::UtilAccid,
        args: HostArgs::BufWriteRead { len: accid_out_len, data: copy_buf(raddr_in) },
    }
}

/// Marshals the signature-verification call; its status reads back through
/// [`bool_result`].
pub fn util_verify(payload: &Vec<u8>, signature: &Vec<u8>, publickey: &Vec<u8>) -> (c: HostCall)
    ensures
        c.func == HostFn::UtilVerify,
        (c.args matches HostArgs::Buf3Read { data_1, data_2, data_3 } && data_1@ == payload@
            && data_2@ == signature@ && data_3@ == publickey@),
{
    HostCall {
        func: HostFn::UtilVerify,
        args: HostArgs::Buf3Read {
            data_1: copy_buf(payload),
            data_2: copy_buf(signature),
            data_3: copy_buf(publickey),
        },
    }
}

/// Marshals the sha512-half digest call.
pub fn util_sha512h(hash_out_len: usize, data_in: &Vec<u8>) -> (c: HostCall)
    ensures
        c.func == HostFn::UtilSha512h,
        (c.args matches HostArgs::BufWriteRead { len, data } && len == hash_out_len && data@
            == data_in@),
{
    HostCall {
        func: HostFn::UtilSha512h,
        args: HostArgs::BufWriteRead { len: hash_out_len, data: copy_buf(data_in) },
    }
}

/// Marshals the lookup of one field inside a serialized object; the status
/// reads back through [`sto_located`].
pub fn sto_subfield(sto: &Vec<u8>, field_id: FieldId) -> (c: HostCall)
    ensures
        c.func == HostFn::StoSubfield,
        (c.args matches HostArgs::BufRead1Arg { data, arg } && data@ == sto@ && arg
            == spec_field_code(field_id)),
{
    HostCall {
        func: HostFn::StoSubfield,
        args: HostArgs::BufRead1Arg { data: copy_buf(sto), arg: field_code(field_id) },
    }
}

/// Marshals the lookup of one entry inside a serialized array; the status
/// reads back through [`sto_located`].
pub fn sto_subarray(sto: &Vec<u8>, array_id: u32) -> (c: HostCall)
    ensures
        c.func == HostFn::StoSubarray,
        (c.args matches HostArgs::BufRead1Arg { data, arg } && data@ == sto@ && arg == array_id),
{
    HostCall {
        func: HostFn::StoSubarray,
        args: HostArgs::BufRead1Arg { data: copy_buf(sto), arg: array_id },
    }
}

/// Marshals the call emplacing a field into a serialized object at its
/// canonical place.
pub fn sto_emplace(
    sto_out_len: usize,
    sto_src: &Vec<u8>,
    field: &Vec<u8>,
    field_id: FieldId,
) -> (c: HostCall)
    ensures
        c.func == HostFn::StoEmplace,
        (c.args matches HostArgs::BufWrite2Read1Arg { len, data_1, data_2, arg } && len
            == sto_out_len && data_1@ == sto_src@ && data_2@ == field@ && arg == spec_field_code(
            field_id,
        )),
{
    HostCall {
        func: HostFn::StoEmplace,
        args: HostArgs::BufWrite2Read1Arg {
            len: sto_out_len,
            data_1: copy_buf(sto_src),
            data_2: copy_buf(field),
            arg: field_code(field_id),
        },
    }
}

/// Marshals the call erasing a field from a serialized object.
pub fn sto_erase(sto_out_len: usize, sto_src: &Vec<u8>, field_id: FieldId) -> (c: HostCall)
    ensures
        c.func == HostFn::StoErase,
        (c.args matches HostArgs::BufWriteRead1Arg { len, data, arg } && len == sto_out_len
            && data@ == sto_src@ && arg == spec_field_code(field_id)),
{
    HostCall {
        func: HostFn::StoErase,
        args: HostArgs::BufWriteRead1Arg {
            len: sto_out_len,
            data: copy_buf(sto_src),
            arg: field_code(field_id),
        },
    }
}

/// Marshals the call validating a serialized object; the status reads back
/// through [`bool_result`].
pub fn sto_validate(sto: &Vec<u8>) -> (c: HostCall)
    ensures
        c.func == HostFn::StoValidate,
        (c.args matches HostArgs::BufRead { data } && data@ == sto@),
{
    HostCall { func: HostFn::StoValidate, args: HostArgs::BufRead { data: copy_buf(sto) } }
}

/// Marshals the call producing the emission-detail block.
pub fn etxn_details(emitdet_len: usize) -> (c: HostCall)
    ensures
        c.func == HostFn::EtxnDetails,
        (c.args matches HostArgs::BufWrite { len } && len == emitdet_len),
{
    HostCall { func: HostFn::EtxnDetails, args: HostArgs::BufWrite { len: emitdet_len } }
}

/// Marshals the fee estimate for emitting a transaction of the given size.
pub fn etxn_fee_base(tx_byte_count: u32) -> (c: HostCall)
    ensures
        c.func == HostFn::EtxnFeeBase,
        (c.args matches HostArgs::OneArg { a } && a == tx_byte_count),
{
    HostCall { func: HostFn::EtxnFeeBase, args: HostArgs::OneArg { a: tx_byte_count } }
}

/// Marshals the declaration of how many transactions this execution intends
/// to emit.
pub fn etxn_reserve(count: u32) -> (c: HostCall)
    ensures
        c.func == HostFn::EtxnReserve,
        (c.args matches HostArgs::OneArg { a } && a == count),
{
    HostCall { func: HostFn::EtxnReserve, args: HostArgs::OneArg { a: count } }
}

/// Marshals the call emitting a prepared transaction; the host writes the
/// emitted transaction's hash into the output buffer.
pub fn emit(hash_len: usize, tx_buf: &Vec<u8>) -> (c: HostCall)
    ensures
        c.func == HostFn::Emit,
        (c.args matches HostArgs::BufWriteRead { len, data } && len == hash_len && data@
            == tx_buf@),
{
    HostCall {
        func: HostFn::Emit,
        args: HostArgs::BufWriteRead { len: hash_len, data: copy_buf(tx_buf) },
    }
}

/// Marshals the query for the executing account's 20-byte id.
pub fn hook_account(accid_len: usize) -> (c: HostCall)
    ensures
        c.func == HostFn::HookAccount,
        (c.args matches HostArgs::BufWrite { len } && len == accid_len),
{
    HostCall { func: HostFn::HookAccount, args: HostArgs::BufWrite { len: accid_len } }
}

/// Marshals the query for the executing hook's 32-byte hash.
pub fn hook_hash(hash_len: usize) -> (c: HostCall)
    ensures
        c.func == HostFn::HookHash,
        (c.args matches HostArgs::BufWrite { len } && len == hash_len),
{
    HostCall { func: HostFn::HookHash, args: HostArgs::BufWrite { len: hash_len } }
}

/// Marshals the query for the last closed ledger's 32-byte hash.
pub fn ledger_last_hash(hash_len: usize) -> (c: HostCall)
    ensures
        c.func == HostFn::LedgerLastHash,
        (c.args matches HostArgs::BufWrite { len } && len == hash_len),
{
    HostCall { func: HostFn::LedgerLastHash, args: HostArgs::BufWrite { len: hash_len } }
}

/// Marshals the draw of a 32-byte nonce.
pub fn nonce(n_len: usize) -> (c: HostCall)
    ensures
        c.func == HostFn::Nonce,
        (c.args matches HostArgs::BufWrite { len } && len == n_len),
{
    HostCall { func: HostFn::Nonce, args: HostArgs::BufWrite { len: n_len } }
}

/// Marshals the call serializing a slotted object into a buffer.
pub fn slot(slotted_obj_len: usize, slot_no: u32) -> (c: HostCall)
    ensures
        c.func == HostFn::Slot,
        (c.args matches HostArgs::BufWrite1Arg { len, arg } && len == slotted_obj_len && arg
            == slot_no),
{
    HostCall {
        func: HostFn::Slot,
        args: HostArgs::BufWrite1Arg { len: slotted_obj_len, arg: slot_no },
    }
}

/// Marshals the call freeing a slot.
pub fn slot_clear(slot_no: u32) -> (c: HostCall)
    ensures
        c.func == HostFn::SlotClear,
        (c.args matches HostArgs::OneArg { a } && a == slot_no),
{
    HostCall { func: HostFn::SlotClear, args: HostArgs::OneArg { a: slot_no } }
}

/// Marshals the count of entries of a slotted array.
pub fn slot_count(slot_no: u32) -> (c: HostCall)
    ensures
        c.func == HostFn::SlotCount,
        (c.args matches HostArgs::OneArg { a } && a == slot_no),
{
    HostCall { func: HostFn::SlotCount, args: HostArgs::OneArg { a: slot_no } }
}

/// Marshals the query for a slotted object's key.
pub fn slot_id(slot_no: u32) -> (c: HostCall)
    ensures
        c.func == HostFn::SlotId,
        (c.args matches HostArgs::OneArg { a } && a == slot_no),
{
    HostCall { func: HostFn::SlotId, args: HostArgs::OneArg { a: slot_no } }
}

/// Marshals the call looking an object up by keylet and slotting it.
pub fn slot_set(keylet: &Vec<u8>, slot_no: i32) -> (c: HostCall)
    ensures
        c.func == HostFn::SlotSet,
        (c.args matches HostArgs::BufReadSlot { data, slot_no: s } && data@ == keylet@ && s
            == slot_no),
{
    HostCall {
        func: HostFn::SlotSet,
        args: HostArgs::BufReadSlot { data: copy_buf(keylet), slot_no },
    }
}

/// Marshals the query for a slotted object's serialized size.
pub fn slot_size(slot_no: u32) -> (c: HostCall)
    ensures
        c.func == HostFn::SlotSize,
        (c.args matches HostArgs::OneArg { a } && a == slot_no),
{
    HostCall { func: HostFn::SlotSize, args: HostArgs::OneArg { a: slot_no } }
}

/// Marshals the call slotting one entry of a slotted array.
pub fn slot_subarray(parent_slot: u32, array_id: u32, new_slot: u32) -> (c: HostCall)
    ensures
        c.func == HostFn::SlotSubarray,
        (c.args matches HostArgs::ThreeArgs { a, b, c: nc } && a == parent_slot && b == array_id
            && nc == new_slot),
{
    HostCall {
        func: HostFn::SlotSubarray,
        args: HostArgs::ThreeArgs { a: parent_slot, b: array_id, c: new_slot },
    }
}

/// Marshals the call slotting one field of a slotted object.
pub fn slot_subfield(parent_slot: u32, field_id: FieldId, new_slot: u32) -> (c: HostCall)
    ensures
        c.func == HostFn::SlotSubfield,
        (c.args matches HostArgs::ThreeArgs { a, b, c: nc } && a == parent_slot && b
            == spec_field_code(field_id) && nc == new_slot),
{
    HostCall {
        func: HostFn::SlotSubfield,
        args: HostArgs::ThreeArgs { a: parent_slot, b: field_code(field_id), c: new_slot },
    }
}

/// Marshals the read of the hook-state value under a key.
pub fn state(data_len: usize, key: &Vec<u8>) -> (c: HostCall)
    ensures
        c.func == HostFn::State,
        (c.args matches HostArgs::BufWriteRead { len, data } && len == data_len && data@ == key@),
{
    HostCall { func: HostFn::State, args: HostArgs::BufWriteRead { len: data_len, data: copy_buf(key) } }
}

/// Marshals the write of a hook-state value under a key.
pub fn state_set(data: &Vec<u8>, key: &Vec<u8>) -> (c: HostCall)
    ensures
        c.func == HostFn::StateSet,
        (c.args matches HostArgs::Buf2Read { data_1, data_2 } && data_1@ == data@ && data_2@
            == key@),
{
    HostCall {
        func: HostFn::StateSet,
        args: HostArgs::Buf2Read { data_1: copy_buf(data), data_2: copy_buf(key) },
    }
}

/// Marshals the read of another account's hook-state value under a key.
pub fn state_foreign(data_len: usize, key: &Vec<u8>, accid: &Vec<u8>) -> (c: HostCall)
    ensures
        c.func == HostFn::StateForeign,
        (c.args matches HostArgs::BufWrite2Read { len, data_1, data_2 } && len == data_len
            && data_1@ == key@ && data_2@ == accid@),
{
    HostCall {
        func: HostFn::StateForeign,
        args: HostArgs::BufWrite2Read {
            len: data_len,
            data_1: copy_buf(key),
            data_2: copy_buf(accid),
        },
    }
}

/// Marshals the serialization of one field of the originating transaction.
pub fn otxn_field(out_len: usize, field_id: FieldId) -> (c: HostCall)
    ensures
        c.func == HostFn::OtxnField,
        (c.args matches HostArgs::BufWrite1Arg { len, arg } && len == out_len && arg
            == spec_field_code(field_id)),
{
    HostCall {
        func: HostFn::OtxnField,
        args: HostArgs::BufWrite1Arg { len: out_len, arg: field_code(field_id) },
    }
}

/// Marshals the text rendering of one field of the originating transaction.
pub fn otxn_field_txt(out_len: usize, field_id: FieldId) -> (c: HostCall)
    ensures
        c.func == HostFn::OtxnFieldTxt,
        (c.args matches HostArgs::BufWrite1Arg { len, arg } && len == out_len && arg
            == spec_field_code(field_id)),
{
    HostCall {
        func: HostFn::OtxnFieldTxt,
        args: HostArgs::BufWrite1Arg { len: out_len, arg: field_code(field_id) },
    }
}

/// Marshals the query for the originating transaction's canonical hash.
pub fn otxn_id(hash_len: usize) -> (c: HostCall)
    ensures
        c.func == HostFn::OtxnId,
        (c.args matches HostArgs::BufWrite { len } && len == hash_len),
{
    HostCall { func: HostFn::OtxnId, args: HostArgs::BufWrite { len: hash_len } }
}

/// Marshals the call loading the originating transaction into a slot.
pub fn otxn_slot(slot_no: u32) -> (c: HostCall)
    ensures
        c.func == HostFn::OtxnSlot,
        (c.args matches HostArgs::OneArg { a } && a == slot_no),
{
    HostCall { func: HostFn::OtxnSlot, args: HostArgs::OneArg { a: slot_no } }
}

} // verus!
