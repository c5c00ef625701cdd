use xrpl_hooks::api::{
    emit, etxn_details, etxn_reserve, hook_account, otxn_field, slot, slot_set, slot_subfield,
    state, state_set, sto_subarray, sto_subfield, util_raddr, util_verify,
};
use xrpl_hooks::error::Error;
use xrpl_hooks::fields::FieldId;
use xrpl_hooks::helpers::{
    amount_to_drops, buffer_zeroize, copy_buf, is_buffer_equal, is_txn_ingoing, is_txn_outgoing,
};
use xrpl_hooks::host::{HostArgs, HostFn};
use xrpl_hooks::xfl::{float_compare, float_sto, XFLCompareMode, XFL};

#[test]
fn buffer_equality_is_exact() {
    assert!(is_buffer_equal(&vec![1, 2, 3], &vec![1, 2, 3]));
    assert!(!is_buffer_equal(&vec![1, 2, 3], &vec![1, 2, 4]));
    assert!(!is_buffer_equal(&vec![1, 2, 3], &vec![1, 2]));
    assert!(is_buffer_equal(&vec![], &vec![]));
}

#[test]
fn zeroize_clears_every_byte() {
    let mut buf = vec![0xFFu8; 7];
    buffer_zeroize(&mut buf);
    assert_eq!(buf, vec![0; 7]);

    let mut empty: Vec<u8> = vec![];
    buffer_zeroize(&mut empty);
    assert!(empty.is_empty());
}

#[test]
fn copying_preserves_bytes() {
    let src = vec![5u8, 6, 7];
    assert_eq!(copy_buf(&src), src);
}

#[test]
fn outgoing_and_ingoing_are_negations() {
    let hook_acc = vec![1u8; 20];
    let same = vec![1u8; 20];
    let other = vec![2u8; 20];
    assert!(is_txn_outgoing(&hook_acc, &same));
    assert!(!is_txn_outgoing(&hook_acc, &other));
    assert!(!is_txn_ingoing(&hook_acc, &same));
    assert!(is_txn_ingoing(&hook_acc, &other));
}

#[test]
fn non_native_amount_is_refused() {
    let mut buf = vec![0u8; 48];
    buf[0] = 0x80;
    assert_eq!(amount_to_drops(&buf), Err(Error::InternalError));
    assert_eq!(Error::InternalError.code(), -2);
}

#[test]
fn native_amount_reads_low_six_bits_of_first_byte() {
    let mut buf = vec![0u8; 48];
    buf[0] = 0x40;
    buf[7] = 9;
    assert_eq!(amount_to_drops(&buf), Ok(9));
}

#[test]
fn write_style_calls_carry_output_length() {
    let c = hook_account(20);
    assert_eq!(c.func, HostFn::HookAccount);
    assert_eq!(c.args, HostArgs::BufWrite { len: 20 });

    let c = etxn_details(105);
    assert_eq!(c.func, HostFn::EtxnDetails);
    assert_eq!(c.args, HostArgs::BufWrite { len: 105 });

    let c = slot(300, 4);
    assert_eq!(c.func, HostFn::Slot);
    assert_eq!(c.args, HostArgs::BufWrite1Arg { len: 300, arg: 4 });
}

#[test]
fn lookup_calls_carry_the_field_code() {
    let sto = vec![0x11u8, 0x00, 0x00];
    let c = sto_subfield(&sto, FieldId::Account);
    assert_eq!(c.func, HostFn::StoSubfield);
    assert_eq!(c.args, HostArgs::BufRead1Arg { data: sto.clone(), arg: 0x8_0001 });

    let c = sto_subarray(&sto, 2);
    assert_eq!(c.func, HostFn::StoSubarray);
    assert_eq!(c.args, HostArgs::BufRead1Arg { data: sto.clone(), arg: 2 });

    let c = otxn_field(20, FieldId::Account);
    assert_eq!(c.func, HostFn::OtxnField);
    assert_eq!(c.args, HostArgs::BufWrite1Arg { len: 20, arg: 0x8_0001 });

    let c = slot_subfield(3, FieldId::Amount, 0);
    assert_eq!(c.func, HostFn::SlotSubfield);
    assert_eq!(c.args, HostArgs::ThreeArgs { a: 3, b: 0x6_0001, c: 0 });
}

#[test]
fn read_style_calls_carry_their_buffers() {
    let data = vec![1u8, 2];
    let key = vec![3u8; 32];
    let c = state_set(&data, &key);
    assert_eq!(c.func, HostFn::StateSet);
    assert_eq!(c.args, HostArgs::Buf2Read { data_1: data.clone(), data_2: key.clone() });

    let c = state(64, &key);
    assert_eq!(c.func, HostFn::State);
    assert_eq!(c.args, HostArgs::BufWriteRead { len: 64, data: key.clone() });

    let accid = vec![7u8; 20];
    let c = util_raddr(40, &accid);
    assert_eq!(c.func, HostFn::UtilRaddr);
    assert_eq!(c.args, HostArgs::BufWriteRead { len: 40, data: accid.clone() });

    let payload = vec![1u8];
    let sig = vec![2u8];
    let pk = vec![3u8];
    let c = util_verify(&payload, &sig, &pk);
    assert_eq!(c.func, HostFn::UtilVerify);
    assert_eq!(
        c.args,
        HostArgs::Buf3Read { data_1: payload, data_2: sig, data_3: pk }
    );

    let txn = vec![0x12u8, 0, 0];
    let c = emit(32, &txn);
    assert_eq!(c.func, HostFn::Emit);
    assert_eq!(c.args, HostArgs::BufWriteRead { len: 32, data: txn });

    let keylet = vec![9u8; 34];
    let c = slot_set(&keylet, 0);
    assert_eq!(c.func, HostFn::SlotSet);
    assert_eq!(c.args, HostArgs::BufReadSlot { data: keylet, slot_no: 0 });

    let c = etxn_reserve(1);
    assert_eq!(c.func, HostFn::EtxnReserve);
    assert_eq!(c.args, HostArgs::OneArg { a: 1 });
}

#[test]
fn float_calls_carry_mode_flags_and_field_codes() {
    let c = float_compare(XFL(10), XFL(11), XFLCompareMode::LessOrEqual);
    assert_eq!(c.func, HostFn::FloatCompare);
    assert_eq!(c.args, HostArgs::FloatCompare { float_1: 10, float_2: 11, mode: 3 });

    let c = float_compare(XFL(1), XFL(2), XFLCompareMode::NotEqual);
    assert_eq!(c.args, HostArgs::FloatCompare { float_1: 1, float_2: 2, mode: 5 });

    let currency = vec![0u8; 20];
    let issuer = vec![1u8; 20];
    let c = float_sto(48, &currency, &issuer, XFL(77), FieldId::Amount);
    assert_eq!(c.func, HostFn::FloatSto);
    assert_eq!(
        c.args,
        HostArgs::FloatSto { len: 48, currency, issuer, enclosing: 77, field: 0x6_0001 }
    );
}
