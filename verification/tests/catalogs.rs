use xrpl_hooks::fields::{
    account_type_code, amount_type_code, data_repr_code, field_code, txn_type_code, AccountType,
    AmountType, DataRepr, FieldId, TxnType, ACC_ID_LEN, AMOUNT_LEN, EMIT_DETAILS_SIZE, KEYLET_LEN,
    PREPARE_PAYMENT_SIMPLE_SIZE, TF_CANONICAL,
};

#[test]
fn buffer_size_constants() {
    assert_eq!(ACC_ID_LEN, 20);
    assert_eq!(KEYLET_LEN, 34);
    assert_eq!(AMOUNT_LEN, 48);
    assert_eq!(EMIT_DETAILS_SIZE, 105);
    assert_eq!(PREPARE_PAYMENT_SIMPLE_SIZE, 237);
    assert_eq!(TF_CANONICAL, 0x8000_0000);
}

#[test]
fn transaction_type_codes() {
    assert_eq!(txn_type_code(TxnType::Payment), 0);
    assert_eq!(txn_type_code(TxnType::EscrowCreate), 1);
    assert_eq!(txn_type_code(TxnType::OfferCreate), 7);
    assert_eq!(txn_type_code(TxnType::TrustSet), 20);
    assert_eq!(txn_type_code(TxnType::HookSet), 22);
    assert_eq!(txn_type_code(TxnType::Amendment), 100);
    assert_eq!(txn_type_code(TxnType::UnlModify), 102);
}

#[test]
fn account_role_codes() {
    assert_eq!(account_type_code(AccountType::Account), 1);
    assert_eq!(account_type_code(AccountType::Owner), 2);
    assert_eq!(account_type_code(AccountType::Destination), 3);
    assert_eq!(account_type_code(AccountType::Issuer), 4);
    assert_eq!(account_type_code(AccountType::PseudoCallback), 9);
}

#[test]
fn amount_role_codes() {
    assert_eq!(amount_type_code(AmountType::Amount), 1);
    assert_eq!(amount_type_code(AmountType::Fee), 8);
    assert_eq!(amount_type_code(AmountType::DeliverMin), 10);
    assert_eq!(amount_type_code(AmountType::MinimumOffer), 16);
    assert_eq!(amount_type_code(AmountType::DeliveredAmount), 18);
}

#[test]
fn data_repr_codes() {
    assert_eq!(data_repr_code(DataRepr::AsUTF8), 0);
    assert_eq!(data_repr_code(DataRepr::AsHex), 1);
}

#[test]
fn field_codes_pack_type_and_number() {
    assert_eq!(field_code(FieldId::Generic), 0);
    assert_eq!(field_code(FieldId::LedgerEntryType), 0x1_0001);
    assert_eq!(field_code(FieldId::TransactionType), 0x1_0002);
    assert_eq!(field_code(FieldId::Flags), 0x2_0002);
    assert_eq!(field_code(FieldId::SourceTag), 0x2_0003);
    assert_eq!(field_code(FieldId::Sequence), 0x2_0004);
    assert_eq!(field_code(FieldId::DestinationTag), 0x2_000E);
    assert_eq!(field_code(FieldId::FirstLedgerSequence), 0x2_001A);
    assert_eq!(field_code(FieldId::LastLedgerSequence), 0x2_001B);
    assert_eq!(field_code(FieldId::EmitGeneration), 0x2_002B);
    assert_eq!(field_code(FieldId::HookOn), 0x3_0010);
    assert_eq!(field_code(FieldId::EmailHash), 0x4_0001);
    assert_eq!(field_code(FieldId::PreviousTxnID), 0x5_0005);
    assert_eq!(field_code(FieldId::Amount), 0x6_0001);
    assert_eq!(field_code(FieldId::Fee), 0x6_0008);
    assert_eq!(field_code(FieldId::SigningPubKey), 0x7_0003);
    assert_eq!(field_code(FieldId::TxnSignature), 0x7_0004);
    assert_eq!(field_code(FieldId::HookData), 0x7_0016);
    assert_eq!(field_code(FieldId::Account), 0x8_0001);
    assert_eq!(field_code(FieldId::Destination), 0x8_0003);
    assert_eq!(field_code(FieldId::TakerPaysCurrency), 0x11_0001);
    assert_eq!(field_code(FieldId::Paths), 0x12_0001);
    assert_eq!(field_code(FieldId::Amendments), 0x13_0003);
    assert_eq!(field_code(FieldId::CloseResolution), 0x10_0001);
    assert_eq!(field_code(FieldId::TickSize), 0x10_0010);
    assert_eq!(field_code(FieldId::EmitDetails), 0xE_000D);
    assert_eq!(field_code(FieldId::Memos), 0xF_0009);
    assert_eq!(field_code(FieldId::Hash), 0x5_0101);
    assert_eq!(field_code(FieldId::Index), 0x5_0102);
    assert_eq!(field_code(FieldId::Transaction), 0x2711_0101);
    assert_eq!(field_code(FieldId::LedgerEntry), 0x2712_0101);
    assert_eq!(field_code(FieldId::Validation), 0x2713_0101);
    assert_eq!(field_code(FieldId::Metadata), 0x2714_0101);
}
