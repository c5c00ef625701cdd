use xrpl_hooks::encode::{
    encode_account, encode_drops, encode_signing_pubkey_null, encode_tt, encode_u32_common,
    encode_u32_uncommon,
};
use xrpl_hooks::fields::{AccountType, AmountType, TxnType};

const ACCOUNT_ID: [u8; 20] = [
    1, 2, 3, 4, 5, 6, 7, 8, 9, 10, 11, 12, 13, 14, 15, 16, 17, 18, 19, 20,
];

#[test]
fn enc_account() {
    let mut encoded = vec![0u8; 22];

    encode_account(&mut encoded, 0, &ACCOUNT_ID.to_vec(), AccountType::Account);

    assert_eq!(
        encoded,
        [0x81, 0x14, 1, 2, 3, 4, 5, 6, 7, 8, 9, 10, 11, 12, 13, 14, 15, 16, 17, 18, 19, 20]
    );
}

#[test]
fn enc_signing_pubkey_null() {
    let mut key = vec![255u8; 35];

    encode_signing_pubkey_null(&mut key, 0);

    assert_eq!(
        key,
        [
            0x73, 0x21, 0, 0, 0, 0, 0, 0, 0, 0, 0, 0, 0, 0, 0, 0, 0, 0, 0, 0, 0, 0, 0, 0, 0, 0,
            0, 0, 0, 0, 0, 0, 0, 0, 0
        ]
    )
}

#[test]
fn enc_account_destination_role() {
    let mut encoded = vec![0u8; 22];

    encode_account(&mut encoded, 0, &ACCOUNT_ID.to_vec(), AccountType::Destination);

    assert_eq!(encoded[0], 0x83);
    assert_eq!(encoded[1], 0x14);
    assert_eq!(&encoded[2..], &ACCOUNT_ID);
}

#[test]
fn enc_account_away_from_buffer_start() {
    let mut buf = vec![0xAAu8; 30];

    encode_account(&mut buf, 5, &ACCOUNT_ID.to_vec(), AccountType::Account);

    assert_eq!(&buf[..5], &[0xAA; 5]);
    assert_eq!(buf[5], 0x81);
    assert_eq!(buf[6], 0x14);
    assert_eq!(&buf[7..27], &ACCOUNT_ID);
    assert_eq!(&buf[27..], &[0xAA; 3]);
}

#[test]
fn enc_transaction_type_payment() {
    let mut buf = vec![0xFFu8; 3];

    encode_tt(&mut buf, 0, TxnType::Payment);

    assert_eq!(buf, [0x12, 0x00, 0x00]);
}

#[test]
fn enc_transaction_type_trust_set() {
    let mut buf = vec![0u8; 3];

    encode_tt(&mut buf, 0, TxnType::TrustSet);

    assert_eq!(buf, [0x12, 0x00, 20]);
}

#[test]
fn enc_u32_common_exact_bytes() {
    let mut buf = vec![0u8; 5];

    encode_u32_common(&mut buf, 0, 0x01020304, 3);

    assert_eq!(buf, [0x23, 0x01, 0x02, 0x03, 0x04]);
}

#[test]
fn enc_u32_common_field_is_masked() {
    let mut buf = vec![0u8; 5];

    encode_u32_common(&mut buf, 0, 0, 0x2);

    assert_eq!(buf, [0x22, 0, 0, 0, 0]);
}

#[test]
fn enc_u32_uncommon_exact_bytes() {
    let mut buf = vec![0u8; 6];

    encode_u32_uncommon(&mut buf, 0, 0xDEADBEEF, 0x1A);

    assert_eq!(buf, [0x20, 0x1A, 0xDE, 0xAD, 0xBE, 0xEF]);
}

#[test]
fn enc_drops_exact_bytes() {
    let mut buf = vec![0u8; 9];

    encode_drops(&mut buf, 0, 100, AmountType::Fee);

    assert_eq!(buf, [0x68, 0x40, 0, 0, 0, 0, 0, 0, 100]);
}

#[test]
fn enc_drops_marker_bit_for_every_role() {
    let roles = [
        AmountType::Amount,
        AmountType::Balance,
        AmountType::LimitAmount,
        AmountType::TakerPays,
        AmountType::TakerGets,
        AmountType::LowLimit,
        AmountType::HighLimit,
        AmountType::Fee,
        AmountType::SendMax,
        AmountType::DeliverMin,
        AmountType::MinimumOffer,
        AmountType::RippleEscrow,
        AmountType::DeliveredAmount,
    ];
    for role in roles {
        let mut buf = vec![0u8; 9];
        encode_drops(&mut buf, 0, u64::MAX, role);
        assert_eq!(buf.len(), 9);
        assert_eq!(buf[1] & 0x40, 0x40);

        let mut buf = vec![0u8; 9];
        encode_drops(&mut buf, 0, 0, role);
        assert_eq!(buf[1] & 0x40, 0x40);
    }
}

#[test]
fn enc_drops_large_value_keeps_62_bits() {
    let mut buf = vec![0u8; 9];

    encode_drops(&mut buf, 0, 0x3FFF_FFFF_FFFF_FFFF, AmountType::Amount);

    assert_eq!(buf, [0x61, 0x7F, 0xFF, 0xFF, 0xFF, 0xFF, 0xFF, 0xFF, 0xFF]);
}
