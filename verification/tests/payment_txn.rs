use xrpl_hooks::helpers::amount_to_drops;
use xrpl_hooks::payment::prepare_payment_simple;

const SRC_ACCOUNT: [u8; 20] = [
    1, 2, 3, 4, 5, 6, 7, 8, 9, 10, 11, 12, 13, 14, 15, 16, 17, 18, 19, 20,
];

fn build(
    drops_amount: u64,
    drops_fee: u64,
    dest: &[u8; 20],
    dest_tag: u32,
    src_tag: u32,
    ledger_seq: u32,
    details_byte: u8,
) -> Vec<u8> {
    let mut buf = vec![0u8; 237];
    prepare_payment_simple(
        &mut buf,
        drops_amount,
        drops_fee,
        &dest.to_vec(),
        dest_tag,
        src_tag,
        &SRC_ACCOUNT.to_vec(),
        ledger_seq,
        &vec![details_byte; 105],
    );
    buf
}

#[test]
fn payment_header_and_amount_range() {
    let buf = build(100, 10, &[0u8; 20], 0, 0, 6, 0xEE);

    assert_eq!(buf.len(), 237);
    assert_eq!(buf[0], 0x12);
    assert_eq!(&buf[1..3], &[0x00, 0x00]);

    // The amount range: prefix with the Amount role, marker bit set, 100.
    assert_eq!(&buf[35..44], &[0x61, 0x40, 0, 0, 0, 0, 0, 0, 100]);
    assert_eq!(buf[36] & 0x40, 0x40);

    // The amount payload reads back as 100 drops.
    let payload = buf[36..44].to_vec();
    assert_eq!(amount_to_drops(&payload), Ok(100));
}

#[test]
fn payment_full_layout() {
    let dest: [u8; 20] = [
        21, 22, 23, 24, 25, 26, 27, 28, 29, 30, 31, 32, 33, 34, 35, 36, 37, 38, 39, 40,
    ];
    let buf = build(100, 10, &dest, 0xD00D, 0xCAFE, 6, 0xEE);

    // Transaction type: Payment.
    assert_eq!(&buf[0..3], &[0x12, 0x00, 0x00]);
    // Flags: the canonical-order flag only.
    assert_eq!(&buf[3..8], &[0x22, 0x80, 0x00, 0x00, 0x00]);
    // Source tag.
    assert_eq!(&buf[8..13], &[0x23, 0x00, 0x00, 0xCA, 0xFE]);
    // Sequence, fixed to zero by this helper.
    assert_eq!(&buf[13..18], &[0x24, 0x00, 0x00, 0x00, 0x00]);
    // Destination tag.
    assert_eq!(&buf[18..23], &[0x2E, 0x00, 0x00, 0xD0, 0x0D]);
    // First valid ledger sequence: the current one plus one.
    assert_eq!(&buf[23..29], &[0x20, 0x1A, 0x00, 0x00, 0x00, 7]);
    // Last valid ledger sequence: the current one plus five.
    assert_eq!(&buf[29..35], &[0x20, 0x1B, 0x00, 0x00, 0x00, 11]);
    // Amount and fee in drops.
    assert_eq!(&buf[35..44], &[0x61, 0x40, 0, 0, 0, 0, 0, 0, 100]);
    assert_eq!(&buf[44..53], &[0x68, 0x40, 0, 0, 0, 0, 0, 0, 10]);
    // Null signing public key.
    assert_eq!(buf[53], 0x73);
    assert_eq!(buf[54], 0x21);
    assert!(buf[55..88].iter().all(|b| *b == 0));
    // Source account.
    assert_eq!(buf[88], 0x81);
    assert_eq!(buf[89], 0x14);
    assert_eq!(&buf[90..110], &SRC_ACCOUNT);
    // Destination account.
    assert_eq!(buf[110], 0x83);
    assert_eq!(buf[111], 0x14);
    assert_eq!(&buf[112..132], &dest);
    // The host-computed emission-detail block, verbatim.
    assert!(buf[132..237].iter().all(|b| *b == 0xEE));
}

#[test]
fn payment_ledger_window_wide_values() {
    let buf = build(0, 0, &[0u8; 20], 0, 0, 0x01020304, 0);

    assert_eq!(&buf[23..29], &[0x20, 0x1A, 0x01, 0x02, 0x03, 0x05]);
    assert_eq!(&buf[29..35], &[0x20, 0x1B, 0x01, 0x02, 0x03, 0x09]);
}

#[test]
fn payment_large_amount_round_trips() {
    let drops: u64 = 0x3FFF_FFFF_FFFF_FFFF;
    let buf = build(drops, 12, &[0u8; 20], 0, 0, 1, 0);

    let payload = buf[36..44].to_vec();
    assert_eq!(amount_to_drops(&payload), Ok(drops));
}
