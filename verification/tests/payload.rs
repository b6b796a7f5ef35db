use taxed_transfer::error::ErrorKind;
use taxed_transfer::identity::{Identity, get_dev_wallet};
use taxed_transfer::payload::parse_transfer_amount;

#[test]
fn parses_little_endian_amount() {
    assert_eq!(parse_transfer_amount(&[1, 0, 0, 0, 0, 0, 0, 0]), Ok(1));
    assert_eq!(parse_transfer_amount(&[0, 0, 0, 0, 0, 0, 0, 0]), Ok(0));
    assert_eq!(
        parse_transfer_amount(&[0x88, 0x77, 0x66, 0x55, 0x44, 0x33, 0x22, 0x11]),
        Ok(0x1122_3344_5566_7788)
    );
    assert_eq!(
        parse_transfer_amount(&[0xff; 8]),
        Ok(u64::MAX)
    );
    assert_eq!(
        parse_transfer_amount(&12_345u64.to_le_bytes()),
        Ok(12_345)
    );
}

#[test]
fn short_payload_rejected() {
    assert_eq!(parse_transfer_amount(&[]), Err(ErrorKind::InvalidInstructionData));
    assert_eq!(parse_transfer_amount(&[0u8; 7]), Err(ErrorKind::InvalidInstructionData));
}

#[test]
fn long_payload_rejected() {
    assert_eq!(parse_transfer_amount(&[0u8; 9]), Err(ErrorKind::InvalidInstructionData));
}

#[test]
fn developer_wallet_matches_only_itself() {
    let wallet = get_dev_wallet();
    assert!(wallet.matches(&get_dev_wallet()));
    let mut other_bytes = wallet.bytes;
    other_bytes[31] ^= 1;
    let other = Identity::new(other_bytes);
    assert!(!wallet.matches(&other));
    assert!(!other.matches(&wallet));
}
