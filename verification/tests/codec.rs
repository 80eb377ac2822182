use ifi_relayer::codec::decode_tip;
use ifi_relayer::{Address, RelayError};

/// A 96-byte tip: token word, amount word, receiver word.
fn sample_tip(token: (u32, u128), amount: u128, receiver: (u32, u128)) -> Vec<u8> {
    let mut tip = Vec::new();
    // token word: 12 bytes of padding, 4 bytes hi, 16 bytes lo
    tip.extend_from_slice(&[0u8; 12]);
    tip.extend_from_slice(&token.0.to_be_bytes());
    tip.extend_from_slice(&token.1.to_be_bytes());
    // amount word: 16 bytes of padding, 16 bytes amount
    tip.extend_from_slice(&[0u8; 16]);
    tip.extend_from_slice(&amount.to_be_bytes());
    // receiver word
    tip.extend_from_slice(&[0u8; 12]);
    tip.extend_from_slice(&receiver.0.to_be_bytes());
    tip.extend_from_slice(&receiver.1.to_be_bytes());
    tip
}

#[test]
fn short_tips_are_malformed() {
    for len in [0usize, 1, 31, 32, 64, 95] {
        let tip = vec![0xABu8; len];
        assert_eq!(decode_tip(&tip), Err(RelayError::MalformedTip));
    }
}

#[test]
fn valid_tip_decodes_to_its_words() {
    let token = (0xA1B2C3D4u32, 0x0102030405060708090A0B0C0D0E0F10u128);
    let receiver = (0u32, 0x100u128);
    let tip = sample_tip(token, 1_000_000, receiver);
    assert_eq!(tip.len(), 96);
    let decoded = decode_tip(&tip).unwrap();
    assert_eq!(decoded.token, Address { hi: token.0, lo: token.1 });
    assert_eq!(decoded.amount, 1_000_000u128);
    assert_eq!(decoded.receiver, Address { hi: 0, lo: 0x100 });
}

#[test]
fn decoding_is_deterministic() {
    let tip = sample_tip((7, 8), 9, (10, 11));
    let first = decode_tip(&tip);
    let second = decode_tip(&tip);
    assert_eq!(first, second);
    assert!(first.is_ok());
}

#[test]
fn bytes_past_the_third_word_are_ignored() {
    let mut tip = sample_tip((1, 2), 3, (4, 5));
    let expected = decode_tip(&tip).unwrap();
    tip.extend_from_slice(&[0xFFu8; 32]);
    assert_eq!(decode_tip(&tip).unwrap(), expected);
}

#[test]
fn largest_amount_decodes() {
    let tip = sample_tip((0, 0), u128::MAX, (0, 0x200));
    let decoded = decode_tip(&tip).unwrap();
    assert_eq!(decoded.amount, u128::MAX);
}
