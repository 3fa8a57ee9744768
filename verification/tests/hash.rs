use chain_client::error::ChainError;
use chain_client::hash::{
    hash_from_prefixed, hex_digit, number_from_prefixed, parse_block_hash, parse_hash_reply,
};

fn counting_hex() -> String {
    let mut s = String::new();
    for i in 0..32u32 {
        s.push_str(&format!("{:02x}", i * 7 + 1));
    }
    s
}

fn counting_bytes() -> [u8; 32] {
    let mut b = [0u8; 32];
    for i in 0..32usize {
        b[i] = (i * 7 + 1) as u8;
    }
    b
}

#[test]
fn block_hash_decodes() {
    let text = format!("0x{}", counting_hex());
    let hash = parse_block_hash(&text).unwrap();
    assert_eq!(hash.bytes, counting_bytes());
    assert_eq!(hash.bytes[0], 0x01);
    assert_eq!(hash.bytes[1], 0x08);
    assert_eq!(hash.bytes[31], 0xda);
}

#[test]
fn block_hash_accepts_either_case() {
    let lower = format!("0x{}", "ab".repeat(32));
    let upper = format!("0x{}", "AB".repeat(32));
    let mixed = format!("0x{}", "aB".repeat(32));
    assert_eq!(parse_block_hash(&lower).unwrap().bytes, [0xab; 32]);
    assert_eq!(parse_block_hash(&upper).unwrap().bytes, [0xab; 32]);
    assert_eq!(parse_block_hash(&mixed).unwrap().bytes, [0xab; 32]);
}

#[test]
fn block_hash_prefix_is_skipped_unread() {
    let text = format!("0X{}", "00".repeat(32));
    assert_eq!(parse_block_hash(&text).unwrap().bytes, [0u8; 32]);
}

#[test]
fn malformed_block_hash_is_an_error() {
    let short = format!("0x{}", "ab".repeat(31));
    let long = format!("0x{}", "ab".repeat(33));
    let odd = format!("0x{}a", "ab".repeat(31));
    let bad = format!("0x{}zz", "ab".repeat(31));
    let bare = "ab".repeat(32);
    for text in [short, long, odd, bad, bare, String::new(), String::from("0")] {
        assert_eq!(parse_block_hash(&text), Err(ChainError::Malformed(text.clone())));
    }
}

#[test]
fn block_hash_with_wide_characters_is_an_error() {
    let text = format!("0x{}\u{e9}", "ab".repeat(31));
    assert_eq!(text.len(), 66);
    assert_eq!(parse_block_hash(&text), Err(ChainError::Malformed(text.clone())));
}

#[test]
fn hash_reply_decodes() {
    let text = format!("\"0x{}\"", counting_hex());
    assert_eq!(text.len(), 68);
    assert_eq!(parse_hash_reply(&text).unwrap().bytes, counting_bytes());
}

#[test]
fn hash_reply_ignores_what_follows_the_digits() {
    let text = format!("\"0x{}\" and more", "0f".repeat(32));
    assert_eq!(parse_hash_reply(&text).unwrap().bytes, [0x0f; 32]);
}

#[test]
fn malformed_hash_reply_is_an_error() {
    let short = format!("\"0x{}", "ab".repeat(31));
    let bad = format!("\"0x{}g\"", "a".repeat(63));
    let unquoted = format!("0x{}", "ab".repeat(32));
    for text in [short, bad, unquoted, String::new()] {
        assert_eq!(parse_hash_reply(&text), Err(ChainError::Malformed(text.clone())));
    }
}

#[test]
fn hash_from_bytes() {
    let text = format!("0x{}", counting_hex());
    assert_eq!(hash_from_prefixed(text.as_bytes()).unwrap().bytes, counting_bytes());
    assert_eq!(hash_from_prefixed(b"0x12"), None);
}

#[test]
fn hex_digits() {
    assert_eq!(hex_digit(b'0'), Some(0));
    assert_eq!(hex_digit(b'9'), Some(9));
    assert_eq!(hex_digit(b'a'), Some(10));
    assert_eq!(hex_digit(b'f'), Some(15));
    assert_eq!(hex_digit(b'A'), Some(10));
    assert_eq!(hex_digit(b'F'), Some(15));
    assert_eq!(hex_digit(b'g'), None);
    assert_eq!(hex_digit(b'G'), None);
    assert_eq!(hex_digit(b'/'), None);
    assert_eq!(hex_digit(b':'), None);
    assert_eq!(hex_digit(b'@'), None);
    assert_eq!(hex_digit(b'`'), None);
    assert_eq!(hex_digit(b' '), None);
}

#[test]
fn numbers_decode() {
    assert_eq!(number_from_prefixed(b"0x0"), Some(0));
    assert_eq!(number_from_prefixed(b"0x1a"), Some(26));
    assert_eq!(number_from_prefixed(b"0x1A"), Some(26));
    assert_eq!(number_from_prefixed(b"0x000001"), Some(1));
    assert_eq!(number_from_prefixed(b"0xffffffff"), Some(u32::MAX));
    assert_eq!(number_from_prefixed(b"0x00000000ffffffff"), Some(u32::MAX));
    assert_eq!(number_from_prefixed(b"0x12d687"), Some(1234567));
}

#[test]
fn numbers_out_of_range_or_malformed() {
    assert_eq!(number_from_prefixed(b"0x100000000"), None);
    assert_eq!(number_from_prefixed(b"0xfffffffff"), None);
    assert_eq!(number_from_prefixed(b"0x10000000000000000000000000"), None);
    assert_eq!(number_from_prefixed(b"0x"), None);
    assert_eq!(number_from_prefixed(b""), None);
    assert_eq!(number_from_prefixed(b"0"), None);
    assert_eq!(number_from_prefixed(b"0x1g"), None);
    assert_eq!(number_from_prefixed(b"0x100000000z"), None);
    assert_eq!(number_from_prefixed(b"0x-1"), None);
}
