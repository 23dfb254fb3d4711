use cider_core::network::room_code::encode_bytes;
use cider_core::network::RoomCode;
use libp2p::PeerId;

#[test]
fn test_room_code_parse() {
    let code = RoomCode::parse("ABC-DEF").unwrap();
    assert_eq!(code.as_str(), "ABCDEF");

    let code = RoomCode::parse("abc def").unwrap();
    assert_eq!(code.as_str(), "ABCDEF");

    assert!(RoomCode::parse("ABC").is_none()); // Too short
    assert!(RoomCode::parse("ABCDEFG").is_none()); // Too long
}

#[test]
fn test_room_code_display() {
    let code = RoomCode::parse("ABCDEF").unwrap();
    assert_eq!(code.to_display_string(), "ABC-DEF");
}

#[test]
fn test_random_code() {
    let code1 = RoomCode::random();
    let code2 = RoomCode::random();
    // Very unlikely to be equal
    assert_ne!(code1, code2);
    assert_eq!(code1.as_str().len(), 6);
}

#[test]
fn parse_refuses_characters_outside_the_alphabet() {
    // 0, 1, 2, 5, I, L, O, S and Z are not in the alphabet.
    assert!(RoomCode::parse("ABCDE0").is_none());
    assert!(RoomCode::parse("ABCDE1").is_none());
    assert!(RoomCode::parse("ABCDEI").is_none());
    assert!(RoomCode::parse("ABCDEO").is_none());
    assert!(RoomCode::parse("ABCDES").is_none());
    assert!(RoomCode::parse("ABCDEZ").is_none());
    assert!(RoomCode::parse("346789").is_some());
}

#[test]
fn parse_counts_letters_beyond_ascii() {
    // The accented letter is a letter: it is kept and then refused.
    assert!(RoomCode::parse("ABCDEF\u{e9}").is_none());
    assert!(RoomCode::parse("ABCDE\u{e9}").is_none());
    // Punctuation and space are dropped.
    assert_eq!(RoomCode::parse(" a-b_c.d/e:f ").unwrap().as_str(), "ABCDEF");
    assert!(RoomCode::parse("").is_none());
}

#[test]
fn display_and_parse_round_trip() {
    for text in ["ABCDEF", "346789", "XYWVUT", "HJKMNP"] {
        let code = RoomCode::parse(text).unwrap();
        let shown = code.to_display_string();
        assert_eq!(shown.len(), 7);
        assert_eq!(RoomCode::parse(&shown).unwrap(), code);
    }
}

#[test]
fn encode_bytes_is_little_endian_base_27() {
    // Zero is six times the first character of the alphabet.
    assert_eq!(encode_bytes(&[0, 0, 0, 0, 0, 0]), "333333");
    // One is the second character, then zeros.
    assert_eq!(encode_bytes(&[1, 0, 0, 0, 0, 0]), "433333");
    // 27 = 1 * 27 + 0.
    assert_eq!(encode_bytes(&[27, 0, 0, 0, 0, 0]), "343333");
    // 256 = 9 * 27 + 13: the second byte weighs 256.
    assert_eq!(encode_bytes(&[0, 1, 0, 0, 0, 0]), "HD3333");
    // Only the first six bytes count, and fewer are taken as they are.
    assert_eq!(encode_bytes(&[1, 0, 0, 0, 0, 0, 255, 255]), "433333");
    assert_eq!(encode_bytes(&[1]), "433333");
    assert_eq!(encode_bytes(&[]), "333333");
}

#[test]
fn from_identity_bytes_skips_the_prefix() {
    let code = RoomCode::from_identity_bytes(&[0x00, 0x24, 1, 0, 0, 0, 0, 0, 9, 9]);
    assert_eq!(code.as_str(), "433333");
    let short = RoomCode::from_identity_bytes(&[0x00, 0x01, 27]);
    assert_eq!(short.as_str(), "343333");
    let empty = RoomCode::from_identity_bytes(&[0x00]);
    assert_eq!(empty.as_str(), "333333");
}

#[test]
fn from_peer_id_uses_the_bytes_of_the_identity() {
    let peer_id = PeerId::random();
    let bytes = peer_id.to_bytes();
    let code = RoomCode::from_peer_id(&peer_id);
    assert_eq!(code.as_str(), encode_bytes(&bytes[2..8]));
    assert_eq!(code, RoomCode::from_peer_id(&peer_id));
    assert_eq!(RoomCode::parse(&code.to_display_string()).unwrap(), code);
}
