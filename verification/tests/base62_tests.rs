use speck::base62::decode_base62;
use speck::base62::encode_base62;
use speck::ids::ItemType;
use speck::ids::TrackId;

/// Independent digit table for cross-checking the library's codec.
fn reference_digit(c: char) -> Option<u128> {
    const ALPHABET: &str = "0123456789abcdefghijklmnopqrstuvwxyzABCDEFGHIJKLMNOPQRSTUVWXYZ";
    ALPHABET.find(c).map(|i| i as u128)
}

fn reference_decode(s: &str) -> Option<u128> {
    let mut v: u128 = 0;
    for c in s.chars() {
        let d = reference_digit(c)?;
        v = v.checked_mul(62)?.checked_add(d)?;
    }
    Some(v)
}

#[test]
fn decode_empty_is_zero() {
    assert_eq!(decode_base62(""), Some(0));
}

#[test]
fn decode_single_digits() {
    assert_eq!(decode_base62("0"), Some(0));
    assert_eq!(decode_base62("9"), Some(9));
    assert_eq!(decode_base62("a"), Some(10));
    assert_eq!(decode_base62("z"), Some(35));
    assert_eq!(decode_base62("A"), Some(36));
    assert_eq!(decode_base62("Z"), Some(61));
}

#[test]
fn decode_multi_digit() {
    assert_eq!(decode_base62("10"), Some(62));
    assert_eq!(decode_base62("zz"), Some(35 * 62 + 35));
}

#[test]
fn decode_rejects_invalid_characters() {
    assert_eq!(decode_base62("abc!"), None);
    assert_eq!(decode_base62(" "), None);
    assert_eq!(decode_base62("4uLU6hMCjMI75M1A2tKUQ-"), None);
}

#[test]
fn decode_rejects_overflow() {
    // Twenty-two times the largest digit exceeds 128 bits.
    assert_eq!(decode_base62("ZZZZZZZZZZZZZZZZZZZZZZ"), None);
    // The largest 128-bit value itself still decodes.
    let max = encode_base62(u128::MAX);
    assert_eq!(decode_base62(&max), Some(u128::MAX));
}

#[test]
fn encode_is_fixed_width() {
    assert_eq!(encode_base62(0), "0000000000000000000000");
    assert_eq!(encode_base62(1), "0000000000000000000001");
    assert_eq!(encode_base62(61), "000000000000000000000Z");
    assert_eq!(encode_base62(62), "0000000000000000000010");
    assert_eq!(encode_base62(10), "000000000000000000000a");
    assert_eq!(encode_base62(36), "000000000000000000000A");
}

#[test]
fn decode_matches_reference() {
    for s in [
        "4uLU6hMCjMI75M1A2tKUQC",
        "0000000000000000000000",
        "00000000000000000000zZ",
        "7ouMYWpwJ422jRcDASZB7P",
    ] {
        assert_eq!(decode_base62(s), reference_decode(s));
        assert!(decode_base62(s).is_some());
    }
}

#[test]
fn round_trip_full_width_ids() {
    for s in [
        "4uLU6hMCjMI75M1A2tKUQC",
        "7ouMYWpwJ422jRcDASZB7P",
        "0000000000000000000000",
    ] {
        let v = decode_base62(s).unwrap();
        assert_eq!(encode_base62(v), s);
    }
}

#[test]
fn parsed_id_is_untyped_until_forced() {
    let id = TrackId::from_base62("4uLU6hMCjMI75M1A2tKUQC").unwrap();
    assert_eq!(id.item_type, ItemType::Unknown);
    let t = id.as_track();
    assert_eq!(t.item_type, ItemType::Track);
    assert_eq!(t.id, id.id);
}

#[test]
fn track_id_round_trip() {
    let id = TrackId::from_base62("4uLU6hMCjMI75M1A2tKUQC").unwrap();
    assert_eq!(id.as_track().to_base62(), "4uLU6hMCjMI75M1A2tKUQC");
}

#[test]
fn from_base62_rejects_malformed() {
    assert_eq!(TrackId::from_base62("not a track id"), None);
    assert_eq!(TrackId::from_base62("ZZZZZZZZZZZZZZZZZZZZZZ"), None);
    // Valid digits, but not the canonical width.
    assert_eq!(TrackId::from_base62("4uLU6"), None);
    assert_eq!(TrackId::from_base62(""), None);
}

#[test]
fn codec_agrees_with_the_engine() {
    for s in [
        "4uLU6hMCjMI75M1A2tKUQC",
        "0000000000000000000000",
        "00000000000000000000zZ",
        "7ouMYWpwJ422jRcDASZB7P",
    ] {
        let mine = decode_base62(s).unwrap();
        let engine = librespot::core::spotify_id::SpotifyId::from_base62(s).unwrap();
        assert_eq!(engine.id, mine);
        assert_eq!(engine.to_base62().unwrap(), encode_base62(mine));
    }
    // Both sides reject an overflowing numeral and a bad digit.
    assert!(librespot::core::spotify_id::SpotifyId::from_base62("ZZZZZZZZZZZZZZZZZZZZZZ").is_err());
    assert_eq!(decode_base62("ZZZZZZZZZZZZZZZZZZZZZZ"), None);
    assert!(librespot::core::spotify_id::SpotifyId::from_base62("!!!!!!!!!!!!!!!!!!!!!!").is_err());
    assert_eq!(decode_base62("!!!!!!!!!!!!!!!!!!!!!!"), None);
}
