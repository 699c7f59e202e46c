use boltwire::version::is_string_marker;
use boltwire::{BoltString, Error, Version, LARGE, MEDIUM, SMALL, TINY};
use bytes::{Buf, Bytes, BytesMut};
use std::borrow::Borrow;

#[test]
fn should_serialize_empty_string() {
    let s = BoltString::new("");
    let b: Bytes = s.into_bytes(Version::V4_1).unwrap();
    assert_eq!(&b[..], Bytes::from_static(&[TINY]));
}

#[test]
fn should_deserialize_empty_string() {
    let mut input = Bytes::from_static(&[TINY]);
    let s: BoltString = BoltString::parse(Version::V4_1, &mut input).unwrap();
    assert_eq!(s, "".into());
}

#[test]
fn should_serialize_tiny_string() {
    let s = BoltString::new("a");
    let b: Bytes = s.into_bytes(Version::V4_1).unwrap();
    assert_eq!(&b[..], Bytes::from_static(&[0x81, 0x61]));
}

#[test]
fn should_deserialize_tiny_string() {
    let mut serialized_bytes = Bytes::from_static(&[0x81, 0x61]);
    let result: BoltString = BoltString::parse(Version::V4_1, &mut serialized_bytes).unwrap();
    assert_eq!(result, "a".into());
}

#[test]
fn should_serialize_small_string() {
    let s = BoltString::new(&"a".repeat(16));

    let mut b: Bytes = s.into_bytes(Version::V4_1).unwrap();

    assert_eq!(b.get_u8(), SMALL);
    assert_eq!(b.get_u8(), 0x10);
    assert_eq!(b.len(), 0x10);
    for value in b {
        assert_eq!(value, 0x61);
    }
}

#[test]
fn should_deserialize_small_string() {
    let mut serialized_bytes = Bytes::from_static(&[SMALL, 0x01, 0x61]);
    let result: BoltString = BoltString::parse(Version::V4_1, &mut serialized_bytes).unwrap();
    assert_eq!(result, "a".into());
}

#[test]
fn should_serialize_medium_string() {
    let s = BoltString::new(&"a".repeat(256));

    let mut b: Bytes = s.into_bytes(Version::V4_1).unwrap();

    assert_eq!(b.get_u8(), MEDIUM);
    assert_eq!(b.get_u16(), 0x100);
    assert_eq!(b.len(), 0x100);
    for value in b {
        assert_eq!(value, 0x61);
    }
}

#[test]
fn should_deserialize_medium_string() {
    let mut serialized_bytes = Bytes::from_static(&[MEDIUM, 0x00, 0x01, 0x61]);
    let result: BoltString = BoltString::parse(Version::V4_1, &mut serialized_bytes).unwrap();
    assert_eq!(result, "a".into());
}

#[test]
fn should_serialize_large_string() {
    let s = BoltString::new(&"a".repeat(65_536));

    let mut b: Bytes = s.into_bytes(Version::V4_1).unwrap();

    assert_eq!(b.get_u8(), LARGE);
    assert_eq!(b.get_u32(), 0x10000);
    assert_eq!(b.len(), 0x10000);
    for value in b {
        assert_eq!(value, 0x61);
    }
}

#[test]
fn should_deserialize_large_string() {
    let mut serialized_bytes = Bytes::from_static(&[LARGE, 0x00, 0x00, 0x00, 0x01, 0x61]);
    let result: BoltString = BoltString::parse(Version::V4_1, &mut serialized_bytes).unwrap();
    assert_eq!(result, "a".into());
}

fn header_len_for(n: usize) -> usize {
    if n <= 15 {
        1
    } else if n <= 255 {
        2
    } else if n <= 65_535 {
        3
    } else {
        5
    }
}

#[test]
fn round_trip_at_tier_boundaries() {
    for n in [0usize, 1, 15, 16, 255, 256, 65_535, 65_536] {
        for version in [Version::V4, Version::V4_1] {
            let s = BoltString::new(&"x".repeat(n));
            let mut b = s.into_bytes(version).unwrap();
            assert_eq!(b.len(), header_len_for(n) + n, "length {n}");
            let back = BoltString::parse(version, &mut b).unwrap();
            assert_eq!(back, s);
            assert_eq!(b.len(), 0);
        }
    }
}

#[test]
fn round_trip_multibyte_text_leaves_following_bytes() {
    let s = BoltString::new("héllo, wörld — ✓ 𝄞");
    let mut sink = BytesMut::new();
    s.write_into(Version::V4, &mut sink).unwrap();
    sink.extend_from_slice(&[0xC0, 0x01]);
    let mut b = sink.freeze();
    // 27 bytes of UTF-8: a small header
    assert_eq!(b[0], SMALL);
    assert_eq!(b[1] as usize, "héllo, wörld — ✓ 𝄞".len());
    let back = BoltString::parse(Version::V4, &mut b).unwrap();
    assert_eq!(back.value, "héllo, wörld — ✓ 𝄞");
    assert_eq!(&b[..], &[0xC0, 0x01]);
}

#[test]
fn write_into_appends_after_existing_bytes() {
    let mut sink = BytesMut::new();
    sink.extend_from_slice(&[0x01, 0x02]);
    BoltString::new("ab").write_into(Version::V4_1, &mut sink).unwrap();
    assert_eq!(&sink[..], &[0x01, 0x02, 0x82, 0x61, 0x62]);
}

#[test]
fn sixteen_letters_use_the_small_tier() {
    let s = BoltString::new(&"a".repeat(16));
    let b = s.into_bytes(Version::V4_1).unwrap();
    let mut expected = vec![0xD0u8, 0x10];
    expected.extend(std::iter::repeat(0x61u8).take(16));
    assert_eq!(&b[..], &expected[..]);
    let mut input = b.clone();
    assert_eq!(BoltString::parse(Version::V4_1, &mut input).unwrap().value, "a".repeat(16));
}

#[test]
fn fifteen_bytes_stay_tiny_and_medium_length_is_big_endian() {
    let b = BoltString::new(&"z".repeat(15)).into_bytes(Version::V4).unwrap();
    assert_eq!(b[0], 0x8F);
    assert_eq!(b.len(), 16);
    let b = BoltString::new(&"z".repeat(65_535)).into_bytes(Version::V4).unwrap();
    assert_eq!(&b[..3], &[MEDIUM, 0xFF, 0xFF]);
    let b = BoltString::new(&"z".repeat(255)).into_bytes(Version::V4).unwrap();
    assert_eq!(&b[..2], &[SMALL, 0xFF]);
}

#[test]
fn parse_rejects_unknown_marker() {
    let mut input = Bytes::from_static(&[0xC1, 0x61]);
    assert_eq!(BoltString::parse(Version::V4_1, &mut input), Err(Error::InvalidMarker(0xC1)));
}

#[test]
fn parse_rejects_empty_input() {
    let mut input = Bytes::new();
    assert_eq!(BoltString::parse(Version::V4_1, &mut input), Err(Error::Malformed));
}

#[test]
fn parse_rejects_length_past_input() {
    let mut input = Bytes::from_static(&[0x83, 0x61]);
    assert_eq!(BoltString::parse(Version::V4_1, &mut input), Err(Error::Malformed));
    let mut input = Bytes::from_static(&[MEDIUM, 0x01]);
    assert_eq!(BoltString::parse(Version::V4_1, &mut input), Err(Error::Malformed));
    let mut input = Bytes::from_static(&[LARGE, 0x00, 0x00, 0x00, 0x02, 0x61]);
    assert_eq!(BoltString::parse(Version::V4_1, &mut input), Err(Error::Malformed));
}

#[test]
fn parse_rejects_invalid_utf8() {
    let mut input = Bytes::from_static(&[0x82, 0xC3, 0x28]);
    assert_eq!(BoltString::parse(Version::V4_1, &mut input), Err(Error::Malformed));
}

#[test]
fn parse_consumes_exactly_one_value() {
    let mut input = Bytes::from_static(&[0x81, 0x61, 0x82, 0x62, 0x63]);
    assert_eq!(BoltString::parse(Version::V4, &mut input).unwrap().value, "a");
    assert_eq!(BoltString::parse(Version::V4, &mut input).unwrap().value, "bc");
    assert!(input.is_empty());
}

#[test]
fn can_parse_claims_only_text_markers() {
    assert!(BoltString::can_parse(Version::V4_1, &[0x80]));
    assert!(BoltString::can_parse(Version::V4_1, &[0x8F, 0x00]));
    assert!(BoltString::can_parse(Version::V4, &[SMALL]));
    assert!(BoltString::can_parse(Version::V4, &[MEDIUM]));
    assert!(BoltString::can_parse(Version::V4, &[LARGE]));
    assert!(!BoltString::can_parse(Version::V4, &[0x90]));
    assert!(!BoltString::can_parse(Version::V4, &[0xD3]));
    assert!(!BoltString::can_parse(Version::V4, &[0x7F]));
    assert!(!BoltString::can_parse(Version::V4, &[]));
    assert!(is_string_marker(Version::V4_1, 0x85));
    assert!(!is_string_marker(Version::V4_1, 0xC0));
}

#[test]
fn conversions_keep_the_text() {
    let s: BoltString = String::from("abc").into();
    assert_eq!(s.value, "abc");
    let t: String = s.into();
    assert_eq!(t, "abc");
    let u: BoltString = "xyz".into();
    assert_eq!(u, BoltString::new("xyz"));
}

#[test]
fn text_and_borrow_give_the_value() {
    let s = BoltString::new("graph");
    assert_eq!(s.to_string(), "graph");
    let b: &str = s.borrow();
    assert_eq!(b, "graph");
}

#[test]
fn canonical_encoding_is_never_longer_than_a_legal_one() {
    let legal = [
        &[SMALL, 0x01, 0x61][..],
        &[MEDIUM, 0x00, 0x01, 0x61][..],
        &[LARGE, 0x00, 0x00, 0x00, 0x01, 0x61][..],
    ];
    for e in legal {
        let mut input = Bytes::copy_from_slice(e);
        let s = BoltString::parse(Version::V4_1, &mut input).unwrap();
        let canonical = s.into_bytes(Version::V4_1).unwrap();
        assert_eq!(&canonical[..], &[0x81, 0x61]);
        assert!(canonical.len() <= e.len());
    }
}
