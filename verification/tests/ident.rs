use song_catalog::error::AppError;
use song_catalog::ident::{decode_id, id_from_parse};
use song_catalog::model::Id;

const BITS: u128 = 0xa1a2a3a4b1b2c1c2d1d2d3d4d5d6d7d8;
const TEXT: &str = "a1a2a3a4-b1b2-c1c2-d1d2-d3d4d5d6d7d8";

#[test]
fn parse_reads_hyphenated_text() {
    assert_eq!(Id::parse(TEXT), Some(Id { value: BITS }));
}

#[test]
fn parse_reads_the_other_forms() {
    let id = Some(Id { value: BITS });
    assert_eq!(Id::parse("a1a2a3a4b1b2c1c2d1d2d3d4d5d6d7d8"), id);
    assert_eq!(Id::parse("{a1a2a3a4-b1b2-c1c2-d1d2-d3d4d5d6d7d8}"), id);
    assert_eq!(Id::parse("urn:uuid:a1a2a3a4-b1b2-c1c2-d1d2-d3d4d5d6d7d8"), id);
    assert_eq!(Id::parse("A1A2A3A4-B1B2-C1C2-D1D2-D3D4D5D6D7D8"), id);
}

#[test]
fn parse_rejects_malformed_text() {
    assert_eq!(Id::parse(""), None);
    assert_eq!(Id::parse("42"), None);
    assert_eq!(Id::parse("a1a2a3a4-b1b2-c1c2-d1d2-d3d4d5d6d7d"), None);
    assert_eq!(Id::parse("a1a2a3a4-b1b2-c1c2-d1d2-d3d4d5d6d7dg"), None);
    assert_eq!(Id::parse("a1a2a3a4_b1b2_c1c2_d1d2_d3d4d5d6d7d8"), None);
}

#[test]
fn to_text_is_canonical() {
    assert_eq!(Id { value: BITS }.to_text(), TEXT);
    assert_eq!(Id { value: 0 }.to_text(), "00000000-0000-0000-0000-000000000000");
    assert_eq!(Id { value: u128::MAX }.to_text(), "ffffffff-ffff-ffff-ffff-ffffffffffff");
}

#[test]
fn text_is_read_back() {
    for value in [0u128, 1, BITS, u128::MAX, 0x0123456789abcdef0123456789abcdef] {
        let id = Id { value };
        assert_eq!(Id::parse(&id.to_text()), Some(id));
        assert_eq!(decode_id(&id.to_text()), Ok(id));
    }
}

#[test]
fn decode_id_rejects_with_validation() {
    assert_eq!(decode_id("not-an-identifier"), Err(AppError::Validation));
    assert_eq!(decode_id("1"), Err(AppError::Validation));
    assert_eq!(decode_id(TEXT), Ok(Id { value: BITS }));
}

#[test]
fn id_from_parse_maps_both_outcomes() {
    assert_eq!(id_from_parse(Some(7)), Ok(Id { value: 7 }));
    assert_eq!(id_from_parse(None), Err(AppError::Validation));
}
