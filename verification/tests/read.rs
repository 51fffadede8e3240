use gribberish::error::GribError;
use gribberish::field::Field;
use gribberish::message::Message;
use gribberish::sections::indicator::{Discipline, IndicatorSection};
use gribberish::time::DateTime;

#[test]
fn read_indicator() {
    let raw: [u8; 16] = [
        0x47, 0x52, 0x49, 0x42, 0x00, 0x00, 0x00, 0x02, 0x00, 0x00, 0x00, 0x00, 0x00, 0x00, 0x00,
        0xb3,
    ];
    let indicator = IndicatorSection::from_data(&raw, 0);
    assert!(indicator.valid());
    assert!(indicator.number() == 0);
    assert!(indicator.discipline() == Discipline::Meteorological);
}

fn build_message_with(bitmap_indicator: u8, bitmap_byte: u8, npoints: u32, payload: &[u8]) -> Vec<u8> {
    let mut m: Vec<u8> = Vec::new();

    // indicator: magic, reserved, discipline, edition, total length (patched below)
    m.extend_from_slice(b"GRIB");
    m.extend_from_slice(&[0, 0]);
    m.push(0);
    m.push(2);
    m.extend_from_slice(&0u64.to_be_bytes());

    // identification
    let mut s: Vec<u8> = Vec::new();
    s.extend_from_slice(&21u32.to_be_bytes());
    s.push(1);
    s.extend_from_slice(&7u16.to_be_bytes());
    s.extend_from_slice(&0u16.to_be_bytes());
    s.push(2);
    s.push(1);
    s.push(1);
    s.extend_from_slice(&2020u16.to_be_bytes());
    s.extend_from_slice(&[1, 1, 0, 0, 0]);
    s.extend_from_slice(&[0, 1]);
    assert_eq!(s.len(), 21);
    m.extend_from_slice(&s);

    // grid definition, Lambert Conformal Conic template
    let mut g = vec![0u8; 81];
    g[0..4].copy_from_slice(&81u32.to_be_bytes());
    g[4] = 3;
    g[6..10].copy_from_slice(&npoints.to_be_bytes());
    g[12..14].copy_from_slice(&30u16.to_be_bytes());
    g[14] = 6;
    g[30..34].copy_from_slice(&2u32.to_be_bytes());
    g[34..38].copy_from_slice(&2u32.to_be_bytes());
    g[38..42].copy_from_slice(&45_000_000u32.to_be_bytes());
    g[42..46].copy_from_slice(&270_000_000u32.to_be_bytes());
    g[55..59].copy_from_slice(&3_000_000u32.to_be_bytes());
    g[59..63].copy_from_slice(&3_000_000u32.to_be_bytes());
    g[64] = 0b0100_0000;
    g[65..69].copy_from_slice(&30_000_000u32.to_be_bytes());
    g[69..73].copy_from_slice(&60_000_000u32.to_be_bytes());
    m.extend_from_slice(&g);

    // product definition, horizontal analysis or forecast template
    let mut p = vec![0u8; 34];
    p[0..4].copy_from_slice(&34u32.to_be_bytes());
    p[4] = 4;
    p[9] = 0;
    p[10] = 0;
    p[12] = 2;
    p[17] = 1;
    p[18..22].copy_from_slice(&5u32.to_be_bytes());
    p[22] = 1;
    p[28] = 255;
    m.extend_from_slice(&p);

    // data representation, simple packing template
    let mut d = vec![0u8; 21];
    d[0..4].copy_from_slice(&21u32.to_be_bytes());
    d[4] = 5;
    d[5..9].copy_from_slice(&npoints.to_be_bytes());
    d[19] = 8;
    m.extend_from_slice(&d);

    // bitmap
    let mut b = vec![0u8; 7];
    b[0..4].copy_from_slice(&7u32.to_be_bytes());
    b[4] = 6;
    b[5] = bitmap_indicator;
    b[6] = bitmap_byte;
    m.extend_from_slice(&b);

    // data
    let data_len: u32 = 5 + payload.len() as u32;
    m.extend_from_slice(&data_len.to_be_bytes());
    m.push(7);
    m.extend_from_slice(payload);

    // end marker
    m.extend_from_slice(b"7777");

    let total: u64 = m.len() as u64;
    m[8..16].copy_from_slice(&total.to_be_bytes());
    m
}

fn build_message() -> Vec<u8> {
    build_message_with(255, 0, 4, &[10, 20, 30, 40])
}

#[test]
fn parse_single_message() {
    let buf = build_message();
    let message = Message::parse(buf.as_slice(), 0).unwrap();
    let total: usize = message.total_length() as usize;
    assert_eq!(total, buf.len());
    // re-slicing the declared total length reproduces the consumed range
    assert_eq!(message.data.as_slice(), &buf[0..total]);
    assert_eq!(message.section_count(), 8);
}

#[test]
fn parse_rejects_bad_magic() {
    let mut buf = build_message();
    buf[0] = 0x58;
    assert!(matches!(
        Message::parse(buf.as_slice(), 0),
        Err(GribError::Malformed(0, _))
    ));
}

#[test]
fn parse_rejects_truncated_message() {
    let buf = build_message();
    let short = &buf[0..buf.len() - 8];
    assert!(Message::parse(short, 0).is_err());
}

#[test]
fn read_multi() {
    let mut grib_data: Vec<u8> = Vec::new();
    for _ in 0..10 {
        grib_data.extend_from_slice(&build_message());
    }
    let messages = Message::parse_all(grib_data.as_slice());

    assert_eq!(messages.len(), 10);

    for message in messages {
        assert_eq!(message.sections.len(), 8);

        let field = Field::try_from(message);
        if let Err(_) = field {
            continue;
        }

        let field = field.unwrap();
        println!("{}: {}", field.variable_abbreviation, field.forecast_date.year);
    }
}

#[test]
fn field_from_fixture_message() {
    let buf = build_message();
    let message = Message::parse(buf.as_slice(), 0).unwrap();
    let field = Field::try_from(message).unwrap();
    assert_eq!(field.discipline, Discipline::Meteorological);
    assert_eq!(field.variable, "Temperature");
    assert_eq!(field.variable_abbreviation, "TMP");
    assert_eq!(field.units, "K");
    assert_eq!(
        field.reference_date,
        DateTime { year: 2020, month: 1, day: 1, hour: 0, minute: 0, second: 0 }
    );
    // five one-hour steps past the reference date
    assert_eq!(
        field.forecast_date,
        DateTime { year: 2020, month: 1, day: 1, hour: 5, minute: 0, second: 0 }
    );
    assert_eq!(field.array_index, None);
}

#[test]
fn parse_all_skips_garbage_between_messages() {
    let mut buf: Vec<u8> = vec![0x11, 0x22, 0x33, 0x47, 0x52];
    buf.extend_from_slice(&build_message());
    buf.extend_from_slice(&[0x47, 0x52, 0x49, 0x42, 0, 0, 0, 2]);
    let messages = Message::parse_all(buf.as_slice());
    assert_eq!(messages.len(), 1);
    assert_eq!(messages[0].section_count(), 8);
}

#[test]
fn dense_values_without_bitmap() {
    let buf = build_message();
    let message = Message::parse(buf.as_slice(), 0).unwrap();
    let dense = message.dense_packed_values().unwrap();
    assert_eq!(dense, vec![Some(10), Some(20), Some(30), Some(40)]);
}

#[test]
fn dense_values_masked_by_bitmap() {
    // bits 1,0,1,1,0,0,0,0: the second grid point is masked out even though
    // packed payload bytes are present
    let buf = build_message_with(0, 0b1011_0000, 3, &[10, 20, 30]);
    let message = Message::parse(buf.as_slice(), 0).unwrap();
    let dense = message.dense_packed_values().unwrap();
    assert_eq!(
        dense,
        vec![Some(10), None, Some(20), Some(30), None, None, None, None]
    );
}

#[test]
fn unsupported_product_template_fails_field() {
    let mut buf = build_message();
    // the product-definition section starts at 16 + 21 + 81; its template
    // number lies 7 bytes in
    let pd: usize = 16 + 21 + 81;
    buf[pd + 7..pd + 9].copy_from_slice(&7u16.to_be_bytes());
    let message = Message::parse(buf.as_slice(), 0).unwrap();
    assert!(matches!(
        Field::try_from(message),
        Err(GribError::UnsupportedTemplate(4, 7))
    ));
}

#[test]
fn unmapped_parameter_fails_field() {
    let mut buf = build_message();
    let pd: usize = 16 + 21 + 81;
    buf[pd + 10] = 99;
    let message = Message::parse(buf.as_slice(), 0).unwrap();
    assert!(matches!(
        Field::try_from(message),
        Err(GribError::UnmappedParameter(0, 99))
    ));
}
