use arducap::codec::{field_length, parse_value, LogValue};
use arducap::json::{dec_i64, dec_u64};
use arducap::reader::{ArduFrame, ArduReader, DecodeError};
use arducap::text::{sanitize_str, split_labels, trim_zeros};

fn padded(s: &str, width: usize) -> Vec<u8> {
    let mut v = s.as_bytes().to_vec();
    assert!(v.len() <= width);
    v.resize(width, 0);
    v
}

fn fmt_frame(type_id: u8, name: &str, tags: &str, labels: &str) -> Vec<u8> {
    let mut v = vec![0xA3, 0x95, 128, type_id, 89];
    v.extend_from_slice(&padded(name, 4));
    v.extend_from_slice(&padded(tags, 16));
    v.extend_from_slice(&padded(labels, 64));
    v
}

fn data_frame(type_id: u8, body: &[u8]) -> Vec<u8> {
    let mut v = vec![0xA3, 0x95, type_id];
    v.extend_from_slice(body);
    v
}

#[test]
fn field_lengths_cover_the_closed_tag_set() {
    let cases: &[(u8, u64)] = &[
        (b'b', 1),
        (b'B', 1),
        (b'M', 1),
        (b'h', 2),
        (b'c', 2),
        (b'H', 2),
        (b'C', 2),
        (b'i', 4),
        (b'L', 4),
        (b'I', 4),
        (b'E', 4),
        (b'e', 4),
        (b'f', 4),
        (b'n', 4),
        (b'q', 8),
        (b'Q', 8),
        (b'd', 8),
        (b'N', 16),
        (b'Z', 64),
    ];
    for &(tag, width) in cases {
        assert_eq!(field_length(tag), Some(width));
    }
    assert_eq!(field_length(b'x'), None);
    assert_eq!(field_length(b'0'), None);
}

#[test]
fn every_tag_decodes_a_full_width_buffer() {
    for &tag in b"bBMhcHCiLIEefnqQdNZ" {
        let width = field_length(tag).unwrap() as usize;
        let buf = vec![0u8; width];
        let v = parse_value(tag, &buf);
        match tag {
            b'b' | b'h' | b'c' | b'i' | b'L' | b'e' | b'q' => {
                assert_eq!(v, LogValue::Int(0))
            }
            b'B' | b'M' | b'H' | b'C' | b'I' | b'E' | b'Q' => {
                assert_eq!(v, LogValue::UInt(0))
            }
            b'f' => assert_eq!(v, LogValue::Float(0)),
            b'd' => assert_eq!(v, LogValue::Double(0)),
            _ => assert_eq!(v, LogValue::Text(String::new())),
        }
    }
}

#[test]
fn signed_decoding_is_twos_complement_little_endian() {
    assert_eq!(parse_value(b'b', &[0xFF]), LogValue::Int(-1));
    assert_eq!(parse_value(b'b', &[0x7F]), LogValue::Int(127));
    assert_eq!(parse_value(b'h', &[0xFE, 0xFF]), LogValue::Int(-2));
    assert_eq!(parse_value(b'i', &[0xD2, 0x02, 0x96, 0x49]), LogValue::Int(1234567890));
    assert_eq!(parse_value(b'i', &[0xFF, 0xFF, 0xFF, 0xFF]), LogValue::Int(-1));
    assert_eq!(
        parse_value(b'q', &[0x00, 0x00, 0x00, 0x00, 0x00, 0x00, 0x00, 0x80]),
        LogValue::Int(i64::MIN)
    );
    assert_eq!(parse_value(b'Q', &[0xFF; 8]), LogValue::UInt(u64::MAX));
    assert_eq!(parse_value(b'H', &[0x39, 0x30]), LogValue::UInt(12345));
}

#[test]
fn float_decoding_keeps_the_bit_pattern() {
    let bits = 3.14f32.to_bits();
    assert_eq!(parse_value(b'f', &bits.to_le_bytes()), LogValue::Float(bits));
    let dbits = (-1.5f64).to_bits();
    assert_eq!(parse_value(b'd', &dbits.to_le_bytes()), LogValue::Double(dbits));
}

#[test]
fn text_decoding_trims_nul_padding() {
    assert_eq!(parse_value(b'n', &[b'G', b'P', 0, 0]), LogValue::Text("GP".to_string()));
    let mut z = vec![0u8; 64];
    z[..5].copy_from_slice(b"hello");
    assert_eq!(parse_value(b'Z', &z), LogValue::Text("hello".to_string()));
}

#[test]
fn sanitize_str_trims_and_replaces_invalid_utf8() {
    assert_eq!(sanitize_str(b"AB\0\0"), "AB");
    assert_eq!(sanitize_str(b"A\xFFB\0"), "A\u{FFFD}B");
    assert_eq!(sanitize_str(b""), "");
    assert_eq!(sanitize_str(b"\0\0"), "");
}

#[test]
fn trim_zeros_only_touches_the_tail() {
    assert_eq!(trim_zeros(b"a\0b\0\0"), b"a\0b");
    assert_eq!(trim_zeros(b"\0\0"), Vec::<u8>::new());
}

#[test]
fn split_labels_splits_on_commas_and_trims() {
    assert_eq!(split_labels(&padded("TimeUS,Lat,Lng", 64)), vec!["TimeUS", "Lat", "Lng"]);
    assert_eq!(split_labels(&padded("a, b ,c", 64)), vec!["a", "b", "c"]);
    assert_eq!(split_labels(&padded("", 64)), vec![""]);
    assert_eq!(split_labels(&padded("x,", 64)), vec!["x", ""]);
}

#[test]
fn decimal_rendering_is_exact() {
    assert_eq!(dec_u64(0), b"0");
    assert_eq!(dec_u64(18446744073709551615), b"18446744073709551615");
    assert_eq!(dec_i64(-1), b"-1");
    assert_eq!(dec_i64(i64::MIN), b"-9223372036854775808");
    assert_eq!(dec_i64(1000), b"1000");
}

#[test]
fn definition_then_record_roundtrip() {
    let mut log = fmt_frame(1, "TEST", "If", "TimeUS,Value");
    let mut rec = data_frame(1, &1000u32.to_le_bytes());
    rec.extend_from_slice(&3.14f32.to_bits().to_le_bytes());
    log.extend_from_slice(&rec);
    let mut rec2 = data_frame(1, &2000u32.to_le_bytes());
    rec2.extend_from_slice(&(-1.0f32).to_bits().to_le_bytes());
    log.extend_from_slice(&rec2);

    let mut reader = ArduReader::new(log);
    match reader.read().unwrap() {
        ArduFrame::ArduDefinition(def) => {
            assert_eq!(def.ardu_fmt.type_id, 1);
            assert_eq!(def.ardu_fmt.name, "TEST");
            assert_eq!(def.ardu_fmt.format_tags, b"If");
            assert_eq!(def.labels, vec!["TimeUS", "Value"]);
        }
        _ => panic!("expected a definition"),
    }
    match reader.read().unwrap() {
        ArduFrame::ArduMessage(m) => {
            assert_eq!(m.type_id, 1);
            assert_eq!(m.current_ts, 1_000_000);
            assert_eq!(m.fields.len(), 2);
            assert_eq!(m.fields[0], ("TimeUS".to_string(), LogValue::UInt(1000)));
            assert_eq!(m.fields[1], ("Value".to_string(), LogValue::Float(3.14f32.to_bits())));
        }
        _ => panic!("expected a record"),
    }
    match reader.read().unwrap() {
        ArduFrame::ArduMessage(m) => {
            assert_eq!(m.current_ts, 2_000_000);
            assert_eq!(m.fields[0], ("TimeUS".to_string(), LogValue::UInt(2000)));
            assert_eq!(m.fields[1], ("Value".to_string(), LogValue::Float((-1.0f32).to_bits())));
        }
        _ => panic!("expected a record"),
    }
    assert!(matches!(reader.read().unwrap(), ArduFrame::Eof));
}

#[test]
fn timestamp_carries_forward_until_replaced() {
    let mut log = fmt_frame(1, "A", "I", "TimeUS");
    log.extend_from_slice(&fmt_frame(2, "B", "B", "Flag"));
    log.extend_from_slice(&data_frame(1, &5000u32.to_le_bytes()));
    log.extend_from_slice(&data_frame(2, &[7]));
    log.extend_from_slice(&data_frame(2, &[8]));
    log.extend_from_slice(&data_frame(1, &9000u32.to_le_bytes()));
    log.extend_from_slice(&data_frame(2, &[9]));

    let mut reader = ArduReader::new(log);
    reader.read().unwrap();
    reader.read().unwrap();
    let ts: Vec<u64> = (0..5)
        .map(|_| match reader.read().unwrap() {
            ArduFrame::ArduMessage(m) => m.current_ts,
            _ => panic!("expected records"),
        })
        .collect();
    assert_eq!(ts, vec![5_000_000, 5_000_000, 5_000_000, 9_000_000, 9_000_000]);
}

#[test]
fn zero_timeus_inherits_the_carried_timestamp() {
    let mut log = fmt_frame(1, "A", "I", "TimeUS");
    log.extend_from_slice(&data_frame(1, &4000u32.to_le_bytes()));
    log.extend_from_slice(&data_frame(1, &0u32.to_le_bytes()));
    let mut reader = ArduReader::new(log);
    reader.read().unwrap();
    reader.read().unwrap();
    match reader.read().unwrap() {
        ArduFrame::ArduMessage(m) => assert_eq!(m.current_ts, 4_000_000),
        _ => panic!("expected a record"),
    }
}

#[test]
fn truncated_final_field_ends_the_session_cleanly() {
    let mut log = fmt_frame(1, "TEST", "If", "TimeUS,Value");
    log.extend_from_slice(&data_frame(1, &1000u32.to_le_bytes()));
    log.extend_from_slice(&[0x12, 0x34]);  // two of the four float bytes
    let mut reader = ArduReader::new(log);
    reader.read().unwrap();
    assert!(matches!(reader.read().unwrap(), ArduFrame::Eof));
}

#[test]
fn exact_frame_boundary_ends_cleanly() {
    let mut log = fmt_frame(1, "A", "B", "X");
    log.extend_from_slice(&data_frame(1, &[42]));
    let mut reader = ArduReader::new(log);
    reader.read().unwrap();
    reader.read().unwrap();
    assert!(matches!(reader.read().unwrap(), ArduFrame::Eof));
}

#[test]
fn partial_header_and_bad_marker_end_cleanly() {
    let mut reader = ArduReader::new(vec![0xA3]);
    assert!(matches!(reader.read().unwrap(), ArduFrame::Eof));
    let mut reader2 = ArduReader::new(vec![0x00, 0x95, 0x01]);
    assert!(matches!(reader2.read().unwrap(), ArduFrame::Eof));
}

#[test]
fn unknown_record_type_is_fatal() {
    let log = data_frame(5, &[1, 2, 3]);
    let mut reader = ArduReader::new(log);
    assert_eq!(reader.read().unwrap_err(), DecodeError::UnknownRecordType(5));
}

#[test]
fn unsupported_field_code_is_fatal() {
    let mut log = fmt_frame(1, "A", "x", "Weird");
    log.extend_from_slice(&data_frame(1, &[1, 2, 3, 4]));
    let mut reader = ArduReader::new(log);
    reader.read().unwrap();
    assert_eq!(reader.read().unwrap_err(), DecodeError::UnsupportedFieldCode(b'x'));
}

#[test]
fn truncated_definition_is_fatal() {
    let log = vec![0xA3, 0x95, 128, 1, 89, b'A'];
    let mut reader = ArduReader::new(log);
    assert_eq!(reader.read().unwrap_err(), DecodeError::TruncatedDefinition);
}

#[test]
fn excess_tags_beyond_labels_are_consumed_but_unlabeled() {
    // Two one-byte fields but a single label: the second field's byte is
    // consumed for alignment and dropped from the mapping.
    let mut log = fmt_frame(1, "A", "BB", "Only");
    log.extend_from_slice(&data_frame(1, &[7, 8]));
    log.extend_from_slice(&data_frame(1, &[9, 10]));
    let mut reader = ArduReader::new(log);
    reader.read().unwrap();
    match reader.read().unwrap() {
        ArduFrame::ArduMessage(m) => {
            assert_eq!(m.fields, vec![("Only".to_string(), LogValue::UInt(7))]);
        }
        _ => panic!("expected a record"),
    }
    // alignment held: the next record decodes from the right offset
    match reader.read().unwrap() {
        ArduFrame::ArduMessage(m) => {
            assert_eq!(m.fields, vec![("Only".to_string(), LogValue::UInt(9))]);
        }
        _ => panic!("expected a record"),
    }
}

#[test]
fn duplicate_labels_collapse_to_the_last_value() {
    let mut log = fmt_frame(1, "A", "BB", "X,X");
    log.extend_from_slice(&data_frame(1, &[1, 2]));
    let mut reader = ArduReader::new(log);
    reader.read().unwrap();
    match reader.read().unwrap() {
        ArduFrame::ArduMessage(m) => {
            assert_eq!(m.fields, vec![("X".to_string(), LogValue::UInt(2))]);
        }
        _ => panic!("expected a record"),
    }
}

#[test]
fn redefinition_replaces_the_layout() {
    let mut log = fmt_frame(1, "A", "B", "X");
    log.extend_from_slice(&data_frame(1, &[5]));
    log.extend_from_slice(&fmt_frame(1, "A", "H", "Y"));
    log.extend_from_slice(&data_frame(1, &[0x2A, 0x00]));
    let mut reader = ArduReader::new(log);
    reader.read().unwrap();
    match reader.read().unwrap() {
        ArduFrame::ArduMessage(m) => {
            assert_eq!(m.fields, vec![("X".to_string(), LogValue::UInt(5))])
        }
        _ => panic!("expected a record"),
    }
    reader.read().unwrap();
    match reader.read().unwrap() {
        ArduFrame::ArduMessage(m) => {
            assert_eq!(m.fields, vec![("Y".to_string(), LogValue::UInt(42))])
        }
        _ => panic!("expected a record"),
    }
}
