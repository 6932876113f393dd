use arducap::codec::LogValue;
use arducap::fused::{finish_anchor, finish_frame_tf, FoxgloveFusedTransformer, FusedEmit, GeoPoint,
    ScalarNum};
use arducap::pipeline::{with_mcap_extension, ChannelRegistry, Session};
use arducap::reader::{ArduDefinition, ArduFrame, ArduMessage, FmtPacket};

fn padded(s: &str, width: usize) -> Vec<u8> {
    let mut v = s.as_bytes().to_vec();
    v.resize(width, 0);
    v
}

fn fmt_frame(type_id: u8, name: &str, tags: &str, labels: &str) -> Vec<u8> {
    let mut v = vec![0xA3, 0x95, 128, type_id, 89];
    v.extend_from_slice(&padded(name, 4));
    v.extend_from_slice(&padded(tags, 16));
    v.extend_from_slice(&padded(labels, 64));
    v
}

fn def_named(name: &str, type_id: u8) -> ArduDefinition {
    ArduDefinition {
        ardu_fmt: FmtPacket {
            type_id,
            length: 89,
            name: name.to_string(),
            format_tags: Vec::new(),
            labels_text: String::new(),
        },
        labels: Vec::new(),
    }
}

fn msg(type_id: u8, ts: u64, fields: Vec<(&str, LogValue)>) -> ArduMessage {
    ArduMessage {
        type_id,
        current_ts: ts,
        fields: fields.into_iter().map(|(l, v)| (l.to_string(), v)).collect(),
    }
}

fn float_json(v: f64) -> String {
    serde_json::Number::from_f64(v).unwrap().to_string()
}

#[test]
fn session_roundtrip_emits_sequenced_messages() {
    let mut log = fmt_frame(1, "TEST", "If", "TimeUS,Value");
    log.extend_from_slice(&[0xA3, 0x95, 1]);
    log.extend_from_slice(&1000u32.to_le_bytes());
    log.extend_from_slice(&3.14f32.to_bits().to_le_bytes());
    log.extend_from_slice(&[0xA3, 0x95, 1]);
    log.extend_from_slice(&2000u32.to_le_bytes());
    log.extend_from_slice(&(-1.0f32).to_bits().to_le_bytes());

    let mut session = Session::new(log);
    assert!(matches!(
        session.read_frame().unwrap(),
        ArduFrame::ArduDefinition(_)
    ));

    let mut expected_seq = 0u32;
    loop {
        match session.read_frame().unwrap() {
            ArduFrame::Eof => break,
            ArduFrame::ArduDefinition(_) => panic!("no further definitions expected"),
            ArduFrame::ArduMessage(m) => {
                let (to_generic, to_fused) = session.route(m.type_id);
                assert!(to_generic);
                assert!(!to_fused);
                let ts_expected = if expected_seq == 0 { 1_000_000 } else { 2_000_000 };
                assert_eq!(m.current_ts, ts_expected);
                // render the float fields the way the container writer sees them
                let txts: Vec<Option<String>> = m
                    .fields
                    .iter()
                    .map(|(_, v)| match v {
                        LogValue::Float(b) => Some(float_json(f32::from_bits(*b) as f64)),
                        LogValue::Double(b) => Some(float_json(f64::from_bits(*b))),
                        _ => None,
                    })
                    .collect();
                let out = session.transform_generic(&m, &txts);
                assert_eq!(out.len(), 1);
                assert_eq!(out[0].topic, "/ardupilot/TEST");
                assert_eq!(out[0].schema_name, "TEST");
                assert_eq!(out[0].schema_encoding, "jsonschema");
                assert_eq!(
                    out[0].schema_data,
                    br#"{"type":"object","title":"TEST","properties":{"TimeUS":{"type":"number"},"Value":{"type":"number"}}}"#
                );
                let value_txt = if expected_seq == 0 {
                    float_json(3.14f32 as f64)
                } else {
                    float_json(-1.0)
                };
                let expected_payload = format!(
                    "{{\"TimeUS\":{},\"Value\":{}}}",
                    if expected_seq == 0 { 1000 } else { 2000 },
                    value_txt
                );
                assert_eq!(out[0].payload, expected_payload.as_bytes());
                let cmd = session.deliver(&out[0]);
                assert_eq!(cmd.channel_id, 0);
                assert_eq!(cmd.fresh, expected_seq == 0);
                assert_eq!(cmd.sequence, expected_seq);
                expected_seq += 1;
            }
        }
    }
    assert_eq!(expected_seq, 2);
}

#[test]
fn nonfinite_floats_serialize_as_null() {
    let m = msg(1, 0, vec![("V", LogValue::Float(f32::NAN.to_bits()))]);
    let payload = arducap::json::render_record_json(&m.fields, &vec![None]);
    assert_eq!(payload, br#"{"V":null}"#);
}

#[test]
fn record_json_escapes_text_fields() {
    let fields = vec![
        ("Msg".to_string(), LogValue::Text("say \"hi\"\n".to_string())),
        ("N".to_string(), LogValue::Int(-7)),
    ];
    let payload = arducap::json::render_record_json(&fields, &vec![None, None]);
    assert_eq!(payload, br#"{"Msg":"say \"hi\"\n","N":-7}"#);
}

#[test]
fn registry_sequences_increase_by_one_per_channel() {
    let mut reg = ChannelRegistry::new();
    let (a, fresh_a) = reg.register_or_get(&"/t".to_string(), &"s".to_string());
    assert!(fresh_a);
    let (a2, fresh_a2) = reg.register_or_get(&"/t".to_string(), &"s".to_string());
    assert_eq!(a, a2);
    assert!(!fresh_a2);
    let (b, fresh_b) = reg.register_or_get(&"/t".to_string(), &"s2".to_string());
    assert!(fresh_b);
    assert_ne!(a, b);
    assert_eq!(reg.next_sequence(a), 0);
    assert_eq!(reg.next_sequence(a), 1);
    assert_eq!(reg.next_sequence(b), 0);
    assert_eq!(reg.next_sequence(a), 2);
    assert_eq!(reg.next_sequence(b), 1);
}

#[test]
fn fused_registers_only_the_three_names() {
    let mut ft = FoxgloveFusedTransformer::new();
    assert!(ft.check_registered_to_transform(&def_named("GPS", 10)));
    assert!(ft.check_registered_to_transform(&def_named("ATT", 11)));
    assert!(ft.check_registered_to_transform(&def_named("POS", 12)));
    assert!(!ft.check_registered_to_transform(&def_named("IMU", 13)));
}

fn gps_msg(type_id: u8, ts: u64, lat: i64, lon: i64, alt: f32) -> ArduMessage {
    msg(
        type_id,
        ts,
        vec![
            ("Lat", LogValue::Int(lat)),
            ("Lng", LogValue::Int(lon)),
            ("Alt", LogValue::Float(alt.to_bits())),
        ],
    )
}

#[test]
fn anchor_is_emitted_exactly_once() {
    let mut ft = FoxgloveFusedTransformer::new();
    ft.check_registered_to_transform(&def_named("GPS", 10));
    let gp = GeoPoint {
        lat_e7: 473977418,
        lon_e7: 85345678,
        alt: ScalarNum::SF32(100.0f32.to_bits()),
        alt_centimeters: true,
    };
    let out1 = ft.transform(&gps_msg(10, 1_500_000_123, 473977418, 85345678, 100.0));
    assert_eq!(out1.len(), 3);
    assert_eq!(out1[0], FusedEmit::Anchor(gp));
    assert_eq!(out1[1], FusedEmit::Trace(gp));
    match out1[2] {
        FusedEmit::FrameTf { sec, nsec, pos, home, .. } => {
            assert_eq!(sec, 1);
            assert_eq!(nsec, 500_000_123);
            assert_eq!(pos, gp);
            assert_eq!(home, gp);
        }
        _ => panic!("expected a frame transform"),
    }
    let out2 = ft.transform(&gps_msg(10, 2_000_000_000, 473977500, 85345700, 101.0));
    assert_eq!(out2.len(), 2);
    assert!(matches!(out2[0], FusedEmit::Trace(_)));
    assert!(matches!(out2[1], FusedEmit::FrameTf { .. }));
}

#[test]
fn small_latitude_means_no_fix_yet() {
    let mut ft = FoxgloveFusedTransformer::new();
    ft.check_registered_to_transform(&def_named("GPS", 10));
    // |lat| of exactly 0.1 degrees is still "no fix"
    let out = ft.transform(&gps_msg(10, 0, 1_000_000, 0, 0.0));
    assert_eq!(out.len(), 1);
    assert!(matches!(out[0], FusedEmit::Trace(_)));
    let out2 = ft.transform(&gps_msg(10, 0, -1_000_001, 0, 0.0));
    assert_eq!(out2.len(), 3);
    assert!(matches!(out2[0], FusedEmit::Anchor(_)));
}

#[test]
fn gps_is_suppressed_after_a_fused_position_record() {
    let mut ft = FoxgloveFusedTransformer::new();
    ft.check_registered_to_transform(&def_named("GPS", 10));
    ft.check_registered_to_transform(&def_named("POS", 12));
    let pos = msg(
        12,
        7,
        vec![
            ("Lat", LogValue::Int(473977418)),
            ("Lng", LogValue::Int(85345678)),
            ("Alt", LogValue::Float(55.0f32.to_bits())),
        ],
    );
    let out_pos = ft.transform(&pos);
    assert!(!out_pos.is_empty());
    let out_gps = ft.transform(&gps_msg(10, 8, 473977500, 85345700, 100.0));
    assert_eq!(out_gps.len(), 0);
    let out_gps2 = ft.transform(&gps_msg(10, 9, 473977600, 85345800, 100.0));
    assert_eq!(out_gps2.len(), 0);
}

#[test]
fn attitude_updates_feed_the_frame_transform() {
    let mut ft = FoxgloveFusedTransformer::new();
    ft.check_registered_to_transform(&def_named("POS", 12));
    ft.check_registered_to_transform(&def_named("ATT", 11));
    // attitude before a home exists: no emission
    let att = msg(
        11,
        5,
        vec![
            ("Roll", LogValue::Float(100.0f32.to_bits())),
            ("Pitch", LogValue::Float(200.0f32.to_bits())),
            ("Yaw", LogValue::Float(9000.0f32.to_bits())),
        ],
    );
    assert_eq!(ft.transform(&att).len(), 0);
    let pos = msg(12, 6, vec![("Lat", LogValue::Int(473977418)), ("Lng", LogValue::Int(85345678))]);
    ft.transform(&pos);
    let out = ft.transform(&att);
    assert_eq!(out.len(), 1);
    match out[0] {
        FusedEmit::FrameTf { roll, pitch, yaw, .. } => {
            assert_eq!(roll, ScalarNum::SF32(100.0f32.to_bits()));
            assert_eq!(pitch, ScalarNum::SF32(200.0f32.to_bits()));
            assert_eq!(yaw, ScalarNum::SF32(9000.0f32.to_bits()));
        }
        _ => panic!("expected a frame transform"),
    }
}

#[test]
fn missing_position_fields_default_to_zero() {
    let mut ft = FoxgloveFusedTransformer::new();
    ft.check_registered_to_transform(&def_named("GPS", 10));
    let out = ft.transform(&msg(10, 0, vec![("Spd", LogValue::UInt(3))]));
    assert_eq!(out.len(), 1);
    assert_eq!(
        out[0],
        FusedEmit::Trace(GeoPoint {
            lat_e7: 0,
            lon_e7: 0,
            alt: ScalarNum::SUInt(0),
            alt_centimeters: true,
        })
    );
}

#[test]
fn latitude_falls_back_to_the_long_spelling() {
    let mut ft = FoxgloveFusedTransformer::new();
    ft.check_registered_to_transform(&def_named("POS", 12));
    let m = msg(
        12,
        0,
        vec![
            ("Latitude", LogValue::Int(473977418)),
            ("Longitude", LogValue::Int(85345678)),
            ("Altitude", LogValue::Double(12.5f64.to_bits())),
        ],
    );
    let out = ft.transform(&m);
    assert_eq!(out[0], FusedEmit::Anchor(GeoPoint {
        lat_e7: 473977418,
        lon_e7: 85345678,
        alt: ScalarNum::SF64(12.5f64.to_bits()),
        alt_centimeters: false,
    }));
}

#[test]
fn anchor_message_has_the_fixed_topic_and_payload() {
    let m = finish_anchor("47.3".to_string(), "8.5".to_string(), "100.0".to_string());
    assert_eq!(m.topic, "/foxglove/map_origin");
    assert_eq!(m.schema_name, "foxglove.LocationFix");
    assert_eq!(m.schema_encoding, "jsonschema");
    assert!(m.schema_data.starts_with(b"{\n  \"type\": \"object\""));
    assert_eq!(
        m.payload,
        br#"{"frame_id":"world","latitude":47.3,"longitude":8.5,"altitude":100.0}"#
    );
}

#[test]
fn frame_transform_message_nests_its_payload() {
    let m = finish_frame_tf(
        1,
        500_000_123,
        "1.5".to_string(),
        "2.5".to_string(),
        "3.5".to_string(),
        "0.0".to_string(),
        "0.0".to_string(),
        "0.0".to_string(),
        "1.0".to_string(),
    );
    assert_eq!(m.topic, "/foxglove/base_link_transform");
    assert_eq!(m.schema_name, "foxglove.FrameTransform");
    assert_eq!(
        m.payload,
        br#"{"timestamp":{"sec":1,"nsec":500000123},"parent_frame_id":"world","child_frame_id":"base_link","translation":{"x":1.5,"y":2.5,"z":3.5},"rotation":{"x":0.0,"y":0.0,"z":0.0,"w":1.0}}"#
    );
}

#[test]
fn redefinition_rebuilds_subscriptions_from_scratch() {
    let mut log = fmt_frame(7, "GPS", "LLf", "Lat,Lng,Alt");
    log.extend_from_slice(&fmt_frame(7, "IMU", "fff", "AccX,AccY,AccZ"));
    let mut session = Session::new(log);
    session.read_frame().unwrap();
    assert_eq!(session.route(7), (true, true));
    session.read_frame().unwrap();
    // the old fused subscription is dropped, not merged
    assert_eq!(session.route(7), (true, false));
}

#[test]
fn empty_input_ends_immediately() {
    let mut session = Session::new(Vec::new());
    assert!(matches!(session.read_frame().unwrap(), ArduFrame::Eof));
}

#[test]
fn fused_records_flow_through_the_session() {
    // A GPS definition (subscribed by both transformers) and one fix.
    let mut log = fmt_frame(7, "GPS", "LLf", "Lat,Lng,Alt");
    log.extend_from_slice(&[0xA3, 0x95, 7]);
    log.extend_from_slice(&473977418i32.to_le_bytes());
    log.extend_from_slice(&85345678i32.to_le_bytes());
    log.extend_from_slice(&100.0f32.to_bits().to_le_bytes());

    let mut session = Session::new(log);
    session.read_frame().unwrap();
    let m = match session.read_frame().unwrap() {
        ArduFrame::ArduMessage(m) => m,
        _ => panic!("expected a record"),
    };
    let (to_generic, to_fused) = session.route(7);
    assert!(to_generic);
    assert!(to_fused);
    let emits = session.transform_fused(&m);
    assert_eq!(emits.len(), 3);
    assert!(matches!(emits[0], FusedEmit::Anchor(_)));
    // anchor and trace land on distinct channels even with one schema name
    let anchor = finish_anchor("47.3".to_string(), "8.5".to_string(), "1.0".to_string());
    let trace = arducap::fused::finish_trace(
        "47.3".to_string(),
        "8.5".to_string(),
        "1.0".to_string(),
    );
    let c1 = session.deliver(&anchor);
    let c2 = session.deliver(&trace);
    assert!(c1.fresh);
    assert!(c2.fresh);
    assert_ne!(c1.channel_id, c2.channel_id);
    assert_eq!(c1.sequence, 0);
    assert_eq!(c2.sequence, 0);
    let c3 = session.deliver(&trace);
    assert!(!c3.fresh);
    assert_eq!(c3.channel_id, c2.channel_id);
    assert_eq!(c3.sequence, 1);
}

#[test]
fn mcap_extension_replaces_or_appends() {
    assert_eq!(with_mcap_extension("log.bin"), "log.mcap");
    assert_eq!(with_mcap_extension("dir/log.bin"), "dir/log.mcap");
    assert_eq!(with_mcap_extension("noext"), "noext.mcap");
    assert_eq!(with_mcap_extension(".hidden"), ".hidden.mcap");
    assert_eq!(with_mcap_extension("a.b.c"), "a.b.mcap");
    assert_eq!(with_mcap_extension("dir.d/file"), "dir.d/file.mcap");
}
