//! The fused-geodetic transformer: accumulates position and attitude
//! state across records and decides which location and 3D frame-transform
//! messages to emit.
//!
//! All decisions are made here on plain values: latitude and longitude as
//! the log's 1e-7-degree fixed-point integers, altitude and attitude as
//! the raw decoded scalars. The floating-point geodesy (WGS-84 to local
//! East-North-Up, Euler angles to quaternion) and number rendering belong
//! to the caller, which turns the emitted descriptors into messages
//! through [`finish_anchor`], [`finish_trace`] and [`finish_frame_tf`].
use vstd::prelude::*;

use crate::codec::ValModel;
use crate::json::{spec_fields_view, spec_record_json, spec_txts_view, render_record_json};
use crate::reader::{ArduDefinition, ArduMessage};
use crate::transform::TransformedMessage;
use vstd::string::StringSliceAdditionalSpecFns;

verus! {

/// A raw numeric scalar as decoded from a record: an integer, or a
/// finite float's bit pattern. Missing and non-finite values are the
/// zero default.
#[derive(Clone, Copy, PartialEq, Eq, Structural, Debug)]
pub enum ScalarNum {
    SInt(i64),
    SUInt(u64),
    SF32(u32),
    SF64(u64),
}

/// A position observation: fixed-point latitude and longitude in 1e-7
/// degrees, the raw altitude scalar, and whether the source reports
/// altitude in centimeters (so a 0.01 unit scale applies).
#[derive(Clone, Copy, PartialEq, Eq, Structural, Debug)]
pub struct GeoPoint {
    pub lat_e7: i64,
    pub lon_e7: i64,
    pub alt: ScalarNum,
    pub alt_centimeters: bool,
}

/// The three record types the fused transformer subscribes to.
#[derive(Clone, Copy, PartialEq, Eq, Structural, Debug)]
pub enum FusedKind {
    Gps,
    Att,
    Pos,
}

/// An output decision of the fused transformer, to be turned into a
/// message by the caller once the floating-point values are computed.
#[derive(Clone, Copy, PartialEq, Eq, Structural, Debug)]
pub enum FusedEmit {
    /// The one-time world anchor at the frozen home position.
    Anchor(GeoPoint),
    /// The continuously updated position trace.
    Trace(GeoPoint),
    /// The world-to-body frame transform: timestamp split into seconds
    /// and nanoseconds, current position, attitude (roll, pitch, yaw raw
    /// scalars), and the home origin.
    FrameTf {
        sec: u64,
        nsec: u64,
        pos: GeoPoint,
        roll: ScalarNum,
        pitch: ScalarNum,
        yaw: ScalarNum,
        home: GeoPoint,
    },
}

/// The session state the fused transformer accumulates.
#[derive(Clone, Copy, PartialEq, Eq, Structural, Debug)]
pub struct FusedState {
    pub home: Option<GeoPoint>,
    pub current_pos: GeoPoint,
    pub roll: ScalarNum,
    pub pitch: ScalarNum,
    pub yaw: ScalarNum,
    pub has_seen_pos: bool,
}

/// A zero scalar: what a missing or non-finite value contributes.
pub open spec fn spec_zero_scalar() -> ScalarNum {
    ScalarNum::SUInt(0)
}

pub open spec fn spec_zero_point() -> GeoPoint {
    GeoPoint { lat_e7: 0, lon_e7: 0, alt: spec_zero_scalar(), alt_centimeters: false }
}

pub open spec fn spec_initial_state() -> FusedState {
    FusedState {
        home: None,
        current_pos: spec_zero_point(),
        roll: spec_zero_scalar(),
        pitch: spec_zero_scalar(),
        yaw: spec_zero_scalar(),
        has_seen_pos: false,
    }
}

/// The first member of `fields` labeled `l`, if any.
pub open spec fn spec_get(fields: Seq<(Seq<char>, ValModel)>, l: Seq<char>) -> Option<ValModel>
    decreases fields.len(),
{
    if fields.len() == 0 {
        None
    } else if fields[0].0 == l {
        Some(fields[0].1)
    } else {
        spec_get(fields.drop_first(), l)
    }
}

/// A 32-bit float bit pattern with a finite value (exponent bits not all
/// ones).
pub open spec fn spec_f32_finite(b: u32) -> bool {
    (b >> 23) & 0xff != 0xff
}

/// A 64-bit float bit pattern with a finite value.
pub open spec fn spec_f64_finite(b: u64) -> bool {
    (b >> 52) & 0x7ff != 0x7ff
}

/// The signed-integer reading of a value, as far as one exists: signed
/// integers as themselves, unsigned ones that fit, nothing else.
pub open spec fn spec_as_i64(v: ValModel) -> Option<i64> {
    match v {
        ValModel::Int(n) => Some(n),
        ValModel::UInt(n) => if n <= 0x7fff_ffff_ffff_ffff {
            Some(n as i64)
        } else {
            None
        },
        _ => None,
    }
}

/// The numeric-scalar reading of a value: integers and finite floats;
/// text and non-finite floats read as nothing.
pub open spec fn spec_as_scalar(v: ValModel) -> Option<ScalarNum> {
    match v {
        ValModel::Int(n) => Some(ScalarNum::SInt(n)),
        ValModel::UInt(n) => Some(ScalarNum::SUInt(n)),
        ValModel::Float(b) => if spec_f32_finite(b) {
            Some(ScalarNum::SF32(b))
        } else {
            None
        },
        ValModel::Double(b) => if spec_f64_finite(b) {
            Some(ScalarNum::SF64(b))
        } else {
            None
        },
        _ => None,
    }
}

/// The integer under label `a`, else under label `b`, else 0.
pub open spec fn spec_i64_or(
    fields: Seq<(Seq<char>, ValModel)>,
    a: Seq<char>,
    b: Seq<char>,
) -> i64 {
    match spec_get(fields, a) {
        Some(v) => match spec_as_i64(v) {
            Some(n) => n,
            None => spec_i64_fallback(fields, b),
        },
        None => spec_i64_fallback(fields, b),
    }
}

pub open spec fn spec_i64_fallback(fields: Seq<(Seq<char>, ValModel)>, b: Seq<char>) -> i64 {
    match spec_get(fields, b) {
        Some(v) => match spec_as_i64(v) {
            Some(n) => n,
            None => 0,
        },
        None => 0,
    }
}

/// The numeric scalar under label `a`, else under label `b`, else zero.
pub open spec fn spec_scalar_or(
    fields: Seq<(Seq<char>, ValModel)>,
    a: Seq<char>,
    b: Seq<char>,
) -> ScalarNum {
    match spec_get(fields, a) {
        Some(v) => match spec_as_scalar(v) {
            Some(s) => s,
            None => spec_scalar_fallback(fields, b),
        },
        None => spec_scalar_fallback(fields, b),
    }
}

pub open spec fn spec_scalar_fallback(
    fields: Seq<(Seq<char>, ValModel)>,
    b: Seq<char>,
) -> ScalarNum {
    match spec_get(fields, b) {
        Some(v) => match spec_as_scalar(v) {
            Some(s) => s,
            None => spec_zero_scalar(),
        },
        None => spec_zero_scalar(),
    }
}

/// The position carried by a record: `Lat`/`Lng` fixed-point fields with
/// the `Latitude`/`Longitude` spellings as fallback, and the `Alt` or
/// `Altitude` scalar, in centimeters for the GPS-class source.
pub open spec fn spec_geo_of(fields: Seq<(Seq<char>, ValModel)>, is_gps: bool) -> GeoPoint {
    GeoPoint {
        lat_e7: spec_i64_or(fields, "Lat"@, "Latitude"@),
        lon_e7: spec_i64_or(fields, "Lng"@, "Longitude"@),
        alt: spec_scalar_or(fields, "Alt"@, "Altitude"@),
        alt_centimeters: is_gps,
    }
}

/// Whether a latitude counts as a fix: magnitude above 0.1 degrees. In
/// 1e-7-degree fixed point that is a magnitude above 1,000,000.
pub open spec fn spec_lat_valid(lat_e7: i64) -> bool {
    lat_e7 > 1_000_000 || lat_e7 < -1_000_000
}

/// One step of the fused transformer on a record of kind `kind` with the
/// given fields and timestamp: the next state and the emissions, in
/// order.
pub open spec fn spec_fused_step(
    st: FusedState,
    kind: FusedKind,
    fields: Seq<(Seq<char>, ValModel)>,
    ts: u64,
) -> (FusedState, Seq<FusedEmit>) {
    if kind == FusedKind::Gps && st.has_seen_pos {
        (st, Seq::empty())
    } else {
        let st1 = if kind == FusedKind::Pos {
            FusedState { has_seen_pos: true, ..st }
        } else {
            st
        };
        let (st3, out2) = if kind == FusedKind::Gps || kind == FusedKind::Pos {
            let gp = spec_geo_of(fields, kind == FusedKind::Gps);
            let (st2, out1) = if st1.home is None && spec_lat_valid(gp.lat_e7) {
                (FusedState { home: Some(gp), ..st1 }, seq![FusedEmit::Anchor(gp)])
            } else {
                (st1, Seq::<FusedEmit>::empty())
            };
            ((FusedState { current_pos: gp, ..st2 }), out1.push(FusedEmit::Trace(gp)))
        } else {
            (
                (FusedState {
                    roll: spec_scalar_fallback(fields, "Roll"@),
                    pitch: spec_scalar_fallback(fields, "Pitch"@),
                    yaw: spec_scalar_fallback(fields, "Yaw"@),
                    ..st1
                }),
                Seq::<FusedEmit>::empty(),
            )
        };
        match st3.home {
            Some(h) => (
                st3,
                out2.push(
                    FusedEmit::FrameTf {
                        sec: ts / 1_000_000_000,
                        nsec: ts % 1_000_000_000,
                        pos: st3.current_pos,
                        roll: st3.roll,
                        pitch: st3.pitch,
                        yaw: st3.yaw,
                        home: h,
                    },
                ),
            ),
            None => (st3, out2),
        }
    }
}

proof fn lemma_get_at(s: Seq<(Seq<char>, ValModel)>, l: Seq<char>, j: int)
    requires
        0 <= j < s.len(),
        forall|k: int| 0 <= k < j ==> s[k].0 != l,
        s[j].0 == l,
    ensures
        spec_get(s, l) == Some(s[j].1),
    decreases j,
{
    if j > 0 {
        lemma_get_at(s.drop_first(), l, j - 1);
    }
}

proof fn lemma_get_none(s: Seq<(Seq<char>, ValModel)>, l: Seq<char>)
    requires
        forall|k: int| 0 <= k < s.len() ==> s[k].0 != l,
    ensures
        spec_get(s, l) is None,
    decreases s.len(),
{
    if s.len() > 0 {
        lemma_get_none(s.drop_first(), l);
    }
}

/// Finds the value labeled `name` in the record's fields.
#[verifier::loop_isolation(false)]
fn find_value<'a>(fields: &'a Vec<(String, crate::codec::LogValue)>, name: &str) -> (r: Option<
    &'a crate::codec::LogValue,
>)
    ensures
        match r {
            Some(v) => spec_get(spec_fields_view(fields@), name@) == Some(v@),
            None => spec_get(spec_fields_view(fields@), name@) is None,
        },
{
    let target = String::from_str(name);
    let n = fields.len();
    let mut j: usize = 0;
    while j < n
        invariant
            j <= n,
            forall|k: int| 0 <= k < j ==> spec_fields_view(fields@)[k].0 != name@,
        decreases n - j,
    {
        if fields[j].0.eq(&target) {
            proof {
                lemma_get_at(spec_fields_view(fields@), name@, j as int);
            }
            return Some(&fields[j].1);
        }
        proof {
            assert(spec_fields_view(fields@)[j as int].0 == fields@[j as int].0@);
        }
        j = j + 1;
    }
    proof {
        lemma_get_none(spec_fields_view(fields@), name@);
    }
    None
}

fn as_i64_of(v: &crate::codec::LogValue) -> (r: Option<i64>)
    ensures
        r == spec_as_i64(v@),
{
    match v {
        crate::codec::LogValue::Int(n) => Some(*n),
        crate::codec::LogValue::UInt(n) => {
            if *n <= 0x7fff_ffff_ffff_ffff {
                Some(*n as i64)
            } else {
                None
            }
        },
        _ => None,
    }
}

fn as_scalar_of(v: &crate::codec::LogValue) -> (r: Option<ScalarNum>)
    ensures
        r == spec_as_scalar(v@),
{
    match v {
        crate::codec::LogValue::Int(n) => Some(ScalarNum::SInt(*n)),
        crate::codec::LogValue::UInt(n) => Some(ScalarNum::SUInt(*n)),
        crate::codec::LogValue::Float(b) => {
            if (*b >> 23) & 0xff != 0xff {
                Some(ScalarNum::SF32(*b))
            } else {
                None
            }
        },
        crate::codec::LogValue::Double(b) => {
            if (*b >> 52) & 0x7ff != 0x7ff {
                Some(ScalarNum::SF64(*b))
            } else {
                None
            }
        },
        _ => None,
    }
}

fn get_i64_or(fields: &Vec<(String, crate::codec::LogValue)>, a: &str, b: &str) -> (r: i64)
    ensures
        r == spec_i64_or(spec_fields_view(fields@), a@, b@),
{
    match find_value(fields, a) {
        Some(v) => match as_i64_of(v) {
            Some(n) => n,
            None => get_i64_fallback(fields, b),
        },
        None => get_i64_fallback(fields, b),
    }
}

fn get_i64_fallback(fields: &Vec<(String, crate::codec::LogValue)>, b: &str) -> (r: i64)
    ensures
        r == spec_i64_fallback(spec_fields_view(fields@), b@),
{
    match find_value(fields, b) {
        Some(v) => match as_i64_of(v) {
            Some(n) => n,
            None => 0,
        },
        None => 0,
    }
}

fn get_scalar_or(fields: &Vec<(String, crate::codec::LogValue)>, a: &str, b: &str) -> (r: ScalarNum)
    ensures
        r == spec_scalar_or(spec_fields_view(fields@), a@, b@),
{
    match find_value(fields, a) {
        Some(v) => match as_scalar_of(v) {
            Some(s) => s,
            None => get_scalar_fallback(fields, b),
        },
        None => get_scalar_fallback(fields, b),
    }
}

fn get_scalar_fallback(fields: &Vec<(String, crate::codec::LogValue)>, b: &str) -> (r: ScalarNum)
    ensures
        r == spec_scalar_fallback(spec_fields_view(fields@), b@),
{
    match find_value(fields, b) {
        Some(v) => match as_scalar_of(v) {
            Some(s) => s,
            None => ScalarNum::SUInt(0),
        },
        None => ScalarNum::SUInt(0),
    }
}

/// Accumulates position and attitude across the records of one session
/// and emits location and frame-transform decisions.
pub struct FoxgloveFusedTransformer {
    pub state: FusedState,
    pub topic_map: Vec<Option<FusedKind>>,
}

impl FoxgloveFusedTransformer {
    /// One subscription slot per possible type id.
    pub open spec fn wf(self) -> bool {
        self.topic_map@.len() == 256
    }

    /// A fresh fused transformer: no home, zero position and attitude,
    /// no fused-position record seen, no subscriptions.
    pub fn new() -> (r: Self)
        ensures
            r.wf(),
            r.state == spec_initial_state(),
            forall|i: int| 0 <= i < 256 ==> r.topic_map@[i] is None,
    {
        let mut topic_map: Vec<Option<FusedKind>> = Vec::new();
        let mut k: usize = 0;
        while k < 256
            invariant
                k <= 256,
                topic_map@.len() == k,
                forall|i: int| 0 <= i < k ==> topic_map@[i] is None,
            decreases 256 - k,
        {
            topic_map.push(None);
            k = k + 1;
        }
        FoxgloveFusedTransformer {
            state: FusedState {
                home: None,
                current_pos: GeoPoint {
                    lat_e7: 0,
                    lon_e7: 0,
                    alt: ScalarNum::SUInt(0),
                    alt_centimeters: false,
                },
                roll: ScalarNum::SUInt(0),
                pitch: ScalarNum::SUInt(0),
                yaw: ScalarNum::SUInt(0),
                has_seen_pos: false,
            },
            topic_map,
        }
    }

    /// The kind a definition registers as, if any: only the three
    /// position/attitude record names are of interest.
    pub open spec fn spec_kind_of_name(name: Seq<char>) -> Option<FusedKind> {
        if name == "GPS"@ {
            Some(FusedKind::Gps)
        } else if name == "ATT"@ {
            Some(FusedKind::Att)
        } else if name == "POS"@ {
            Some(FusedKind::Pos)
        } else {
            None
        }
    }

    /// Accepts exactly the position-fix, attitude and fused-position
    /// definitions, remembering the kind under the type id; ignores all
    /// others, leaving the subscriptions unchanged.
    pub fn check_registered_to_transform(&mut self, definition: &ArduDefinition) -> (r: bool)
        requires
            old(self).wf(),
        ensures
            final(self).wf(),
            final(self).state == old(self).state,
            r == Self::spec_kind_of_name(definition@.name) is Some,
            !r ==> final(self).topic_map@ == old(self).topic_map@,
            r ==> {
                &&& forall|j: int|
                    0 <= j < 256 && j != definition@.type_id ==> final(self).topic_map@[j] == old(
                        self,
                    ).topic_map@[j]
                &&& final(self).topic_map@[definition@.type_id as int] == Self::spec_kind_of_name(
                    definition@.name,
                )
            },
    {
        let name = &definition.ardu_fmt.name;
        let kind: Option<FusedKind> = if name.eq(&String::from_str("GPS")) {
            Some(FusedKind::Gps)
        } else if name.eq(&String::from_str("ATT")) {
            Some(FusedKind::Att)
        } else if name.eq(&String::from_str("POS")) {
            Some(FusedKind::Pos)
        } else {
            None
        };
        match kind {
            Some(k) => {
                self.topic_map[definition.ardu_fmt.type_id as usize] = Some(k);
                true
            },
            None => false,
        }
    }

    /// Processes one record the transformer subscribed to, updating the
    /// session state and returning the emissions of
    /// [`spec_fused_step`]: nothing for a GPS-class record once a
    /// fused-position record has been seen; otherwise the one-time
    /// anchor when the home freezes, the position trace for position
    /// records, and the frame transform whenever a home exists.
    pub fn transform(&mut self, msg: &ArduMessage) -> (out: Vec<FusedEmit>)
        requires
            old(self).wf(),
            old(self).topic_map@[msg.type_id as int] is Some,
        ensures
            final(self).wf(),
            final(self).topic_map@ == old(self).topic_map@,
            ({
                let kind = old(self).topic_map@[msg.type_id as int]->0;
                let so = spec_fused_step(old(self).state, kind, msg@.fields, msg@.ts);
                final(self).state == so.0 && out@ == so.1
            }),
    {
        let kind = match &self.topic_map[msg.type_id as usize] {
            Option::Some(k) => *k,
            Option::None => {
                proof {
                    assert(false);
                }
                unreached()
            },
        };
        let mut out: Vec<FusedEmit> = Vec::new();
        if kind == FusedKind::Gps && self.state.has_seen_pos {
            proof {
                assert(out@ =~= spec_fused_step(
                    old(self).state,
                    kind,
                    msg@.fields,
                    msg@.ts,
                ).1);
            }
            return out;
        }
        if kind == FusedKind::Pos {
            self.state.has_seen_pos = true;
        }
        if kind == FusedKind::Gps || kind == FusedKind::Pos {
            let gp = GeoPoint {
                lat_e7: get_i64_or(&msg.fields, "Lat", "Latitude"),
                lon_e7: get_i64_or(&msg.fields, "Lng", "Longitude"),
                alt: get_scalar_or(&msg.fields, "Alt", "Altitude"),
                alt_centimeters: kind == FusedKind::Gps,
            };
            let lat_ok = gp.lat_e7 > 1_000_000 || gp.lat_e7 < -1_000_000;
            if self.state.home.is_none() && lat_ok {
                self.state.home = Some(gp);
                out.push(FusedEmit::Anchor(gp));
            }
            self.state.current_pos = gp;
            out.push(FusedEmit::Trace(gp));
        } else {
            self.state.roll = get_scalar_fallback(&msg.fields, "Roll");
            self.state.pitch = get_scalar_fallback(&msg.fields, "Pitch");
            self.state.yaw = get_scalar_fallback(&msg.fields, "Yaw");
        }
        match self.state.home {
            Some(h) => {
                out.push(
                    FusedEmit::FrameTf {
                        sec: msg.current_ts / 1_000_000_000,
                        nsec: msg.current_ts % 1_000_000_000,
                        pos: self.state.current_pos,
                        roll: self.state.roll,
                        pitch: self.state.pitch,
                        yaw: self.state.yaw,
                        home: h,
                    },
                );
            },
            None => {},
        }
        proof {
            let so = spec_fused_step(old(self).state, kind, msg@.fields, msg@.ts);
            assert(self.state == so.0);
            assert(out@ =~= so.1);
        }
        out
    }
}

/// The schema document of the two location messages.
pub open spec fn spec_location_fix_schema() -> Seq<u8> {
    "{\n  \"type\": \"object\",\n  \"properties\": {\n    \"latitude\": { \"type\": \"number\" },\n    \"longitude\": { \"type\": \"number\" },\n    \"altitude\": { \"type\": \"number\" },\n    \"position_covariance_type\": { \"type\": \"integer\" },\n    \"position_covariance\": { \"type\": \"array\", \"items\": { \"type\": \"number\" } }\n  }\n}".spec_bytes()
}

/// The schema bytes of the location messages.
pub fn location_fix_schema() -> (r: Vec<u8>)
    ensures
        r@ == spec_location_fix_schema(),
{
    "{\n  \"type\": \"object\",\n  \"properties\": {\n    \"latitude\": { \"type\": \"number\" },\n    \"longitude\": { \"type\": \"number\" },\n    \"altitude\": { \"type\": \"number\" },\n    \"position_covariance_type\": { \"type\": \"integer\" },\n    \"position_covariance\": { \"type\": \"array\", \"items\": { \"type\": \"number\" } }\n  }\n}".as_bytes_vec()
}

/// The schema document of the frame-transform message.
pub open spec fn spec_frame_transform_schema() -> Seq<u8> {
    "{\n  \"type\": \"object\",\n  \"properties\": {\n    \"timestamp\": {\n      \"type\": \"object\",\n      \"properties\": { \"sec\": { \"type\": \"integer\" }, \"nsec\": { \"type\": \"integer\" } }\n    },\n    \"parent_frame_id\": { \"type\": \"string\" },\n    \"child_frame_id\": { \"type\": \"string\" },\n    \"translation\": {\n      \"type\": \"object\",\n      \"properties\": { \"x\": {\"type\":\"number\"}, \"y\": {\"type\":\"number\"}, \"z\": {\"type\":\"number\"} }\n    },\n    \"rotation\": {\n      \"type\": \"object\",\n      \"properties\": { \"x\": {\"type\":\"number\"}, \"y\": {\"type\":\"number\"}, \"z\": {\"type\":\"number\"}, \"w\": {\"type\":\"number\"} }\n    }\n  }\n}".spec_bytes()
}

/// The schema bytes of the frame-transform message.
pub fn frame_transform_schema() -> (r: Vec<u8>)
    ensures
        r@ == spec_frame_transform_schema(),
{
    "{\n  \"type\": \"object\",\n  \"properties\": {\n    \"timestamp\": {\n      \"type\": \"object\",\n      \"properties\": { \"sec\": { \"type\": \"integer\" }, \"nsec\": { \"type\": \"integer\" } }\n    },\n    \"parent_frame_id\": { \"type\": \"string\" },\n    \"child_frame_id\": { \"type\": \"string\" },\n    \"translation\": {\n      \"type\": \"object\",\n      \"properties\": { \"x\": {\"type\":\"number\"}, \"y\": {\"type\":\"number\"}, \"z\": {\"type\":\"number\"} }\n    },\n    \"rotation\": {\n      \"type\": \"object\",\n      \"properties\": { \"x\": {\"type\":\"number\"}, \"y\": {\"type\":\"number\"}, \"z\": {\"type\":\"number\"}, \"w\": {\"type\":\"number\"} }\n    }\n  }\n}".as_bytes_vec()
}

/// The payload of a location message: a frame id and three rendered
/// numbers.
pub open spec fn spec_location_payload(
    frame: Seq<char>,
    lat: Seq<char>,
    lon: Seq<char>,
    alt: Seq<char>,
) -> Seq<u8> {
    spec_record_json(
        seq![
            ("frame_id"@, ValModel::Text(frame)),
            ("latitude"@, ValModel::Float(0)),
            ("longitude"@, ValModel::Float(0)),
            ("altitude"@, ValModel::Float(0)),
        ],
        seq![None, Some(lat), Some(lon), Some(alt)],
    )
}

fn location_payload(frame: &str, lat_txt: String, lon_txt: String, alt_txt: String) -> (r: Vec<u8>)
    ensures
        r@ == spec_location_payload(frame@, lat_txt@, lon_txt@, alt_txt@),
{
    let mut fields: Vec<(String, crate::codec::LogValue)> = Vec::new();
    fields.push((String::from_str("frame_id"), crate::codec::LogValue::Text(
        String::from_str(frame),
    )));
    fields.push((String::from_str("latitude"), crate::codec::LogValue::Float(0)));
    fields.push((String::from_str("longitude"), crate::codec::LogValue::Float(0)));
    fields.push((String::from_str("altitude"), crate::codec::LogValue::Float(0)));
    let mut txts: Vec<Option<String>> = Vec::new();
    txts.push(None);
    txts.push(Some(lat_txt));
    txts.push(Some(lon_txt));
    txts.push(Some(alt_txt));
    let ghost want_fields = seq![
        ("frame_id"@, ValModel::Text(frame@)),
        ("latitude"@, ValModel::Float(0u32)),
        ("longitude"@, ValModel::Float(0u32)),
        ("altitude"@, ValModel::Float(0u32)),
    ];
    proof {
        assert(spec_fields_view(fields@) =~= want_fields);
        assert(spec_txts_view(txts@) =~= seq![
            None,
            Some(lat_txt@),
            Some(lon_txt@),
            Some(alt_txt@),
        ]);
    }
    render_record_json(&fields, &txts)
}

/// The one-time anchor message declaring the world origin, from the
/// rendered latitude, longitude and altitude of the frozen home.
pub fn finish_anchor(lat_txt: String, lon_txt: String, alt_txt: String) -> (m: TransformedMessage)
    ensures
        m.topic@ == "/foxglove/map_origin"@,
        m.schema_name@ == "foxglove.LocationFix"@,
        m.schema_encoding@ == "jsonschema"@,
        m.schema_data@ == spec_location_fix_schema(),
        m.payload@ == spec_location_payload("world"@, lat_txt@, lon_txt@, alt_txt@),
{
    TransformedMessage {
        topic: String::from_str("/foxglove/map_origin"),
        schema_name: String::from_str("foxglove.LocationFix"),
        schema_encoding: String::from_str("jsonschema"),
        schema_data: location_fix_schema(),
        payload: location_payload("world", lat_txt, lon_txt, alt_txt),
    }
}

/// The continuously updated position-trace message, from the rendered
/// current position.
pub fn finish_trace(lat_txt: String, lon_txt: String, alt_txt: String) -> (m: TransformedMessage)
    ensures
        m.topic@ == "/foxglove/gps"@,
        m.schema_name@ == "foxglove.LocationFix"@,
        m.schema_encoding@ == "jsonschema"@,
        m.schema_data@ == spec_location_fix_schema(),
        m.payload@ == spec_location_payload("base_link"@, lat_txt@, lon_txt@, alt_txt@),
{
    TransformedMessage {
        topic: String::from_str("/foxglove/gps"),
        schema_name: String::from_str("foxglove.LocationFix"),
        schema_encoding: String::from_str("jsonschema"),
        schema_data: location_fix_schema(),
        payload: location_payload("base_link", lat_txt, lon_txt, alt_txt),
    }
}

/// The payload of the frame-transform message: the timestamp split into
/// whole seconds and nanoseconds, the fixed frame ids, and the rendered
/// East-North-Up translation and quaternion rotation.
pub open spec fn spec_frame_tf_payload(
    sec: u64,
    nsec: u64,
    e: Seq<char>,
    n: Seq<char>,
    u: Seq<char>,
    qx: Seq<char>,
    qy: Seq<char>,
    qz: Seq<char>,
    qw: Seq<char>,
) -> Seq<u8> {
    "{\"timestamp\":".spec_bytes() + spec_record_json(
        seq![("sec"@, ValModel::UInt(sec)), ("nsec"@, ValModel::UInt(nsec))],
        seq![None, None],
    ) + ",\"parent_frame_id\":\"world\",\"child_frame_id\":\"base_link\",\"translation\":".spec_bytes()
        + spec_record_json(
        seq![("x"@, ValModel::Float(0)), ("y"@, ValModel::Float(0)), ("z"@, ValModel::Float(0))],
        seq![Some(e), Some(n), Some(u)],
    ) + ",\"rotation\":".spec_bytes() + spec_record_json(
        seq![
            ("x"@, ValModel::Float(0)),
            ("y"@, ValModel::Float(0)),
            ("z"@, ValModel::Float(0)),
            ("w"@, ValModel::Float(0)),
        ],
        seq![Some(qx), Some(qy), Some(qz), Some(qw)],
    ) + "}".spec_bytes()
}

/// The 3D frame-transform message linking the world frame to the body
/// frame, from the split timestamp and the rendered translation and
/// rotation numbers.
pub fn finish_frame_tf(
    sec: u64,
    nsec: u64,
    e_txt: String,
    n_txt: String,
    u_txt: String,
    qx_txt: String,
    qy_txt: String,
    qz_txt: String,
    qw_txt: String,
) -> (m: TransformedMessage)
    ensures
        m.topic@ == "/foxglove/base_link_transform"@,
        m.schema_name@ == "foxglove.FrameTransform"@,
        m.schema_encoding@ == "jsonschema"@,
        m.schema_data@ == spec_frame_transform_schema(),
        m.payload@ == spec_frame_tf_payload(
            sec,
            nsec,
            e_txt@,
            n_txt@,
            u_txt@,
            qx_txt@,
            qy_txt@,
            qz_txt@,
            qw_txt@,
        ),
{
    let mut payload: Vec<u8> = Vec::new();
    payload.extend_from_slice("{\"timestamp\":".as_bytes());
    let mut ts_fields: Vec<(String, crate::codec::LogValue)> = Vec::new();
    ts_fields.push((String::from_str("sec"), crate::codec::LogValue::UInt(sec)));
    ts_fields.push((String::from_str("nsec"), crate::codec::LogValue::UInt(nsec)));
    let mut ts_txts: Vec<Option<String>> = Vec::new();
    ts_txts.push(None);
    ts_txts.push(None);
    proof {
        assert(spec_fields_view(ts_fields@) =~= seq![
            ("sec"@, ValModel::UInt(sec)),
            ("nsec"@, ValModel::UInt(nsec)),
        ]);
        assert(spec_txts_view(ts_txts@) =~= seq![Option::<Seq<char>>::None, None]);
    }
    let mut ts_json = render_record_json(&ts_fields, &ts_txts);
    payload.append(&mut ts_json);
    payload.extend_from_slice(
        ",\"parent_frame_id\":\"world\",\"child_frame_id\":\"base_link\",\"translation\":".as_bytes(),
    );
    let mut tr_json = float_triplet_json(e_txt, n_txt, u_txt);
    payload.append(&mut tr_json);
    payload.extend_from_slice(",\"rotation\":".as_bytes());
    let mut rot_json = float_quad_json(qx_txt, qy_txt, qz_txt, qw_txt);
    payload.append(&mut rot_json);
    payload.extend_from_slice("}".as_bytes());
    TransformedMessage {
        topic: String::from_str("/foxglove/base_link_transform"),
        schema_name: String::from_str("foxglove.FrameTransform"),
        schema_encoding: String::from_str("jsonschema"),
        schema_data: frame_transform_schema(),
        payload,
    }
}

fn float_triplet_json(x: String, y: String, z: String) -> (r: Vec<u8>)
    ensures
        r@ == spec_record_json(
            seq![
                ("x"@, ValModel::Float(0)),
                ("y"@, ValModel::Float(0)),
                ("z"@, ValModel::Float(0)),
            ],
            seq![Some(x@), Some(y@), Some(z@)],
        ),
{
    let mut fields: Vec<(String, crate::codec::LogValue)> = Vec::new();
    fields.push((String::from_str("x"), crate::codec::LogValue::Float(0)));
    fields.push((String::from_str("y"), crate::codec::LogValue::Float(0)));
    fields.push((String::from_str("z"), crate::codec::LogValue::Float(0)));
    let mut txts: Vec<Option<String>> = Vec::new();
    txts.push(Some(x));
    txts.push(Some(y));
    txts.push(Some(z));
    proof {
        assert(spec_fields_view(fields@) =~= seq![
            ("x"@, ValModel::Float(0u32)),
            ("y"@, ValModel::Float(0u32)),
            ("z"@, ValModel::Float(0u32)),
        ]);
        assert(spec_txts_view(txts@) =~= seq![
            Some(txts@[0]->0@),
            Some(txts@[1]->0@),
            Some(txts@[2]->0@),
        ]);
    }
    render_record_json(&fields, &txts)
}

fn float_quad_json(x: String, y: String, z: String, w: String) -> (r: Vec<u8>)
    ensures
        r@ == spec_record_json(
            seq![
                ("x"@, ValModel::Float(0)),
                ("y"@, ValModel::Float(0)),
                ("z"@, ValModel::Float(0)),
                ("w"@, ValModel::Float(0)),
            ],
            seq![Some(x@), Some(y@), Some(z@), Some(w@)],
        ),
{
    let mut fields: Vec<(String, crate::codec::LogValue)> = Vec::new();
    fields.push((String::from_str("x"), crate::codec::LogValue::Float(0)));
    fields.push((String::from_str("y"), crate::codec::LogValue::Float(0)));
    fields.push((String::from_str("z"), crate::codec::LogValue::Float(0)));
    fields.push((String::from_str("w"), crate::codec::LogValue::Float(0)));
    let mut txts: Vec<Option<String>> = Vec::new();
    txts.push(Some(x));
    txts.push(Some(y));
    txts.push(Some(z));
    txts.push(Some(w));
    proof {
        assert(spec_fields_view(fields@) =~= seq![
            ("x"@, ValModel::Float(0u32)),
            ("y"@, ValModel::Float(0u32)),
            ("z"@, ValModel::Float(0u32)),
            ("w"@, ValModel::Float(0u32)),
        ]);
        assert(spec_txts_view(txts@) =~= seq![
            Some(txts@[0]->0@),
            Some(txts@[1]->0@),
            Some(txts@[2]->0@),
            Some(txts@[3]->0@),
        ]);
    }
    render_record_json(&fields, &txts)
}

} // verus!
