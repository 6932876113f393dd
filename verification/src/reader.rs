//! Binary log decoder: a stateful reader over an in-memory byte stream
//! that recognizes framed records, learns record layouts from definition
//! frames, and decodes data frames field by field with the field codec.
//!
//! A source exhausted exactly at a frame boundary, a broken frame marker,
//! and a data record cut short mid-field all end the stream cleanly; a
//! data frame for an unknown type id and a tag outside the closed tag set
//! are fatal.
use vstd::prelude::*;

use crate::codec::{spec_tag_width, spec_parse_value, field_length, parse_value, LogValue, ValModel};
use crate::json::spec_fields_view;
use crate::text::{spec_sanitize, spec_trim_zeros, spec_labels_of, sanitize_str, trim_zeros,
    split_labels};

verus! {

/// The message id reserved for definition frames.
pub const DEFINITION_MSG_ID: u8 = 128;

/// A decoded definition frame: the layout declaration for one record
/// type. `format_tags` holds the type tag of each field in order.
#[derive(Debug)]
pub struct FmtPacket {
    pub type_id: u8,
    pub length: u8,
    pub name: String,
    pub format_tags: Vec<u8>,
    pub labels_text: String,
}

/// A definition as remembered by the decoder: the packet plus its label
/// list split into one label per field.
#[derive(Debug)]
pub struct ArduDefinition {
    pub ardu_fmt: FmtPacket,
    pub labels: Vec<String>,
}

/// The mathematical model of a definition.
pub struct DefModel {
    pub type_id: u8,
    pub length: u8,
    pub name: Seq<char>,
    pub tags: Seq<u8>,
    pub labels: Seq<Seq<char>>,
}

impl View for ArduDefinition {
    type V = DefModel;

    open spec fn view(&self) -> DefModel {
        DefModel {
            type_id: self.ardu_fmt.type_id,
            length: self.ardu_fmt.length,
            name: self.ardu_fmt.name@,
            tags: self.ardu_fmt.format_tags@,
            labels: self.labels@.map_values(|l: String| l@),
        }
    }
}

/// A decoded data record: its type id, derived timestamp in nanoseconds,
/// and the label-to-value mapping in field order with distinct labels.
#[derive(Debug)]
pub struct ArduMessage {
    pub type_id: u8,
    pub current_ts: u64,
    pub fields: Vec<(String, LogValue)>,
}

/// The mathematical model of a decoded data record.
pub struct MsgModel {
    pub type_id: u8,
    pub ts: u64,
    pub fields: Seq<(Seq<char>, ValModel)>,
}

impl View for ArduMessage {
    type V = MsgModel;

    open spec fn view(&self) -> MsgModel {
        MsgModel { type_id: self.type_id, ts: self.current_ts, fields: spec_fields_view(
            self.fields@,
        ) }
    }
}

/// One frame of the log: a definition, a data record, or the clean end of
/// the stream.
#[derive(Debug)]
pub enum ArduFrame {
    ArduDefinition(ArduDefinition),
    ArduMessage(ArduMessage),
    Eof,
}

/// The fatal decode failures. Truncation of a data record is not among
/// them: it ends the stream cleanly.
#[derive(Debug, Clone, Copy, PartialEq, Eq, Structural)]
pub enum DecodeError {
    /// A data frame arrived for a type id with no preceding definition.
    UnknownRecordType(u8),
    /// A definition declares a field tag outside the closed tag set.
    UnsupportedFieldCode(u8),
    /// The source ends inside a definition frame.
    TruncatedDefinition,
}

/// Whether a well-formed frame header (2-byte marker and message id)
/// starts at `p`.
pub open spec fn spec_header_ok(d: Seq<u8>, p: int) -> bool {
    &&& p + 3 <= d.len()
    &&& d[p] == 0xa3u8
    &&& d[p + 1] == 0x95u8
}

/// The definition held by the frame starting at `p`: a one-byte type id
/// and length, then NUL-padded name (4 bytes), format tags (16 bytes) and
/// comma-separated labels (64 bytes).
pub open spec fn spec_fmt_at(d: Seq<u8>, p: int) -> DefModel {
    DefModel {
        type_id: d[p + 3],
        length: d[p + 4],
        name: spec_sanitize(d.subrange(p + 5, p + 9)),
        tags: spec_trim_zeros(d.subrange(p + 9, p + 25)),
        labels: spec_labels_of(d.subrange(p + 25, p + 89)),
    }
}

/// `fields` with the member for `label` set to `v`: overwritten in place
/// if the label is present, appended otherwise.
pub open spec fn spec_upsert(
    fields: Seq<(Seq<char>, ValModel)>,
    label: Seq<char>,
    v: ValModel,
) -> Seq<(Seq<char>, ValModel)>
    decreases fields.len(),
{
    if fields.len() == 0 {
        seq![(label, v)]
    } else if fields[0].0 == label {
        fields.update(0, (label, v))
    } else {
        seq![fields[0]] + spec_upsert(fields.drop_first(), label, v)
    }
}

/// The timestamp in nanoseconds derived from a "TimeUS" microsecond
/// value: multiplied by 1000, wrapping modulo 2^64.
pub open spec fn spec_ts_scale(v: u64) -> u64 {
    ((v * 1000) % 0x1_0000_0000_0000_0000) as u64
}

/// The raw timestamp after seeing value `v` under the "TimeUS" label: an
/// integer value sets it, any other kind leaves it.
pub open spec fn spec_ts_upd(v: ValModel, ts: u64) -> u64 {
    match v {
        ValModel::UInt(n) => spec_ts_scale(n),
        ValModel::Int(n) => spec_ts_scale(n as u64),
        _ => ts,
    }
}

/// The timestamp a record reports: its own raw timestamp when it has a
/// non-zero one, the carried-forward timestamp otherwise.
pub open spec fn spec_next_ts(raw: u64, last: u64) -> u64 {
    if raw > 0 {
        raw
    } else {
        last
    }
}

/// The outcome of decoding a data record's fields.
pub enum FieldsOut {
    /// All fields decoded: the label-value mapping, the raw timestamp
    /// taken from "TimeUS" fields (0 if none), and the position after the
    /// record.
    Done { fields: Seq<(Seq<char>, ValModel)>, raw_ts: u64, end: int },
    /// The remaining bytes are fewer than the next field's width.
    Truncated,
    /// A field's tag is outside the closed tag set.
    BadTag(u8),
}

/// Decodes the fields of a data record of layout `def` from position `p`
/// of `d`, starting at field `i` with the members and raw timestamp
/// accumulated so far. Fields beyond the label list are decoded for their
/// width but enter neither the mapping nor the timestamp.
pub open spec fn spec_decode_fields(
    d: Seq<u8>,
    def: DefModel,
    i: int,
    p: int,
    acc: Seq<(Seq<char>, ValModel)>,
    ts: u64,
) -> FieldsOut
    decreases def.tags.len() - i,
{
    if i >= def.tags.len() {
        FieldsOut::Done { fields: acc, raw_ts: ts, end: p }
    } else {
        match spec_tag_width(def.tags[i]) {
            Option::None => FieldsOut::BadTag(def.tags[i]),
            Option::Some(w) => {
                if p + w > d.len() {
                    FieldsOut::Truncated
                } else {
                    let v = spec_parse_value(def.tags[i], d.subrange(p, p + w));
                    let acc2 = if i < def.labels.len() {
                        spec_upsert(acc, def.labels[i], v)
                    } else {
                        acc
                    };
                    let ts2 = if i < def.labels.len() && def.labels[i] == "TimeUS"@ {
                        spec_ts_upd(v, ts)
                    } else {
                        ts
                    };
                    spec_decode_fields(d, def, i + 1, p + w, acc2, ts2)
                }
            },
        }
    }
}

/// Decodes a whole data record of layout `def` whose first field starts
/// at `p`.
pub open spec fn spec_decode(d: Seq<u8>, def: DefModel, p: int) -> FieldsOut {
    spec_decode_fields(d, def, 0, p, Seq::empty(), 0)
}

/// The decoder's state for one decode session: the byte source, the read
/// position, the definitions seen so far (indexed by type id), and the
/// carried-forward timestamp.
pub struct ArduReader {
    pub data: Vec<u8>,
    pub pos: usize,
    pub definitions: Vec<Option<ArduDefinition>>,
    pub last_timestamp: u64,
}

impl ArduReader {
    /// The reader's invariant: one definition slot per possible type id,
    /// and a position inside the source.
    pub open spec fn wf(self) -> bool {
        &&& self.definitions@.len() == 256
        &&& self.pos <= self.data@.len()
    }

    /// A fresh decode session over the given bytes: position at the
    /// start, no definitions, no timestamp yet.
    pub fn new(data: Vec<u8>) -> (r: Self)
        ensures
            r.wf(),
            r.data == data,
            r.pos == 0,
            r.last_timestamp == 0,
            forall|i: int| 0 <= i < 256 ==> r.definitions@[i] is None,
    {
        let mut definitions: Vec<Option<ArduDefinition>> = Vec::new();
        let mut k: usize = 0;
        while k < 256
            invariant
                k <= 256,
                definitions@.len() == k,
                forall|i: int| 0 <= i < k ==> definitions@[i] is None,
            decreases 256 - k,
        {
            definitions.push(None);
            k = k + 1;
        }
        ArduReader { data, pos: 0, definitions, last_timestamp: 0 }
    }

    /// What one call to [`ArduReader::read`] does, by case: no intact
    /// header means a clean end of stream; a definition frame is decoded,
    /// stored under its type id and returned, or is a fatal error if cut
    /// short; a data frame is decoded by its stored definition, with
    /// truncation a clean end of stream, and sets or inherits the carried
    /// timestamp.
    pub open spec fn spec_read_post(
        pre: ArduReader,
        post: ArduReader,
        r: Result<ArduFrame, DecodeError>,
    ) -> bool {
        let d = pre.data@;
        let p = pre.pos as int;
        &&& post.data == pre.data
        &&& !spec_header_ok(d, p) ==> r == Ok::<ArduFrame, DecodeError>(ArduFrame::Eof) && post == pre
        &&& (spec_header_ok(d, p) && d[p + 2] == DEFINITION_MSG_ID) ==> {
            if p + 89 > d.len() {
                r == Err::<ArduFrame, DecodeError>(DecodeError::TruncatedDefinition) && post == pre
            } else {
                let dm = spec_fmt_at(d, p);
                &&& r matches Ok(ArduFrame::ArduDefinition(def)) && def@ == dm
                &&& post.pos == p + 89
                &&& post.last_timestamp == pre.last_timestamp
                &&& post.definitions@.len() == pre.definitions@.len()
                &&& forall|j: int|
                    0 <= j < pre.definitions@.len() && j != dm.type_id ==> post.definitions@[j]
                        == pre.definitions@[j]
                &&& post.definitions@[dm.type_id as int] matches Some(sd) && sd@ == dm
            }
        }
        &&& (spec_header_ok(d, p) && d[p + 2] != DEFINITION_MSG_ID) ==> {
            let id = d[p + 2];
            match pre.definitions@[id as int] {
                Option::None => r == Err::<ArduFrame, DecodeError>(DecodeError::UnknownRecordType(id)) && post == pre,
                Option::Some(def) => match spec_decode(d, def@, p + 3) {
                    FieldsOut::BadTag(t) => r == Err::<ArduFrame, DecodeError>(DecodeError::UnsupportedFieldCode(t)) && post
                        == pre,
                    FieldsOut::Truncated => r == Ok::<ArduFrame, DecodeError>(ArduFrame::Eof) && post == pre,
                    FieldsOut::Done { fields, raw_ts, end } => {
                        let ts = spec_next_ts(raw_ts, pre.last_timestamp);
                        &&& r matches Ok(ArduFrame::ArduMessage(m)) && m@ == (MsgModel {
                            type_id: id,
                            ts: ts,
                            fields: fields,
                        })
                        &&& post.pos == end
                        &&& post.last_timestamp == ts
                        &&& post.definitions@ == pre.definitions@
                    },
                },
            }
        }
    }

    /// Reads the next frame. Returns the definition or data record
    /// starting at the current position, `Eof` on a clean end of the
    /// stream (no intact header, or a data record cut short), and a
    /// fatal error otherwise, as [`ArduReader::spec_read_post`] states.
    #[verifier::loop_isolation(false)]
    pub fn read(&mut self) -> (r: Result<ArduFrame, DecodeError>)
        requires
            old(self).wf(),
        ensures
            final(self).wf(),
            Self::spec_read_post(*old(self), *final(self), r),
    {
        let p = self.pos;
        let n = self.data.len();
        if n - p < 3 {
            return Ok(ArduFrame::Eof);
        }
        if self.data[p] != 0xa3 || self.data[p + 1] != 0x95 {
            return Ok(ArduFrame::Eof);
        }
        let id = self.data[p + 2];
        if id == DEFINITION_MSG_ID {
            if n - p < 89 {
                return Err(DecodeError::TruncatedDefinition);
            }
            let type_id = self.data[p + 3];
            let length = self.data[p + 4];
            let name = sanitize_str(vstd::slice::slice_subrange(self.data.as_slice(), p + 5, p + 9));
            let format_tags = trim_zeros(
                vstd::slice::slice_subrange(self.data.as_slice(), p + 9, p + 25),
            );
            let labels_slice = vstd::slice::slice_subrange(self.data.as_slice(), p + 25, p + 89);
            let labels = split_labels(labels_slice);
            let labels_text = sanitize_str(labels_slice);
            let def = ArduDefinition {
                ardu_fmt: FmtPacket { type_id, length, name, format_tags, labels_text },
                labels,
            };
            let stored = clone_definition(&def);
            proof {
                assert(def@ == spec_fmt_at(self.data@, p as int));
            }
            self.definitions[type_id as usize] = Some(stored);
            self.pos = p + 89;
            return Ok(ArduFrame::ArduDefinition(def));
        }
        let ghost d = self.data@;
        match &self.definitions[id as usize] {
            Option::None => Err(DecodeError::UnknownRecordType(id)),
            Option::Some(def) => {
                let ghost dm = def@;
                let m = def.ardu_fmt.format_tags.len();
                let mut fields: Vec<(String, LogValue)> = Vec::new();
                let mut raw_ts: u64 = 0;
                let mut q: usize = p + 3;
                let mut i: usize = 0;
                proof {
                    assert(spec_fields_view(fields@) =~= Seq::<(Seq<char>, ValModel)>::empty());
                }
                while i < m
                    invariant
                        i <= m,
                        p + 3 <= q <= n,
                        spec_decode(d, dm, p + 3) == spec_decode_fields(
                            d,
                            dm,
                            i as int,
                            q as int,
                            spec_fields_view(fields@),
                            raw_ts,
                        ),
                    decreases m - i,
                {
                    let ghost acc0 = spec_fields_view(fields@);
                    let ghost ts0 = raw_ts;
                    let tag = def.ardu_fmt.format_tags[i];
                    match field_length(tag) {
                        Option::None => {
                            return Err(DecodeError::UnsupportedFieldCode(tag));
                        },
                        Option::Some(w) => {
                            let w_us = w as usize;
                            if w_us > n - q {
                                return Ok(ArduFrame::Eof);
                            }
                            let sl = vstd::slice::slice_subrange(self.data.as_slice(), q, q + w_us);
                            let v = parse_value(tag, sl);
                            let ghost vm = v@;
                            if i < def.labels.len() {
                                let label = def.labels[i].clone();
                                if is_timeus(&label) {
                                    raw_ts = ts_from_value(&v, raw_ts);
                                }
                                upsert_field(&mut fields, label, v);
                            }
                            proof {
                                if i < def.labels.len() {
                                    assert(dm.labels[i as int] == def.labels@[i as int]@);
                                }
                                assert(spec_decode_fields(d, dm, i as int, q as int, acc0, ts0)
                                    == spec_decode_fields(
                                    d,
                                    dm,
                                    i + 1,
                                    q + w,
                                    spec_fields_view(fields@),
                                    raw_ts,
                                ));
                            }
                            q = q + w_us;
                        },
                    }
                    i = i + 1;
                }
                let raw = raw_ts;
                let ts = if raw > 0 {
                    raw
                } else {
                    self.last_timestamp
                };
                self.last_timestamp = ts;
                self.pos = q;
                Ok(ArduFrame::ArduMessage(ArduMessage { type_id: id, current_ts: ts, fields }))
            },
        }
    }
}

/// Whether `label` is the reserved timestamp label "TimeUS".
fn is_timeus(label: &String) -> (r: bool)
    ensures
        r == (label@ == "TimeUS"@),
{
    let t = String::from_str("TimeUS");
    label.eq(&t)
}

/// The raw timestamp after seeing `v` under the "TimeUS" label.
fn ts_from_value(v: &LogValue, ts: u64) -> (r: u64)
    ensures
        r == spec_ts_upd(v@, ts),
{
    match v {
        LogValue::UInt(u) => u.wrapping_mul(1000),
        LogValue::Int(x) => ((*x as u64)).wrapping_mul(1000),
        _ => ts,
    }
}

proof fn lemma_upsert_found(s: Seq<(Seq<char>, ValModel)>, l: Seq<char>, v: ValModel, j: int)
    requires
        0 <= j < s.len(),
        forall|k: int| 0 <= k < j ==> s[k].0 != l,
        s[j].0 == l,
    ensures
        spec_upsert(s, l, v) == s.update(j, (l, v)),
    decreases j,
{
    if j == 0 {
    } else {
        lemma_upsert_found(s.drop_first(), l, v, j - 1);
        assert(seq![s[0]] + s.drop_first().update(j - 1, (l, v)) =~= s.update(j, (l, v)));
    }
}

proof fn lemma_upsert_absent(s: Seq<(Seq<char>, ValModel)>, l: Seq<char>, v: ValModel)
    requires
        forall|k: int| 0 <= k < s.len() ==> s[k].0 != l,
    ensures
        spec_upsert(s, l, v) == s.push((l, v)),
    decreases s.len(),
{
    if s.len() == 0 {
        assert(spec_upsert(s, l, v) =~= s.push((l, v)));
    } else {
        lemma_upsert_absent(s.drop_first(), l, v);
        assert(seq![s[0]] + s.drop_first().push((l, v)) =~= s.push((l, v)));
    }
}

/// Sets the member for `label` to `v`, overwriting in place when the
/// label is already present and appending otherwise, so labels stay
/// distinct.
#[verifier::loop_isolation(false)]
fn upsert_field(fields: &mut Vec<(String, LogValue)>, label: String, v: LogValue)
    ensures
        spec_fields_view(final(fields)@) == spec_upsert(spec_fields_view(old(fields)@), label@, v@),
{
    let n = fields.len();
    let mut j: usize = 0;
    while j < n
        invariant
            j <= n,
            fields@ == old(fields)@,
            forall|k: int| 0 <= k < j ==> spec_fields_view(fields@)[k].0 != label@,
        decreases n - j,
    {
        if fields[j].0.eq(&label) {
            proof {
                assert(spec_fields_view(fields@)[j as int].0 == label@);
                lemma_upsert_found(spec_fields_view(fields@), label@, v@, j as int);
            }
            fields[j] = (label, v);
            proof {
                assert(spec_fields_view(fields@) =~= spec_upsert(
                    spec_fields_view(old(fields)@),
                    label@,
                    v@,
                ));
            }
            return ;
        }
        proof {
            assert(spec_fields_view(fields@)[j as int].0 == fields@[j as int].0@);
        }
        j = j + 1;
    }
    proof {
        lemma_upsert_absent(spec_fields_view(fields@), label@, v@);
    }
    fields.push((label, v));
    proof {
        assert(spec_fields_view(fields@) =~= spec_upsert(spec_fields_view(old(fields)@), label@, v@));
    }
}

/// A copy of a byte vector.
#[verifier::loop_isolation(false)]
pub(crate) fn copy_bytes(v: &Vec<u8>) -> (r: Vec<u8>)
    ensures
        r@ == v@,
{
    let mut r: Vec<u8> = Vec::new();
    let mut i: usize = 0;
    while i < v.len()
        invariant
            i <= v@.len(),
            r@ == v@.take(i as int),
        decreases v@.len() - i,
    {
        r.push(v[i]);
        proof {
            assert(r@ =~= v@.take(i + 1));
        }
        i = i + 1;
    }
    proof {
        assert(v@.take(v@.len() as int) =~= v@);
    }
    r
}

/// A copy of a string vector.
#[verifier::loop_isolation(false)]
fn clone_strings(v: &Vec<String>) -> (r: Vec<String>)
    ensures
        r@ == v@,
{
    let mut r: Vec<String> = Vec::new();
    let mut i: usize = 0;
    while i < v.len()
        invariant
            i <= v@.len(),
            r@ == v@.take(i as int),
        decreases v@.len() - i,
    {
        r.push(v[i].clone());
        proof {
            assert(r@ =~= v@.take(i + 1));
        }
        i = i + 1;
    }
    proof {
        assert(v@.take(v@.len() as int) =~= v@);
    }
    r
}

/// A copy of a definition, equal to the original in the model.
fn clone_definition(def: &ArduDefinition) -> (r: ArduDefinition)
    ensures
        r@ == def@,
{
    ArduDefinition {
        ardu_fmt: FmtPacket {
            type_id: def.ardu_fmt.type_id,
            length: def.ardu_fmt.length,
            name: def.ardu_fmt.name.clone(),
            format_tags: copy_bytes(&def.ardu_fmt.format_tags),
            labels_text: def.ardu_fmt.labels_text.clone(),
        },
        labels: clone_strings(&def.labels),
    }
}

} // verus!
