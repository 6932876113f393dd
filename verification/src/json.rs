//! A small JSON emitter for the closed set of values the pipeline writes:
//! objects whose members are integers, pre-rendered floating-point number
//! text, and strings. Keys appear in insertion order.
use vstd::prelude::*;

use crate::codec::ValModel;
use crate::codec::LogValue;
use vstd::string::StringSliceAdditionalSpecFns;

verus! {

/// Decimal digits of the non-negative integer `n`, most significant first.
pub open spec fn spec_dec_nat(n: int) -> Seq<u8>
    recommends
        n >= 0,
    decreases n,
{
    if n < 10 {
        seq![(48 + if n >= 0 { n } else { 0 }) as u8]
    } else {
        spec_dec_nat(n / 10).push((48 + n % 10) as u8)
    }
}

/// Decimal rendering of a signed integer: a minus sign, then the digits
/// of the magnitude.
pub open spec fn spec_dec_int(n: int) -> Seq<u8> {
    if n >= 0 {
        spec_dec_nat(n)
    } else {
        seq![45u8] + spec_dec_nat(-n)
    }
}

/// Renders `n` in decimal.
pub fn dec_u64(n: u64) -> (r: Vec<u8>)
    ensures
        r@ == spec_dec_nat(n as int),
    decreases n,
{
    if n < 10 {
        let mut v: Vec<u8> = Vec::new();
        v.push(48 + n as u8);
        proof {
            assert(v@ =~= spec_dec_nat(n as int));
        }
        v
    } else {
        let mut v = dec_u64(n / 10);
        v.push(48 + (n % 10) as u8);
        v
    }
}

/// Renders `n` in decimal, with a leading minus sign when negative.
pub fn dec_i64(n: i64) -> (r: Vec<u8>)
    ensures
        r@ == spec_dec_int(n as int),
{
    if n >= 0 {
        dec_u64(n as u64)
    } else {
        let m: u64 = ((-(n + 1)) as u64) + 1;
        let mut v: Vec<u8> = Vec::new();
        v.push(45);
        let mut digits = dec_u64(m);
        v.append(&mut digits);
        proof {
            assert(v@ =~= seq![45u8] + spec_dec_nat(m as int));
        }
        v
    }
}

/// The JSON escape of one byte of UTF-8 text: the two-character escapes
/// of the JSON grammar, `\u00XX` for other control bytes, and every other
/// byte unchanged.
pub open spec fn spec_esc_byte(b: u8) -> Seq<u8> {
    if b == 34 {
        seq![92u8, 34u8]
    } else if b == 92 {
        seq![92u8, 92u8]
    } else if b == 8 {
        seq![92u8, 98u8]
    } else if b == 9 {
        seq![92u8, 116u8]
    } else if b == 10 {
        seq![92u8, 110u8]
    } else if b == 12 {
        seq![92u8, 102u8]
    } else if b == 13 {
        seq![92u8, 114u8]
    } else if b < 32 {
        seq![92u8, 117u8, 48u8, 48u8, spec_hex_digit(b / 16), spec_hex_digit(b % 16)]
    } else {
        seq![b]
    }
}

pub open spec fn spec_hex_digit(d: u8) -> u8 {
    if d < 10 {
        (48 + d) as u8
    } else {
        (87 + d) as u8
    }
}

/// The JSON escape of a byte sequence of UTF-8 text.
pub open spec fn spec_escape(s: Seq<u8>) -> Seq<u8>
    decreases s.len(),
{
    if s.len() == 0 {
        Seq::empty()
    } else {
        spec_escape(s.drop_last()) + spec_esc_byte(s.last())
    }
}

/// A JSON string literal holding the UTF-8 text `s`: quoted and escaped.
pub open spec fn spec_json_text(s: Seq<u8>) -> Seq<u8> {
    seq![34u8] + spec_escape(s) + seq![34u8]
}

fn push_esc_byte(out: &mut Vec<u8>, b: u8)
    ensures
        final(out)@ == old(out)@ + spec_esc_byte(b),
{
    if b == 34 {
        out.push(92);
        out.push(34);
    } else if b == 92 {
        out.push(92);
        out.push(92);
    } else if b == 8 {
        out.push(92);
        out.push(98);
    } else if b == 9 {
        out.push(92);
        out.push(116);
    } else if b == 10 {
        out.push(92);
        out.push(110);
    } else if b == 12 {
        out.push(92);
        out.push(102);
    } else if b == 13 {
        out.push(92);
        out.push(114);
    } else if b < 32 {
        out.push(92);
        out.push(117);
        out.push(48);
        out.push(48);
        let hi = b / 16;
        let lo = b % 16;
        out.push(if hi < 10 {
            48 + hi
        } else {
            87 + hi
        });
        out.push(if lo < 10 {
            48 + lo
        } else {
            87 + lo
        });
    } else {
        out.push(b);
    }
    proof {
        assert(out@ =~= old(out)@ + spec_esc_byte(b));
    }
}

/// Appends the JSON string literal form of `s` (quoted, escaped UTF-8).
pub fn push_json_text(out: &mut Vec<u8>, s: &str)
    ensures
        final(out)@ == old(out)@ + spec_json_text(s.spec_bytes()),
{
    out.push(34);
    let bytes = s.as_bytes();
    let n = bytes.len();
    let mut i: usize = 0;
    while i < n
        invariant
            i <= n,
            n == bytes@.len(),
            bytes@ == s.spec_bytes(),
            out@ == old(out)@ + seq![34u8] + spec_escape(bytes@.take(i as int)),
        decreases n - i,
    {
        let b = *vstd::slice::slice_index_get(bytes, i);
        push_esc_byte(out, b);
        proof {
            assert(bytes@.take(i + 1).drop_last() =~= bytes@.take(i as int));
            assert(bytes@.take(i + 1).last() == bytes@[i as int]);
        }
        i = i + 1;
    }
    out.push(34);
    proof {
        assert(bytes@.take(n as int) =~= bytes@);
        assert(out@ =~= old(out)@ + spec_json_text(s.spec_bytes()));
    }
}

/// The rendering of one decoded value as a JSON value. A float renders as
/// the supplied number text, or as `null` when none is supplied (the
/// value was not finite).
pub open spec fn spec_render_value(v: ValModel, txt: Option<Seq<char>>) -> Seq<u8> {
    match v {
        ValModel::Int(n) => spec_dec_int(n as int),
        ValModel::UInt(n) => spec_dec_nat(n as int),
        ValModel::Float(_) => spec_float_txt(txt),
        ValModel::Double(_) => spec_float_txt(txt),
        ValModel::Text(s) => spec_json_text(vstd::utf8::encode_utf8(s)),
    }
}

pub open spec fn spec_float_txt(txt: Option<Seq<char>>) -> Seq<u8> {
    match txt {
        Some(t) => vstd::utf8::encode_utf8(t),
        None => seq![110u8, 117u8, 108u8, 108u8],
    }
}

/// Appends the JSON rendering of one value; `txt` is the pre-rendered
/// number text used when the value is a float.
pub fn push_value(out: &mut Vec<u8>, v: &LogValue, txt: &Option<String>)
    ensures
        final(out)@ == old(out)@ + spec_render_value(v@, spec_txt_view(txt)),
{
    match v {
        LogValue::Int(n) => {
            let mut d = dec_i64(*n);
            out.append(&mut d);
        },
        LogValue::UInt(n) => {
            let mut d = dec_u64(*n);
            out.append(&mut d);
        },
        LogValue::Float(_) => push_float_txt(out, txt),
        LogValue::Double(_) => push_float_txt(out, txt),
        LogValue::Text(s) => push_json_text(out, s.as_str()),
    }
}

pub open spec fn spec_txt_view(txt: &Option<String>) -> Option<Seq<char>> {
    match txt {
        Some(t) => Some(t@),
        None => None,
    }
}

fn push_float_txt(out: &mut Vec<u8>, txt: &Option<String>)
    ensures
        final(out)@ == old(out)@ + spec_float_txt(spec_txt_view(txt)),
{
    match txt {
        Some(t) => {
            out.extend_from_slice(t.as_str().as_bytes());
        },
        None => {
            out.push(110);
            out.push(117);
            out.push(108);
            out.push(108);
            proof {
                assert(out@ =~= old(out)@ + seq![110u8, 117u8, 108u8, 108u8]);
            }
        },
    }
}

/// One `"label":value` member of a record's JSON object.
pub open spec fn spec_member(label: Seq<char>, v: ValModel, txt: Option<Seq<char>>) -> Seq<u8> {
    spec_json_text(vstd::utf8::encode_utf8(label)) + seq![58u8] + spec_render_value(v, txt)
}

/// The first `n` members of a record's JSON object, comma-separated.
pub open spec fn spec_members(
    fields: Seq<(Seq<char>, ValModel)>,
    txts: Seq<Option<Seq<char>>>,
    n: int,
) -> Seq<u8>
    decreases n,
{
    if n <= 0 {
        Seq::empty()
    } else if n == 1 {
        spec_member(fields[0].0, fields[0].1, txts[0])
    } else {
        spec_members(fields, txts, n - 1) + seq![44u8] + spec_member(
            fields[n - 1].0,
            fields[n - 1].1,
            txts[n - 1],
        )
    }
}

/// The view of a field list: each label as characters, each value as its
/// model.
pub open spec fn spec_fields_view(fields: Seq<(String, LogValue)>) -> Seq<(Seq<char>, ValModel)> {
    fields.map_values(|f: (String, LogValue)| (f.0@, f.1@))
}

pub open spec fn spec_txts_view(txts: Seq<Option<String>>) -> Seq<Option<Seq<char>>> {
    txts.map_values(
        |t: Option<String>|
            match t {
                Some(s) => Some(s@),
                None => None,
            },
    )
}

/// The JSON object serialization of a record's field mapping, members in
/// field order. `txts` supplies the rendered number text of each
/// floating-point field.
pub open spec fn spec_record_json(
    fields: Seq<(Seq<char>, ValModel)>,
    txts: Seq<Option<Seq<char>>>,
) -> Seq<u8> {
    seq![123u8] + spec_members(fields, txts, fields.len() as int) + seq![125u8]
}

/// Serializes a record's field mapping as a JSON object, one member per
/// field in field order. `txts` must supply one entry per field; its text
/// is used for floating-point fields (`None` renders as `null`).
pub fn render_record_json(fields: &Vec<(String, LogValue)>, txts: &Vec<Option<String>>) -> (r: Vec<
    u8,
>)
    requires
        txts@.len() == fields@.len(),
    ensures
        r@ == spec_record_json(spec_fields_view(fields@), spec_txts_view(txts@)),
{
    let ghost gf = spec_fields_view(fields@);
    let ghost gt = spec_txts_view(txts@);
    let mut out: Vec<u8> = Vec::new();
    out.push(123);
    let n = fields.len();
    let mut i: usize = 0;
    while i < n
        invariant
            i <= n,
            n == fields@.len(),
            txts@.len() == fields@.len(),
            gf == spec_fields_view(fields@),
            gt == spec_txts_view(txts@),
            out@ == seq![123u8] + spec_members(gf, gt, i as int),
        decreases n - i,
    {
        if i > 0 {
            out.push(44);
        }
        let label: &String = &fields[i].0;
        push_json_text(&mut out, label.as_str());
        out.push(58);
        push_value(&mut out, &fields[i].1, &txts[i]);
        proof {
            assert(gf[i as int] == (fields@[i as int].0@, fields@[i as int].1@));
            assert(gt[i as int] == spec_txt_view(&txts@[i as int]));
            assert(out@ =~= seq![123u8] + spec_members(gf, gt, i + 1));
        }
        i = i + 1;
    }
    out.push(125);
    proof {
        assert(out@ =~= spec_record_json(gf, gt));
    }
    out
}

/// The schema document synthesized for a definition: a JSON-Schema-style
/// object titled with the definition's display name, whose properties are
/// the labels, each typed numeric, in label order.
pub open spec fn spec_schema_json(name: Seq<char>, labels: Seq<Seq<char>>) -> Seq<u8> {
    spec_obj_prefix() + spec_json_text(vstd::utf8::encode_utf8(name)) + spec_props_mid()
        + spec_props(labels, labels.len() as int) + seq![125u8, 125u8]
}

/// The bytes of `{"type":"object","title":`.
pub open spec fn spec_obj_prefix() -> Seq<u8> {
    seq![
        123u8, 34u8, 116u8, 121u8, 112u8, 101u8, 34u8, 58u8, 34u8, 111u8, 98u8, 106u8, 101u8, 99u8,
        116u8, 34u8, 44u8, 34u8, 116u8, 105u8, 116u8, 108u8, 101u8, 34u8, 58u8,
    ]
}

/// The bytes of `,"properties":{`.
pub open spec fn spec_props_mid() -> Seq<u8> {
    seq![44u8, 34u8, 112u8, 114u8, 111u8, 112u8, 101u8, 114u8, 116u8, 105u8, 101u8, 115u8, 34u8, 58u8, 123u8]
}

/// The bytes of `:{"type":"number"}`.
pub open spec fn spec_prop_suffix() -> Seq<u8> {
    seq![
        58u8, 123u8, 34u8, 116u8, 121u8, 112u8, 101u8, 34u8, 58u8, 34u8, 110u8, 117u8, 109u8, 98u8,
        101u8, 114u8, 34u8, 125u8,
    ]
}

/// The first `n` properties of the schema document, comma-separated.
pub open spec fn spec_props(labels: Seq<Seq<char>>, n: int) -> Seq<u8>
    decreases n,
{
    if n <= 0 {
        Seq::empty()
    } else if n == 1 {
        spec_json_text(vstd::utf8::encode_utf8(labels[0])) + spec_prop_suffix()
    } else {
        spec_props(labels, n - 1) + seq![44u8] + spec_json_text(
            vstd::utf8::encode_utf8(labels[n - 1]),
        ) + spec_prop_suffix()
    }
}

fn push_prop_suffix(out: &mut Vec<u8>)
    ensures
        final(out)@ == old(out)@ + spec_prop_suffix(),
{
    out.push(58);
    out.push(123);
    out.push(34);
    out.push(116);
    out.push(121);
    out.push(112);
    out.push(101);
    out.push(34);
    out.push(58);
    out.push(34);
    out.push(110);
    out.push(117);
    out.push(109);
    out.push(98);
    out.push(101);
    out.push(114);
    out.push(34);
    out.push(125);
    proof {
        assert(out@ =~= old(out)@ + spec_prop_suffix());
    }
}

/// Builds the JSON schema document for a definition with the given
/// display name and labels.
pub fn render_schema_json(name: &str, labels: &Vec<String>) -> (r: Vec<u8>)
    ensures
        r@ == spec_schema_json(name@, labels@.map_values(|l: String| l@)),
{
    let ghost gl = labels@.map_values(|l: String| l@);
    let mut out: Vec<u8> = Vec::new();
    out.push(123);
    out.push(34);
    out.push(116);
    out.push(121);
    out.push(112);
    out.push(101);
    out.push(34);
    out.push(58);
    out.push(34);
    out.push(111);
    out.push(98);
    out.push(106);
    out.push(101);
    out.push(99);
    out.push(116);
    out.push(34);
    out.push(44);
    out.push(34);
    out.push(116);
    out.push(105);
    out.push(116);
    out.push(108);
    out.push(101);
    out.push(34);
    out.push(58);
    proof {
        assert(out@ =~= spec_obj_prefix());
    }
    push_json_text(&mut out, name);
    proof {
        assert(name.spec_bytes() == vstd::utf8::encode_utf8(name@));
    }
    out.push(44);
    out.push(34);
    out.push(112);
    out.push(114);
    out.push(111);
    out.push(112);
    out.push(101);
    out.push(114);
    out.push(116);
    out.push(105);
    out.push(101);
    out.push(115);
    out.push(34);
    out.push(58);
    out.push(123);
    let ghost head = spec_obj_prefix() + spec_json_text(vstd::utf8::encode_utf8(name@))
        + spec_props_mid();
    proof {
        assert(out@ =~= head);
    }
    let n = labels.len();
    let mut i: usize = 0;
    while i < n
        invariant
            i <= n,
            n == labels@.len(),
            gl == labels@.map_values(|l: String| l@),
            out@ == head + spec_props(gl, i as int),
        decreases n - i,
    {
        if i > 0 {
            out.push(44);
        }
        push_json_text(&mut out, labels[i].as_str());
        push_prop_suffix(&mut out);
        proof {
            assert(gl[i as int] == labels@[i as int]@);
            assert(out@ =~= head + spec_props(gl, i + 1));
        }
        i = i + 1;
    }
    out.push(125);
    out.push(125);
    proof {
        assert(out@ =~= spec_schema_json(name@, gl));
    }
    out
}

} // verus!
