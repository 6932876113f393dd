//! Field codec: the closed set of one-character type tags, the byte width
//! each consumes, and the decoding of a field's bytes into a tagged scalar
//! value.
//!
//! Floating-point fields are carried as their IEEE 754 bit patterns; the
//! library itself never does floating-point arithmetic.
use vstd::prelude::*;

use crate::text::{spec_sanitize, sanitize_str};

verus! {

/// A decoded field value. `Float` and `Double` hold the little-endian bit
/// pattern of the 32- or 64-bit value.
#[derive(Debug, Clone, PartialEq)]
pub enum LogValue {
    Int(i64),
    UInt(u64),
    Float(u32),
    Double(u64),
    Text(String),
}

/// The mathematical model of a [`LogValue`]: text is a character sequence.
pub enum ValModel {
    Int(i64),
    UInt(u64),
    Float(u32),
    Double(u64),
    Text(Seq<char>),
}

impl View for LogValue {
    type V = ValModel;

    open spec fn view(&self) -> ValModel {
        match self {
            LogValue::Int(v) => ValModel::Int(*v),
            LogValue::UInt(v) => ValModel::UInt(*v),
            LogValue::Float(v) => ValModel::Float(*v),
            LogValue::Double(v) => ValModel::Double(*v),
            LogValue::Text(s) => ValModel::Text(s@),
        }
    }
}

/// Byte width consumed by a field with the given format tag, or `None`
/// for a tag outside the closed tag set.
pub open spec fn spec_tag_width(tag: u8) -> Option<u64> {
    if tag == 98 || tag == 66 || tag == 77 {
        Some(1u64)
    } else if tag == 104 || tag == 99 || tag == 72 || tag == 67 {
        Some(2u64)
    } else if tag == 105 || tag == 76 || tag == 73 || tag == 69 || tag == 101 || tag == 102
        || tag == 110 {
        Some(4u64)
    } else if tag == 113 || tag == 81 || tag == 100 {
        Some(8u64)
    } else if tag == 78 {
        Some(16u64)
    } else if tag == 90 {
        Some(64u64)
    } else {
        None
    }
}

/// Number of bytes a field with format tag `tag` occupies in a data
/// record, or `None` if the tag is not in the closed tag set.
pub fn field_length(tag: u8) -> (r: Option<u64>)
    ensures
        r == spec_tag_width(tag),
{
    match tag {
        98 | 66 | 77 => Some(1),  // b B M
        104 | 99 | 72 | 67 => Some(2),  // h c H C
        105 | 76 | 73 | 69 | 101 | 102 | 110 => Some(4),  // i L I E e f n
        113 | 81 | 100 => Some(8),  // q Q d
        78 => Some(16),  // N
        90 => Some(64),  // Z
        _ => None,
    }
}

/// The unsigned integer held little-endian in `s`.
pub open spec fn spec_le(s: Seq<u8>) -> int
    decreases s.len(),
{
    if s.len() == 0 {
        0
    } else {
        s[0] + 256 * spec_le(s.drop_first())
    }
}

/// The signed (two's-complement) reading of the `n`-byte value `u`.
pub open spec fn spec_signed(u: int, n: int) -> int {
    if u < pow2_half(n) {
        u
    } else {
        u - pow2_full(n)
    }
}

pub open spec fn pow2_half(n: int) -> int {
    if n == 1 {
        0x80
    } else if n == 2 {
        0x8000
    } else if n == 4 {
        0x8000_0000
    } else {
        0x8000_0000_0000_0000
    }
}

pub open spec fn pow2_full(n: int) -> int {
    if n == 1 {
        0x100
    } else if n == 2 {
        0x1_0000
    } else if n == 4 {
        0x1_0000_0000
    } else {
        0x1_0000_0000_0000_0000
    }
}

/// The value a field with format tag `tag` decodes to from the bytes `s`,
/// which must be exactly the tag's width. Integer tags are read
/// little-endian (signed tags in two's complement), float tags keep their
/// bit pattern, and text tags drop NUL padding and decode as UTF-8.
pub open spec fn spec_parse_value(tag: u8, s: Seq<u8>) -> ValModel {
    // signed: b h c i L e q
    if tag == 98 {
        ValModel::Int(spec_signed(spec_le(s), 1) as i64)
    } else if tag == 104 || tag == 99 {
        ValModel::Int(spec_signed(spec_le(s), 2) as i64)
    } else if tag == 105 || tag == 76 || tag == 101 {
        ValModel::Int(spec_signed(spec_le(s), 4) as i64)
    } else if tag == 113 {
        ValModel::Int(spec_signed(spec_le(s), 8) as i64)
    } else if tag == 66 || tag == 77 || tag == 72 || tag == 67 || tag == 73 || tag == 69 || tag
        == 81 {
        ValModel::UInt(spec_le(s) as u64)
    } else if tag == 102 {
        ValModel::Float(spec_le(s) as u32)
    } else if tag == 100 {
        ValModel::Double(spec_le(s) as u64)
    } else {
        ValModel::Text(spec_sanitize(s))
    }
}

/// Unfolds [`spec_le`] on a sequence of up to 8 bytes into the explicit
/// weighted sum of its bytes.
proof fn lemma_le_unfold(s: Seq<u8>)
    ensures
        s.len() == 0 ==> spec_le(s) == 0,
        s.len() == 1 ==> spec_le(s) == s[0],
        s.len() == 2 ==> spec_le(s) == s[0] + 256 * s[1],
        s.len() == 3 ==> spec_le(s) == s[0] + 256 * s[1] + 65536 * s[2],
        s.len() == 4 ==> spec_le(s) == s[0] + 256 * s[1] + 65536 * s[2] + 16777216 * s[3],
        s.len() == 5 ==> spec_le(s) == s[0] + 256 * s[1] + 65536 * s[2] + 16777216 * s[3]
            + 0x1_0000_0000 * s[4],
        s.len() == 6 ==> spec_le(s) == s[0] + 256 * s[1] + 65536 * s[2] + 16777216 * s[3]
            + 0x1_0000_0000 * s[4] + 0x100_0000_0000 * s[5],
        s.len() == 7 ==> spec_le(s) == s[0] + 256 * s[1] + 65536 * s[2] + 16777216 * s[3]
            + 0x1_0000_0000 * s[4] + 0x100_0000_0000 * s[5] + 0x1_0000_0000_0000 * s[6],
        s.len() == 8 ==> spec_le(s) == s[0] + 256 * s[1] + 65536 * s[2] + 16777216 * s[3]
            + 0x1_0000_0000 * s[4] + 0x100_0000_0000 * s[5] + 0x1_0000_0000_0000 * s[6]
            + 0x100_0000_0000_0000 * s[7],
    decreases s.len(),
{
    if s.len() > 0 {
        lemma_le_unfold(s.drop_first());
        assert(forall|i: int| 0 <= i < s.len() - 1 ==> s.drop_first()[i] == s[i + 1]);
    }
}

fn le_u16(s: &[u8]) -> (r: u16)
    requires
        s@.len() == 2,
    ensures
        r == spec_le(s@),
{
    proof {
        lemma_le_unfold(s@);
    }
    let b0 = *vstd::slice::slice_index_get(s, 0);
    let b1 = *vstd::slice::slice_index_get(s, 1);
    b0 as u16 + 256 * (b1 as u16)
}

fn le_u32(s: &[u8]) -> (r: u32)
    requires
        s@.len() == 4,
    ensures
        r == spec_le(s@),
{
    proof {
        lemma_le_unfold(s@);
    }
    let b0 = *vstd::slice::slice_index_get(s, 0);
    let b1 = *vstd::slice::slice_index_get(s, 1);
    let b2 = *vstd::slice::slice_index_get(s, 2);
    let b3 = *vstd::slice::slice_index_get(s, 3);
    b0 as u32 + 256 * (b1 as u32) + 65536 * (b2 as u32) + 16777216 * (b3 as u32)
}

fn le_u64(s: &[u8]) -> (r: u64)
    requires
        s@.len() == 8,
    ensures
        r == spec_le(s@),
{
    proof {
        lemma_le_unfold(s@);
    }
    let b0 = *vstd::slice::slice_index_get(s, 0);
    let b1 = *vstd::slice::slice_index_get(s, 1);
    let b2 = *vstd::slice::slice_index_get(s, 2);
    let b3 = *vstd::slice::slice_index_get(s, 3);
    let b4 = *vstd::slice::slice_index_get(s, 4);
    let b5 = *vstd::slice::slice_index_get(s, 5);
    let b6 = *vstd::slice::slice_index_get(s, 6);
    let b7 = *vstd::slice::slice_index_get(s, 7);
    b0 as u64 + 256 * (b1 as u64) + 65536 * (b2 as u64) + 16777216 * (b3 as u64) + 0x1_0000_0000
        * (b4 as u64) + 0x100_0000_0000 * (b5 as u64) + 0x1_0000_0000_0000 * (b6 as u64)
        + 0x100_0000_0000_0000 * (b7 as u64)
}

/// Decodes the bytes of one field, given its format tag from the closed
/// tag set and exactly the tag's declared number of bytes. Decoding a full
/// field never fails.
pub fn parse_value(tag: u8, s: &[u8]) -> (r: LogValue)
    requires
        spec_tag_width(tag) is Some,
        s@.len() == spec_tag_width(tag)->0,
    ensures
        r@ == spec_parse_value(tag, s@),
{
    proof {
        lemma_le_unfold(s@);
    }
    match tag {
        // tag characters: b
        98 => {
            let u = *vstd::slice::slice_index_get(s, 0);
            let v: i64 = if u >= 128 {
                (u as i64) - 256
            } else {
                u as i64
            };
            LogValue::Int(v)
        },
        // h c
        104 | 99 => {
            let u = le_u16(s);
            let v: i64 = if u >= 0x8000 {
                (u as i64) - 0x1_0000
            } else {
                u as i64
            };
            LogValue::Int(v)
        },
        // i L e
        105 | 76 | 101 => {
            let u = le_u32(s);
            let v: i64 = if u >= 0x8000_0000 {
                (u as i64) - 0x1_0000_0000
            } else {
                u as i64
            };
            LogValue::Int(v)
        },
        // q
        113 => {
            let u = le_u64(s);
            let v: i64 = if u >= 0x8000_0000_0000_0000 {
                ((u - 0x8000_0000_0000_0000) as i64) + i64::MIN
            } else {
                u as i64
            };
            LogValue::Int(v)
        },
        // B M
        66 | 77 => {
            let u = *vstd::slice::slice_index_get(s, 0);
            LogValue::UInt(u as u64)
        },
        // H C
        72 | 67 => LogValue::UInt(le_u16(s) as u64),
        // I E
        73 | 69 => LogValue::UInt(le_u32(s) as u64),
        // Q
        81 => LogValue::UInt(le_u64(s)),
        // f
        102 => LogValue::Float(le_u32(s)),
        // d
        100 => LogValue::Double(le_u64(s)),
        _ => LogValue::Text(sanitize_str(s)),
    }
}

} // verus!
