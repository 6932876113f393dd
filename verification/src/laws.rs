//! Proved properties that relate the library's components across calls:
//! totality of record decoding over the closed tag set, the timestamp
//! carry-forward rule, per-channel sequence numbering, and the fused
//! transformer's one-time anchor and priority suppression.
use vstd::prelude::*;

use crate::codec::spec_tag_width;
use crate::fused::{FusedEmit, FusedKind, FusedState, spec_fused_step};
use crate::reader::{DefModel, FieldsOut, spec_decode, spec_decode_fields, spec_next_ts,
    spec_upsert};
use crate::codec::ValModel;

verus! {

/// Every tag of the sequence is in the closed tag set.
pub open spec fn spec_tags_known(tags: Seq<u8>) -> bool {
    forall|i: int| 0 <= i < tags.len() ==> spec_tag_width(tags[i]) is Some
}

/// The total byte width of a data record with the given tags.
pub open spec fn spec_rec_width(tags: Seq<u8>) -> int
    recommends
        spec_tags_known(tags),
    decreases tags.len(),
{
    if tags.len() == 0 {
        0
    } else {
        (match spec_tag_width(tags[0]) {
            Some(w) => w as int,
            None => 0,
        }) + spec_rec_width(tags.drop_first())
    }
}

proof fn lemma_rec_width_nonneg(tags: Seq<u8>)
    ensures
        spec_rec_width(tags) >= 0,
    decreases tags.len(),
{
    if tags.len() > 0 {
        lemma_rec_width_nonneg(tags.drop_first());
    }
}

proof fn lemma_rec_width_skip(tags: Seq<u8>, i: int)
    requires
        0 <= i < tags.len(),
    ensures
        spec_rec_width(tags.skip(i)) == (match spec_tag_width(tags[i]) {
            Some(w) => w as int,
            None => 0,
        }) + spec_rec_width(tags.skip(i + 1)),
{
    assert(tags.skip(i).drop_first() =~= tags.skip(i + 1));
    assert(tags.skip(i)[0] == tags[i]);
}

proof fn lemma_decode_total(
    d: Seq<u8>,
    def: DefModel,
    i: int,
    p: int,
    acc: Seq<(Seq<char>, ValModel)>,
    ts: u64,
)
    requires
        spec_tags_known(def.tags),
        0 <= i <= def.tags.len(),
    ensures
        p + spec_rec_width(def.tags.skip(i)) <= d.len() ==> (spec_decode_fields(
            d,
            def,
            i,
            p,
            acc,
            ts,
        ) matches FieldsOut::Done { end, .. } && end == p + spec_rec_width(def.tags.skip(i))),
        i < def.tags.len() && p + spec_rec_width(def.tags.skip(i)) > d.len() ==> spec_decode_fields(
            d,
            def,
            i,
            p,
            acc,
            ts,
        ) == FieldsOut::Truncated,
    decreases def.tags.len() - i,
{
    if i == def.tags.len() {
        assert(def.tags.skip(i) =~= Seq::<u8>::empty());
    } else {
        lemma_rec_width_skip(def.tags, i);
        lemma_rec_width_nonneg(def.tags.skip(i + 1));
        let w = spec_tag_width(def.tags[i])->0 as int;
        if p + w > d.len() {
        } else {
            let v = crate::codec::spec_parse_value(def.tags[i], d.subrange(p, p + w));
            let acc2 = if i < def.labels.len() {
                spec_upsert(acc, def.labels[i], v)
            } else {
                acc
            };
            let ts2 = if i < def.labels.len() && def.labels[i] == "TimeUS"@ {
                crate::reader::spec_ts_upd(v, ts)
            } else {
                ts
            };
            lemma_decode_total(d, def, i + 1, p + w, acc2, ts2);
        }
    }
}

/// Over the closed tag set, decoding never fails: a record followed by at
/// least its declared width decodes completely, and a record cut short
/// of its declared width is classified as truncation, never as an error.
pub proof fn law_decode_totality(d: Seq<u8>, def: DefModel, p: int)
    requires
        spec_tags_known(def.tags),
    ensures
        p + spec_rec_width(def.tags) <= d.len() ==> (spec_decode(d, def, p)
            matches FieldsOut::Done { end, .. } && end == p + spec_rec_width(def.tags)),
        def.tags.len() > 0 && p + spec_rec_width(def.tags) > d.len() ==> spec_decode(d, def, p)
            == FieldsOut::Truncated,
{
    assert(def.tags.skip(0) =~= def.tags);
    lemma_decode_total(d, def, 0, p, Seq::empty(), 0);
}

proof fn lemma_upsert_labels(s: Seq<(Seq<char>, ValModel)>, l: Seq<char>, v: ValModel)
    ensures
        forall|k: int|
            0 <= k < spec_upsert(s, l, v).len() ==> spec_upsert(s, l, v)[k].0 == l || (exists|j: int|
                0 <= j < s.len() && spec_upsert(s, l, v)[k].0 == s[j].0),
    decreases s.len(),
{
    let r = spec_upsert(s, l, v);
    if s.len() == 0 {
    } else if s[0].0 == l {
        assert forall|k: int| 0 <= k < r.len() implies r[k].0 == l || (exists|j: int|
            0 <= j < s.len() && r[k].0 == s[j].0) by {
            if k != 0 {
                assert(r[k].0 == s[k].0);
            }
        }
    } else {
        lemma_upsert_labels(s.drop_first(), l, v);
        let rr = spec_upsert(s.drop_first(), l, v);
        assert forall|k: int| 0 <= k < r.len() implies r[k].0 == l || (exists|j: int|
            0 <= j < s.len() && r[k].0 == s[j].0) by {
            if k == 0 {
                assert(r[0].0 == s[0].0);
            } else {
                assert(r[k] == rr[k - 1]);
                if rr[k - 1].0 != l {
                    let j = choose|j: int| 0 <= j < s.drop_first().len() && rr[k - 1].0
                        == s.drop_first()[j].0;
                    assert(s.drop_first()[j].0 == s[j + 1].0);
                }
            }
        }
    }
}

/// Whether every member of the mapping carries a label from the
/// definition's label list.
pub open spec fn spec_labels_from(fields: Seq<(Seq<char>, ValModel)>, def: DefModel) -> bool {
    forall|k: int|
        0 <= k < fields.len() ==> (exists|j: int|
            0 <= j < def.labels.len() && #[trigger] fields[k].0 == #[trigger] def.labels[j])
}

proof fn lemma_decode_labels(
    d: Seq<u8>,
    def: DefModel,
    i: int,
    p: int,
    acc: Seq<(Seq<char>, ValModel)>,
    ts: u64,
)
    requires
        0 <= i,
        spec_labels_from(acc, def),
    ensures
        spec_decode_fields(d, def, i, p, acc, ts) matches FieldsOut::Done { fields, .. }
            ==> spec_labels_from(fields, def),
    decreases def.tags.len() - i,
{
    if i >= def.tags.len() {
    } else {
        match spec_tag_width(def.tags[i]) {
            Option::None => {},
            Option::Some(w) => {
                if p + w > d.len() {
                } else {
                    let v = crate::codec::spec_parse_value(def.tags[i], d.subrange(p, p + w as int));
                    let acc2 = if i < def.labels.len() {
                        spec_upsert(acc, def.labels[i], v)
                    } else {
                        acc
                    };
                    let ts2 = if i < def.labels.len() && def.labels[i] == "TimeUS"@ {
                        crate::reader::spec_ts_upd(v, ts)
                    } else {
                        ts
                    };
                    if i < def.labels.len() {
                        lemma_upsert_labels(acc, def.labels[i], v);
                        assert forall|k: int| 0 <= k < acc2.len() implies (exists|j: int|
                            0 <= j < def.labels.len() && #[trigger] acc2[k].0 == #[trigger] def.labels[j]) by {
                            if acc2[k].0 == def.labels[i as int] {
                                assert(0 <= i < def.labels.len() && acc2[k].0 == def.labels[i]);
                            } else {
                                let m = choose|m: int| 0 <= m < acc.len() && acc2[k].0 == acc[m].0;
                                assert(exists|j: int|
                                    0 <= j < def.labels.len() && acc[m].0 == def.labels[j]);
                            }
                        }
                    }
                    lemma_decode_labels(d, def, i + 1, p + w as int, acc2, ts2);
                }
            },
        }
    }
}

/// A mismatched definition is not relied on beyond the shorter length:
/// every member of a decoded record's mapping carries a label from the
/// definition's label list, so fields beyond it contribute nothing
/// (their bytes are consumed for alignment only), and labels beyond the
/// tag list are never touched.
pub proof fn law_fields_from_labels(d: Seq<u8>, def: DefModel, p: int)
    ensures
        spec_decode(d, def, p) matches FieldsOut::Done { fields, .. } ==> spec_labels_from(
            fields,
            def,
        ),
{
    lemma_decode_labels(d, def, 0, p, Seq::empty(), 0);
}

/// The timestamps a run of records reports, given the carried timestamp
/// before the run and each record's own raw timestamp (0 when it has
/// none): a record's raw value wins when present, otherwise the record
/// inherits, and whatever a record reports is carried forward.
pub open spec fn spec_ts_outputs(last: u64, raws: Seq<u64>) -> Seq<u64>
    decreases raws.len(),
{
    if raws.len() == 0 {
        Seq::empty()
    } else {
        let t = spec_next_ts(raws[0], last);
        seq![t] + spec_ts_outputs(t, raws.drop_first())
    }
}

proof fn lemma_ts_all_inherit(last: u64, raws: Seq<u64>)
    requires
        forall|i: int| 0 <= i < raws.len() ==> raws[i] == 0,
    ensures
        spec_ts_outputs(last, raws).len() == raws.len(),
        forall|i: int| 0 <= i < raws.len() ==> spec_ts_outputs(last, raws)[i] == last,
    decreases raws.len(),
{
    if raws.len() > 0 {
        assert(raws[0] == 0);
        lemma_ts_all_inherit(last, raws.drop_first());
    }
}

/// Timestamp carry-forward: in a run of records where only the first
/// carries its own (non-zero) timestamp, every record reports that first
/// timestamp.
pub proof fn law_timestamp_carry_forward(last0: u64, first: u64, rest: Seq<u64>)
    requires
        first > 0,
        forall|i: int| 0 <= i < rest.len() ==> rest[i] == 0,
    ensures
        spec_ts_outputs(last0, seq![first] + rest).len() == rest.len() + 1,
        forall|i: int|
            0 <= i < rest.len() + 1 ==> spec_ts_outputs(last0, seq![first] + rest)[i] == first,
{
    let raws = seq![first] + rest;
    assert(raws[0] == first);
    assert(raws.drop_first() =~= rest);
    lemma_ts_all_inherit(first, rest);
}

/// The sequence counter after it is bumped: one more, wrapping at the
/// counter's width, as `ChannelRegistry::next_sequence` leaves it.
pub open spec fn spec_bump(s: u32) -> u32 {
    if s < 0xffff_ffff {
        (s + 1) as u32
    } else {
        0
    }
}

/// A channel's counter after `n` messages, starting from a fresh
/// channel's 0.
pub open spec fn spec_counter_after(n: nat) -> u32
    decreases n,
{
    if n == 0 {
        0u32
    } else {
        spec_bump(spec_counter_after((n - 1) as nat))
    }
}

/// Per-channel sequencing: as long as the counter's width is not
/// exhausted, the counter after `n` messages is exactly `n`, so the
/// `n`-th message on a channel (which `ChannelRegistry::next_sequence`
/// hands the counter before bumping it) gets sequence number `n`:
/// strictly increasing by 1 from 0, however many writers share the
/// channel.
pub proof fn law_sequence_numbers(n: nat)
    requires
        n <= 0xffff_ffff,
    ensures
        spec_counter_after(n) == n,
    decreases n,
{
    if n > 0 {
        law_sequence_numbers((n - 1) as nat);
    }
}

/// One record handed to the fused transformer: its kind, fields and
/// timestamp.
pub struct FusedInput {
    pub kind: FusedKind,
    pub fields: Seq<(Seq<char>, ValModel)>,
    pub ts: u64,
}

/// A whole run of the fused transformer: the final state and every
/// emission, in order.
pub open spec fn spec_fused_run(st: FusedState, ins: Seq<FusedInput>) -> (FusedState, Seq<
    FusedEmit,
>)
    decreases ins.len(),
{
    if ins.len() == 0 {
        (st, Seq::empty())
    } else {
        let so = spec_fused_step(st, ins[0].kind, ins[0].fields, ins[0].ts);
        let rest = spec_fused_run(so.0, ins.drop_first());
        (rest.0, so.1 + rest.1)
    }
}

/// How many world-anchor emissions a list holds.
pub open spec fn spec_count_anchors(es: Seq<FusedEmit>) -> int
    decreases es.len(),
{
    if es.len() == 0 {
        0
    } else {
        spec_count_anchors(es.drop_last()) + (if es.last() is Anchor {
            1int
        } else {
            0
        })
    }
}

proof fn lemma_count_anchors_concat(a: Seq<FusedEmit>, b: Seq<FusedEmit>)
    ensures
        spec_count_anchors(a + b) == spec_count_anchors(a) + spec_count_anchors(b),
    decreases b.len(),
{
    if b.len() == 0 {
        assert(a + b =~= a);
    } else {
        lemma_count_anchors_concat(a, b.drop_last());
        assert((a + b).drop_last() =~= a + b.drop_last());
        assert((a + b).last() == b.last());
    }
}

/// One step of the fused transformer: the home, once set, never changes;
/// an anchor is emitted exactly when the step sets the home; and the
/// home is set exactly by a position observation with a valid latitude
/// that is not suppressed, arriving while no home exists.
pub proof fn law_anchor_step(st: FusedState, kind: FusedKind, fields: Seq<(Seq<char>, ValModel)>, ts: u64)
    ensures
        ({
            let so = spec_fused_step(st, kind, fields, ts);
            &&& (st.home is Some ==> so.0.home == st.home)
            &&& spec_count_anchors(so.1) == (if st.home is None && so.0.home is Some {
                1int
            } else {
                0
            })
            &&& (so.0.home is Some <==> st.home is Some || ((kind == FusedKind::Pos || (kind
                == FusedKind::Gps && !st.has_seen_pos)) && crate::fused::spec_lat_valid(
                crate::fused::spec_geo_of(fields, kind == FusedKind::Gps).lat_e7,
            )))
            &&& (st.has_seen_pos ==> so.0.has_seen_pos)
        }),
{
    let so = spec_fused_step(st, kind, fields, ts);
    assert(spec_count_anchors(Seq::<FusedEmit>::empty()) == 0);
    reveal_with_fuel(spec_count_anchors, 4);
}

/// The world anchor is emitted exactly once per session: over any run
/// from a state without a home, the anchors emitted number 1 if the run
/// establishes a home (which the step law places at the first position
/// observation with a valid latitude) and 0 if it never does — never
/// more.
pub proof fn law_anchor_once(st: FusedState, ins: Seq<FusedInput>)
    ensures
        ({
            let ro = spec_fused_run(st, ins);
            &&& spec_count_anchors(ro.1) == (if st.home is None && ro.0.home is Some {
                1int
            } else {
                0
            })
            &&& (st.home is Some ==> ro.0.home == st.home)
        }),
    decreases ins.len(),
{
    if ins.len() == 0 {
    } else {
        let so = spec_fused_step(st, ins[0].kind, ins[0].fields, ins[0].ts);
        law_anchor_step(st, ins[0].kind, ins[0].fields, ins[0].ts);
        law_anchor_once(so.0, ins.drop_first());
        let rest = spec_fused_run(so.0, ins.drop_first());
        lemma_count_anchors_concat(so.1, rest.1);
    }
}

/// Priority suppression: once a fused-position-class record has been
/// seen, a GPS-class record produces no output at all and leaves the
/// state untouched.
pub proof fn law_gps_suppressed(st: FusedState, fields: Seq<(Seq<char>, ValModel)>, ts: u64)
    requires
        st.has_seen_pos,
    ensures
        spec_fused_step(st, FusedKind::Gps, fields, ts) == (st, Seq::<FusedEmit>::empty()),
{
}

/// The fused-position flag, once set, stays set for the rest of the run,
/// so the suppression of GPS-class records is permanent within a
/// session.
pub proof fn law_seen_pos_persists(st: FusedState, ins: Seq<FusedInput>)
    requires
        st.has_seen_pos,
    ensures
        spec_fused_run(st, ins).0.has_seen_pos,
    decreases ins.len(),
{
    if ins.len() > 0 {
        law_anchor_step(st, ins[0].kind, ins[0].fields, ins[0].ts);
        let so = spec_fused_step(st, ins[0].kind, ins[0].fields, ins[0].ts);
        law_seen_pos_persists(so.0, ins.drop_first());
    }
}

} // verus!
