//! The processing pipeline for one decode session: the dispatch of
//! decoded frames to the subscribed transformers, and the channel/schema
//! registry that deduplicates output channels and sequences their
//! messages.
use vstd::prelude::*;

use crate::fused::{FoxgloveFusedTransformer, FusedEmit, spec_fused_step};
use crate::json::spec_txts_view;
use crate::reader::{ArduFrame, ArduReader, DecodeError};
use crate::transform::{GenericTransformer, TransformedMessage};

verus! {

/// One output channel: its identity (topic and schema name) and the
/// sequence number of the next message on it.
pub struct ChannelEntry {
    pub topic: String,
    pub schema_name: String,
    pub sequence: u32,
}

/// The registry owning channel identity and sequencing: one entry per
/// distinct `(topic, schema name)` pair, in registration order; the
/// entry's index is its channel id.
pub struct ChannelRegistry {
    pub channels: Vec<ChannelEntry>,
}

/// The channel id registered for the pair, if any: the first entry with
/// that topic and schema name.
pub open spec fn spec_find_channel(s: Seq<ChannelEntry>, topic: Seq<char>, name: Seq<char>) -> Option<
    int,
>
    decreases s.len(),
{
    if s.len() == 0 {
        None
    } else if s[0].topic@ == topic && s[0].schema_name@ == name {
        Some(0)
    } else {
        match spec_find_channel(s.drop_first(), topic, name) {
            Some(j) => Some(j + 1),
            None => None,
        }
    }
}

proof fn lemma_find_channel_at(s: Seq<ChannelEntry>, topic: Seq<char>, name: Seq<char>, j: int)
    requires
        0 <= j < s.len(),
        forall|k: int|
            0 <= k < j ==> !(s[k].topic@ == topic && s[k].schema_name@ == name),
        s[j].topic@ == topic && s[j].schema_name@ == name,
    ensures
        spec_find_channel(s, topic, name) == Some(j),
    decreases j,
{
    if j > 0 {
        lemma_find_channel_at(s.drop_first(), topic, name, j - 1);
    }
}

proof fn lemma_find_channel_none(s: Seq<ChannelEntry>, topic: Seq<char>, name: Seq<char>)
    requires
        forall|k: int|
            0 <= k < s.len() ==> !(s[k].topic@ == topic && s[k].schema_name@ == name),
    ensures
        spec_find_channel(s, topic, name) is None,
    decreases s.len(),
{
    if s.len() > 0 {
        lemma_find_channel_none(s.drop_first(), topic, name);
    }
}

impl ChannelRegistry {
    /// An empty registry.
    pub fn new() -> (r: Self)
        ensures
            r.channels@.len() == 0,
    {
        ChannelRegistry { channels: Vec::new() }
    }

    /// The channel id for the pair: idempotent per distinct pair. The
    /// first call registers a fresh channel with sequence counter 0 and
    /// reports it fresh; later calls return the same id and register
    /// nothing.
    pub fn register_or_get(&mut self, topic: &String, schema_name: &String) -> (r: (usize, bool))
        ensures
            ({
                match spec_find_channel(old(self).channels@, topic@, schema_name@) {
                    Some(j) => r.0 == j && r.1 == false && *final(self) == *old(self),
                    None => {
                        &&& r.0 == old(self).channels@.len() && r.1 == true
                        &&& final(self).channels@.len() == old(self).channels@.len() + 1
                        &&& forall|k: int|
                            0 <= k < old(self).channels@.len() ==> final(self).channels@[k] == old(
                                self,
                            ).channels@[k]
                        &&& final(self).channels@.last().topic@ == topic@
                        &&& final(self).channels@.last().schema_name@ == schema_name@
                        &&& final(self).channels@.last().sequence == 0
                    },
                }
            }),
            r.0 < final(self).channels@.len(),
    {
        let n = self.channels.len();
        let mut j: usize = 0;
        while j < n
            invariant
                j <= n,
                n == self.channels@.len(),
                *self == *old(self),
                forall|k: int|
                    0 <= k < j ==> !(self.channels@[k].topic@ == topic@
                        && self.channels@[k].schema_name@ == schema_name@),
            decreases n - j,
        {
            let e = &self.channels[j];
            if e.topic.eq(topic) && e.schema_name.eq(schema_name) {
                proof {
                    lemma_find_channel_at(self.channels@, topic@, schema_name@, j as int);
                }
                return (j, false);
            }
            j = j + 1;
        }
        proof {
            lemma_find_channel_none(self.channels@, topic@, schema_name@);
        }
        self.channels.push(
            ChannelEntry { topic: topic.clone(), schema_name: schema_name.clone(), sequence: 0 },
        );
        (n, true)
    }

    /// Returns the channel's sequence number and then increments the
    /// stored counter by exactly one (wrapping at the counter's width).
    pub fn next_sequence(&mut self, channel_id: usize) -> (r: u32)
        requires
            channel_id < old(self).channels@.len(),
        ensures
            r == old(self).channels@[channel_id as int].sequence,
            final(self).channels@.len() == old(self).channels@.len(),
            forall|k: int|
                0 <= k < old(self).channels@.len() && k != channel_id ==> final(self).channels@[k]
                    == old(self).channels@[k],
            final(self).channels@[channel_id as int].topic == old(
                self,
            ).channels@[channel_id as int].topic,
            final(self).channels@[channel_id as int].schema_name == old(
                self,
            ).channels@[channel_id as int].schema_name,
            final(self).channels@[channel_id as int].sequence == (if r < u32::MAX {
                r + 1
            } else {
                0
            }),
    {
        let e = vstd::std_specs::vec::vec_index_mut(&mut self.channels, channel_id);
        let s = e.sequence;
        e.sequence = if s < u32::MAX {
            s + 1
        } else {
            0
        };
        s
    }
}

/// The position where the final path component of `s` starts: just
/// after the last slash, or 0.
pub open spec fn spec_comp_start(s: Seq<char>) -> int
    decreases s.len(),
{
    if s.len() == 0 {
        0
    } else if s.last() == '/' {
        s.len() as int
    } else {
        spec_comp_start(s.drop_last())
    }
}

/// The position of the extension dot: the last `.` strictly inside the
/// final component (a leading dot names a hidden file, not an
/// extension), or -1 if there is none.
pub open spec fn spec_ext_dot(s: Seq<char>, cs: int) -> int
    decreases s.len(),
{
    if s.len() == 0 {
        -1
    } else if s.len() - 1 > cs && s.last() == '.' {
        s.len() - 1
    } else {
        spec_ext_dot(s.drop_last(), cs)
    }
}

/// The file name with its extension replaced by `mcap`: the extension
/// (if any) of the final path component is cut, and `.mcap` appended.
pub open spec fn spec_with_mcap_extension(s: Seq<char>) -> Seq<char> {
    let dot = spec_ext_dot(s, spec_comp_start(s));
    (if dot >= 0 {
        s.take(dot)
    } else {
        s
    }) + ".mcap"@
}

proof fn lemma_comp_start_at(s: Seq<char>, i: int)
    requires
        0 <= i <= s.len(),
        forall|k: int| i <= k < s.len() ==> s[k] != '/',
        i == 0 || s[i - 1] == '/',
    ensures
        spec_comp_start(s) == i,
    decreases s.len(),
{
    if s.len() > i {
        lemma_comp_start_at(s.drop_last(), i);
    }
}

proof fn lemma_ext_dot_at(s: Seq<char>, cs: int, j: int)
    requires
        0 <= j < s.len(),
        j > cs,
        s[j] == '.',
        forall|k: int| j < k < s.len() ==> s[k] != '.',
    ensures
        spec_ext_dot(s, cs) == j,
    decreases s.len(),
{
    if s.len() - 1 > j {
        lemma_ext_dot_at(s.drop_last(), cs, j);
    }
}

proof fn lemma_ext_dot_none(s: Seq<char>, cs: int)
    requires
        forall|k: int| 0 <= k < s.len() ==> !(k > cs && s[k] == '.'),
    ensures
        spec_ext_dot(s, cs) == -1,
    decreases s.len(),
{
    if s.len() > 0 {
        lemma_ext_dot_none(s.drop_last(), cs);
    }
}

/// The output file name for an input file name: the same path with the
/// extension replaced by `mcap` (appended when the name has none).
#[verifier::loop_isolation(false)]
pub fn with_mcap_extension(name: &str) -> (r: String)
    ensures
        r@ == spec_with_mcap_extension(name@),
{
    let n = name.unicode_len();
    let mut cs: usize = n;
    while cs > 0 && name.get_char(cs - 1) != '/'
        invariant
            cs <= n,
            forall|k: int| cs <= k < n ==> name@[k] != '/',
        decreases cs,
    {
        cs = cs - 1;
    }
    proof {
        lemma_comp_start_at(name@, cs as int);
    }
    let mut j: usize = n;
    let mut dot: usize = 0;
    let mut found: bool = false;
    while j > 0 && j - 1 > cs
        invariant
            j <= n,
            !found ==> forall|k: int| j <= k < n ==> !(k > cs && name@[k] == '.'),
            found ==> cs < dot < n && name@[dot as int] == '.' && (forall|k: int|
                dot < k < n ==> name@[k] != '.'),
        decreases j,
    {
        j = j - 1;
        if !found && name.get_char(j) == '.' {
            found = true;
            dot = j;
        }
    }
    let stem: &str = if found {
        proof {
            lemma_ext_dot_at(name@, cs as int, dot as int);
        }
        name.substring_char(0, dot)
    } else {
        proof {
            lemma_ext_dot_none(name@, cs as int);
            assert(name@.take(n as int) =~= name@);
        }
        name.substring_char(0, n)
    };
    let mut r = String::from_str(stem);
    r.append(".mcap");
    r
}

/// Which transformers subscribed to a record type.
#[derive(Clone, Copy, PartialEq, Eq, Structural, Debug)]
pub struct Subscription {
    pub generic: bool,
    pub fused: bool,
}

/// Everything a caller needs to write one output message: the channel it
/// goes to, whether that channel still has to be registered with the
/// container writer, and the message's sequence number.
#[derive(Clone, Copy, PartialEq, Eq, Structural, Debug)]
pub struct DeliverCmd {
    pub channel_id: usize,
    pub fresh: bool,
    pub sequence: u32,
}

/// One decode session: the decoder, the ordered transformers (the
/// generic pass-through first, then the fused-geodetic one), the
/// per-type-id subscription table rebuilt on every definition, and the
/// channel registry.
pub struct Session {
    pub reader: ArduReader,
    pub generic: GenericTransformer,
    pub fused: FoxgloveFusedTransformer,
    pub subs: Vec<Subscription>,
    pub registry: ChannelRegistry,
}

impl Session {
    /// The session invariant: each component well-formed, one
    /// subscription slot per type id, and a transformer subscribed only
    /// where its own registration state covers the type id.
    pub open spec fn wf(self) -> bool {
        &&& self.reader.wf()
        &&& self.generic.wf()
        &&& self.fused.wf()
        &&& self.subs@.len() == 256
        &&& forall|t: int|
            0 <= t < 256 && self.subs@[t].generic ==> self.generic.schemas@[t] is Some
        &&& forall|t: int|
            0 <= t < 256 && self.subs@[t].fused ==> self.fused.topic_map@[t] is Some
    }

    /// A fresh session over the given bytes, with fresh transformer
    /// state, no subscriptions and an empty registry.
    pub fn new(data: Vec<u8>) -> (r: Self)
        ensures
            r.wf(),
            r.reader.pos == 0,
            r.reader.data == data,
            r.registry.channels@.len() == 0,
            forall|t: int| 0 <= t < 256 ==> r.subs@[t] == (Subscription {
                generic: false,
                fused: false,
            }),
    {
        let mut subs: Vec<Subscription> = Vec::new();
        let mut k: usize = 0;
        while k < 256
            invariant
                k <= 256,
                subs@.len() == k,
                forall|i: int| 0 <= i < k ==> subs@[i] == (Subscription {
                    generic: false,
                    fused: false,
                }),
            decreases 256 - k,
        {
            subs.push(Subscription { generic: false, fused: false });
            k = k + 1;
        }
        Session {
            reader: ArduReader::new(data),
            generic: GenericTransformer::new(),
            fused: FoxgloveFusedTransformer::new(),
            subs,
            registry: ChannelRegistry::new(),
        }
    }

    /// Reads the next frame, and on a definition re-registers it with
    /// every transformer and rebuilds that type id's subscription entry
    /// from scratch. Data frames, the end of the stream and errors leave
    /// everything but the decoder untouched.
    pub fn read_frame(&mut self) -> (r: Result<ArduFrame, DecodeError>)
        requires
            old(self).wf(),
        ensures
            final(self).wf(),
            ArduReader::spec_read_post(old(self).reader, final(self).reader, r),
            final(self).registry == old(self).registry,
            !(r matches Ok(ArduFrame::ArduDefinition(_))) ==> {
                &&& final(self).generic == old(self).generic
                &&& final(self).fused == old(self).fused
                &&& final(self).subs@ == old(self).subs@
            },
            r matches Ok(ArduFrame::ArduDefinition(def)) ==> {
                let tid = def@.type_id as int;
                &&& final(self).generic.schemas@[tid] matches Some(p) && p.0@ == def@.name && p.1@
                    == crate::json::spec_schema_json(def@.name, def@.labels)
                &&& forall|j: int|
                    0 <= j < 256 && j != tid ==> final(self).generic.schemas@[j] == old(
                        self,
                    ).generic.schemas@[j]
                &&& final(self).fused.state == old(self).fused.state
                &&& forall|j: int|
                    0 <= j < 256 && j != tid ==> final(self).fused.topic_map@[j] == old(
                        self,
                    ).fused.topic_map@[j]
                &&& (FoxgloveFusedTransformer::spec_kind_of_name(def@.name) is Some ==> final(self).fused.topic_map@[tid] == FoxgloveFusedTransformer::spec_kind_of_name(def@.name))
                &&& forall|j: int|
                    0 <= j < 256 && j != tid ==> final(self).subs@[j] == old(self).subs@[j]
                &&& final(self).subs@[tid] == (Subscription {
                    generic: true,
                    fused: FoxgloveFusedTransformer::spec_kind_of_name(def@.name) is Some,
                })
            },
    {
        let frame = self.reader.read()?;
        match &frame {
            ArduFrame::ArduDefinition(def) => {
                let g = self.generic.check_registered_to_transform(def);
                let f = self.fused.check_registered_to_transform(def);
                let tid = def.ardu_fmt.type_id as usize;
                self.subs[tid] = Subscription { generic: g, fused: f };
            },
            _ => {},
        }
        Ok(frame)
    }

    /// The subscription flags of a type id: whether the generic and the
    /// fused transformer asked for its records.
    pub fn route(&self, type_id: u8) -> (r: (bool, bool))
        requires
            self.wf(),
        ensures
            r.0 == self.subs@[type_id as int].generic,
            r.1 == self.subs@[type_id as int].fused,
    {
        let s = self.subs[type_id as usize];
        (s.generic, s.fused)
    }

    /// Delivers the record to the generic transformer. `float_txts`
    /// supplies one entry per record field, the rendered number text of
    /// each floating-point field.
    pub fn transform_generic(
        &mut self,
        msg: &crate::reader::ArduMessage,
        float_txts: &Vec<Option<String>>,
    ) -> (out: Vec<TransformedMessage>)
        requires
            old(self).wf(),
            old(self).subs@[msg.type_id as int].generic,
            float_txts@.len() == msg.fields@.len(),
        ensures
            final(self).wf(),
            *final(self) == *old(self),
            out@.len() == 1,
            ({
                let p = old(self).generic.schemas@[msg.type_id as int]->0;
                &&& out@[0].topic@ == "/ardupilot/"@ + p.0@
                &&& out@[0].schema_name@ == p.0@
                &&& out@[0].schema_encoding@ == "jsonschema"@
                &&& out@[0].schema_data@ == p.1@
                &&& out@[0].payload@ == crate::json::spec_record_json(
                    msg@.fields,
                    spec_txts_view(float_txts@),
                )
            }),
    {
        self.generic.transform(msg, float_txts)
    }

    /// Delivers the record to the fused-geodetic transformer, advancing
    /// its session state one step.
    pub fn transform_fused(&mut self, msg: &crate::reader::ArduMessage) -> (out: Vec<FusedEmit>)
        requires
            old(self).wf(),
            old(self).subs@[msg.type_id as int].fused,
        ensures
            final(self).wf(),
            final(self).reader == old(self).reader,
            final(self).generic == old(self).generic,
            final(self).subs@ == old(self).subs@,
            final(self).registry == old(self).registry,
            final(self).fused.topic_map@ == old(self).fused.topic_map@,
            ({
                let kind = old(self).fused.topic_map@[msg.type_id as int]->0;
                let so = spec_fused_step(old(self).fused.state, kind, msg@.fields, msg@.ts);
                final(self).fused.state == so.0 && out@ == so.1
            }),
    {
        self.fused.transform(msg)
    }

    /// Assigns the message its channel and sequence number: registers
    /// the `(topic, schema name)` pair on first sight (the command then
    /// says the channel is fresh and must be registered with the
    /// container writer), and hands out the channel's next sequence
    /// number, starting at 0.
    pub fn deliver(&mut self, m: &TransformedMessage) -> (r: DeliverCmd)
        requires
            old(self).wf(),
        ensures
            final(self).wf(),
            final(self).reader == old(self).reader,
            final(self).generic == old(self).generic,
            final(self).fused == old(self).fused,
            final(self).subs@ == old(self).subs@,
            r.channel_id < final(self).registry.channels@.len(),
            ({
                match spec_find_channel(old(self).registry.channels@, m.topic@, m.schema_name@) {
                    Some(j) => {
                        &&& r.channel_id == j && r.fresh == false
                        &&& r.sequence == old(self).registry.channels@[j].sequence
                        &&& final(self).registry.channels@.len() == old(
                            self,
                        ).registry.channels@.len()
                        &&& forall|k: int|
                            0 <= k < old(self).registry.channels@.len() && k != j ==> final(self).registry.channels@[k] == old(self).registry.channels@[k]
                        &&& final(self).registry.channels@[j].sequence == (if r.sequence
                            < u32::MAX {
                            r.sequence + 1
                        } else {
                            0
                        })
                        &&& final(self).registry.channels@[j].topic == old(
                            self,
                        ).registry.channels@[j].topic
                        &&& final(self).registry.channels@[j].schema_name == old(
                            self,
                        ).registry.channels@[j].schema_name
                    },
                    None => {
                        &&& r.channel_id == old(self).registry.channels@.len() && r.fresh == true
                        &&& r.sequence == 0
                        &&& final(self).registry.channels@.len() == old(
                            self,
                        ).registry.channels@.len() + 1
                        &&& forall|k: int|
                            0 <= k < old(self).registry.channels@.len() ==> final(self).registry.channels@[k] == old(self).registry.channels@[k]
                        &&& final(self).registry.channels@.last().topic@ == m.topic@
                        &&& final(self).registry.channels@.last().schema_name@ == m.schema_name@
                        &&& final(self).registry.channels@.last().sequence == 1
                    },
                }
            }),
    {
        let (channel_id, fresh) = self.registry.register_or_get(&m.topic, &m.schema_name);
        let sequence = self.registry.next_sequence(channel_id);
        DeliverCmd { channel_id, fresh, sequence }
    }
}

} // verus!
