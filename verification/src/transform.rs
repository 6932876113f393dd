//! The generic pass-through transformer: mirrors every defined record
//! type into its own schema and topic, one output message per record.
use vstd::prelude::*;

use crate::json::{spec_schema_json, spec_record_json, spec_txts_view, render_schema_json,
    render_record_json};
use crate::reader::{ArduDefinition, ArduMessage};
use vstd::string::StringSliceAdditionalSpecFns;

verus! {

/// An output message produced by a transformer: a topic, the schema that
/// describes the payload, and the payload bytes. Immutable once created.
pub struct TransformedMessage {
    pub topic: String,
    pub schema_name: String,
    pub schema_encoding: String,
    pub schema_data: Vec<u8>,
    pub payload: Vec<u8>,
}

/// Mirrors every record type: accepts every definition, captures a
/// synthesized schema per type id, and emits one message per record on a
/// topic derived from the definition's display name.
pub struct GenericTransformer {
    pub schemas: Vec<Option<(String, Vec<u8>)>>,
}

impl GenericTransformer {
    /// One captured-schema slot per possible type id.
    pub open spec fn wf(self) -> bool {
        self.schemas@.len() == 256
    }

    /// A fresh generic transformer with no captured schemas.
    pub fn new() -> (r: Self)
        ensures
            r.wf(),
            forall|i: int| 0 <= i < 256 ==> r.schemas@[i] is None,
    {
        let mut schemas: Vec<Option<(String, Vec<u8>)>> = Vec::new();
        let mut k: usize = 0;
        while k < 256
            invariant
                k <= 256,
                schemas@.len() == k,
                forall|i: int| 0 <= i < k ==> schemas@[i] is None,
            decreases 256 - k,
        {
            schemas.push(None);
            k = k + 1;
        }
        GenericTransformer { schemas }
    }

    /// Accepts every definition; synthesizes the schema document for it
    /// and captures it, with the display name, under the type id
    /// (overwriting any earlier capture for that id).
    pub fn check_registered_to_transform(&mut self, definition: &ArduDefinition) -> (r: bool)
        requires
            old(self).wf(),
        ensures
            final(self).wf(),
            r == true,
            forall|j: int|
                0 <= j < 256 && j != definition@.type_id ==> final(self).schemas@[j] == old(
                    self,
                ).schemas@[j],
            final(self).schemas@[definition@.type_id as int] matches Some(p) && p.0@
                == definition@.name && p.1@ == spec_schema_json(definition@.name, definition@.labels),
    {
        let schema = render_schema_json(definition.ardu_fmt.name.as_str(), &definition.labels);
        let name = definition.ardu_fmt.name.clone();
        let idx = definition.ardu_fmt.type_id as usize;
        self.schemas[idx] = Some((name, schema));
        true
    }

    /// Emits exactly one message for the record: topic `/ardupilot/` plus
    /// the captured display name, the captured schema, and the record's
    /// field mapping serialized as a JSON object. `float_txts` supplies
    /// one entry per field, the rendered number text of each
    /// floating-point field.
    pub fn transform(&mut self, msg: &ArduMessage, float_txts: &Vec<Option<String>>) -> (out: Vec<
        TransformedMessage,
    >)
        requires
            old(self).wf(),
            old(self).schemas@[msg.type_id as int] is Some,
            float_txts@.len() == msg.fields@.len(),
        ensures
            *final(self) == *old(self),
            out@.len() == 1,
            ({
                let p = old(self).schemas@[msg.type_id as int]->0;
                &&& out@[0].topic@ == "/ardupilot/"@ + p.0@
                &&& out@[0].schema_name@ == p.0@
                &&& out@[0].schema_encoding@ == "jsonschema"@
                &&& out@[0].schema_data@ == p.1@
                &&& out@[0].payload@ == spec_record_json(msg@.fields, spec_txts_view(float_txts@))
            }),
    {
        let entry = match &self.schemas[msg.type_id as usize] {
            Option::Some(p) => p,
            Option::None => {
                proof {
                    assert(false);
                }
                unreached()
            },
        };
        let mut topic = String::from_str("/ardupilot/");
        topic.append(entry.0.as_str());
        let schema_name = entry.0.clone();
        let schema_data = crate::reader::copy_bytes(&entry.1);
        let payload = render_record_json(&msg.fields, float_txts);
        let m = TransformedMessage {
            topic,
            schema_name,
            schema_encoding: String::from_str("jsonschema"),
            schema_data,
            payload,
        };
        let mut out: Vec<TransformedMessage> = Vec::new();
        out.push(m);
        out
    }
}

} // verus!
