//! Transaction metadata: the rendition of each label's content, and the
//! JSON of nested content.
use crate::decoded::Metadatum;
use crate::error::{result_view, ConvertError, Failure};
use crate::json::{
    json_from_i128, json_from_map, json_from_string, json_from_vec, json_map_insert,
    json_map_new, json_members, json_model, json_models, JsonModel,
};
use crate::mapper::EventWriter;
use crate::model::{
    MetadataRecord, MetadataRecordView, MetadatumRendition, MetadatumRenditionView,
};
use crate::text::{decimal, hex_string, i128_to_string, signed_decimal, u64_to_string, ToHex};
use crate::views::{keyed, lemma_keyed_push};
use vstd::prelude::*;

verus! {

/// The text of a piece of metadata that stands as a key: an integer in
/// decimal, bytes in hexadecimal, a text as it is; of any other shape, which
/// is invalid for a key, the empty text.
pub open spec fn metadatum_key(datum: Metadatum) -> Seq<char> {
    match datum {
        Metadatum::Int(x) => signed_decimal(x as int),
        Metadatum::Bytes(x) => hex_string(x@),
        Metadatum::Text(x) => x@,
        _ => Seq::empty(),
    }
}

/// Renders a piece of metadata as a key. A shape that no key can have does
/// not fail the call: it renders as the empty text.
pub fn metadatum_to_string_key(datum: &Metadatum) -> (key: String)
    ensures
        key@ == metadatum_key(*datum),
{
    match datum {
        Metadatum::Int(x) => i128_to_string(*x),
        Metadatum::Bytes(x) => x.to_hex(),
        Metadatum::Text(x) => x.clone(),
        _ => String::new(),
    }
}

/// Whether every integer in a piece of metadata fits a JSON number.
pub open spec fn json_representable(datum: Metadatum) -> bool
    decreases datum,
{
    match datum {
        Metadatum::Int(x) => i64::MIN <= x <= u64::MAX,
        Metadatum::Bytes(_) => true,
        Metadatum::Text(_) => true,
        Metadatum::Array(items) => forall|i: int|
            0 <= i < items.len() ==> json_representable(#[trigger] items@[i]),
        Metadatum::Mapping(entries) => forall|i: int|
            0 <= i < entries.len() ==> json_representable((#[trigger] entries@[i]).1),
    }
}

/// The JSON of a piece of metadata: an integer as a number, bytes as their
/// hexadecimal text, a text as a string, an array as an array, and a map as
/// an object whose keys are the texts of the map's keys; of two entries with
/// the same key text the later one stays.
pub open spec fn metadatum_json(datum: Metadatum) -> JsonModel
    decreases datum, 0nat,
{
    match datum {
        Metadatum::Int(x) => JsonModel::Number(x as int),
        Metadatum::Bytes(x) => JsonModel::Text(hex_string(x@)),
        Metadatum::Text(x) => JsonModel::Text(x@),
        Metadatum::Array(items) => JsonModel::Array(array_jsons(items, items.len() as nat)),
        Metadatum::Mapping(entries) => JsonModel::Object(
            keyed(mapping_members(entries, entries.len() as nat)),
        ),
    }
}

/// The JSON of the first `n` items of an array.
pub open spec fn array_jsons(items: Vec<Metadatum>, n: nat) -> Seq<JsonModel>
    decreases items, n,
{
    if n == 0 || n > items.len() {
        Seq::empty()
    } else {
        array_jsons(items, (n - 1) as nat).push(metadatum_json(items@[n - 1]))
    }
}

/// The members that the first `n` entries of a map make: the text of each
/// key with the JSON of its value.
pub open spec fn mapping_members(entries: Vec<(Metadatum, Metadatum)>, n: nat) -> Seq<
    (Seq<char>, JsonModel),
>
    decreases entries, n,
{
    if n == 0 || n > entries.len() {
        Seq::empty()
    } else {
        mapping_members(entries, (n - 1) as nat).push(
            (metadatum_key(entries@[n - 1].0), metadatum_json(entries@[n - 1].1)),
        )
    }
}

/// The JSON of a piece of metadata, where JSON can hold it.
pub open spec fn metadatum_json_outcome(datum: Metadatum) -> Result<JsonModel, Failure> {
    if json_representable(datum) {
        Ok(metadatum_json(datum))
    } else {
        Err(Failure::MetadataNumberOutOfRange)
    }
}

/// The rendition of the content of one label: a scalar as it is, bytes in
/// hexadecimal, and an array or a map as JSON.
pub open spec fn metadata_record(label: u64, value: Metadatum) -> Result<
    MetadataRecordView,
    Failure,
> {
    match value {
        Metadatum::Int(x) => Ok(
            MetadataRecordView {
                label: decimal(label as nat),
                content: MetadatumRenditionView::IntScalar(x),
            },
        ),
        Metadatum::Bytes(x) => Ok(
            MetadataRecordView {
                label: decimal(label as nat),
                content: MetadatumRenditionView::BytesHex(hex_string(x@)),
            },
        ),
        Metadatum::Text(x) => Ok(
            MetadataRecordView {
                label: decimal(label as nat),
                content: MetadatumRenditionView::TextScalar(x@),
            },
        ),
        Metadatum::Array(_) => match metadatum_json_outcome(value) {
            Ok(json) => Ok(
                MetadataRecordView {
                    label: decimal(label as nat),
                    content: MetadatumRenditionView::ArrayJson(json),
                },
            ),
            Err(e) => Err(e),
        },
        Metadatum::Mapping(_) => match metadatum_json_outcome(value) {
            Ok(json) => Ok(
                MetadataRecordView {
                    label: decimal(label as nat),
                    content: MetadatumRenditionView::MapJson(json),
                },
            ),
            Err(e) => Err(e),
        },
    }
}

/// The outcome of a JSON conversion, seen through the model.
pub open spec fn json_outcome(outcome: Result<serde_json::Value, ConvertError>) -> Result<
    JsonModel,
    Failure,
> {
    match outcome {
        Ok(value) => Ok(json_model(value)),
        Err(e) => Err(e@),
    }
}

impl EventWriter {
    /// Converts one entry of a metadata map into a member of a JSON object.
    pub fn to_metadatum_json_map_entry(&self, pair: (&Metadatum, &Metadatum)) -> (entry: Result<
        (String, serde_json::Value),
        ConvertError,
    >)
        ensures
            match entry {
                Ok(member) => json_representable(*pair.1) && member.0@ == metadatum_key(*pair.0)
                    && json_model(member.1) == metadatum_json(*pair.1),
                Err(e) => !json_representable(*pair.1) && e@
                    == Failure::MetadataNumberOutOfRange,
            },
        decreases pair.1, 1nat,
    {
        let key = metadatum_to_string_key(pair.0);
        let value = self.to_metadatum_json(pair.1)?;
        Ok((key, value))
    }

    /// Converts a piece of metadata into JSON. It fails where an integer
    /// in it is outside the range of a JSON number, and only there.
    pub fn to_metadatum_json(&self, source: &Metadatum) -> (json: Result<
        serde_json::Value,
        ConvertError,
    >)
        ensures
            json_outcome(json) == metadatum_json_outcome(*source),
        decreases source, 0nat,
    {
        match source {
            Metadatum::Int(x) => match json_from_i128(*x) {
                Some(value) => Ok(value),
                None => Err(ConvertError::MetadataNumberOutOfRange),
            },
            Metadatum::Bytes(x) => Ok(json_from_string(x.to_hex())),
            Metadatum::Text(x) => Ok(json_from_string(x.clone())),
            Metadatum::Array(x) => {
                let mut items: Vec<serde_json::Value> = Vec::new();
                let mut i: usize = 0;
                while i < x.len()
                    invariant
                        i <= x.len(),
                        items.len() == i,
                        decreases_to!(source => x),
                        *source == Metadatum::Array(*x),
                        forall|j: int| 0 <= j < i ==> json_representable(#[trigger] x@[j]),
                        json_models(items@) == array_jsons(*x, i as nat),
                    decreases x.len() - i,
                {
                    match self.to_metadatum_json(&x[i]) {
                        Ok(value) => {
                            assert(json_models(items@.push(value)) =~= json_models(items@).push(
                                json_model(value),
                            ));
                            items.push(value);
                        },
                        Err(e) => {
                            assert(!json_representable(x@[i as int]));
                            return Err(e);
                        },
                    }
                    i += 1;
                }
                Ok(json_from_vec(items))
            },
            Metadatum::Mapping(x) => {
                let mut members = json_map_new();
                let mut i: usize = 0;
                while i < x.len()
                    invariant
                        i <= x.len(),
                        decreases_to!(source => x),
                        *source == Metadatum::Mapping(*x),
                        forall|j: int| 0 <= j < i ==> json_representable((#[trigger] x@[j]).1),
                        json_members(members) == keyed(mapping_members(*x, i as nat)),
                    decreases x.len() - i,
                {
                    match self.to_metadatum_json_map_entry((&x[i].0, &x[i].1)) {
                        Ok(member) => {
                            proof {
                                lemma_keyed_push(
                                    mapping_members(*x, i as nat),
                                    member.0@,
                                    json_model(member.1),
                                );
                            }
                            json_map_insert(&mut members, member.0, member.1);
                        },
                        Err(e) => {
                            assert(!json_representable(x@[i as int].1));
                            return Err(e);
                        },
                    }
                    i += 1;
                }
                Ok(json_from_map(members))
            },
        }
    }

    /// Converts the content of one label. Only nested content that JSON
    /// cannot hold fails the conversion.
    pub fn to_metadata_record(&self, label: &u64, value: &Metadatum) -> (record: Result<
        MetadataRecord,
        ConvertError,
    >)
        ensures
            result_view(record) == metadata_record(*label, *value),
    {
        let content = match value {
            Metadatum::Int(x) => MetadatumRendition::IntScalar(*x),
            Metadatum::Bytes(x) => MetadatumRendition::BytesHex(x.to_hex()),
            Metadatum::Text(x) => MetadatumRendition::TextScalar(x.clone()),
            Metadatum::Array(_) => MetadatumRendition::ArrayJson(self.to_metadatum_json(value)?),
            Metadatum::Mapping(_) => MetadatumRendition::MapJson(self.to_metadatum_json(value)?),
        };
        Ok(MetadataRecord { label: u64_to_string(*label), content })
    }
}

} // verus!
