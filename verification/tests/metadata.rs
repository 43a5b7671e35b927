use oura::decoded::{AuxiliaryData, Metadatum};
use oura::error::ConvertError;
use oura::mapper::metadata::metadatum_to_string_key;
use oura::mapper::{Config, EventWriter};
use oura::model::{MetadataRecord, MetadatumRendition};
use serde_json::Value;

fn writer() -> EventWriter {
    EventWriter::new(
        Config {
            include_block_end_events: false,
            include_transaction_details: false,
            include_transaction_end_events: false,
            include_block_details: false,
            include_block_cbor: false,
        },
        None,
    )
}

fn object(members: Vec<(&str, Value)>) -> Value {
    let mut map = serde_json::Map::new();
    for (key, value) in members {
        map.insert(key.to_string(), value);
    }
    Value::Object(map)
}

#[test]
fn keys_render_by_shape() {
    assert_eq!(metadatum_to_string_key(&Metadatum::Int(42)), "42");
    assert_eq!(metadatum_to_string_key(&Metadatum::Int(-7)), "-7");
    assert_eq!(metadatum_to_string_key(&Metadatum::Int(0)), "0");
    assert_eq!(metadatum_to_string_key(&Metadatum::Bytes(vec![0xde, 0xad])), "dead");
    assert_eq!(metadatum_to_string_key(&Metadatum::Text("name".to_string())), "name");
    assert_eq!(metadatum_to_string_key(&Metadatum::Array(vec![Metadatum::Int(1)])), "");
    assert_eq!(metadatum_to_string_key(&Metadatum::Mapping(Vec::new())), "");
}

#[test]
fn json_of_scalars() {
    let w = writer();
    assert_eq!(w.to_metadatum_json(&Metadatum::Int(5)).unwrap(), Value::from(5u64));
    assert_eq!(w.to_metadatum_json(&Metadatum::Int(-5)).unwrap(), Value::from(-5i64));
    assert_eq!(w.to_metadatum_json(&Metadatum::Int(u64::MAX as i128)).unwrap(), Value::from(u64::MAX));
    assert_eq!(w.to_metadatum_json(&Metadatum::Int(i64::MIN as i128)).unwrap(), Value::from(i64::MIN));
    assert_eq!(w.to_metadatum_json(&Metadatum::Bytes(vec![1, 255])).unwrap(), Value::from("01ff"));
    assert_eq!(w.to_metadatum_json(&Metadatum::Text("hi".to_string())).unwrap(), Value::from("hi"));
}

#[test]
fn json_of_nested_content() {
    let source = Metadatum::Mapping(vec![
        (Metadatum::Text("name".to_string()), Metadatum::Text("thing".to_string())),
        (
            Metadatum::Int(2),
            Metadatum::Array(vec![Metadatum::Int(1), Metadatum::Bytes(vec![0xab]), Metadatum::Mapping(Vec::new())]),
        ),
        (Metadatum::Bytes(vec![0x0f]), Metadatum::Int(-3)),
    ]);
    let expected = object(vec![
        ("name", Value::from("thing")),
        ("2", Value::Array(vec![Value::from(1u64), Value::from("ab"), object(Vec::new())])),
        ("0f", Value::from(-3i64)),
    ]);
    assert_eq!(writer().to_metadatum_json(&source).unwrap(), expected);
}

#[test]
fn later_entry_of_a_key_replaces_the_earlier() {
    let source = Metadatum::Mapping(vec![
        (Metadatum::Text("k".to_string()), Metadatum::Int(1)),
        (Metadatum::Text("other".to_string()), Metadatum::Int(2)),
        (Metadatum::Text("k".to_string()), Metadatum::Int(3)),
        (Metadatum::Array(Vec::new()), Metadatum::Int(4)),
        (Metadatum::Mapping(Vec::new()), Metadatum::Int(5)),
    ]);
    let expected = object(vec![
        ("k", Value::from(3u64)),
        ("other", Value::from(2u64)),
        ("", Value::from(5u64)),
    ]);
    assert_eq!(writer().to_metadatum_json(&source).unwrap(), expected);
}

#[test]
fn map_entry_pairs_key_text_with_value_json() {
    let key = Metadatum::Int(721);
    let value = Metadatum::Array(vec![Metadatum::Int(1)]);
    let (text, json) = writer().to_metadatum_json_map_entry((&key, &value)).unwrap();
    assert_eq!(text, "721");
    assert_eq!(json, Value::Array(vec![Value::from(1u64)]));
}

#[test]
fn numbers_beyond_json_fail() {
    let w = writer();
    let below = i64::MIN as i128 - 1;
    let above = u64::MAX as i128 + 1;
    assert!(matches!(
        w.to_metadatum_json(&Metadatum::Int(below)),
        Err(ConvertError::MetadataNumberOutOfRange)
    ));
    assert!(matches!(
        w.to_metadatum_json(&Metadatum::Int(above)),
        Err(ConvertError::MetadataNumberOutOfRange)
    ));
    let nested = Metadatum::Array(vec![
        Metadatum::Int(1),
        Metadatum::Mapping(vec![(Metadatum::Int(below), Metadatum::Int(below))]),
    ]);
    assert!(matches!(w.to_metadatum_json(&nested), Err(ConvertError::MetadataNumberOutOfRange)));
    let key_only = Metadatum::Mapping(vec![(Metadatum::Int(below), Metadatum::Int(1))]);
    assert_eq!(
        w.to_metadatum_json(&key_only).unwrap(),
        object(vec![("-9223372036854775809", Value::from(1u64))])
    );
    assert!(matches!(
        w.to_metadata_record(&1, &nested),
        Err(ConvertError::MetadataNumberOutOfRange)
    ));
    assert_eq!(
        w.to_metadata_record(&1, &Metadatum::Int(below)).unwrap(),
        MetadataRecord { label: "1".to_string(), content: MetadatumRendition::IntScalar(below) }
    );
}

#[test]
fn metadata_record_of_each_shape() {
    let w = writer();
    assert_eq!(
        w.to_metadata_record(&674, &Metadatum::Text("memo".to_string())).unwrap(),
        MetadataRecord {
            label: "674".to_string(),
            content: MetadatumRendition::TextScalar("memo".to_string()),
        }
    );
    assert_eq!(
        w.to_metadata_record(&0, &Metadatum::Bytes(vec![16])).unwrap(),
        MetadataRecord { label: "0".to_string(), content: MetadatumRendition::BytesHex("10".to_string()) }
    );
    assert_eq!(
        w.to_metadata_record(&u64::MAX, &Metadatum::Array(vec![Metadatum::Int(1)])).unwrap(),
        MetadataRecord {
            label: "18446744073709551615".to_string(),
            content: MetadatumRendition::ArrayJson(Value::Array(vec![Value::from(1u64)])),
        }
    );
    assert_eq!(
        w.to_metadata_record(&721, &Metadatum::Mapping(vec![(Metadatum::Int(1), Metadatum::Int(2))])).unwrap(),
        MetadataRecord {
            label: "721".to_string(),
            content: MetadatumRendition::MapJson(object(vec![("1", Value::from(2u64))])),
        }
    );
}

#[test]
fn metadata_records_of_each_encoding() {
    let w = writer();
    let entries = vec![(1u64, Metadatum::Int(10)), (2u64, Metadatum::Text("x".to_string()))];
    let expected = vec![
        MetadataRecord { label: "1".to_string(), content: MetadatumRendition::IntScalar(10) },
        MetadataRecord { label: "2".to_string(), content: MetadatumRendition::TextScalar("x".to_string()) },
    ];
    assert_eq!(w.collect_metadata_records(&AuxiliaryData::Shelley(entries.clone())).unwrap(), expected);
    assert_eq!(
        w.collect_metadata_records(&AuxiliaryData::ShelleyMa {
            transaction_metadata: entries.clone(),
            auxiliary_scripts: None,
        })
        .unwrap(),
        expected
    );
    assert_eq!(
        w.collect_metadata_records(&AuxiliaryData::PostAlonzo {
            metadata: Some(entries),
            native_scripts: None,
            plutus_scripts: None,
        })
        .unwrap(),
        expected
    );
    assert_eq!(
        w.collect_metadata_records(&AuxiliaryData::PostAlonzo {
            metadata: None,
            native_scripts: None,
            plutus_scripts: None,
        })
        .unwrap(),
        Vec::new()
    );
    assert_eq!(w.collect_metadata_records(&AuxiliaryData::Shelley(Vec::new())).unwrap(), Vec::new());
}

#[test]
fn one_bad_label_fails_the_collection() {
    let entries = vec![
        (1u64, Metadatum::Int(10)),
        (2u64, Metadatum::Array(vec![Metadatum::Int(i128::MAX)])),
        (3u64, Metadatum::Int(11)),
    ];
    assert!(matches!(
        writer().collect_metadata_records(&AuxiliaryData::Shelley(entries)),
        Err(ConvertError::MetadataNumberOutOfRange)
    ));
}
