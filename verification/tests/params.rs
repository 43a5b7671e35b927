use oura::decoded::babbage;
use oura::decoded::shelley;
use oura::decoded::{
    ExUnitPrices, ExUnits, Nonce, NonceVariant, PositiveInterval, RationalNumber, UnitInterval,
};
use oura::mapper::params::execution_costs_to_json;
use oura::mapper::{Config, EventWriter};
use oura::model::{
    CostModelRecord, CostModelsRecord, ExUnitsRecord, LanguageVersionRecord, NonceRecord,
    NonceVariantRecord, PositiveIntervalRecord, RationalNumberRecord, UnitIntervalRecord,
};
use serde_json::Value;

fn writer() -> EventWriter {
    EventWriter::new(
        Config {
            include_block_end_events: false,
            include_transaction_details: false,
            include_transaction_end_events: false,
            include_block_details: false,
            include_block_cbor: false,
        },
        None,
    )
}

fn object(members: Vec<(&str, Value)>) -> Value {
    let mut map = serde_json::Map::new();
    for (key, value) in members {
        map.insert(key.to_string(), value);
    }
    Value::Object(map)
}

fn empty_update() -> shelley::ProtocolParamUpdate {
    shelley::ProtocolParamUpdate {
        minfee_a: None,
        minfee_b: None,
        max_block_body_size: None,
        max_transaction_size: None,
        max_block_header_size: None,
        key_deposit: None,
        pool_deposit: None,
        maximum_epoch: None,
        desired_number_of_stake_pools: None,
        pool_pledge_influence: None,
        expansion_rate: None,
        treasury_growth_rate: None,
        decentralization_constant: None,
        extra_entropy: None,
        protocol_version: None,
        min_pool_cost: None,
        ada_per_utxo_byte: None,
        cost_models_for_script_languages: None,
        execution_costs: None,
        max_tx_ex_units: None,
        max_block_ex_units: None,
        max_value_size: None,
        collateral_percentage: None,
        max_collateral_inputs: None,
    }
}

fn empty_babbage_update() -> babbage::ProtocolParamUpdate {
    babbage::ProtocolParamUpdate {
        minfee_a: None,
        minfee_b: None,
        max_block_body_size: None,
        max_transaction_size: None,
        max_block_header_size: None,
        key_deposit: None,
        pool_deposit: None,
        maximum_epoch: None,
        desired_number_of_stake_pools: None,
        pool_pledge_influence: None,
        expansion_rate: None,
        treasury_growth_rate: None,
        protocol_version: None,
        min_pool_cost: None,
        ada_per_utxo_byte: None,
        cost_models_for_script_languages: None,
        execution_costs: None,
        max_tx_ex_units: None,
        max_block_ex_units: None,
        max_value_size: None,
        collateral_percentage: None,
        max_collateral_inputs: None,
    }
}

#[test]
fn numeric_helpers() {
    let w = writer();
    assert_eq!(
        w.to_rational_number_record(&RationalNumber { numerator: 3, denominator: 10 }),
        RationalNumberRecord { numerator: 3, denominator: 10 }
    );
    assert_eq!(w.to_rational_number_record_option(&None), None);
    assert_eq!(
        w.to_rational_number_record_option(&Some(RationalNumber { numerator: 1, denominator: 2 })),
        Some(RationalNumberRecord { numerator: 1, denominator: 2 })
    );
    assert_eq!(
        w.to_unit_interval_record(&Some(UnitInterval { numerator: 1, denominator: 4 })),
        Some(UnitIntervalRecord(1, 4))
    );
    assert_eq!(w.to_unit_interval_record(&None), None);
    assert_eq!(
        w.to_positive_interval_record(&PositiveInterval { numerator: 577, denominator: 10000 }),
        PositiveIntervalRecord(577, 10000)
    );
    assert_eq!(
        w.to_ex_units_record(&Some(ExUnits { mem: 14_000_000, steps: 10_000_000_000 })),
        Some(ExUnitsRecord { mem: 14_000_000, steps: 10_000_000_000 })
    );
    assert_eq!(w.to_ex_units_record(&None), None);
}

#[test]
fn nonce_records() {
    let w = writer();
    assert_eq!(w.to_nonce_variant_record(&NonceVariant::NeutralNonce), NonceVariantRecord::NeutralNonce);
    assert_eq!(w.to_nonce_variant_record(&NonceVariant::Nonce), NonceVariantRecord::Nonce);
    assert_eq!(w.to_nonce_record(&None), None);
    assert_eq!(
        w.to_nonce_record(&Some(Nonce { variant: NonceVariant::Nonce, hash: Some(vec![0xab, 0xcd]) })),
        Some(NonceRecord { variant: NonceVariantRecord::Nonce, hash: Some("abcd".to_string()) })
    );
    assert_eq!(
        w.to_nonce_record(&Some(Nonce { variant: NonceVariant::NeutralNonce, hash: None })),
        Some(NonceRecord { variant: NonceVariantRecord::NeutralNonce, hash: None })
    );
}

#[test]
fn legacy_cost_models_keep_one_model_for_the_language() {
    let w = writer();
    assert_eq!(w.to_language_version_record(&shelley::Language::PlutusV1), LanguageVersionRecord::PlutusV1);
    assert_eq!(w.to_cost_model_record(vec![1, 2, 3]), CostModelRecord(vec![1, 2, 3]));
    assert_eq!(w.to_cost_models_record(&None), None);
    assert_eq!(w.to_cost_models_record(&Some(Vec::new())), Some(CostModelsRecord(Vec::new())));
    let models = vec![
        (shelley::Language::PlutusV1, vec![1i64, 2]),
        (shelley::Language::PlutusV1, vec![3i64, 4, 5]),
    ];
    assert_eq!(
        w.to_cost_models_record(&Some(models)),
        Some(CostModelsRecord(vec![(LanguageVersionRecord::PlutusV1, CostModelRecord(vec![3, 4, 5]))]))
    );
}

#[test]
fn later_cost_models_by_language() {
    let w = writer();
    assert_eq!(
        w.to_babbage_language_version_record(&babbage::Language::PlutusV1),
        LanguageVersionRecord::PlutusV1
    );
    assert_eq!(
        w.to_babbage_language_version_record(&babbage::Language::PlutusV2),
        LanguageVersionRecord::PlutusV2
    );
    assert_eq!(w.to_babbage_cost_models_record(&None), None);
    assert_eq!(
        w.to_babbage_cost_models_record(&Some(babbage::CostMdls { plutus_v1: None, plutus_v2: None })),
        Some(CostModelsRecord(Vec::new()))
    );
    assert_eq!(
        w.to_babbage_cost_models_record(&Some(babbage::CostMdls {
            plutus_v1: Some(vec![1, -2]),
            plutus_v2: Some(vec![3]),
        })),
        Some(CostModelsRecord(vec![
            (LanguageVersionRecord::PlutusV1, CostModelRecord(vec![1, -2])),
            (LanguageVersionRecord::PlutusV2, CostModelRecord(vec![3])),
        ]))
    );
    assert_eq!(
        w.to_babbage_cost_models_record(&Some(babbage::CostMdls { plutus_v1: None, plutus_v2: Some(vec![9]) })),
        Some(CostModelsRecord(vec![(LanguageVersionRecord::PlutusV2, CostModelRecord(vec![9]))]))
    );
}

#[test]
fn execution_costs_as_json() {
    let prices = ExUnitPrices {
        mem_price: PositiveInterval { numerator: 577, denominator: 10000 },
        step_price: PositiveInterval { numerator: 721, denominator: 10000000 },
    };
    let expected = object(vec![
        (
            "mem_price",
            object(vec![("numerator", Value::from(577u64)), ("denominator", Value::from(10000u64))]),
        ),
        (
            "step_price",
            object(vec![("numerator", Value::from(721u64)), ("denominator", Value::from(10000000u64))]),
        ),
    ]);
    assert_eq!(execution_costs_to_json(&prices), expected);
}

#[test]
fn legacy_proposal_carries_every_parameter() {
    let mut update = empty_update();
    update.minfee_a = Some(44);
    update.minfee_b = Some(155381);
    update.max_block_body_size = Some(65536);
    update.key_deposit = Some(2_000_000);
    update.pool_pledge_influence = Some(RationalNumber { numerator: 3, denominator: 10 });
    update.expansion_rate = Some(UnitInterval { numerator: 3, denominator: 1000 });
    update.decentralization_constant = Some(UnitInterval { numerator: 1, denominator: 2 });
    update.extra_entropy = Some(Nonce { variant: NonceVariant::Nonce, hash: Some(vec![7]) });
    update.protocol_version = Some((6, 0));
    update.cost_models_for_script_languages = Some(vec![(shelley::Language::PlutusV1, vec![5])]);
    update.execution_costs = Some(ExUnitPrices {
        mem_price: PositiveInterval { numerator: 1, denominator: 2 },
        step_price: PositiveInterval { numerator: 3, denominator: 4 },
    });
    update.max_tx_ex_units = Some(ExUnits { mem: 1, steps: 2 });
    update.max_collateral_inputs = Some(3);
    let record = writer().to_protocol_update_record(&update);
    assert_eq!(record.minfee_a, Some(44));
    assert_eq!(record.minfee_b, Some(155381));
    assert_eq!(record.max_block_body_size, Some(65536));
    assert_eq!(record.max_transaction_size, None);
    assert_eq!(record.key_deposit, Some(2_000_000));
    assert_eq!(record.pool_pledge_influence, Some(RationalNumberRecord { numerator: 3, denominator: 10 }));
    assert_eq!(record.expansion_rate, Some(UnitIntervalRecord(3, 1000)));
    assert_eq!(record.decentralization_constant, Some(UnitIntervalRecord(1, 2)));
    assert_eq!(
        record.extra_entropy,
        Some(NonceRecord { variant: NonceVariantRecord::Nonce, hash: Some("07".to_string()) })
    );
    assert_eq!(record.protocol_version, Some((6, 0)));
    assert_eq!(
        record.cost_models_for_script_languages,
        Some(CostModelsRecord(vec![(LanguageVersionRecord::PlutusV1, CostModelRecord(vec![5]))]))
    );
    assert_eq!(
        record.execution_costs,
        Some(object(vec![
            ("mem_price", object(vec![("numerator", Value::from(1u64)), ("denominator", Value::from(2u64))])),
            ("step_price", object(vec![("numerator", Value::from(3u64)), ("denominator", Value::from(4u64))])),
        ]))
    );
    assert_eq!(record.max_tx_ex_units, Some(ExUnitsRecord { mem: 1, steps: 2 }));
    assert_eq!(record.max_block_ex_units, None);
    assert_eq!(record.max_collateral_inputs, Some(3));
}

#[test]
fn later_proposal_has_neither_decentralization_nor_entropy() {
    let mut update = empty_babbage_update();
    update.ada_per_utxo_byte = Some(4310);
    update.cost_models_for_script_languages =
        Some(babbage::CostMdls { plutus_v1: Some(vec![1]), plutus_v2: Some(vec![2]) });
    let record = writer().to_babbage_protocol_update_record(&update);
    assert_eq!(record.ada_per_utxo_byte, Some(4310));
    assert_eq!(record.decentralization_constant, None);
    assert_eq!(record.extra_entropy, None);
    assert_eq!(
        record.cost_models_for_script_languages,
        Some(CostModelsRecord(vec![
            (LanguageVersionRecord::PlutusV1, CostModelRecord(vec![1])),
            (LanguageVersionRecord::PlutusV2, CostModelRecord(vec![2])),
        ]))
    );
}

#[test]
fn update_records_key_proposals_by_proposer() {
    let mut first = empty_update();
    first.minfee_a = Some(1);
    let mut second = empty_update();
    second.minfee_a = Some(2);
    let mut third = empty_update();
    third.minfee_a = Some(3);
    let update = shelley::Update {
        proposed_protocol_parameter_updates: vec![(vec![0xaa], first), (vec![0xbb], second), (vec![0xaa], third)],
        epoch: 290,
    };
    let record = writer().to_update_record(&update);
    assert_eq!(record.epoch, 290);
    let summary: Vec<(String, Option<u32>)> = record
        .proposed_protocol_parameter_updates
        .iter()
        .map(|(key, value)| (key.clone(), value.minfee_a))
        .collect();
    assert_eq!(summary, vec![("aa".to_string(), Some(3)), ("bb".to_string(), Some(2))]);

    let mut only = empty_babbage_update();
    only.max_value_size = Some(5000);
    let update = babbage::Update { proposed_protocol_parameter_updates: vec![(vec![0x01], only)], epoch: 365 };
    let record = writer().to_babbage_update_record(&update);
    assert_eq!(record.epoch, 365);
    assert_eq!(record.proposed_protocol_parameter_updates.len(), 1);
    assert_eq!(record.proposed_protocol_parameter_updates[0].0, "01");
    assert_eq!(record.proposed_protocol_parameter_updates[0].1.max_value_size, Some(5000));
}
