//! Proposals to change protocol parameters: the record of the parameters
//! that each era can change, and of an update that carries proposals.
use crate::decoded::babbage;
use crate::decoded::shelley;
use crate::decoded::{
    ExUnitPrices, ExUnits, Nonce, NonceVariant, PositiveInterval, RationalNumber, UnitInterval,
};
use crate::json::{
    json_from_map, json_from_u64, json_map_insert, json_map_new, json_model, JsonModel,
};
use crate::mapper::EventWriter;
use crate::model::{
    cost_model_entries, proposal_views, CostModelRecord, CostModelsRecord, ExUnitsRecord,
    LanguageVersionRecord, NonceRecord, NonceRecordView, NonceVariantRecord,
    PositiveIntervalRecord, ProtocolParamUpdateRecord, ProtocolParamUpdateRecordView,
    RationalNumberRecord, UnitIntervalRecord, UpdateRecord, UpdateRecordView,
};
use crate::text::{hex_string, ToHex};
use crate::views::{distinct_keys, keyed, lemma_keyed_push, lemma_keyed_update, opt_view};
use vstd::prelude::*;

verus! {

pub open spec fn rational_record(rational: RationalNumber) -> RationalNumberRecord {
    RationalNumberRecord { numerator: rational.numerator, denominator: rational.denominator }
}

pub open spec fn rational_record_option(rational: Option<RationalNumber>) -> Option<
    RationalNumberRecord,
> {
    match rational {
        Some(r) => Some(rational_record(r)),
        None => None,
    }
}

pub open spec fn unit_interval_record(interval: Option<UnitInterval>) -> Option<
    UnitIntervalRecord,
> {
    match interval {
        Some(i) => Some(UnitIntervalRecord(i.numerator, i.denominator)),
        None => None,
    }
}

pub open spec fn positive_interval_record(interval: PositiveInterval) -> PositiveIntervalRecord {
    PositiveIntervalRecord(interval.numerator, interval.denominator)
}

pub open spec fn nonce_variant_record(variant: NonceVariant) -> NonceVariantRecord {
    match variant {
        NonceVariant::NeutralNonce => NonceVariantRecord::NeutralNonce,
        NonceVariant::Nonce => NonceVariantRecord::Nonce,
    }
}

pub open spec fn nonce_record(nonce: Option<Nonce>) -> Option<NonceRecordView> {
    match nonce {
        Some(n) => Some(
            NonceRecordView {
                variant: nonce_variant_record(n.variant),
                hash: crate::mapper::map::optional_hex(n.hash),
            },
        ),
        None => None,
    }
}

pub open spec fn ex_units_record(ex_units: Option<ExUnits>) -> Option<ExUnitsRecord> {
    match ex_units {
        Some(e) => Some(ExUnitsRecord { mem: e.mem, steps: e.steps }),
        None => None,
    }
}

pub open spec fn language_version_record(language: shelley::Language) -> LanguageVersionRecord {
    LanguageVersionRecord::PlutusV1
}

pub open spec fn babbage_language_version_record(
    language: babbage::Language,
) -> LanguageVersionRecord {
    match language {
        babbage::Language::PlutusV1 => LanguageVersionRecord::PlutusV1,
        babbage::Language::PlutusV2 => LanguageVersionRecord::PlutusV2,
    }
}

/// The version and coefficients of each cost model of a list.
pub open spec fn cost_entries(pairs: Seq<(shelley::Language, Vec<i64>)>) -> Seq<
    (LanguageVersionRecord, Seq<i64>),
> {
    Seq::new(pairs.len(), |i: int| (language_version_record(pairs[i].0), pairs[i].1@))
}

/// The cost models of the legacy eras, by language version; of two models
/// of one version the later one stays.
pub open spec fn cost_models_record(cost_models: Option<shelley::CostMdls>) -> Option<
    Map<LanguageVersionRecord, Seq<i64>>,
> {
    match cost_models {
        Some(pairs) => Some(keyed(cost_entries(pairs@))),
        None => None,
    }
}

/// The cost models of the later eras: a model for each language version
/// that has one.
pub open spec fn babbage_cost_models_record(cost_models: Option<babbage::CostMdls>) -> Option<
    Map<LanguageVersionRecord, Seq<i64>>,
> {
    match cost_models {
        Some(models) => {
            let first = match models.plutus_v1 {
                Some(m) => Map::empty().insert(LanguageVersionRecord::PlutusV1, m@),
                None => Map::empty(),
            };
            Some(
                match models.plutus_v2 {
                    Some(m) => first.insert(LanguageVersionRecord::PlutusV2, m@),
                    None => first,
                },
            )
        },
        None => None,
    }
}

/// The JSON of a ratio: an object of its numerator and denominator.
pub open spec fn interval_json(interval: PositiveInterval) -> JsonModel {
    JsonModel::Object(
        Map::empty().insert("numerator"@, JsonModel::Number(interval.numerator as int)).insert(
            "denominator"@,
            JsonModel::Number(interval.denominator as int),
        ),
    )
}

/// The JSON of the prices of execution units: an object of the price of
/// memory and the price of steps.
pub open spec fn execution_costs_json(prices: ExUnitPrices) -> JsonModel {
    JsonModel::Object(
        Map::empty().insert("mem_price"@, interval_json(prices.mem_price)).insert(
            "step_price"@,
            interval_json(prices.step_price),
        ),
    )
}

pub open spec fn execution_costs_record(prices: Option<ExUnitPrices>) -> Option<JsonModel> {
    match prices {
        Some(p) => Some(execution_costs_json(p)),
        None => None,
    }
}

/// The record of a proposal of the legacy eras. Every parameter is carried
/// over as it is.
pub open spec fn protocol_update_record(
    update: shelley::ProtocolParamUpdate,
) -> ProtocolParamUpdateRecordView {
    ProtocolParamUpdateRecordView {
        minfee_a: update.minfee_a,
        minfee_b: update.minfee_b,
        max_block_body_size: update.max_block_body_size,
        max_transaction_size: update.max_transaction_size,
        max_block_header_size: update.max_block_header_size,
        key_deposit: update.key_deposit,
        pool_deposit: update.pool_deposit,
        maximum_epoch: update.maximum_epoch,
        desired_number_of_stake_pools: update.desired_number_of_stake_pools,
        pool_pledge_influence: rational_record_option(update.pool_pledge_influence),
        expansion_rate: unit_interval_record(update.expansion_rate),
        treasury_growth_rate: unit_interval_record(update.treasury_growth_rate),
        decentralization_constant: unit_interval_record(update.decentralization_constant),
        extra_entropy: nonce_record(update.extra_entropy),
        protocol_version: update.protocol_version,
        min_pool_cost: update.min_pool_cost,
        ada_per_utxo_byte: update.ada_per_utxo_byte,
        cost_models_for_script_languages: cost_models_record(
            update.cost_models_for_script_languages,
        ),
        execution_costs: execution_costs_record(update.execution_costs),
        max_tx_ex_units: ex_units_record(update.max_tx_ex_units),
        max_block_ex_units: ex_units_record(update.max_block_ex_units),
        max_value_size: update.max_value_size,
        collateral_percentage: update.collateral_percentage,
        max_collateral_inputs: update.max_collateral_inputs,
    }
}

/// The record of a proposal of the later eras, which can change neither the
/// decentralization constant nor the extra entropy.
pub open spec fn babbage_protocol_update_record(
    update: babbage::ProtocolParamUpdate,
) -> ProtocolParamUpdateRecordView {
    ProtocolParamUpdateRecordView {
        minfee_a: update.minfee_a,
        minfee_b: update.minfee_b,
        max_block_body_size: update.max_block_body_size,
        max_transaction_size: update.max_transaction_size,
        max_block_header_size: update.max_block_header_size,
        key_deposit: update.key_deposit,
        pool_deposit: update.pool_deposit,
        maximum_epoch: update.maximum_epoch,
        desired_number_of_stake_pools: update.desired_number_of_stake_pools,
        pool_pledge_influence: rational_record_option(update.pool_pledge_influence),
        expansion_rate: unit_interval_record(update.expansion_rate),
        treasury_growth_rate: unit_interval_record(update.treasury_growth_rate),
        decentralization_constant: None,
        extra_entropy: None,
        protocol_version: update.protocol_version,
        min_pool_cost: update.min_pool_cost,
        ada_per_utxo_byte: update.ada_per_utxo_byte,
        cost_models_for_script_languages: babbage_cost_models_record(
            update.cost_models_for_script_languages,
        ),
        execution_costs: execution_costs_record(update.execution_costs),
        max_tx_ex_units: ex_units_record(update.max_tx_ex_units),
        max_block_ex_units: ex_units_record(update.max_block_ex_units),
        max_value_size: update.max_value_size,
        collateral_percentage: update.collateral_percentage,
        max_collateral_inputs: update.max_collateral_inputs,
    }
}

/// The proposer in hexadecimal and the record of each proposal of a list.
pub open spec fn update_entries(proposals: Seq<(Vec<u8>, shelley::ProtocolParamUpdate)>) -> Seq<
    (Seq<char>, ProtocolParamUpdateRecordView),
> {
    Seq::new(
        proposals.len(),
        |i: int| (hex_string(proposals[i].0@), protocol_update_record(proposals[i].1)),
    )
}

/// The record of an update of the legacy eras: its proposals by proposer,
/// the later one where a proposer comes twice, and its epoch.
pub open spec fn update_record(update: shelley::Update) -> UpdateRecordView {
    UpdateRecordView {
        proposed_protocol_parameter_updates: keyed(
            update_entries(update.proposed_protocol_parameter_updates@),
        ),
        epoch: update.epoch,
    }
}

/// The proposer in hexadecimal and the record of each proposal of a list.
pub open spec fn babbage_update_entries(
    proposals: Seq<(Vec<u8>, babbage::ProtocolParamUpdate)>,
) -> Seq<(Seq<char>, ProtocolParamUpdateRecordView)> {
    Seq::new(
        proposals.len(),
        |i: int| (hex_string(proposals[i].0@), babbage_protocol_update_record(proposals[i].1)),
    )
}

/// The record of an update of the later eras: its proposals by proposer,
/// the later one where a proposer comes twice, and its epoch.
pub open spec fn babbage_update_record(update: babbage::Update) -> UpdateRecordView {
    UpdateRecordView {
        proposed_protocol_parameter_updates: keyed(
            babbage_update_entries(update.proposed_protocol_parameter_updates@),
        ),
        epoch: update.epoch,
    }
}

/// Puts a cost model under its language version, in place of the model that
/// the version had before.
fn put_cost_model(
    entries: &mut Vec<(LanguageVersionRecord, CostModelRecord)>,
    key: LanguageVersionRecord,
    value: CostModelRecord,
)
    requires
        distinct_keys(cost_model_entries(old(entries)@)),
    ensures
        distinct_keys(cost_model_entries(final(entries)@)),
        keyed(cost_model_entries(final(entries)@)) == keyed(
            cost_model_entries(old(entries)@),
        ).insert(key, value@),
{
    let ghost before = cost_model_entries(entries@);
    let mut i: usize = 0;
    while i < entries.len()
        invariant
            i <= entries.len(),
            entries@ == old(entries)@,
            before == cost_model_entries(entries@),
            distinct_keys(before),
            forall|j: int| 0 <= j < i ==> entries@[j].0 != key,
        decreases entries.len() - i,
    {
        if entries[i].0 == key {
            proof {
                assert(before[i as int].0 == key);
                lemma_keyed_update(before, i as int, value@);
                assert(cost_model_entries(entries@.update(i as int, (key, value))) =~= before.update(
                    i as int,
                    (key, value@),
                ));
            }
            entries.set(i, (key, value));
            return ;
        }
        i += 1;
    }
    proof {
        lemma_keyed_push(before, key, value@);
        assert(cost_model_entries(entries@.push((key, value))) =~= before.push((key, value@)));
        let after = before.push((key, value@));
        assert forall|a: int, b: int| 0 <= a < b < after.len() implies (#[trigger] after[a]).0 != (
        #[trigger] after[b]).0 by {
            assert(before[a].0 == entries@[a].0);
            if b < before.len() {
                assert(after[a] == before[a] && after[b] == before[b]);
            }
        }
    }
    entries.push((key, value));
}

/// Puts a proposal under its proposer, in place of the proposal that the
/// proposer had before.
pub(crate) fn put_proposal(
    entries: &mut Vec<(String, ProtocolParamUpdateRecord)>,
    key: String,
    value: ProtocolParamUpdateRecord,
)
    requires
        distinct_keys(proposal_views(old(entries)@)),
    ensures
        distinct_keys(proposal_views(final(entries)@)),
        keyed(proposal_views(final(entries)@)) == keyed(proposal_views(old(entries)@)).insert(
            key@,
            value@,
        ),
{
    let ghost before = proposal_views(entries@);
    let mut i: usize = 0;
    while i < entries.len()
        invariant
            i <= entries.len(),
            entries@ == old(entries)@,
            before == proposal_views(entries@),
            distinct_keys(before),
            forall|j: int| 0 <= j < i ==> entries@[j].0@ != key@,
        decreases entries.len() - i,
    {
        if entries[i].0 == key {
            proof {
                assert(before[i as int].0 == key@);
                lemma_keyed_update(before, i as int, value@);
                assert(proposal_views(entries@.update(i as int, (key, value))) =~= before.update(
                    i as int,
                    (key@, value@),
                ));
            }
            entries.set(i, (key, value));
            return ;
        }
        i += 1;
    }
    proof {
        lemma_keyed_push(before, key@, value@);
        assert(proposal_views(entries@.push((key, value))) =~= before.push((key@, value@)));
        let after = before.push((key@, value@));
        assert forall|a: int, b: int| 0 <= a < b < after.len() implies (#[trigger] after[a]).0 != (
        #[trigger] after[b]).0 by {
            assert(before[a].0 == entries@[a].0@);
            if b < before.len() {
                assert(after[a] == before[a] && after[b] == before[b]);
            }
        }
    }
    entries.push((key, value));
}

fn interval_to_json(interval: &PositiveInterval) -> (value: serde_json::Value)
    ensures
        json_model(value) == interval_json(*interval),
{
    let mut members = json_map_new();
    json_map_insert(&mut members, "numerator".to_owned(), json_from_u64(interval.numerator));
    json_map_insert(&mut members, "denominator".to_owned(), json_from_u64(interval.denominator));
    json_from_map(members)
}

/// The JSON of the prices of execution units.
pub fn execution_costs_to_json(prices: &ExUnitPrices) -> (value: serde_json::Value)
    ensures
        json_model(value) == execution_costs_json(*prices),
{
    let mut members = json_map_new();
    json_map_insert(&mut members, "mem_price".to_owned(), interval_to_json(&prices.mem_price));
    json_map_insert(&mut members, "step_price".to_owned(), interval_to_json(&prices.step_price));
    json_from_map(members)
}

fn execution_costs_of(prices: &Option<ExUnitPrices>) -> (value: Option<serde_json::Value>)
    ensures
        match value {
            Some(v) => execution_costs_record(*prices) == Some(json_model(v)),
            None => execution_costs_record(*prices) is None,
        },
{
    match prices {
        Some(execution_costs) => Some(execution_costs_to_json(execution_costs)),
        None => None,
    }
}

impl EventWriter {
    pub fn to_rational_number_record_option(&self, rational: &Option<RationalNumber>) -> (record:
        Option<RationalNumberRecord>)
        ensures
            record == rational_record_option(*rational),
    {
        match rational {
            Some(rational) => Some(self.to_rational_number_record(rational)),
            None => None,
        }
    }

    pub fn to_unit_interval_record(&self, interval: &Option<UnitInterval>) -> (record: Option<
        UnitIntervalRecord,
    >)
        ensures
            record == unit_interval_record(*interval),
    {
        match interval {
            Some(interval) => Some(UnitIntervalRecord(interval.numerator, interval.denominator)),
            None => None,
        }
    }

    pub fn to_positive_interval_record(&self, interval: &PositiveInterval) -> (record:
        PositiveIntervalRecord)
        ensures
            record == positive_interval_record(*interval),
    {
        PositiveIntervalRecord(interval.numerator, interval.denominator)
    }

    pub fn to_nonce_variant_record(&self, nonce_variant: &NonceVariant) -> (record:
        NonceVariantRecord)
        ensures
            record == nonce_variant_record(*nonce_variant),
    {
        match nonce_variant {
            NonceVariant::NeutralNonce => NonceVariantRecord::NeutralNonce,
            NonceVariant::Nonce => NonceVariantRecord::Nonce,
        }
    }

    pub fn to_nonce_record(&self, nonce: &Option<Nonce>) -> (record: Option<NonceRecord>)
        ensures
            opt_view(record) == nonce_record(*nonce),
    {
        match nonce {
            Some(nonce) => Some(
                NonceRecord {
                    variant: self.to_nonce_variant_record(&nonce.variant),
                    hash: match &nonce.hash {
                        Some(x) => Some(x.to_hex()),
                        None => None,
                    },
                },
            ),
            None => None,
        }
    }

    pub fn to_language_version_record(&self, language_version: &shelley::Language) -> (record:
        LanguageVersionRecord)
        ensures
            record == language_version_record(*language_version),
    {
        match language_version {
            shelley::Language::PlutusV1 => LanguageVersionRecord::PlutusV1,
        }
    }

    pub fn to_cost_model_record(&self, cost_model: Vec<i64>) -> (record: CostModelRecord)
        ensures
            record@ == cost_model@,
    {
        CostModelRecord(cost_model)
    }

    /// The cost models of the legacy eras, one for each language version.
    pub fn to_cost_models_record(&self, cost_models: &Option<shelley::CostMdls>) -> (record:
        Option<CostModelsRecord>)
        ensures
            opt_view(record) == cost_models_record(*cost_models),
            record is Some ==> record->0.well_formed(),
    {
        match cost_models {
            Some(cost_models) => {
                let mut entries: Vec<(LanguageVersionRecord, CostModelRecord)> = Vec::new();
                let mut i: usize = 0;
                assert(cost_entries(cost_models@.take(0)) =~= Seq::empty());
                assert(cost_model_entries(entries@) =~= Seq::empty());
                while i < cost_models.len()
                    invariant
                        i <= cost_models.len(),
                        distinct_keys(cost_model_entries(entries@)),
                        keyed(cost_model_entries(entries@)) == keyed(
                            cost_entries(cost_models@.take(i as int)),
                        ),
                    decreases cost_models.len() - i,
                {
                    let language_version_record = self.to_language_version_record(
                        &cost_models[i].0,
                    );
                    let cost_model_record = self.to_cost_model_record(cost_models[i].1.clone());
                    proof {
                        let prefix = cost_entries(cost_models@.take(i as int));
                        lemma_keyed_push(prefix, language_version_record, cost_model_record@);
                        assert(cost_entries(cost_models@.take(i + 1)) =~= prefix.push(
                            (language_version_record, cost_model_record@),
                        ));
                    }
                    put_cost_model(&mut entries, language_version_record, cost_model_record);
                    i += 1;
                }
                assert(cost_models@.take(i as int) =~= cost_models@);
                Some(CostModelsRecord(entries))
            },
            None => None,
        }
    }

    pub fn to_ex_units_record(&self, ex_units: &Option<ExUnits>) -> (record: Option<ExUnitsRecord>)
        ensures
            record == ex_units_record(*ex_units),
    {
        match ex_units {
            Some(ex_units) => Some(ExUnitsRecord { mem: ex_units.mem, steps: ex_units.steps }),
            None => None,
        }
    }

    /// Converts a proposal of the legacy eras.
    pub fn to_protocol_update_record(&self, update: &shelley::ProtocolParamUpdate) -> (record:
        ProtocolParamUpdateRecord)
        ensures
            record@ == protocol_update_record(*update),
    {
        ProtocolParamUpdateRecord {
            minfee_a: update.minfee_a,
            minfee_b: update.minfee_b,
            max_block_body_size: update.max_block_body_size,
            max_transaction_size: update.max_transaction_size,
            max_block_header_size: update.max_block_header_size,
            key_deposit: update.key_deposit,
            pool_deposit: update.pool_deposit,
            maximum_epoch: update.maximum_epoch,
            desired_number_of_stake_pools: update.desired_number_of_stake_pools,
            pool_pledge_influence: self.to_rational_number_record_option(
                &update.pool_pledge_influence,
            ),
            expansion_rate: self.to_unit_interval_record(&update.expansion_rate),
            treasury_growth_rate: self.to_unit_interval_record(&update.treasury_growth_rate),
            decentralization_constant: self.to_unit_interval_record(
                &update.decentralization_constant,
            ),
            extra_entropy: self.to_nonce_record(&update.extra_entropy),
            protocol_version: update.protocol_version,
            min_pool_cost: update.min_pool_cost,
            ada_per_utxo_byte: update.ada_per_utxo_byte,
            cost_models_for_script_languages: self.to_cost_models_record(
                &update.cost_models_for_script_languages,
            ),
            execution_costs: execution_costs_of(&update.execution_costs),
            max_tx_ex_units: self.to_ex_units_record(&update.max_tx_ex_units),
            max_block_ex_units: self.to_ex_units_record(&update.max_block_ex_units),
            max_value_size: update.max_value_size,
            collateral_percentage: update.collateral_percentage,
            max_collateral_inputs: update.max_collateral_inputs,
        }
    }

    /// Converts an update of the legacy eras.
    pub fn to_update_record(&self, update: &shelley::Update) -> (record: UpdateRecord)
        ensures
            record@ == update_record(*update),
            record.well_formed(),
    {
        let proposals = &update.proposed_protocol_parameter_updates;
        let mut updates: Vec<(String, ProtocolParamUpdateRecord)> = Vec::new();
        let mut i: usize = 0;
        assert(update_entries(proposals@.take(0)) =~= Seq::empty());
        assert(proposal_views(updates@) =~= Seq::empty());
        while i < proposals.len()
            invariant
                i <= proposals.len(),
                distinct_keys(proposal_views(updates@)),
                keyed(proposal_views(updates@)) == keyed(
                    update_entries(proposals@.take(i as int)),
                ),
            decreases proposals.len() - i,
        {
            let key = proposals[i].0.to_hex();
            let value = self.to_protocol_update_record(&proposals[i].1);
            proof {
                let prefix = update_entries(proposals@.take(i as int));
                lemma_keyed_push(prefix, key@, value@);
                assert(update_entries(proposals@.take(i + 1)) =~= prefix.push((key@, value@)));
            }
            put_proposal(&mut updates, key, value);
            i += 1;
        }
        assert(proposals@.take(i as int) =~= proposals@);
        UpdateRecord { proposed_protocol_parameter_updates: updates, epoch: update.epoch }
    }
}

} // verus!
