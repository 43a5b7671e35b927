//! What holds of every conversion and of every walk, proved from the
//! definitions of the records and of the walks.
use crate::decoded::babbage;
use crate::decoded::shelley;
use crate::decoded::{AuxiliaryData, KeepRaw, OutputValue, PolicyAssets, TransactionOutput};
use crate::error::{lemma_all_ok_values, result_view, ConvertError};
use crate::mapper::babbage::{
    babbage_block_record, babbage_output_walk, babbage_outputs_walk, babbage_transaction_record,
    babbage_transaction_walk, babbage_witness_events, detail_collateral_output,
};
use crate::mapper::collect::{
    any_output_outcomes, any_output_records, legacy_output_outcomes, legacy_output_records,
    metadata_of,
};
use crate::mapper::crawl::{
    aux_metadata_walk, aux_native_script_events, aux_native_scripts, aux_plutus_script_events,
    aux_plutus_scripts, certificate_events, collateral_events, datum_events, input_events,
    legacy_output_walk, legacy_outputs_walk, metadata_walk, mint_events,
    native_witness_events, plutus_v2_witness_events, plutus_witness_events, redeemer_events,
    vkey_witness_events, witness_events, Walk,
};
use crate::mapper::map::{coin_value, mint_records, multiasset_records, rendered_address};
use crate::mapper::shelley::{
    block_record, coin_sum, detail_metadata, optional_auxdata_walk, optional_witness_events,
    transaction_end_events, transaction_record, transaction_walk, tx_size,
};
use crate::mapper::{Config, SlotTime};
use crate::model::{BlockRecord, Era, EventContextView, EventView};
use vstd::prelude::*;

verus! {

/// Converting a block of the legacy eras is deterministic: two conversions
/// of the same block, with the same hash, encoding, era, switches and time,
/// end alike, in the same record or in the same failure.
pub proof fn lemma_block_record_deterministic(
    config: Config,
    time: Option<SlotTime>,
    source: shelley::MintedBlock,
    hash: Seq<u8>,
    cbor: Seq<u8>,
    era: Era,
    first: Result<BlockRecord, ConvertError>,
    second: Result<BlockRecord, ConvertError>,
)
    requires
        result_view(first) == block_record(config, time, source, hash, cbor, era),
        result_view(second) == block_record(config, time, source, hash, cbor, era),
    ensures
        result_view(first) == result_view(second),
{
}

/// Converting a block of the later eras is deterministic: two conversions
/// of the same block, with the same hash, encoding, switches and time, end
/// alike, in the same record or in the same failure.
pub proof fn lemma_babbage_block_record_deterministic(
    config: Config,
    time: Option<SlotTime>,
    source: babbage::MintedBlock,
    hash: Seq<u8>,
    cbor: Seq<u8>,
    first: Result<BlockRecord, ConvertError>,
    second: Result<BlockRecord, ConvertError>,
)
    requires
        result_view(first) == babbage_block_record(config, time, source, hash, cbor),
        result_view(second) == babbage_block_record(config, time, source, hash, cbor),
    ensures
        result_view(first) == result_view(second),
{
}

/// The size in a transaction record of the legacy eras is exactly the
/// length of the body's original encoding, plus that of the auxiliary data
/// or two where there is none, plus that of the witness set or one where
/// there is none: in every record that the conversion makes, for every
/// combination of the two being there or not, whatever the switches say.
pub proof fn lemma_transaction_size(
    config: Config,
    body: KeepRaw<shelley::TransactionBody>,
    tx_hash: Seq<char>,
    aux_data: Option<KeepRaw<AuxiliaryData>>,
    witness_set: Option<KeepRaw<shelley::MintedWitnessSet>>,
)
    requires
        transaction_record(config, body, tx_hash, aux_data, witness_set) is Ok,
    ensures
        transaction_record(config, body, tx_hash, aux_data, witness_set)->Ok_0.size
            == body.raw_cbor@.len() + (match aux_data {
            Some(aux) => aux.raw_cbor@.len(),
            None => 2,
        }) + (match witness_set {
            Some(witnesses) => witnesses.raw_cbor@.len(),
            None => 1,
        }),
{
}

/// The size in a transaction record of the later eras is exactly the
/// length of the body's original encoding, plus that of the auxiliary data
/// or two where there is none, plus that of the witness set or one where
/// there is none: in every record that the conversion makes, for every
/// combination of the two being there or not, whatever the switches say.
pub proof fn lemma_babbage_transaction_size(
    config: Config,
    body: KeepRaw<babbage::MintedTransactionBody>,
    tx_hash: Seq<char>,
    aux_data: Option<KeepRaw<AuxiliaryData>>,
    witness_set: Option<KeepRaw<babbage::MintedWitnessSet>>,
)
    requires
        babbage_transaction_record(config, body, tx_hash, aux_data, witness_set) is Ok,
    ensures
        babbage_transaction_record(config, body, tx_hash, aux_data, witness_set)->Ok_0.size
            == body.raw_cbor@.len() + (match aux_data {
            Some(aux) => aux.raw_cbor@.len(),
            None => 2,
        }) + (match witness_set {
            Some(witnesses) => witnesses.raw_cbor@.len(),
            None => 1,
        }),
{
}

/// The coin of some outputs of the legacy format, added up.
pub open spec fn legacy_coin(outputs: Seq<TransactionOutput>) -> nat
    decreases outputs.len(),
{
    if outputs.len() == 0 {
        0
    } else {
        legacy_coin(outputs.drop_last()) + coin_value(outputs.last().amount) as nat
    }
}

/// The coin of some outputs of either format, added up.
pub open spec fn output_coin(outputs: Seq<babbage::MintedTransactionOutput>) -> nat
    decreases outputs.len(),
{
    if outputs.len() == 0 {
        0
    } else {
        output_coin(outputs.drop_last()) + coin_value(output_value(outputs.last())) as nat
    }
}

/// The records of some outputs hold, added up, the coin of the outputs.
pub proof fn lemma_legacy_coin_sum(outputs: Seq<TransactionOutput>)
    requires
        legacy_output_records(outputs) is Ok,
    ensures
        coin_sum(legacy_output_records(outputs)->Ok_0) == legacy_coin(outputs),
    decreases outputs.len(),
{
    if outputs.len() > 0 {
        assert(legacy_output_outcomes(outputs).drop_last() =~= legacy_output_outcomes(
            outputs.drop_last(),
        ));
        lemma_legacy_coin_sum(outputs.drop_last());
        let records = legacy_output_records(outputs)->Ok_0;
        let earlier = legacy_output_records(outputs.drop_last())->Ok_0;
        assert(records.drop_last() =~= earlier);
    }
}

/// The records of some outputs hold, added up, the coin of the outputs.
pub proof fn lemma_output_coin_sum(outputs: Seq<babbage::MintedTransactionOutput>)
    requires
        any_output_records(outputs) is Ok,
    ensures
        coin_sum(any_output_records(outputs)->Ok_0) == output_coin(outputs),
    decreases outputs.len(),
{
    if outputs.len() > 0 {
        assert(any_output_outcomes(outputs).drop_last() =~= any_output_outcomes(
            outputs.drop_last(),
        ));
        lemma_output_coin_sum(outputs.drop_last());
        let records = any_output_records(outputs)->Ok_0;
        let earlier = any_output_records(outputs.drop_last())->Ok_0;
        assert(records.drop_last() =~= earlier);
    }
}

/// The total in a transaction record of the legacy eras is exactly the
/// coin of the outputs, added up, and the counts are the lengths of the
/// lists, in every record that the conversion makes.
pub proof fn lemma_transaction_total(
    config: Config,
    body: KeepRaw<shelley::TransactionBody>,
    tx_hash: Seq<char>,
    aux_data: Option<KeepRaw<AuxiliaryData>>,
    witness_set: Option<KeepRaw<shelley::MintedWitnessSet>>,
)
    requires
        transaction_record(config, body, tx_hash, aux_data, witness_set) is Ok,
    ensures
        ({
            let record = transaction_record(config, body, tx_hash, aux_data, witness_set)->Ok_0;
            &&& record.total_output == legacy_coin(body.value.outputs@)
            &&& record.fee == body.value.fee
            &&& record.input_count == body.value.inputs.len()
            &&& record.output_count == body.value.outputs.len()
            &&& record.certificate_count == optional_len(body.value.certificates)
        }),
{
    lemma_legacy_coin_sum(body.value.outputs@);
}

/// The total in a transaction record of the later eras is exactly the coin
/// of the outputs, added up, and the counts are the lengths of the lists,
/// in every record that the conversion makes.
pub proof fn lemma_babbage_transaction_total(
    config: Config,
    body: KeepRaw<babbage::MintedTransactionBody>,
    tx_hash: Seq<char>,
    aux_data: Option<KeepRaw<AuxiliaryData>>,
    witness_set: Option<KeepRaw<babbage::MintedWitnessSet>>,
)
    requires
        babbage_transaction_record(config, body, tx_hash, aux_data, witness_set) is Ok,
    ensures
        ({
            let record = babbage_transaction_record(
                config,
                body,
                tx_hash,
                aux_data,
                witness_set,
            )->Ok_0;
            &&& record.total_output == output_coin(body.value.outputs@)
            &&& record.fee == body.value.fee
            &&& record.input_count == body.value.inputs.len()
            &&& record.output_count == body.value.outputs.len()
            &&& record.certificate_count == optional_len(body.value.certificates)
            &&& record.collateral_input_count == optional_len(body.value.collateral)
        }),
{
    lemma_output_coin_sum(body.value.outputs@);
}

/// Whether the address of every output of a list is an address.
pub open spec fn legacy_addresses_well_formed(outputs: Seq<TransactionOutput>) -> bool {
    forall|i: int|
        0 <= i < outputs.len() ==> rendered_address((#[trigger] outputs[i]).address@) is Ok
}

/// The bytes of the address of an output, whatever its format.
pub open spec fn output_address(output: babbage::MintedTransactionOutput) -> Seq<u8> {
    match output {
        babbage::MintedTransactionOutput::Legacy(x) => x.address@,
        babbage::MintedTransactionOutput::PostAlonzo(x) => x.address@,
    }
}

/// Whether the address of every output of a list is an address.
pub open spec fn addresses_well_formed(outputs: Seq<babbage::MintedTransactionOutput>) -> bool {
    forall|i: int|
        0 <= i < outputs.len() ==> rendered_address(output_address(#[trigger] outputs[i])) is Ok
}

/// When the conversion of a transaction of the legacy eras succeeds: where
/// the size fits 32 bits, every output's address is an address and the
/// coin of the outputs fits 64 bits, a record is made, unless the details
/// are asked for and the metadata cannot be rendered.
pub proof fn lemma_transaction_record_is_made(
    config: Config,
    body: KeepRaw<shelley::TransactionBody>,
    tx_hash: Seq<char>,
    aux_data: Option<KeepRaw<AuxiliaryData>>,
    witness_set: Option<KeepRaw<shelley::MintedWitnessSet>>,
)
    requires
        tx_size(body, aux_data, witness_set) <= u32::MAX,
        legacy_addresses_well_formed(body.value.outputs@),
        legacy_coin(body.value.outputs@) <= u64::MAX,
        detail_metadata(config.include_transaction_details, aux_data) is Ok,
    ensures
        transaction_record(config, body, tx_hash, aux_data, witness_set) is Ok,
{
    let outputs = body.value.outputs@;
    lemma_all_ok_values(legacy_output_outcomes(outputs));
    assert forall|i: int| 0 <= i < outputs.len() implies (#[trigger] legacy_output_outcomes(
        outputs,
    )[i]) is Ok by {
        assert(rendered_address(outputs[i].address@) is Ok);
    }
    lemma_legacy_coin_sum(outputs);
}

/// When the conversion of a transaction of the later eras succeeds: where
/// the size fits 32 bits, every output's address is an address and the
/// coin of the outputs fits 64 bits, a record is made, unless the details
/// are asked for and either the address of the output that takes back the
/// collateral is no address or the metadata cannot be rendered.
pub proof fn lemma_babbage_transaction_record_is_made(
    config: Config,
    body: KeepRaw<babbage::MintedTransactionBody>,
    tx_hash: Seq<char>,
    aux_data: Option<KeepRaw<AuxiliaryData>>,
    witness_set: Option<KeepRaw<babbage::MintedWitnessSet>>,
)
    requires
        tx_size(body, aux_data, witness_set) <= u32::MAX,
        addresses_well_formed(body.value.outputs@),
        output_coin(body.value.outputs@) <= u64::MAX,
        detail_collateral_output(
            config.include_transaction_details,
            body.value.collateral_return,
        ) is Ok,
        detail_metadata(config.include_transaction_details, aux_data) is Ok,
    ensures
        babbage_transaction_record(config, body, tx_hash, aux_data, witness_set) is Ok,
{
    let outputs = body.value.outputs@;
    lemma_all_ok_values(any_output_outcomes(outputs));
    assert forall|i: int| 0 <= i < outputs.len() implies (#[trigger] any_output_outcomes(
        outputs,
    )[i]) is Ok by {
        assert(rendered_address(output_address(outputs[i])) is Ok);
    }
    lemma_output_coin_sum(outputs);
}

/// A transaction of the legacy eras without auxiliary data and without a
/// witness set: the size in its record is the length of the body's
/// original encoding and three more, and the metadata and the five lists
/// of witnesses are absent from the record, details or not.
pub proof fn lemma_transaction_without_sections(
    config: Config,
    body: KeepRaw<shelley::TransactionBody>,
    tx_hash: Seq<char>,
)
    requires
        transaction_record(config, body, tx_hash, None, None) is Ok,
    ensures
        ({
            let record = transaction_record(config, body, tx_hash, None, None)->Ok_0;
            &&& record.size == body.raw_cbor@.len() + 2 + 1
            &&& record.metadata is None
            &&& record.vkey_witnesses is None
            &&& record.native_witnesses is None
            &&& record.plutus_witnesses is None
            &&& record.plutus_redeemers is None
            &&& record.plutus_data is None
        }),
{
}

/// A transaction of the later eras without auxiliary data and without a
/// witness set: the size in its record is the length of the body's
/// original encoding and three more, and the metadata and the five lists
/// of witnesses are absent from the record, details or not.
pub proof fn lemma_babbage_transaction_without_sections(
    config: Config,
    body: KeepRaw<babbage::MintedTransactionBody>,
    tx_hash: Seq<char>,
)
    requires
        babbage_transaction_record(config, body, tx_hash, None, None) is Ok,
    ensures
        ({
            let record = babbage_transaction_record(config, body, tx_hash, None, None)->Ok_0;
            &&& record.size == body.raw_cbor@.len() + 2 + 1
            &&& record.metadata is None
            &&& record.vkey_witnesses is None
            &&& record.native_witnesses is None
            &&& record.plutus_witnesses is None
            &&& record.plutus_redeemers is None
            &&& record.plutus_data is None
        }),
{
}

/// The number of entries of a multi-asset value: one for each pair of
/// policy and asset name.
pub open spec fn asset_entries<A>(policies: Seq<PolicyAssets<A>>) -> nat
    decreases policies.len(),
{
    if policies.len() == 0 {
        0
    } else {
        asset_entries(policies.drop_last()) + policies.last().assets.len() as nat
    }
}

/// The number of multi-asset entries of a value: none for coin alone.
pub open spec fn value_asset_entries(amount: OutputValue) -> nat {
    match amount {
        OutputValue::Coin(_) => 0,
        OutputValue::Multiasset(_, policies) => asset_entries(policies@),
    }
}

/// The length of an optional list: zero where it is absent.
pub open spec fn optional_len<T>(items: Option<Vec<T>>) -> nat {
    match items {
        Some(v) => v.len() as nat,
        None => 0,
    }
}

/// What an output is worth, whatever its format.
pub open spec fn output_value(output: babbage::MintedTransactionOutput) -> OutputValue {
    match output {
        babbage::MintedTransactionOutput::Legacy(x) => x.amount,
        babbage::MintedTransactionOutput::PostAlonzo(x) => x.value,
    }
}

/// Whether an output carries inline data.
pub open spec fn carries_inline_data(output: babbage::MintedTransactionOutput) -> bool {
    match output {
        babbage::MintedTransactionOutput::Legacy(_) => false,
        babbage::MintedTransactionOutput::PostAlonzo(x) => x.datum_option matches Some(
            babbage::MintedDatumOption::Data(_),
        ),
    }
}

/// How many of the first `n` outputs carry inline data.
pub open spec fn inline_data_count(outputs: Seq<babbage::MintedTransactionOutput>, n: nat) -> nat
    decreases n,
{
    if n == 0 || n > outputs.len() {
        0
    } else {
        inline_data_count(outputs, (n - 1) as nat) + if carries_inline_data(outputs[n - 1]) {
            1nat
        } else {
            0nat
        }
    }
}

/// The number of multi-asset entries of the first `n` outputs together.
pub open spec fn output_asset_entries(outputs: Seq<babbage::MintedTransactionOutput>, n: nat) -> nat
    decreases n,
{
    if n == 0 || n > outputs.len() {
        0
    } else {
        output_asset_entries(outputs, (n - 1) as nat) + value_asset_entries(
            output_value(outputs[n - 1]),
        )
    }
}

/// The number of multi-asset entries of the first `n` outputs of the legacy
/// format together.
pub open spec fn legacy_output_asset_entries(outputs: Seq<TransactionOutput>, n: nat) -> nat
    decreases n,
{
    if n == 0 || n > outputs.len() {
        0
    } else {
        legacy_output_asset_entries(outputs, (n - 1) as nat) + value_asset_entries(
            outputs[n - 1].amount,
        )
    }
}

/// The number of labels of the metadata of a transaction: zero without
/// auxiliary data or without metadata in it.
pub open spec fn metadata_labels(aux_data: Option<KeepRaw<AuxiliaryData>>) -> nat {
    match aux_data {
        Some(aux) => optional_len(metadata_of(aux.value)),
        None => 0,
    }
}

/// The number of scripts that the auxiliary data of a transaction
/// discloses.
pub open spec fn aux_scripts(aux_data: Option<KeepRaw<AuxiliaryData>>) -> nat {
    match aux_data {
        Some(aux) => optional_len(aux_native_scripts(aux.value)) + optional_len(
            aux_plutus_scripts(aux.value),
        ),
        None => 0,
    }
}

/// The sizes of the lists of a witness set of the later eras, added up.
pub open spec fn babbage_witness_sizes(
    witness_set: Option<KeepRaw<babbage::MintedWitnessSet>>,
) -> nat {
    match witness_set {
        Some(w) => optional_len(w.value.vkeywitness) + optional_len(w.value.native_script)
            + optional_len(w.value.plutus_v1_script) + optional_len(w.value.plutus_v2_script)
            + optional_len(w.value.redeemer) + optional_len(w.value.plutus_data),
        None => 0,
    }
}

/// The sizes of the lists of a witness set of the legacy eras, added up.
pub open spec fn witness_sizes(witness_set: Option<KeepRaw<shelley::MintedWitnessSet>>) -> nat {
    match witness_set {
        Some(w) => optional_len(w.value.vkeywitness) + optional_len(w.value.native_script)
            + optional_len(w.value.plutus_script) + optional_len(w.value.redeemer) + optional_len(
            w.value.plutus_data,
        ),
        None => 0,
    }
}

/// One where transactions are closed with an event, else zero.
pub open spec fn end_events(config: Config) -> nat {
    if config.include_transaction_end_events {
        1
    } else {
        0
    }
}

/// A multi-asset value has one asset record for each of its entries.
pub proof fn lemma_asset_record_count(policies: Seq<PolicyAssets<u64>>)
    ensures
        multiasset_records(policies).len() == asset_entries(policies),
    decreases policies.len(),
{
    if policies.len() > 0 {
        lemma_asset_record_count(policies.drop_last());
    }
}

/// A mint has one mint record for each of its entries.
pub proof fn lemma_mint_record_count(policies: Seq<PolicyAssets<i64>>)
    ensures
        mint_records(policies).len() == asset_entries(policies),
    decreases policies.len(),
{
    if policies.len() > 0 {
        lemma_mint_record_count(policies.drop_last());
    }
}

/// The record of a transaction of the legacy eras counts what the
/// transaction mints: one for each pair of policy and asset name, and
/// nothing where it mints nothing.
pub proof fn lemma_transaction_mint_count(
    config: Config,
    body: KeepRaw<shelley::TransactionBody>,
    tx_hash: Seq<char>,
    aux_data: Option<KeepRaw<AuxiliaryData>>,
    witness_set: Option<KeepRaw<shelley::MintedWitnessSet>>,
)
    requires
        transaction_record(config, body, tx_hash, aux_data, witness_set) is Ok,
    ensures
        transaction_record(config, body, tx_hash, aux_data, witness_set)->Ok_0.mint_count
            == match body.value.mint {
            Some(mint) => asset_entries(mint@),
            None => 0,
        },
{
    match body.value.mint {
        Some(mint) => lemma_mint_record_count(mint@),
        None => {},
    }
}

/// The record of a transaction of the later eras counts what the
/// transaction mints: one for each pair of policy and asset name, and
/// nothing where it mints nothing.
pub proof fn lemma_babbage_transaction_mint_count(
    config: Config,
    body: KeepRaw<babbage::MintedTransactionBody>,
    tx_hash: Seq<char>,
    aux_data: Option<KeepRaw<AuxiliaryData>>,
    witness_set: Option<KeepRaw<babbage::MintedWitnessSet>>,
)
    requires
        babbage_transaction_record(config, body, tx_hash, aux_data, witness_set) is Ok,
    ensures
        babbage_transaction_record(config, body, tx_hash, aux_data, witness_set)->Ok_0.mint_count
            == match body.value.mint {
            Some(mint) => asset_entries(mint@),
            None => 0,
        },
{
    match body.value.mint {
        Some(mint) => lemma_mint_record_count(mint@),
        None => {},
    }
}

/// A complete walk over the first `n` labels emits `n` events.
pub proof fn lemma_metadata_event_count(
    context: EventContextView,
    entries: Seq<(u64, crate::decoded::Metadatum)>,
    n: nat,
)
    requires
        n <= entries.len(),
        metadata_walk(context, entries, n).failure is None,
    ensures
        metadata_walk(context, entries, n).events.len() == n,
    decreases n,
{
    if n > 0 {
        lemma_metadata_event_count(context, entries, (n - 1) as nat);
    }
}

/// A complete walk over auxiliary data emits one event for each label and
/// one for each script.
pub proof fn lemma_auxdata_event_count(
    context: EventContextView,
    aux_data: Option<KeepRaw<AuxiliaryData>>,
)
    requires
        optional_auxdata_walk(context, aux_data).failure is None,
    ensures
        optional_auxdata_walk(context, aux_data).events.len() == metadata_labels(aux_data)
            + aux_scripts(aux_data),
{
    match aux_data {
        Some(aux) => {
            match metadata_of(aux.value) {
                Some(entries) => {
                    lemma_metadata_event_count(context, entries@, entries.len() as nat);
                },
                None => {},
            }
        },
        None => {},
    }
}

/// A complete walk over the first `n` outputs of the legacy format emits
/// one event for each output and one for each multi-asset entry.
pub proof fn lemma_legacy_outputs_event_count(
    context: EventContextView,
    outputs: Seq<TransactionOutput>,
    n: nat,
)
    requires
        n <= outputs.len(),
        legacy_outputs_walk(context, outputs, n).failure is None,
    ensures
        legacy_outputs_walk(context, outputs, n).events.len() == n + legacy_output_asset_entries(
            outputs,
            n,
        ),
    decreases n,
{
    if n > 0 {
        lemma_legacy_outputs_event_count(context, outputs, (n - 1) as nat);
        match outputs[n - 1].amount {
            OutputValue::Coin(_) => {},
            OutputValue::Multiasset(_, policies) => lemma_asset_record_count(policies@),
        }
    }
}

/// A complete walk over the first `n` outputs emits one event for each
/// output, one for each output that carries inline data, and one for each
/// multi-asset entry.
pub proof fn lemma_babbage_outputs_event_count(
    context: EventContextView,
    outputs: Seq<babbage::MintedTransactionOutput>,
    n: nat,
)
    requires
        n <= outputs.len(),
        babbage_outputs_walk(context, outputs, n).failure is None,
    ensures
        babbage_outputs_walk(context, outputs, n).events.len() == n + inline_data_count(outputs, n)
            + output_asset_entries(outputs, n),
    decreases n,
{
    if n > 0 {
        lemma_babbage_outputs_event_count(context, outputs, (n - 1) as nat);
        match output_value(outputs[n - 1]) {
            OutputValue::Coin(_) => {},
            OutputValue::Multiasset(_, policies) => lemma_asset_record_count(policies@),
        }
    }
}

/// The number of events of a complete walk over a transaction of the later
/// eras: one for the transaction, one for each input, output, output with
/// inline data, multi-asset entry of an output, certificate, collateral
/// input and minted asset, one for each label of the metadata and each
/// script of the auxiliary data, one for each entry of each list of the
/// witness set, and one for the end of the transaction where that is asked
/// for.
pub proof fn lemma_babbage_transaction_event_count(
    context: EventContextView,
    config: Config,
    body: KeepRaw<babbage::MintedTransactionBody>,
    tx_hash: Seq<char>,
    aux_data: Option<KeepRaw<AuxiliaryData>>,
    witness_set: Option<KeepRaw<babbage::MintedWitnessSet>>,
)
    requires
        babbage_transaction_walk(context, config, body, tx_hash, aux_data, witness_set).failure
            is None,
    ensures
        babbage_transaction_walk(context, config, body, tx_hash, aux_data, witness_set).events.len()
            == 1 + body.value.inputs.len() + body.value.outputs.len() + inline_data_count(
            body.value.outputs@,
            body.value.outputs.len() as nat,
        ) + output_asset_entries(body.value.outputs@, body.value.outputs.len() as nat)
            + optional_len(body.value.certificates) + optional_len(body.value.collateral) + (
        match body.value.mint {
            Some(mint) => asset_entries(mint@),
            None => 0,
        }) + metadata_labels(aux_data) + aux_scripts(aux_data) + babbage_witness_sizes(
            witness_set,
        ) + end_events(config),
{
    let tx = body.value;
    lemma_babbage_outputs_event_count(context, tx.outputs@, tx.outputs.len() as nat);
    lemma_auxdata_event_count(context, aux_data);
    match tx.mint {
        Some(mint) => lemma_mint_record_count(mint@),
        None => {},
    }
}

/// The number of events of a complete walk over a transaction of the legacy
/// eras: one for the transaction, one for each input, output, multi-asset
/// entry of an output, certificate, collateral input and minted asset, one
/// for each label of the metadata and each script of the auxiliary data,
/// one for each entry of each list of the witness set, and one for the end
/// of the transaction where that is asked for.
pub proof fn lemma_transaction_event_count(
    context: EventContextView,
    config: Config,
    body: KeepRaw<shelley::TransactionBody>,
    tx_hash: Seq<char>,
    aux_data: Option<KeepRaw<AuxiliaryData>>,
    witness_set: Option<KeepRaw<shelley::MintedWitnessSet>>,
)
    requires
        transaction_walk(context, config, body, tx_hash, aux_data, witness_set).failure is None,
    ensures
        transaction_walk(context, config, body, tx_hash, aux_data, witness_set).events.len() == 1
            + body.value.inputs.len() + body.value.outputs.len() + legacy_output_asset_entries(
            body.value.outputs@,
            body.value.outputs.len() as nat,
        ) + optional_len(body.value.certificates) + optional_len(body.value.collateral) + (
        match body.value.mint {
            Some(mint) => asset_entries(mint@),
            None => 0,
        }) + metadata_labels(aux_data) + aux_scripts(aux_data) + witness_sizes(witness_set)
            + end_events(config),
{
    let tx = body.value;
    lemma_legacy_outputs_event_count(context, tx.outputs@, tx.outputs.len() as nat);
    lemma_auxdata_event_count(context, aux_data);
    match tx.mint {
        Some(mint) => lemma_mint_record_count(mint@),
        None => {},
    }
}

/// The labels of the metadata of a transaction, in order.
pub open spec fn metadata_label_list(aux_data: Option<KeepRaw<AuxiliaryData>>) -> Seq<u64> {
    match aux_data {
        Some(aux) => match metadata_of(aux.value) {
            Some(entries) => Seq::new(entries.len() as nat, |i: int| entries@[i].0),
            None => Seq::empty(),
        },
        None => Seq::empty(),
    }
}

/// Where no label of the metadata comes twice and the auxiliary data
/// discloses no script, a complete walk over a transaction of the later
/// eras emits one event for the transaction, one for each input, output,
/// output with inline data, multi-asset entry of an output, certificate,
/// collateral input and minted asset, one for each entry of each list of
/// the witness set, one for the end of the transaction where that is asked
/// for, and one for each distinct label of the metadata.
pub proof fn lemma_babbage_transaction_event_count_by_label(
    context: EventContextView,
    config: Config,
    body: KeepRaw<babbage::MintedTransactionBody>,
    tx_hash: Seq<char>,
    aux_data: Option<KeepRaw<AuxiliaryData>>,
    witness_set: Option<KeepRaw<babbage::MintedWitnessSet>>,
)
    requires
        babbage_transaction_walk(context, config, body, tx_hash, aux_data, witness_set).failure
            is None,
        aux_scripts(aux_data) == 0,
        metadata_label_list(aux_data).no_duplicates(),
    ensures
        babbage_transaction_walk(context, config, body, tx_hash, aux_data, witness_set).events.len()
            == 1 + body.value.inputs.len() + body.value.outputs.len() + inline_data_count(
            body.value.outputs@,
            body.value.outputs.len() as nat,
        ) + output_asset_entries(body.value.outputs@, body.value.outputs.len() as nat)
            + optional_len(body.value.certificates) + optional_len(body.value.collateral) + (
        match body.value.mint {
            Some(mint) => asset_entries(mint@),
            None => 0,
        }) + babbage_witness_sizes(witness_set) + end_events(config) + metadata_label_list(
            aux_data,
        ).to_set().len(),
{
    lemma_babbage_transaction_event_count(context, config, body, tx_hash, aux_data, witness_set);
    metadata_label_list(aux_data).unique_seq_to_set();
}

/// Where no label of the metadata comes twice and the auxiliary data
/// discloses no script, a complete walk over a transaction of the legacy
/// eras emits one event for the transaction, one for each input, output,
/// multi-asset entry of an output, certificate, collateral input and minted
/// asset, one for each entry of each list of the witness set, one for the
/// end of the transaction where that is asked for, and one for each
/// distinct label of the metadata.
pub proof fn lemma_transaction_event_count_by_label(
    context: EventContextView,
    config: Config,
    body: KeepRaw<shelley::TransactionBody>,
    tx_hash: Seq<char>,
    aux_data: Option<KeepRaw<AuxiliaryData>>,
    witness_set: Option<KeepRaw<shelley::MintedWitnessSet>>,
)
    requires
        transaction_walk(context, config, body, tx_hash, aux_data, witness_set).failure is None,
        aux_scripts(aux_data) == 0,
        metadata_label_list(aux_data).no_duplicates(),
    ensures
        transaction_walk(context, config, body, tx_hash, aux_data, witness_set).events.len() == 1
            + body.value.inputs.len() + body.value.outputs.len() + legacy_output_asset_entries(
            body.value.outputs@,
            body.value.outputs.len() as nat,
        ) + optional_len(body.value.certificates) + optional_len(body.value.collateral) + (
        match body.value.mint {
            Some(mint) => asset_entries(mint@),
            None => 0,
        }) + witness_sizes(witness_set) + end_events(config) + metadata_label_list(
            aux_data,
        ).to_set().len(),
{
    lemma_transaction_event_count(context, config, body, tx_hash, aux_data, witness_set);
    metadata_label_list(aux_data).unique_seq_to_set();
}

/// Whether a context stands at the same block and transaction as another:
/// the coordinates of the block and of the transaction are the same.
pub open spec fn same_position(context: EventContextView, other: EventContextView) -> bool {
    &&& context.block_hash == other.block_hash
    &&& context.block_number == other.block_number
    &&& context.slot == other.slot
    &&& context.timestamp == other.timestamp
    &&& context.tx_idx == other.tx_idx
    &&& context.tx_hash == other.tx_hash
}

/// Whether every event stands at the block and transaction of a context.
pub open spec fn all_within(events: Seq<EventView>, context: EventContextView) -> bool {
    forall|i: int| 0 <= i < events.len() ==> same_position((#[trigger] events[i]).context, context)
}

/// Events that all stand at a position still do when put in a row.
pub proof fn lemma_all_within_add(a: Seq<EventView>, b: Seq<EventView>, context: EventContextView)
    requires
        all_within(a, context),
        all_within(b, context),
    ensures
        all_within(a + b, context),
{
    assert forall|i: int| 0 <= i < (a + b).len() implies same_position(
        (#[trigger] (a + b)[i]).context,
        context,
    ) by {
        if i < a.len() {
            assert((a + b)[i] == a[i]);
        } else {
            assert((a + b)[i] == b[i - a.len()]);
        }
    }
}

/// Two walks in a row, each of whose events stand at a position, emit
/// events that stand there.
pub proof fn lemma_all_within_followed_by(first: Walk, second: Walk, context: EventContextView)
    requires
        all_within(first.events, context),
        all_within(second.events, context),
    ensures
        all_within(first.followed_by(second).events, context),
{
    lemma_all_within_add(first.events, second.events, context);
}

/// The events of a walk over an output of the legacy format stand at the
/// block and transaction of the walk's context.
pub proof fn lemma_legacy_output_within(
    context: EventContextView,
    output: TransactionOutput,
    position: EventContextView,
)
    requires
        same_position(context, position),
    ensures
        all_within(legacy_output_walk(context, output).events, position),
{
}

/// The events of a walk over outputs of the legacy format stand at the
/// block and transaction of the walk's context.
pub proof fn lemma_legacy_outputs_within(
    context: EventContextView,
    outputs: Seq<TransactionOutput>,
    n: nat,
)
    ensures
        all_within(legacy_outputs_walk(context, outputs, n).events, context),
    decreases n,
{
    if n == 0 || n > outputs.len() {
    } else {
        lemma_legacy_outputs_within(context, outputs, (n - 1) as nat);
        let inner = context.child(crate::mapper::crawl::at_output((n - 1) as usize));
        lemma_legacy_output_within(inner, outputs[n - 1], context);
        lemma_all_within_followed_by(
            legacy_outputs_walk(context, outputs, (n - 1) as nat),
            legacy_output_walk(inner, outputs[n - 1]),
            context,
        );
    }
}

/// The events of a walk over an output of either format stand at the block
/// and transaction of the walk's context.
pub proof fn lemma_babbage_output_within(
    context: EventContextView,
    output: babbage::MintedTransactionOutput,
    position: EventContextView,
)
    requires
        same_position(context, position),
    ensures
        all_within(babbage_output_walk(context, output).events, position),
{
    match output {
        babbage::MintedTransactionOutput::Legacy(x) => {
            lemma_legacy_output_within(context, x, position);
        },
        babbage::MintedTransactionOutput::PostAlonzo(x) => {},
    }
}

/// The events of a walk over outputs of either format stand at the block
/// and transaction of the walk's context.
pub proof fn lemma_babbage_outputs_within(
    context: EventContextView,
    outputs: Seq<babbage::MintedTransactionOutput>,
    n: nat,
)
    ensures
        all_within(babbage_outputs_walk(context, outputs, n).events, context),
    decreases n,
{
    if n == 0 || n > outputs.len() {
    } else {
        lemma_babbage_outputs_within(context, outputs, (n - 1) as nat);
        let inner = context.child(crate::mapper::crawl::at_output((n - 1) as usize));
        lemma_babbage_output_within(inner, outputs[n - 1], context);
        lemma_all_within_followed_by(
            babbage_outputs_walk(context, outputs, (n - 1) as nat),
            babbage_output_walk(inner, outputs[n - 1]),
            context,
        );
    }
}

/// The events of a walk over metadata stand at the block and transaction of
/// the walk's context.
pub proof fn lemma_metadata_within(
    context: EventContextView,
    entries: Seq<(u64, crate::decoded::Metadatum)>,
    n: nat,
)
    ensures
        all_within(metadata_walk(context, entries, n).events, context),
    decreases n,
{
    if n == 0 || n > entries.len() {
    } else {
        lemma_metadata_within(context, entries, (n - 1) as nat);
        let step = match crate::mapper::metadata::metadata_record(
            entries[n - 1].0,
            entries[n - 1].1,
        ) {
            Ok(record) => Walk::complete(
                seq![
                    crate::mapper::event_of(
                        context,
                        crate::model::EventDataView::Metadata(record),
                    ),
                ],
            ),
            Err(e) => Walk::failed(e),
        };
        lemma_all_within_followed_by(
            metadata_walk(context, entries, (n - 1) as nat),
            step,
            context,
        );
    }
}

/// The events of a walk over auxiliary data stand at the block and
/// transaction of the walk's context.
pub proof fn lemma_auxdata_within(
    context: EventContextView,
    aux_data: Option<KeepRaw<AuxiliaryData>>,
)
    ensures
        all_within(optional_auxdata_walk(context, aux_data).events, context),
{
    match aux_data {
        Some(aux) => {
            match metadata_of(aux.value) {
                Some(entries) => lemma_metadata_within(context, entries@, entries.len() as nat),
                None => {},
            }
            let metadata = aux_metadata_walk(context, aux.value);
            let native = Walk::complete(
                aux_native_script_events(context, aux_native_scripts(aux.value)),
            );
            let plutus = Walk::complete(
                aux_plutus_script_events(context, aux_plutus_scripts(aux.value)),
            );
            lemma_all_within_followed_by(metadata, native, context);
            lemma_all_within_followed_by(metadata.followed_by(native), plutus, context);
        },
        None => {},
    }
}

/// Context inheritance within a transaction of the legacy eras: every event
/// of the walk over a transaction, at whatever depth, carries the block
/// hash, block number, slot, time, transaction index and transaction hash
/// of the context that the walk started under.
pub proof fn lemma_transaction_events_keep_position(
    context: EventContextView,
    config: Config,
    body: KeepRaw<shelley::TransactionBody>,
    tx_hash: Seq<char>,
    aux_data: Option<KeepRaw<AuxiliaryData>>,
    witness_set: Option<KeepRaw<shelley::MintedWitnessSet>>,
)
    ensures
        all_within(
            transaction_walk(context, config, body, tx_hash, aux_data, witness_set).events,
            context,
        ),
{
    match transaction_record(config, body, tx_hash, aux_data, witness_set) {
        Err(_) => {},
        Ok(record) => {
            let tx = body.value;
            let w0 = Walk::complete(
                seq![
                    crate::mapper::event_of(
                        context,
                        crate::model::EventDataView::Transaction(record),
                    ),
                ],
            );
            let s1 = Walk::complete(input_events(context, tx.inputs@));
            let s2 = legacy_outputs_walk(context, tx.outputs@, tx.outputs.len() as nat);
            let s3 = Walk::complete(certificate_events(context, tx.certificates));
            let s4 = Walk::complete(collateral_events(context, tx.collateral));
            let s5 = Walk::complete(mint_events(context, tx.mint));
            let s6 = optional_auxdata_walk(context, aux_data);
            let s7 = Walk::complete(optional_witness_events(context, witness_set));
            let s8 = Walk::complete(transaction_end_events(context, config, record));
            lemma_legacy_outputs_within(context, tx.outputs@, tx.outputs.len() as nat);
            lemma_auxdata_within(context, aux_data);
            lemma_witness_within(context, witness_set);
            let w1 = w0.followed_by(s1);
            lemma_all_within_followed_by(w0, s1, context);
            let w2 = w1.followed_by(s2);
            lemma_all_within_followed_by(w1, s2, context);
            let w3 = w2.followed_by(s3);
            lemma_all_within_followed_by(w2, s3, context);
            let w4 = w3.followed_by(s4);
            lemma_all_within_followed_by(w3, s4, context);
            let w5 = w4.followed_by(s5);
            lemma_all_within_followed_by(w4, s5, context);
            let w6 = w5.followed_by(s6);
            lemma_all_within_followed_by(w5, s6, context);
            let w7 = w6.followed_by(s7);
            lemma_all_within_followed_by(w6, s7, context);
            lemma_all_within_followed_by(w7, s8, context);
        },
    }
}

/// The events of the lists of a witness set of the legacy eras stand at the
/// block and transaction of the walk's context.
pub proof fn lemma_witness_within(
    context: EventContextView,
    witness_set: Option<KeepRaw<shelley::MintedWitnessSet>>,
)
    ensures
        all_within(optional_witness_events(context, witness_set), context),
{
    match witness_set {
        Some(w) => {
            lemma_witness_lists_within(
                context,
                w.value.vkeywitness,
                w.value.native_script,
                w.value.plutus_script,
                w.value.redeemer,
                w.value.plutus_data,
            );
        },
        None => {},
    }
}

/// The events of the lists of a witness set stand at the block and
/// transaction of the walk's context.
pub proof fn lemma_witness_lists_within(
    context: EventContextView,
    vkeywitness: Option<Vec<crate::decoded::VKeyWitness>>,
    native_script: Option<Vec<pallas::ledger::primitives::alonzo::NativeScript>>,
    plutus_script: Option<Vec<crate::decoded::PlutusScript<1>>>,
    redeemer: Option<Vec<crate::decoded::Redeemer>>,
    plutus_data: Option<Vec<KeepRaw<pallas::ledger::primitives::alonzo::PlutusData>>>,
)
    ensures
        all_within(
            witness_events(
                context,
                vkeywitness,
                native_script,
                plutus_script,
                redeemer,
                plutus_data,
            ),
            context,
        ),
{
    let a = vkey_witness_events(context, vkeywitness);
    let b = native_witness_events(context, native_script);
    let c = plutus_witness_events(context, plutus_script);
    let d = redeemer_events(context, redeemer);
    let e = datum_events(context, plutus_data);
    lemma_all_within_add(a, b, context);
    lemma_all_within_add(a + b, c, context);
    lemma_all_within_add(a + b + c, d, context);
    lemma_all_within_add(a + b + c + d, e, context);
}

/// The events of the lists of a witness set of the later eras stand at the
/// block and transaction of the walk's context.
pub proof fn lemma_babbage_witness_within(
    context: EventContextView,
    witness_set: Option<KeepRaw<babbage::MintedWitnessSet>>,
)
    ensures
        all_within(babbage_witness_events(context, witness_set), context),
{
    match witness_set {
        Some(w) => {
            let a = vkey_witness_events(context, w.value.vkeywitness);
            let b = native_witness_events(context, w.value.native_script);
            let c = plutus_witness_events(context, w.value.plutus_v1_script);
            let d = plutus_v2_witness_events(context, w.value.plutus_v2_script);
            let e = redeemer_events(context, w.value.redeemer);
            let f = datum_events(context, w.value.plutus_data);
            lemma_all_within_add(a, b, context);
            lemma_all_within_add(a + b, c, context);
            lemma_all_within_add(a + b + c, d, context);
            lemma_all_within_add(a + b + c + d, e, context);
            lemma_all_within_add(a + b + c + d + e, f, context);
        },
        None => {},
    }
}

/// Context inheritance within a transaction of the later eras: every event
/// of the walk over a transaction, at whatever depth, carries the block
/// hash, block number, slot, time, transaction index and transaction hash
/// of the context that the walk started under.
pub proof fn lemma_babbage_transaction_events_keep_position(
    context: EventContextView,
    config: Config,
    body: KeepRaw<babbage::MintedTransactionBody>,
    tx_hash: Seq<char>,
    aux_data: Option<KeepRaw<AuxiliaryData>>,
    witness_set: Option<KeepRaw<babbage::MintedWitnessSet>>,
)
    ensures
        all_within(
            babbage_transaction_walk(context, config, body, tx_hash, aux_data, witness_set).events,
            context,
        ),
{
    match babbage_transaction_record(config, body, tx_hash, aux_data, witness_set) {
        Err(_) => {},
        Ok(record) => {
            let tx = body.value;
            let w0 = Walk::complete(
                seq![
                    crate::mapper::event_of(
                        context,
                        crate::model::EventDataView::Transaction(record),
                    ),
                ],
            );
            let s1 = Walk::complete(input_events(context, tx.inputs@));
            let s2 = babbage_outputs_walk(context, tx.outputs@, tx.outputs.len() as nat);
            let s3 = Walk::complete(certificate_events(context, tx.certificates));
            let s4 = Walk::complete(collateral_events(context, tx.collateral));
            let s5 = Walk::complete(mint_events(context, tx.mint));
            let s6 = optional_auxdata_walk(context, aux_data);
            let s7 = Walk::complete(babbage_witness_events(context, witness_set));
            let s8 = Walk::complete(transaction_end_events(context, config, record));
            lemma_babbage_outputs_within(context, tx.outputs@, tx.outputs.len() as nat);
            lemma_auxdata_within(context, aux_data);
            lemma_babbage_witness_within(context, witness_set);
            let w1 = w0.followed_by(s1);
            lemma_all_within_followed_by(w0, s1, context);
            let w2 = w1.followed_by(s2);
            lemma_all_within_followed_by(w1, s2, context);
            let w3 = w2.followed_by(s3);
            lemma_all_within_followed_by(w2, s3, context);
            let w4 = w3.followed_by(s4);
            lemma_all_within_followed_by(w3, s4, context);
            let w5 = w4.followed_by(s5);
            lemma_all_within_followed_by(w4, s5, context);
            let w6 = w5.followed_by(s6);
            lemma_all_within_followed_by(w5, s6, context);
            let w7 = w6.followed_by(s7);
            lemma_all_within_followed_by(w6, s7, context);
            lemma_all_within_followed_by(w7, s8, context);
        },
    }
}

/// Whether a context stands at the same block as another: the coordinates
/// of the block are the same.
pub open spec fn same_block(context: EventContextView, other: EventContextView) -> bool {
    &&& context.block_hash == other.block_hash
    &&& context.block_number == other.block_number
    &&& context.slot == other.slot
    &&& context.timestamp == other.timestamp
}

/// Whether every event stands at the block of a context.
pub open spec fn all_in_block(events: Seq<EventView>, context: EventContextView) -> bool {
    forall|i: int| 0 <= i < events.len() ==> same_block((#[trigger] events[i]).context, context)
}

/// Whether every event stands at the transaction of the given index and
/// hash.
pub open spec fn all_in_transaction(events: Seq<EventView>, index: usize, hash: Seq<char>) -> bool {
    forall|i: int|
        0 <= i < events.len() ==> (#[trigger] events[i]).context.tx_idx == Some(index)
            && events[i].context.tx_hash == Some(hash)
}

/// Events that all stand at a block still do when put in a row.
pub proof fn lemma_all_in_block_add(a: Seq<EventView>, b: Seq<EventView>, context: EventContextView)
    requires
        all_in_block(a, context),
        all_in_block(b, context),
    ensures
        all_in_block(a + b, context),
{
    assert forall|i: int| 0 <= i < (a + b).len() implies same_block(
        (#[trigger] (a + b)[i]).context,
        context,
    ) by {
        if i < a.len() {
            assert((a + b)[i] == a[i]);
        } else {
            assert((a + b)[i] == b[i - a.len()]);
        }
    }
}

/// Context inheritance across a block of the legacy eras: every event of
/// the walk over the transaction at `index`, at whatever depth, carries
/// that index and the hash of that transaction, and the block coordinates
/// of the context that the block is walked under.
pub proof fn lemma_shelley_tx_position(
    context: EventContextView,
    config: Config,
    block: shelley::MintedBlock,
    index: int,
)
    requires
        0 <= index < block.transaction_bodies.len(),
    ensures
        all_in_transaction(
            crate::mapper::shelley::shelley_tx_walk(context, config, block, index).events,
            index as usize,
            crate::mapper::shelley::tx_hash_text(block.transaction_bodies@[index]),
        ),
        all_in_block(
            crate::mapper::shelley::shelley_tx_walk(context, config, block, index).events,
            context,
        ),
{
    let body = block.transaction_bodies@[index];
    let hash = crate::mapper::shelley::tx_hash_text(body);
    let inner = context.child(crate::mapper::crawl::at_transaction(index as usize, hash));
    lemma_transaction_events_keep_position(
        inner,
        config,
        body,
        hash,
        crate::mapper::shelley::aux_data_at(block.auxiliary_data_set@, index),
        crate::mapper::shelley::section_at(block.transaction_witness_sets@, index),
    );
}

/// Context inheritance across a block of the later eras: every event of
/// the walk over the transaction at `index`, at whatever depth, carries
/// that index and the hash of that transaction, and the block coordinates
/// of the context that the block is walked under.
pub proof fn lemma_babbage_tx_position(
    context: EventContextView,
    config: Config,
    block: babbage::MintedBlock,
    index: int,
)
    requires
        0 <= index < block.transaction_bodies.len(),
    ensures
        all_in_transaction(
            crate::mapper::babbage::babbage_tx_walk(context, config, block, index).events,
            index as usize,
            crate::mapper::shelley::tx_hash_text(block.transaction_bodies@[index]),
        ),
        all_in_block(
            crate::mapper::babbage::babbage_tx_walk(context, config, block, index).events,
            context,
        ),
{
    let body = block.transaction_bodies@[index];
    let hash = crate::mapper::shelley::tx_hash_text(body);
    let inner = context.child(crate::mapper::crawl::at_transaction(index as usize, hash));
    lemma_babbage_transaction_events_keep_position(
        inner,
        config,
        body,
        hash,
        crate::mapper::shelley::aux_data_at(block.auxiliary_data_set@, index),
        crate::mapper::shelley::section_at(block.transaction_witness_sets@, index),
    );
}

/// Every event of the walk over the first transactions of a block of the
/// legacy eras carries the block coordinates of the walk's context.
pub proof fn lemma_shelley_txs_in_block(
    context: EventContextView,
    config: Config,
    block: shelley::MintedBlock,
    n: nat,
)
    ensures
        all_in_block(
            crate::mapper::shelley::shelley_txs_walk(context, config, block, n).events,
            context,
        ),
    decreases n,
{
    if n == 0 || n > block.transaction_bodies.len() {
    } else {
        lemma_shelley_txs_in_block(context, config, block, (n - 1) as nat);
        lemma_shelley_tx_position(context, config, block, n - 1);
        lemma_all_in_block_add(
            crate::mapper::shelley::shelley_txs_walk(context, config, block, (n - 1) as nat).events,
            crate::mapper::shelley::shelley_tx_walk(context, config, block, n - 1).events,
            context,
        );
    }
}

/// Every event of the walk over the first transactions of a block of the
/// later eras carries the block coordinates of the walk's context.
pub proof fn lemma_babbage_txs_in_block(
    context: EventContextView,
    config: Config,
    block: babbage::MintedBlock,
    n: nat,
)
    ensures
        all_in_block(
            crate::mapper::babbage::babbage_txs_walk(context, config, block, n).events,
            context,
        ),
    decreases n,
{
    if n == 0 || n > block.transaction_bodies.len() {
    } else {
        lemma_babbage_txs_in_block(context, config, block, (n - 1) as nat);
        lemma_babbage_tx_position(context, config, block, n - 1);
        lemma_all_in_block_add(
            crate::mapper::babbage::babbage_txs_walk(context, config, block, (n - 1) as nat).events,
            crate::mapper::babbage::babbage_tx_walk(context, config, block, n - 1).events,
            context,
        );
    }
}

/// Every event of the walk over a decoded block of the legacy eras, at
/// whatever depth, carries the number and the slot of the block and the
/// hash of its header.
pub proof fn lemma_shelley_walk_in_block(
    context: EventContextView,
    config: Config,
    time: Option<SlotTime>,
    block: shelley::MintedBlock,
    cbor: Seq<u8>,
    era: Era,
)
    ensures
        forall|i: int|
            0 <= i < crate::mapper::shelley::shelley_walk(
                context,
                config,
                time,
                block,
                cbor,
                era,
            ).events.len() ==> {
                let event = #[trigger] crate::mapper::shelley::shelley_walk(
                    context,
                    config,
                    time,
                    block,
                    cbor,
                    era,
                ).events[i];
                &&& event.context.block_number == Some(block.header.value.header_body.block_number)
                &&& event.context.slot == Some(block.header.value.header_body.slot)
                &&& event.context.block_hash == Some(
                    crate::text::hex_string(
                        crate::collaborators::blake2b_256(block.header.raw_cbor@),
                    ),
                )
            },
{
    let inner = context.child(crate::mapper::shelley::block_coordinates(time, block.header));
    let hash = crate::collaborators::blake2b_256(block.header.raw_cbor@);
    let n = block.transaction_bodies.len() as nat;
    lemma_shelley_txs_in_block(inner, config, block, n);
    match block_record(config, time, block, hash, cbor, era) {
        Err(_) => {},
        Ok(record) => {
            let w0 = seq![
                crate::mapper::event_of(inner, crate::model::EventDataView::Block(record)),
            ];
            let txs = crate::mapper::shelley::shelley_txs_walk(inner, config, block, n);
            let end = crate::mapper::shelley::block_end_events(inner, config, record);
            lemma_all_in_block_add(w0, txs.events, inner);
            lemma_all_in_block_add(w0 + txs.events, end, inner);
        },
    }
    let walk = crate::mapper::shelley::shelley_walk(context, config, time, block, cbor, era);
    assert(all_in_block(walk.events, inner));
    assert forall|i: int| 0 <= i < walk.events.len() implies {
        let event = #[trigger] walk.events[i];
        &&& event.context.block_number == Some(block.header.value.header_body.block_number)
        &&& event.context.slot == Some(block.header.value.header_body.slot)
        &&& event.context.block_hash == Some(crate::text::hex_string(hash))
    } by {
        assert(same_block(walk.events[i].context, inner));
    }
}

/// Every event of the walk over a decoded block of the later eras, at
/// whatever depth, carries the number and the slot of the block and the
/// hash of its header.
pub proof fn lemma_babbage_walk_in_block(
    context: EventContextView,
    config: Config,
    time: Option<SlotTime>,
    block: babbage::MintedBlock,
    cbor: Seq<u8>,
)
    ensures
        forall|i: int|
            0 <= i < crate::mapper::babbage::babbage_walk(
                context,
                config,
                time,
                block,
                cbor,
            ).events.len() ==> {
                let event = #[trigger] crate::mapper::babbage::babbage_walk(
                    context,
                    config,
                    time,
                    block,
                    cbor,
                ).events[i];
                &&& event.context.block_number == Some(block.header.value.header_body.block_number)
                &&& event.context.slot == Some(block.header.value.header_body.slot)
                &&& event.context.block_hash == Some(
                    crate::text::hex_string(
                        crate::collaborators::blake2b_256(block.header.raw_cbor@),
                    ),
                )
            },
{
    let inner = context.child(crate::mapper::shelley::block_coordinates(time, block.header));
    let hash = crate::collaborators::blake2b_256(block.header.raw_cbor@);
    let n = block.transaction_bodies.len() as nat;
    lemma_babbage_txs_in_block(inner, config, block, n);
    match babbage_block_record(config, time, block, hash, cbor) {
        Err(_) => {},
        Ok(record) => {
            let w0 = seq![
                crate::mapper::event_of(inner, crate::model::EventDataView::Block(record)),
            ];
            let txs = crate::mapper::babbage::babbage_txs_walk(inner, config, block, n);
            let end = crate::mapper::shelley::block_end_events(inner, config, record);
            lemma_all_in_block_add(w0, txs.events, inner);
            lemma_all_in_block_add(w0 + txs.events, end, inner);
        },
    }
    let walk = crate::mapper::babbage::babbage_walk(context, config, time, block, cbor);
    assert(all_in_block(walk.events, inner));
    assert forall|i: int| 0 <= i < walk.events.len() implies {
        let event = #[trigger] walk.events[i];
        &&& event.context.block_number == Some(block.header.value.header_body.block_number)
        &&& event.context.slot == Some(block.header.value.header_body.slot)
        &&& event.context.block_hash == Some(crate::text::hex_string(hash))
    } by {
        assert(same_block(walk.events[i].context, inner));
    }
}

/// Each switch of a block record acts alone: where a block of the legacy
/// eras is converted, its record carries the original encoding exactly
/// with `include_block_cbor` and the transactions exactly with
/// `include_block_details`, whatever the other switches say; and the
/// other fields are those of the same block with every switch off.
pub proof fn lemma_block_switches(
    config: Config,
    time: Option<SlotTime>,
    source: shelley::MintedBlock,
    hash: Seq<u8>,
    cbor: Seq<u8>,
    era: Era,
)
    requires
        block_record(config, time, source, hash, cbor, era) is Ok,
    ensures
        ({
            let record = block_record(config, time, source, hash, cbor, era)->Ok_0;
            let plain = crate::mapper::shelley::block_record_of(
                Config {
                    include_block_end_events: false,
                    include_transaction_details: false,
                    include_transaction_end_events: false,
                    include_block_details: false,
                    include_block_cbor: false,
                },
                time,
                source.header.value,
                source.transaction_bodies.len(),
                hash,
                cbor,
                era,
                None,
            );
            &&& record.cbor_hex is Some <==> config.include_block_cbor
            &&& record.transactions is Some <==> config.include_block_details
            &&& record == (crate::model::BlockRecordView {
                cbor_hex: record.cbor_hex,
                transactions: record.transactions,
                ..plain
            })
        }),
{
}

/// The switch of the details of a transaction acts alone: where a
/// transaction of the legacy eras is converted, its record carries the
/// lists of inputs and outputs exactly with `include_transaction_details`,
/// and its counts, total, fee, hash and size are the same with and without.
pub proof fn lemma_transaction_switches(
    config: Config,
    other: Config,
    body: KeepRaw<shelley::TransactionBody>,
    tx_hash: Seq<char>,
    aux_data: Option<KeepRaw<AuxiliaryData>>,
    witness_set: Option<KeepRaw<shelley::MintedWitnessSet>>,
)
    requires
        transaction_record(config, body, tx_hash, aux_data, witness_set) is Ok,
        transaction_record(other, body, tx_hash, aux_data, witness_set) is Ok,
    ensures
        ({
            let record = transaction_record(config, body, tx_hash, aux_data, witness_set)->Ok_0;
            let twin = transaction_record(other, body, tx_hash, aux_data, witness_set)->Ok_0;
            &&& record.outputs is Some <==> config.include_transaction_details
            &&& record.inputs is Some <==> config.include_transaction_details
            &&& record.hash == twin.hash
            &&& record.fee == twin.fee
            &&& record.size == twin.size
            &&& record.input_count == twin.input_count
            &&& record.output_count == twin.output_count
            &&& record.total_output == twin.total_output
            &&& record.mint_count == twin.mint_count
            &&& record.certificate_count == twin.certificate_count
            &&& record.required_signers_count == twin.required_signers_count
        }),
{
}

/// Whether a context carries no coordinate from below the transaction.
pub open spec fn at_transaction_level(context: EventContextView) -> bool {
    &&& context.input_idx is None
    &&& context.output_idx is None
    &&& context.output_address is None
    &&& context.certificate_idx is None
}

/// Whether a context carries no coordinate from below the block.
pub open spec fn at_block_level(context: EventContextView) -> bool {
    &&& context.tx_idx is None
    &&& context.tx_hash is None
    &&& at_transaction_level(context)
}

/// Whether an event is about a certificate.
pub open spec fn is_certificate_data(data: crate::model::EventDataView) -> bool {
    ||| data is StakeRegistration
    ||| data is StakeDeregistration
    ||| data is StakeDelegation
    ||| data is PoolRegistration
    ||| data is PoolRetirement
    ||| data is GenesisKeyDelegation
    ||| data is MoveInstantaneousRewardsCert
    ||| data is RegCert
    ||| data is UnRegCert
    ||| data is VoteDeleg
    ||| data is StakeVoteDeleg
    ||| data is StakeRegDeleg
    ||| data is VoteRegDeleg
    ||| data is StakeVoteRegDeleg
    ||| data is AuthCommitteeHot
    ||| data is ResignCommitteeCold
    ||| data is RegDRepCert
    ||| data is UnRegDRepCert
    ||| data is UpdateDRepCert
}

/// Whether an event carries the coordinates of its own depth and none of
/// another: an input the index of the input, an output the index of the
/// output, what is nested in an output the index and the address of the
/// output, a certificate the index of the certificate, and every other
/// event, that of a block or a transaction among them, none of these.
pub open spec fn fits_depth(event: EventView) -> bool {
    let c = event.context;
    if event.data is TxInput {
        c.input_idx is Some && c.output_idx is None && c.output_address is None
            && c.certificate_idx is None
    } else if event.data is TxOutput {
        c.output_idx is Some && c.input_idx is None && c.output_address is None
            && c.certificate_idx is None
    } else if event.data is OutputAsset {
        c.output_idx is Some && c.output_address is Some && c.input_idx is None
            && c.certificate_idx is None
    } else if event.data is PlutusDatum {
        c.input_idx is None && c.certificate_idx is None && (c.output_idx is Some
            <==> c.output_address is Some)
    } else if is_certificate_data(event.data) {
        c.certificate_idx is Some && c.input_idx is None && c.output_idx is None
            && c.output_address is None
    } else {
        at_transaction_level(c)
    }
}

/// Whether every event carries the coordinates of its own depth.
pub open spec fn all_fit(events: Seq<EventView>) -> bool {
    forall|i: int| 0 <= i < events.len() ==> fits_depth(#[trigger] events[i])
}

/// Events that all fit their depth still do when put in a row.
pub proof fn lemma_all_fit_add(a: Seq<EventView>, b: Seq<EventView>)
    requires
        all_fit(a),
        all_fit(b),
    ensures
        all_fit(a + b),
{
    assert forall|i: int| 0 <= i < (a + b).len() implies fits_depth(#[trigger] (a + b)[i]) by {
        if i < a.len() {
            assert((a + b)[i] == a[i]);
        } else {
            assert((a + b)[i] == b[i - a.len()]);
        }
    }
}

/// Two walks in a row whose events fit their depth emit events that do.
pub proof fn lemma_all_fit_followed_by(first: Walk, second: Walk)
    requires
        all_fit(first.events),
        all_fit(second.events),
    ensures
        all_fit(first.followed_by(second).events),
{
    lemma_all_fit_add(first.events, second.events);
}

/// The event of a certificate is about a certificate.
pub proof fn lemma_certificate_event_kind(certificate: crate::decoded::Certificate)
    ensures
        is_certificate_data(crate::mapper::certificates::certificate_event(certificate)),
{
    reveal(crate::mapper::certificates::certificate_event);
}

/// The events of the certificates of a transaction fit their depth.
pub proof fn lemma_certificates_fit(
    context: EventContextView,
    certificates: Option<Vec<crate::decoded::Certificate>>,
)
    requires
        at_transaction_level(context),
    ensures
        all_fit(certificate_events(context, certificates)),
{
    match certificates {
        Some(certs) => {
            let events = certificate_events(context, certificates);
            assert forall|i: int| 0 <= i < events.len() implies fits_depth(#[trigger] events[i]) by {
                lemma_certificate_event_kind(certs@[i]);
            }
        },
        None => {},
    }
}

/// The events of a walk over outputs of the legacy format fit their depth.
pub proof fn lemma_legacy_outputs_fit(
    context: EventContextView,
    outputs: Seq<TransactionOutput>,
    n: nat,
)
    requires
        at_transaction_level(context),
    ensures
        all_fit(legacy_outputs_walk(context, outputs, n).events),
    decreases n,
{
    if n == 0 || n > outputs.len() {
    } else {
        lemma_legacy_outputs_fit(context, outputs, (n - 1) as nat);
        let inner = context.child(crate::mapper::crawl::at_output((n - 1) as usize));
        lemma_all_fit_followed_by(
            legacy_outputs_walk(context, outputs, (n - 1) as nat),
            legacy_output_walk(inner, outputs[n - 1]),
        );
    }
}

/// The events of a walk over outputs of either format fit their depth.
pub proof fn lemma_babbage_outputs_fit(
    context: EventContextView,
    outputs: Seq<babbage::MintedTransactionOutput>,
    n: nat,
)
    requires
        at_transaction_level(context),
    ensures
        all_fit(babbage_outputs_walk(context, outputs, n).events),
    decreases n,
{
    if n == 0 || n > outputs.len() {
    } else {
        lemma_babbage_outputs_fit(context, outputs, (n - 1) as nat);
        let inner = context.child(crate::mapper::crawl::at_output((n - 1) as usize));
        lemma_all_fit_followed_by(
            babbage_outputs_walk(context, outputs, (n - 1) as nat),
            babbage_output_walk(inner, outputs[n - 1]),
        );
    }
}

/// The events of a walk over metadata fit their depth.
pub proof fn lemma_metadata_fit(
    context: EventContextView,
    entries: Seq<(u64, crate::decoded::Metadatum)>,
    n: nat,
)
    requires
        at_transaction_level(context),
    ensures
        all_fit(metadata_walk(context, entries, n).events),
    decreases n,
{
    if n == 0 || n > entries.len() {
    } else {
        lemma_metadata_fit(context, entries, (n - 1) as nat);
        let step = match crate::mapper::metadata::metadata_record(
            entries[n - 1].0,
            entries[n - 1].1,
        ) {
            Ok(record) => Walk::complete(
                seq![
                    crate::mapper::event_of(
                        context,
                        crate::model::EventDataView::Metadata(record),
                    ),
                ],
            ),
            Err(e) => Walk::failed(e),
        };
        lemma_all_fit_followed_by(metadata_walk(context, entries, (n - 1) as nat), step);
    }
}

/// The events of a walk over auxiliary data fit their depth.
pub proof fn lemma_auxdata_fit(context: EventContextView, aux_data: Option<KeepRaw<AuxiliaryData>>)
    requires
        at_transaction_level(context),
    ensures
        all_fit(optional_auxdata_walk(context, aux_data).events),
{
    match aux_data {
        Some(aux) => {
            match metadata_of(aux.value) {
                Some(entries) => lemma_metadata_fit(context, entries@, entries.len() as nat),
                None => {},
            }
            let metadata = aux_metadata_walk(context, aux.value);
            let native = Walk::complete(
                aux_native_script_events(context, aux_native_scripts(aux.value)),
            );
            let plutus = Walk::complete(
                aux_plutus_script_events(context, aux_plutus_scripts(aux.value)),
            );
            lemma_all_fit_followed_by(metadata, native);
            lemma_all_fit_followed_by(metadata.followed_by(native), plutus);
        },
        None => {},
    }
}

/// The events of the lists of a witness set fit their depth.
pub proof fn lemma_witness_lists_fit(
    context: EventContextView,
    vkeywitness: Option<Vec<crate::decoded::VKeyWitness>>,
    native_script: Option<Vec<pallas::ledger::primitives::alonzo::NativeScript>>,
    plutus_script: Option<Vec<crate::decoded::PlutusScript<1>>>,
    redeemer: Option<Vec<crate::decoded::Redeemer>>,
    plutus_data: Option<Vec<KeepRaw<pallas::ledger::primitives::alonzo::PlutusData>>>,
)
    requires
        at_transaction_level(context),
    ensures
        all_fit(
            witness_events(
                context,
                vkeywitness,
                native_script,
                plutus_script,
                redeemer,
                plutus_data,
            ),
        ),
{
    let a = vkey_witness_events(context, vkeywitness);
    let b = native_witness_events(context, native_script);
    let c = plutus_witness_events(context, plutus_script);
    let d = redeemer_events(context, redeemer);
    let e = datum_events(context, plutus_data);
    lemma_all_fit_add(a, b);
    lemma_all_fit_add(a + b, c);
    lemma_all_fit_add(a + b + c, d);
    lemma_all_fit_add(a + b + c + d, e);
}

/// Every event of the walk over a transaction of the legacy eras carries
/// the coordinates of its own depth and none of another, as long as the
/// walk starts under a context without coordinates from below the
/// transaction.
pub proof fn lemma_transaction_events_fit_depth(
    context: EventContextView,
    config: Config,
    body: KeepRaw<shelley::TransactionBody>,
    tx_hash: Seq<char>,
    aux_data: Option<KeepRaw<AuxiliaryData>>,
    witness_set: Option<KeepRaw<shelley::MintedWitnessSet>>,
)
    requires
        at_transaction_level(context),
    ensures
        all_fit(transaction_walk(context, config, body, tx_hash, aux_data, witness_set).events),
{
    match transaction_record(config, body, tx_hash, aux_data, witness_set) {
        Err(_) => {},
        Ok(record) => {
            let tx = body.value;
            let w0 = Walk::complete(
                seq![
                    crate::mapper::event_of(
                        context,
                        crate::model::EventDataView::Transaction(record),
                    ),
                ],
            );
            let s1 = Walk::complete(input_events(context, tx.inputs@));
            let s2 = legacy_outputs_walk(context, tx.outputs@, tx.outputs.len() as nat);
            let s3 = Walk::complete(certificate_events(context, tx.certificates));
            let s4 = Walk::complete(collateral_events(context, tx.collateral));
            let s5 = Walk::complete(mint_events(context, tx.mint));
            let s6 = optional_auxdata_walk(context, aux_data);
            let s7 = Walk::complete(optional_witness_events(context, witness_set));
            let s8 = Walk::complete(transaction_end_events(context, config, record));
            lemma_legacy_outputs_fit(context, tx.outputs@, tx.outputs.len() as nat);
            lemma_certificates_fit(context, tx.certificates);
            lemma_auxdata_fit(context, aux_data);
            match witness_set {
                Some(w) => {
                    lemma_witness_lists_fit(
                        context,
                        w.value.vkeywitness,
                        w.value.native_script,
                        w.value.plutus_script,
                        w.value.redeemer,
                        w.value.plutus_data,
                    );
                },
                None => {},
            }
            let w1 = w0.followed_by(s1);
            lemma_all_fit_followed_by(w0, s1);
            let w2 = w1.followed_by(s2);
            lemma_all_fit_followed_by(w1, s2);
            let w3 = w2.followed_by(s3);
            lemma_all_fit_followed_by(w2, s3);
            let w4 = w3.followed_by(s4);
            lemma_all_fit_followed_by(w3, s4);
            let w5 = w4.followed_by(s5);
            lemma_all_fit_followed_by(w4, s5);
            let w6 = w5.followed_by(s6);
            lemma_all_fit_followed_by(w5, s6);
            let w7 = w6.followed_by(s7);
            lemma_all_fit_followed_by(w6, s7);
            lemma_all_fit_followed_by(w7, s8);
        },
    }
}

/// The events of the lists of a witness set of the later eras fit their
/// depth.
pub proof fn lemma_babbage_witness_fit(
    context: EventContextView,
    witness_set: Option<KeepRaw<babbage::MintedWitnessSet>>,
)
    requires
        at_transaction_level(context),
    ensures
        all_fit(babbage_witness_events(context, witness_set)),
{
    match witness_set {
        Some(w) => {
            let a = vkey_witness_events(context, w.value.vkeywitness);
            let b = native_witness_events(context, w.value.native_script);
            let c = plutus_witness_events(context, w.value.plutus_v1_script);
            let d = plutus_v2_witness_events(context, w.value.plutus_v2_script);
            let e = redeemer_events(context, w.value.redeemer);
            let f = datum_events(context, w.value.plutus_data);
            lemma_all_fit_add(a, b);
            lemma_all_fit_add(a + b, c);
            lemma_all_fit_add(a + b + c, d);
            lemma_all_fit_add(a + b + c + d, e);
            lemma_all_fit_add(a + b + c + d + e, f);
        },
        None => {},
    }
}

/// Every event of the walk over a transaction of the later eras carries
/// the coordinates of its own depth and none of another, as long as the
/// walk starts under a context without coordinates from below the
/// transaction.
pub proof fn lemma_babbage_transaction_events_fit_depth(
    context: EventContextView,
    config: Config,
    body: KeepRaw<babbage::MintedTransactionBody>,
    tx_hash: Seq<char>,
    aux_data: Option<KeepRaw<AuxiliaryData>>,
    witness_set: Option<KeepRaw<babbage::MintedWitnessSet>>,
)
    requires
        at_transaction_level(context),
    ensures
        all_fit(
            babbage_transaction_walk(context, config, body, tx_hash, aux_data, witness_set).events,
        ),
{
    match babbage_transaction_record(config, body, tx_hash, aux_data, witness_set) {
        Err(_) => {},
        Ok(record) => {
            let tx = body.value;
            let w0 = Walk::complete(
                seq![
                    crate::mapper::event_of(
                        context,
                        crate::model::EventDataView::Transaction(record),
                    ),
                ],
            );
            let s1 = Walk::complete(input_events(context, tx.inputs@));
            let s2 = babbage_outputs_walk(context, tx.outputs@, tx.outputs.len() as nat);
            let s3 = Walk::complete(certificate_events(context, tx.certificates));
            let s4 = Walk::complete(collateral_events(context, tx.collateral));
            let s5 = Walk::complete(mint_events(context, tx.mint));
            let s6 = optional_auxdata_walk(context, aux_data);
            let s7 = Walk::complete(babbage_witness_events(context, witness_set));
            let s8 = Walk::complete(transaction_end_events(context, config, record));
            lemma_babbage_outputs_fit(context, tx.outputs@, tx.outputs.len() as nat);
            lemma_certificates_fit(context, tx.certificates);
            lemma_auxdata_fit(context, aux_data);
            lemma_babbage_witness_fit(context, witness_set);
            let w1 = w0.followed_by(s1);
            lemma_all_fit_followed_by(w0, s1);
            let w2 = w1.followed_by(s2);
            lemma_all_fit_followed_by(w1, s2);
            let w3 = w2.followed_by(s3);
            lemma_all_fit_followed_by(w2, s3);
            let w4 = w3.followed_by(s4);
            lemma_all_fit_followed_by(w3, s4);
            let w5 = w4.followed_by(s5);
            lemma_all_fit_followed_by(w4, s5);
            let w6 = w5.followed_by(s6);
            lemma_all_fit_followed_by(w5, s6);
            let w7 = w6.followed_by(s7);
            lemma_all_fit_followed_by(w6, s7);
            lemma_all_fit_followed_by(w7, s8);
        },
    }
}

/// The events of the walk over the first transactions of a block of the
/// legacy eras fit their depth.
pub proof fn lemma_shelley_txs_fit(
    context: EventContextView,
    config: Config,
    block: shelley::MintedBlock,
    n: nat,
)
    requires
        at_transaction_level(context),
    ensures
        all_fit(crate::mapper::shelley::shelley_txs_walk(context, config, block, n).events),
    decreases n,
{
    if n == 0 || n > block.transaction_bodies.len() {
    } else {
        lemma_shelley_txs_fit(context, config, block, (n - 1) as nat);
        let body = block.transaction_bodies@[n - 1];
        let hash = crate::mapper::shelley::tx_hash_text(body);
        let inner = context.child(crate::mapper::crawl::at_transaction((n - 1) as usize, hash));
        lemma_transaction_events_fit_depth(
            inner,
            config,
            body,
            hash,
            crate::mapper::shelley::aux_data_at(block.auxiliary_data_set@, n - 1),
            crate::mapper::shelley::section_at(block.transaction_witness_sets@, n - 1),
        );
        lemma_all_fit_add(
            crate::mapper::shelley::shelley_txs_walk(context, config, block, (n - 1) as nat).events,
            crate::mapper::shelley::shelley_tx_walk(context, config, block, n - 1).events,
        );
    }
}

/// Every event of the walk over a decoded block of the legacy eras carries
/// the coordinates of its own depth and none of a greater depth, as long
/// as the walk starts under a context without coordinates from below the
/// block.
pub proof fn lemma_shelley_walk_fits_depth(
    context: EventContextView,
    config: Config,
    time: Option<SlotTime>,
    block: shelley::MintedBlock,
    cbor: Seq<u8>,
    era: Era,
)
    requires
        at_block_level(context),
    ensures
        all_fit(crate::mapper::shelley::shelley_walk(context, config, time, block, cbor, era).events),
{
    let inner = context.child(crate::mapper::shelley::block_coordinates(time, block.header));
    let hash = crate::collaborators::blake2b_256(block.header.raw_cbor@);
    let n = block.transaction_bodies.len() as nat;
    lemma_shelley_txs_fit(inner, config, block, n);
    match block_record(config, time, block, hash, cbor, era) {
        Err(_) => {},
        Ok(record) => {
            let w0 = seq![
                crate::mapper::event_of(inner, crate::model::EventDataView::Block(record)),
            ];
            let txs = crate::mapper::shelley::shelley_txs_walk(inner, config, block, n);
            let end = crate::mapper::shelley::block_end_events(inner, config, record);
            lemma_all_fit_add(w0, txs.events);
            lemma_all_fit_add(w0 + txs.events, end);
        },
    }
}

/// The events of the walk over the first transactions of a block of the
/// later eras fit their depth.
pub proof fn lemma_babbage_txs_fit(
    context: EventContextView,
    config: Config,
    block: babbage::MintedBlock,
    n: nat,
)
    requires
        at_transaction_level(context),
    ensures
        all_fit(crate::mapper::babbage::babbage_txs_walk(context, config, block, n).events),
    decreases n,
{
    if n == 0 || n > block.transaction_bodies.len() {
    } else {
        lemma_babbage_txs_fit(context, config, block, (n - 1) as nat);
        let body = block.transaction_bodies@[n - 1];
        let hash = crate::mapper::shelley::tx_hash_text(body);
        let inner = context.child(crate::mapper::crawl::at_transaction((n - 1) as usize, hash));
        lemma_babbage_transaction_events_fit_depth(
            inner,
            config,
            body,
            hash,
            crate::mapper::shelley::aux_data_at(block.auxiliary_data_set@, n - 1),
            crate::mapper::shelley::section_at(block.transaction_witness_sets@, n - 1),
        );
        lemma_all_fit_add(
            crate::mapper::babbage::babbage_txs_walk(context, config, block, (n - 1) as nat).events,
            crate::mapper::babbage::babbage_tx_walk(context, config, block, n - 1).events,
        );
    }
}

/// Every event of the walk over a decoded block of the later eras carries
/// the coordinates of its own depth and none of a greater depth, as long
/// as the walk starts under a context without coordinates from below the
/// block.
pub proof fn lemma_babbage_walk_fits_depth(
    context: EventContextView,
    config: Config,
    time: Option<SlotTime>,
    block: babbage::MintedBlock,
    cbor: Seq<u8>,
)
    requires
        at_block_level(context),
    ensures
        all_fit(crate::mapper::babbage::babbage_walk(context, config, time, block, cbor).events),
{
    let inner = context.child(crate::mapper::shelley::block_coordinates(time, block.header));
    let hash = crate::collaborators::blake2b_256(block.header.raw_cbor@);
    let n = block.transaction_bodies.len() as nat;
    lemma_babbage_txs_fit(inner, config, block, n);
    match babbage_block_record(config, time, block, hash, cbor) {
        Err(_) => {},
        Ok(record) => {
            let w0 = seq![
                crate::mapper::event_of(inner, crate::model::EventDataView::Block(record)),
            ];
            let txs = crate::mapper::babbage::babbage_txs_walk(inner, config, block, n);
            let end = crate::mapper::shelley::block_end_events(inner, config, record);
            lemma_all_fit_add(w0, txs.events);
            lemma_all_fit_add(w0 + txs.events, end);
        },
    }
}

} // verus!
