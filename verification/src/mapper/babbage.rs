//! Blocks of the family of eras whose outputs may carry inline data and
//! scripts: the records of a transaction and of a block, and the walk that
//! emits their events.
use crate::collaborators::{blake2b_256, hash_256};
use crate::decoded::babbage::{
    CostMdls, Language, MintedBlock, MintedDatumOption, MintedPostAlonzoTransactionOutput,
    MintedTransactionBody, MintedTransactionOutput, MintedWitnessSet, ProtocolParamUpdate, Update,
};
use crate::decoded::{AuxiliaryData, KeepRaw, NetworkId};
use crate::error::{
    all_ok, lemma_all_ok_failure, lemma_all_ok_step, lemma_all_ok_values, result_view,
    results_view, ConvertError, Failure,
};
use crate::mapper::certificates::hex_strings;
use crate::mapper::collect::{
    any_output_outcomes, any_output_record, any_output_records, certificate_records,
    datum_records, input_records, native_witness_records, plutus_v1_witness_records,
    redeemer_records, vkey_witness_records, withdrawal_records,
};
use crate::mapper::crawl::{
    appended, asset_events, at_address, at_output, at_transaction, certificate_events,
    collateral_events, datum_events, emitted, input_events, legacy_output_walk,
    lemma_appended_twice, lemma_emitted_in_turn, mint_events, native_witness_events,
    plutus_v2_witness_events, plutus_witness_events, redeemer_events, vkey_witness_events, Walk,
};
use crate::mapper::map::{
    datum_record, mint_records, post_alonzo_output_record, value_asset_records,
};
use crate::mapper::params::{
    babbage_cost_models_record, babbage_language_version_record, babbage_protocol_update_record,
    babbage_update_entries, babbage_update_record, execution_costs_to_json,
};
use crate::mapper::shelley::{
    aux_data_at, block_coordinates, block_end_events, block_record_of, detail, detail_metadata,
    find_aux_data, held, network_number, optional_auxdata_walk, recorded_size, section_at,
    size_of_sections, sum_output_amounts, total_output, transaction_end_events, tx_hash_text,
    tx_size,
};
use crate::mapper::{event_of, Config, EventWriter, SlotTime};
use crate::model::{
    cost_model_entries, proposal_views, BlockRecord, BlockRecordView, CostModelRecord,
    CostModelsRecord, Era, Event, EventContext, EventContextView, EventData, EventDataView,
    EventView, LanguageVersionRecord, ProtocolParamUpdateRecord, TransactionRecord,
    TransactionRecordView, TxOutputRecordView, UpdateRecord,
};
use crate::text::{ToHex};
use crate::views::{
    distinct_keys, keyed, lemma_keyed_push, lemma_views_push, opt_view, views,
};
use vstd::prelude::*;

verus! {

/// The record of the output that takes back the collateral, in the details
/// of a transaction: absent without details or without such an output.
pub open spec fn detail_collateral_output(
    wanted: bool,
    collateral_return: Option<MintedTransactionOutput>,
) -> Result<Option<TxOutputRecordView>, Failure> {
    match collateral_return {
        Some(output) if wanted => match any_output_record(output) {
            Ok(record) => Ok(Some(record)),
            Err(e) => Err(e),
        },
        _ => Ok(None),
    }
}

/// The record of a transaction of the later eras whose size, output
/// records and total are given: the counts always, and the details only
/// with `include_transaction_details`. Of the compiled scripts of the
/// witness set the details list those of the first language version only.
/// It fails where the details are asked for and either the address of the
/// output that takes back the collateral is malformed or the metadata
/// cannot be rendered, looked at in this order.
pub open spec fn babbage_transaction_record_of(
    config: Config,
    body: KeepRaw<MintedTransactionBody>,
    tx_hash: Seq<char>,
    aux_data: Option<KeepRaw<AuxiliaryData>>,
    witness_set: Option<KeepRaw<MintedWitnessSet>>,
    size: u32,
    outputs: Seq<TxOutputRecordView>,
    total: u64,
) -> Result<TransactionRecordView, Failure> {
    let details = config.include_transaction_details;
    let tx = body.value;
    match detail_collateral_output(details, tx.collateral_return) {
        Err(e) => Err(e),
        Ok(collateral_output) => match detail_metadata(details, aux_data) {
            Err(e) => Err(e),
            Ok(metadata) => Ok(
                TransactionRecordView {
                    hash: tx_hash,
                    fee: tx.fee,
                    ttl: tx.ttl,
                    validity_interval_start: tx.validity_interval_start,
                    network_id: network_number(tx.network_id),
                    input_count: tx.inputs.len(),
                    collateral_input_count: match tx.collateral {
                        Some(inputs) => inputs.len(),
                        None => 0,
                    },
                    has_collateral_output: tx.collateral_return is Some,
                    output_count: tx.outputs.len(),
                    mint_count: match tx.mint {
                        Some(mint) => mint_records(mint@).len(),
                        None => 0,
                    },
                    certificate_count: match tx.certificates {
                        Some(certs) => certs.len(),
                        None => 0,
                    },
                    total_output: total,
                    required_signers_count: match tx.required_signers {
                        Some(signers) => signers.len(),
                        None => 0,
                    },
                    required_signers: match tx.required_signers {
                        Some(signers) if details => Some(hex_strings(signers@)),
                        _ => None,
                    },
                    update: match tx.update {
                        Some(update) if details => Some(babbage_update_record(update)),
                        _ => None,
                    },
                    metadata,
                    inputs: detail(details, input_records(tx.inputs@)),
                    outputs: detail(details, outputs),
                    collateral_inputs: match tx.collateral {
                        Some(inputs) if details => Some(input_records(inputs@)),
                        _ => None,
                    },
                    collateral_output,
                    certs: match tx.certificates {
                        Some(certs) if details => Some(certificate_records(certs@)),
                        _ => None,
                    },
                    mint: match tx.mint {
                        Some(mint) if details => Some(mint_records(mint@)),
                        _ => None,
                    },
                    vkey_witnesses: match witness_set {
                        Some(w) if details => Some(vkey_witness_records(w.value.vkeywitness)),
                        _ => None,
                    },
                    native_witnesses: match witness_set {
                        Some(w) if details => Some(
                            native_witness_records(w.value.native_script),
                        ),
                        _ => None,
                    },
                    plutus_witnesses: match witness_set {
                        Some(w) if details => Some(
                            plutus_v1_witness_records(w.value.plutus_v1_script),
                        ),
                        _ => None,
                    },
                    plutus_redeemers: match witness_set {
                        Some(w) if details => Some(redeemer_records(w.value.redeemer)),
                        _ => None,
                    },
                    plutus_data: match witness_set {
                        Some(w) if details => Some(datum_records(w.value.plutus_data)),
                        _ => None,
                    },
                    withdrawals: match tx.withdrawals {
                        Some(withdrawals) if details => Some(withdrawal_records(withdrawals@)),
                        _ => None,
                    },
                    size,
                },
            ),
        },
    }
}

/// The record of a transaction of the later eras.
///
/// The hash is the one given. The size is the exact sum of the lengths of
/// the original encodings, and the total is the exact sum of the coin of
/// the outputs. The counts are always there; the details are there only
/// with `include_transaction_details`. Of the compiled scripts of the
/// witness set the details list those of the first language version only,
/// while the walk emits an event for each script of either version. The
/// conversion fails, and what is looked at first decides how: where the
/// size does not fit its 32 bits; where an output's address is malformed;
/// where the total does not fit its 64 bits; where the details are asked
/// for and the address of the output that takes back the collateral is
/// malformed; where the details are asked for and the metadata cannot be
/// rendered.
pub open spec fn babbage_transaction_record(
    config: Config,
    body: KeepRaw<MintedTransactionBody>,
    tx_hash: Seq<char>,
    aux_data: Option<KeepRaw<AuxiliaryData>>,
    witness_set: Option<KeepRaw<MintedWitnessSet>>,
) -> Result<TransactionRecordView, Failure> {
    match recorded_size(tx_size(body, aux_data, witness_set)) {
        Err(e) => Err(e),
        Ok(size) => match any_output_records(body.value.outputs@) {
            Err(e) => Err(e),
            Ok(outputs) => match total_output(outputs) {
                Err(e) => Err(e),
                Ok(total) => babbage_transaction_record_of(
                    config,
                    body,
                    tx_hash,
                    aux_data,
                    witness_set,
                    size,
                    outputs,
                    total,
                ),
            },
        },
    }
}

/// The outcome of converting the transaction at `index` of a block.
pub open spec fn babbage_tx_outcome(config: Config, block: MintedBlock, index: int) -> Result<
    TransactionRecordView,
    Failure,
> {
    babbage_transaction_record(
        config,
        block.transaction_bodies@[index],
        tx_hash_text(block.transaction_bodies@[index]),
        aux_data_at(block.auxiliary_data_set@, index),
        section_at(block.transaction_witness_sets@, index),
    )
}

/// The outcome of converting each transaction of a block.
pub open spec fn babbage_tx_outcomes(config: Config, block: MintedBlock) -> Seq<
    Result<TransactionRecordView, Failure>,
> {
    Seq::new(
        block.transaction_bodies.len() as nat,
        |i: int| babbage_tx_outcome(config, block, i),
    )
}

/// The records of the transactions of a block, or the first failure.
pub open spec fn babbage_tx_records(config: Config, block: MintedBlock) -> Result<
    Seq<TransactionRecordView>,
    Failure,
> {
    all_ok(babbage_tx_outcomes(config, block))
}

/// The record of a block of the later eras, whose era is fixed.
///
/// The hash is the one given. The original encoding is there only with
/// `include_block_cbor`, and the transactions only with
/// `include_block_details`; the conversion then fails where the conversion
/// of a transaction fails. The previous hash of a first block is empty.
pub open spec fn babbage_block_record(
    config: Config,
    time: Option<SlotTime>,
    source: MintedBlock,
    hash: Seq<u8>,
    cbor: Seq<u8>,
) -> Result<BlockRecordView, Failure> {
    if config.include_block_details {
        match babbage_tx_records(config, source) {
            Ok(transactions) => Ok(
                block_record_of(
                    config,
                    time,
                    source.header.value,
                    source.transaction_bodies.len(),
                    hash,
                    cbor,
                    Era::Babbage,
                    Some(transactions),
                ),
            ),
            Err(e) => Err(e),
        }
    } else {
        Ok(
            block_record_of(
                config,
                time,
                source.header.value,
                source.transaction_bodies.len(),
                hash,
                cbor,
                Era::Babbage,
                None,
            ),
        )
    }
}

/// The event of the data that an output carries inline, if it carries any.
pub open spec fn inline_datum_events(
    context: EventContextView,
    output: MintedPostAlonzoTransactionOutput,
) -> Seq<EventView> {
    match output.datum_option {
        Some(MintedDatumOption::Data(datum)) => seq![
            event_of(context, EventDataView::PlutusDatum(datum_record(datum))),
        ],
        _ => Seq::empty(),
    }
}

/// The walk over an output of the later format: the event of the output;
/// then, under the output's address, the data it carries inline, if any,
/// and one event for each of its assets. A malformed address fails the
/// walk before anything is emitted.
pub open spec fn post_alonzo_output_walk(
    context: EventContextView,
    output: MintedPostAlonzoTransactionOutput,
) -> Walk {
    match post_alonzo_output_record(output) {
        Err(e) => Walk::failed(e),
        Ok(record) => Walk::complete(
            seq![event_of(context, EventDataView::TxOutput(record))] + inline_datum_events(
                context.child(at_address(record.address)),
                output,
            ) + asset_events(
                context.child(at_address(record.address)),
                value_asset_records(output.value),
            ),
        ),
    }
}

/// The walk over an output in either format.
pub open spec fn babbage_output_walk(
    context: EventContextView,
    output: MintedTransactionOutput,
) -> Walk {
    match output {
        MintedTransactionOutput::Legacy(x) => legacy_output_walk(context, x),
        MintedTransactionOutput::PostAlonzo(x) => post_alonzo_output_walk(context, x),
    }
}

/// The walk over the first `n` outputs, each under the coordinate of its
/// output.
pub open spec fn babbage_outputs_walk(
    context: EventContextView,
    outputs: Seq<MintedTransactionOutput>,
    n: nat,
) -> Walk
    decreases n,
{
    if n == 0 || n > outputs.len() {
        Walk::complete(Seq::empty())
    } else {
        babbage_outputs_walk(context, outputs, (n - 1) as nat).followed_by(
            babbage_output_walk(context.child(at_output((n - 1) as usize)), outputs[n - 1]),
        )
    }
}

/// A failure among the first outputs is the failure of the walk over more
/// of them, which emits no more.
pub proof fn lemma_babbage_outputs_failure(
    context: EventContextView,
    outputs: Seq<MintedTransactionOutput>,
    n: nat,
    m: nat,
)
    requires
        n <= m <= outputs.len(),
        babbage_outputs_walk(context, outputs, n).failure is Some,
    ensures
        babbage_outputs_walk(context, outputs, m) == babbage_outputs_walk(context, outputs, n),
    decreases m - n,
{
    if n < m {
        lemma_babbage_outputs_failure(context, outputs, n, (m - 1) as nat);
    }
}

/// The events of the witness set of a transaction, if it has one: the
/// signatures, the native scripts, the compiled scripts of the first and
/// then of the second language version, the redeemers and the data, each
/// list in its order.
pub open spec fn babbage_witness_events(
    context: EventContextView,
    witness_set: Option<KeepRaw<MintedWitnessSet>>,
) -> Seq<EventView> {
    match witness_set {
        Some(w) => vkey_witness_events(context, w.value.vkeywitness) + native_witness_events(
            context,
            w.value.native_script,
        ) + plutus_witness_events(context, w.value.plutus_v1_script) + plutus_v2_witness_events(
            context,
            w.value.plutus_v2_script,
        ) + redeemer_events(context, w.value.redeemer) + datum_events(
            context,
            w.value.plutus_data,
        ),
        None => Seq::empty(),
    }
}

/// The walk over a transaction of the later eras.
///
/// Where the record of the transaction cannot be made, the walk fails
/// before it emits anything. Else it emits, in this order: the
/// transaction; each input; each output, followed by its inline data and
/// its assets; each certificate; each collateral input; each minted asset;
/// the metadata and scripts of the auxiliary data; the lists of the witness
/// set; and, where asked for, the end of the transaction, with the same
/// record as its beginning.
pub open spec fn babbage_transaction_walk(
    context: EventContextView,
    config: Config,
    body: KeepRaw<MintedTransactionBody>,
    tx_hash: Seq<char>,
    aux_data: Option<KeepRaw<AuxiliaryData>>,
    witness_set: Option<KeepRaw<MintedWitnessSet>>,
) -> Walk {
    match babbage_transaction_record(config, body, tx_hash, aux_data, witness_set) {
        Err(e) => Walk::failed(e),
        Ok(record) => Walk::complete(
            seq![event_of(context, EventDataView::Transaction(record))],
        ).and_emit(input_events(context, body.value.inputs@)).followed_by(
            babbage_outputs_walk(context, body.value.outputs@, body.value.outputs.len() as nat),
        ).and_emit(certificate_events(context, body.value.certificates)).and_emit(
            collateral_events(context, body.value.collateral),
        ).and_emit(mint_events(context, body.value.mint)).followed_by(
            optional_auxdata_walk(context, aux_data),
        ).and_emit(babbage_witness_events(context, witness_set)).and_emit(
            transaction_end_events(context, config, record),
        ),
    }
}

/// The walk over the transaction at `index` of a block, under the
/// coordinates of that transaction.
pub open spec fn babbage_tx_walk(
    context: EventContextView,
    config: Config,
    block: MintedBlock,
    index: int,
) -> Walk {
    babbage_transaction_walk(
        context.child(
            at_transaction(index as usize, tx_hash_text(block.transaction_bodies@[index])),
        ),
        config,
        block.transaction_bodies@[index],
        tx_hash_text(block.transaction_bodies@[index]),
        aux_data_at(block.auxiliary_data_set@, index),
        section_at(block.transaction_witness_sets@, index),
    )
}

/// The walk over the first `n` transactions of a block, in block order.
pub open spec fn babbage_txs_walk(
    context: EventContextView,
    config: Config,
    block: MintedBlock,
    n: nat,
) -> Walk
    decreases n,
{
    if n == 0 || n > block.transaction_bodies.len() {
        Walk::complete(Seq::empty())
    } else {
        babbage_txs_walk(context, config, block, (n - 1) as nat).followed_by(
            babbage_tx_walk(context, config, block, n - 1),
        )
    }
}

/// A failure among the first transactions is the failure of the walk over
/// more of them, which emits no more.
pub proof fn lemma_babbage_txs_failure(
    context: EventContextView,
    config: Config,
    block: MintedBlock,
    n: nat,
    m: nat,
)
    requires
        n <= m <= block.transaction_bodies.len(),
        babbage_txs_walk(context, config, block, n).failure is Some,
    ensures
        babbage_txs_walk(context, config, block, m) == babbage_txs_walk(context, config, block, n),
    decreases m - n,
{
    if n < m {
        lemma_babbage_txs_failure(context, config, block, n, (m - 1) as nat);
    }
}

/// The walk over a block of the later eras: the block, then its
/// transactions in block order, then, where asked for, the end of the
/// block with the same record as its beginning. Where the record of the
/// block cannot be made, the walk fails before it emits anything; where a
/// transaction fails, what was emitted before stays.
pub open spec fn babbage_block_walk(
    context: EventContextView,
    config: Config,
    time: Option<SlotTime>,
    block: MintedBlock,
    hash: Seq<u8>,
    cbor: Seq<u8>,
) -> Walk {
    match babbage_block_record(config, time, block, hash, cbor) {
        Err(e) => Walk::failed(e),
        Ok(record) => Walk::complete(
            seq![event_of(context, EventDataView::Block(record))],
        ).followed_by(
            babbage_txs_walk(context, config, block, block.transaction_bodies.len() as nat),
        ).and_emit(block_end_events(context, config, record)),
    }
}

/// The walk over a decoded block of the later eras, from the top: the walk
/// over the block under the block's coordinates.
pub open spec fn babbage_walk(
    context: EventContextView,
    config: Config,
    time: Option<SlotTime>,
    block: MintedBlock,
    cbor: Seq<u8>,
) -> Walk {
    babbage_block_walk(
        context.child(block_coordinates(time, block.header)),
        config,
        time,
        block,
        blake2b_256(block.header.raw_cbor@),
        cbor,
    )
}

fn put_cost_model_first(
    entries: &mut Vec<(LanguageVersionRecord, CostModelRecord)>,
    key: LanguageVersionRecord,
    value: CostModelRecord,
)
    requires
        forall|i: int| 0 <= i < old(entries).len() ==> old(entries)@[i].0 != key,
        distinct_keys(cost_model_entries(old(entries)@)),
    ensures
        distinct_keys(cost_model_entries(final(entries)@)),
        final(entries)@ == old(entries)@.push((key, value)),
        keyed(cost_model_entries(final(entries)@)) == keyed(
            cost_model_entries(old(entries)@),
        ).insert(key, value@),
{
    proof {
        let before = cost_model_entries(entries@);
        lemma_keyed_push(before, key, value@);
        assert(cost_model_entries(entries@.push((key, value))) =~= before.push((key, value@)));
        let after = before.push((key, value@));
        assert forall|a: int, b: int| 0 <= a < b < after.len() implies (#[trigger] after[a]).0 != (
        #[trigger] after[b]).0 by {
            assert(before[a].0 == entries@[a].0);
            if b < before.len() {
                assert(after[a] == before[a] && after[b] == before[b]);
            }
        }
    }
    entries.push((key, value));
}

impl EventWriter {
    /// The size of a transaction in bytes, from the original encodings of
    /// its sections.
    pub fn to_babbage_tx_size(
        &self,
        body: &KeepRaw<MintedTransactionBody>,
        aux_data: Option<&KeepRaw<AuxiliaryData>>,
        witness_set: Option<&KeepRaw<MintedWitnessSet>>,
    ) -> (size: usize)
        requires
            tx_size(*body, held(aux_data), held(witness_set)) <= usize::MAX,
        ensures
            size == tx_size(*body, held(aux_data), held(witness_set)),
    {
        let aux_len = match aux_data {
            Some(ax) => ax.raw_cbor().len(),
            None => 2,
        };
        let witness_len = match witness_set {
            Some(ws) => ws.raw_cbor().len(),
            None => 1,
        };
        body.raw_cbor().len() + aux_len + witness_len
    }

    /// Converts a transaction of the later eras. The hash is taken as given
    /// and never derived again.
    pub fn to_babbage_transaction_record(
        &self,
        body: &KeepRaw<MintedTransactionBody>,
        tx_hash: &str,
        aux_data: Option<&KeepRaw<AuxiliaryData>>,
        witness_set: Option<&KeepRaw<MintedWitnessSet>>,
    ) -> (record: Result<TransactionRecord, ConvertError>)
        ensures
            result_view(record) == babbage_transaction_record(
                self.config,
                *body,
                tx_hash@,
                held(aux_data),
                held(witness_set),
            ),
    {
        let details = self.config.include_transaction_details;
        let tx = &body.value;
        let aux_len = match aux_data {
            Some(ax) => ax.raw_cbor().len(),
            None => 2,
        };
        let witness_len = match witness_set {
            Some(ws) => ws.raw_cbor().len(),
            None => 1,
        };
        let size = size_of_sections(body.raw_cbor().len(), aux_len, witness_len)?;
        let network_id = match &tx.network_id {
            Some(NetworkId::One) => Some(1u32),
            Some(NetworkId::Two) => Some(2u32),
            None => None,
        };

        let outputs = self.collect_any_output_records(tx.outputs.as_slice())?;
        let output_count = outputs.len();
        let total_output = sum_output_amounts(&outputs)?;
        proof {
            lemma_all_ok_values(any_output_outcomes(tx.outputs@));
            assert(views(outputs@).len() == outputs.len());
        }

        let inputs = self.collect_input_records(&tx.inputs);
        let input_count = inputs.len();
        assert(views(inputs@).len() == inputs.len());

        let mut mint_count: usize = 0;
        let mut mint = None;
        if let Some(source) = &tx.mint {
            let mints = self.collect_mint_records(source);
            mint_count = mints.len();
            assert(views(mints@).len() == mints.len());
            if details {
                mint = Some(mints);
            }
        }

        let mut certificate_count: usize = 0;
        let mut certs = None;
        if let Some(source) = &tx.certificates {
            let records = self.collect_certificate_records(source);
            certificate_count = records.len();
            assert(views(records@).len() == records.len());
            if details {
                certs = Some(records);
            }
        }

        let collateral_input_count = match &tx.collateral {
            Some(inputs) => inputs.len(),
            None => 0,
        };
        let has_collateral_output = tx.collateral_return.is_some();

        let mut update = None;
        if let Some(source) = &tx.update {
            if details {
                update = Some(self.to_babbage_update_record(source));
            }
        }

        let mut required_signers_count: usize = 0;
        let mut required_signers = None;
        if let Some(source) = &tx.required_signers {
            let signers = self.collect_required_signers_records(source)?;
            required_signers_count = signers.len();
            assert(views(signers@).len() == signers.len());
            if details {
                required_signers = Some(signers);
            }
        }

        let mut metadata = None;
        let mut vkey_witnesses = None;
        let mut native_witnesses = None;
        let mut plutus_witnesses = None;
        let mut plutus_redeemers = None;
        let mut plutus_data = None;
        let mut withdrawals = None;
        let mut detail_outputs = None;
        let mut detail_inputs = None;
        let mut collateral_inputs = None;
        let mut collateral_output = None;

        if details {
            collateral_inputs = match &tx.collateral {
                Some(inputs) => Some(self.collect_input_records(inputs)),
                None => None,
            };

            collateral_output = match &tx.collateral_return {
                Some(output) => Some(self.to_any_output_record(output)?),
                None => None,
            };

            metadata = match aux_data {
                Some(aux_data) => Some(self.collect_metadata_records(&aux_data.value)?),
                None => None,
            };

            if let Some(witnesses) = witness_set {
                let witnesses = &witnesses.value;
                vkey_witnesses = Some(
                    self.collect_vkey_witness_records_babbage(&witnesses.vkeywitness)?,
                );
                native_witnesses = Some(
                    self.collect_native_witness_records_babbage(&witnesses.native_script)?,
                );
                plutus_witnesses = Some(
                    self.collect_plutus_v1_witness_records_babbage(&witnesses.plutus_v1_script)?,
                );
                plutus_redeemers = Some(
                    self.collect_plutus_redeemer_records_2(&witnesses.redeemer)?,
                );
                plutus_data = Some(
                    self.collect_witness_plutus_datum_records_babbage(&witnesses.plutus_data)?,
                );
            }

            if let Some(source) = &tx.withdrawals {
                withdrawals = Some(self.collect_withdrawal_records(source));
            }

            detail_outputs = Some(outputs);
            detail_inputs = Some(inputs);
        }

        Ok(
            TransactionRecord {
                hash: tx_hash.to_owned(),
                fee: tx.fee,
                ttl: tx.ttl,
                validity_interval_start: tx.validity_interval_start,
                network_id,
                input_count,
                collateral_input_count,
                has_collateral_output,
                output_count,
                mint_count,
                certificate_count,
                total_output,
                required_signers_count,
                required_signers,
                update,
                metadata,
                inputs: detail_inputs,
                outputs: detail_outputs,
                collateral_inputs,
                collateral_output,
                certs,
                mint,
                vkey_witnesses,
                native_witnesses,
                plutus_witnesses,
                plutus_redeemers,
                plutus_data,
                withdrawals,
                size,
            },
        )
    }

    /// The records of the transactions of a block, each with the hash of
    /// its body's original encoding, its auxiliary data if it has any, and
    /// the witness set at its position.
    pub fn collect_babbage_tx_records(&self, block: &MintedBlock) -> (records: Result<
        Vec<TransactionRecord>,
        ConvertError,
    >)
        ensures
            results_view(records) == babbage_tx_records(self.config, *block),
    {
        let ghost outcomes = babbage_tx_outcomes(self.config, *block);
        let mut records: Vec<TransactionRecord> = Vec::new();
        let mut idx: usize = 0;
        assert(views(records@) =~= Seq::empty());
        while idx < block.transaction_bodies.len()
            invariant
                idx <= block.transaction_bodies.len(),
                outcomes == babbage_tx_outcomes(self.config, *block),
                all_ok(outcomes.take(idx as int)) == Ok::<Seq<TransactionRecordView>, Failure>(
                    views(records@),
                ),
            decreases block.transaction_bodies.len() - idx,
        {
            let tx = &block.transaction_bodies[idx];
            let aux_data = find_aux_data(&block.auxiliary_data_set, idx);
            let witness_set = if idx < block.transaction_witness_sets.len() {
                Some(&block.transaction_witness_sets[idx])
            } else {
                None
            };
            let tx_hash = hash_256(tx.raw_cbor()).to_hex();
            proof {
                lemma_all_ok_step(outcomes, idx as int);
            }
            match self.to_babbage_transaction_record(tx, tx_hash.as_str(), aux_data, witness_set) {
                Ok(record) => {
                    proof {
                        lemma_views_push(records@, record);
                    }
                    records.push(record);
                },
                Err(e) => {
                    proof {
                        lemma_all_ok_failure(outcomes, idx + 1);
                    }
                    return Err(e);
                },
            }
            idx += 1;
        }
        assert(outcomes.take(idx as int) =~= outcomes);
        Ok(records)
    }

    /// Converts a block of the later eras. The hash is taken as given.
    pub fn to_babbage_block_record(&self, source: &MintedBlock, hash: &Vec<u8>, cbor: &[u8]) -> (
    record: Result<BlockRecord, ConvertError>)
        ensures
            result_view(record) == babbage_block_record(
                self.config,
                self.time,
                *source,
                hash@,
                cbor@,
            ),
    {
        let header = &source.header.value.header_body;
        let transactions = if self.config.include_block_details {
            Some(self.collect_babbage_tx_records(source)?)
        } else {
            None
        };
        Ok(
            BlockRecord {
                era: Era::Babbage,
                body_size: header.block_body_size,
                issuer_vkey: header.issuer_vkey.to_hex(),
                vrf_vkey: header.vrf_vkey.to_hex(),
                tx_count: source.transaction_bodies.len(),
                hash: hash.to_hex(),
                number: header.block_number,
                slot: header.slot,
                epoch: match self.time {
                    Some(t) => Some(t.epoch),
                    None => None,
                },
                epoch_slot: match self.time {
                    Some(t) => Some(t.epoch_slot),
                    None => None,
                },
                previous_hash: match &header.prev_hash {
                    Some(h) => h.to_hex(),
                    None => String::new(),
                },
                cbor_hex: if self.config.include_block_cbor {
                    Some(cbor.to_hex())
                } else {
                    None
                },
                transactions,
            },
        )
    }

    /// The cost models of the later eras: one for each language version
    /// that has one.
    pub fn to_babbage_cost_models_record(&self, cost_models: &Option<CostMdls>) -> (record: Option<
        CostModelsRecord,
    >)
        ensures
            opt_view(record) == babbage_cost_models_record(*cost_models),
            record is Some ==> record->0.well_formed(),
    {
        match cost_models {
            Some(cost_models) => {
                let mut cost_models_record: Vec<(LanguageVersionRecord, CostModelRecord)> =
                    Vec::new();
                assert(cost_model_entries(cost_models_record@) =~= Seq::empty());
                if let Some(cost_model_v1) = &cost_models.plutus_v1 {
                    let language_version_record = LanguageVersionRecord::PlutusV1;
                    let cost_model_record = CostModelRecord(cost_model_v1.clone());
                    put_cost_model_first(
                        &mut cost_models_record,
                        language_version_record,
                        cost_model_record,
                    );
                }
                if let Some(cost_model_v2) = &cost_models.plutus_v2 {
                    let language_version_record = LanguageVersionRecord::PlutusV2;
                    let cost_model_record = CostModelRecord(cost_model_v2.clone());
                    put_cost_model_first(
                        &mut cost_models_record,
                        language_version_record,
                        cost_model_record,
                    );
                }
                Some(CostModelsRecord(cost_models_record))
            },
            None => None,
        }
    }

    pub fn to_babbage_language_version_record(&self, language_version: &Language) -> (record:
        LanguageVersionRecord)
        ensures
            record == babbage_language_version_record(*language_version),
    {
        match language_version {
            Language::PlutusV1 => LanguageVersionRecord::PlutusV1,
            Language::PlutusV2 => LanguageVersionRecord::PlutusV2,
        }
    }

    /// Converts a proposal of the later eras.
    pub fn to_babbage_protocol_update_record(&self, update: &ProtocolParamUpdate) -> (record:
        ProtocolParamUpdateRecord)
        ensures
            record@ == babbage_protocol_update_record(*update),
    {
        ProtocolParamUpdateRecord {
            minfee_a: update.minfee_a,
            minfee_b: update.minfee_b,
            max_block_body_size: update.max_block_body_size,
            max_transaction_size: update.max_transaction_size,
            max_block_header_size: update.max_block_header_size,
            key_deposit: update.key_deposit,
            pool_deposit: update.pool_deposit,
            maximum_epoch: update.maximum_epoch,
            desired_number_of_stake_pools: update.desired_number_of_stake_pools,
            pool_pledge_influence: self.to_rational_number_record_option(
                &update.pool_pledge_influence,
            ),
            expansion_rate: self.to_unit_interval_record(&update.expansion_rate),
            treasury_growth_rate: self.to_unit_interval_record(&update.treasury_growth_rate),
            decentralization_constant: None,
            extra_entropy: None,
            protocol_version: update.protocol_version,
            min_pool_cost: update.min_pool_cost,
            ada_per_utxo_byte: update.ada_per_utxo_byte,
            cost_models_for_script_languages: self.to_babbage_cost_models_record(
                &update.cost_models_for_script_languages,
            ),
            execution_costs: match &update.execution_costs {
                Some(execution_costs) => Some(execution_costs_to_json(execution_costs)),
                None => None,
            },
            max_tx_ex_units: self.to_ex_units_record(&update.max_tx_ex_units),
            max_block_ex_units: self.to_ex_units_record(&update.max_block_ex_units),
            max_value_size: update.max_value_size,
            collateral_percentage: update.collateral_percentage,
            max_collateral_inputs: update.max_collateral_inputs,
        }
    }

    /// Converts an update of the later eras.
    pub fn to_babbage_update_record(&self, update: &Update) -> (record: UpdateRecord)
        ensures
            record@ == babbage_update_record(*update),
            record.well_formed(),
    {
        let proposals = &update.proposed_protocol_parameter_updates;
        let mut updates: Vec<(String, ProtocolParamUpdateRecord)> = Vec::new();
        let mut i: usize = 0;
        assert(babbage_update_entries(proposals@.take(0)) =~= Seq::empty());
        assert(proposal_views(updates@) =~= Seq::empty());
        while i < proposals.len()
            invariant
                i <= proposals.len(),
                distinct_keys(proposal_views(updates@)),
                keyed(proposal_views(updates@)) == keyed(
                    babbage_update_entries(proposals@.take(i as int)),
                ),
            decreases proposals.len() - i,
        {
            let key = proposals[i].0.to_hex();
            let value = self.to_babbage_protocol_update_record(&proposals[i].1);
            proof {
                let prefix = babbage_update_entries(proposals@.take(i as int));
                lemma_keyed_push(prefix, key@, value@);
                assert(babbage_update_entries(proposals@.take(i + 1)) =~= prefix.push(
                    (key@, value@),
                ));
            }
            crate::mapper::params::put_proposal(&mut updates, key, value);
            i += 1;
        }
        assert(proposals@.take(i as int) =~= proposals@);
        UpdateRecord { proposed_protocol_parameter_updates: updates, epoch: update.epoch }
    }

    /// Walks an output of the later format: its event; then, under its
    /// address, the data it carries inline and its assets.
    pub fn crawl_post_alonzo_output(
        &self,
        output: &MintedPostAlonzoTransactionOutput,
        out: &mut Vec<Event>,
    ) -> (outcome: Result<(), ConvertError>)
        ensures
            emitted(
                old(out)@,
                final(out)@,
                outcome,
                post_alonzo_output_walk(self.context@, *output),
            ),
    {
        let ghost start = out@;
        let record = match self.to_post_alonzo_output_record(output) {
            Ok(record) => record,
            Err(e) => {
                assert(views(out@) =~= views(start) + Seq::<EventView>::empty());
                return Err(e);
            },
        };
        let child = self.child_writer(EventContext::at_address(record.address.clone()));
        self.append(EventData::TxOutput(record), out);
        let ghost after_output = out@;

        if let Some(MintedDatumOption::Data(datum)) = &output.datum_option {
            if let Ok(record) = self.to_plutus_datum_record(datum) {
                child.append(EventData::PlutusDatum(record), out);
            }
        }
        assert(views(out@) =~= views(after_output) + inline_datum_events(
            child.context@,
            *output,
        ));

        child.crawl_transaction_output_amount(&output.value, out);
        proof {
            assert(views(out@) =~= views(start) + post_alonzo_output_walk(
                self.context@,
                *output,
            ).events);
        }
        Ok(())
    }

    /// Walks an output in either format.
    pub fn crawl_babbage_transaction_output(
        &self,
        output: &MintedTransactionOutput,
        out: &mut Vec<Event>,
    ) -> (outcome: Result<(), ConvertError>)
        ensures
            emitted(old(out)@, final(out)@, outcome, babbage_output_walk(self.context@, *output)),
    {
        match output {
            MintedTransactionOutput::Legacy(x) => self.crawl_legacy_output(x, out),
            MintedTransactionOutput::PostAlonzo(x) => self.crawl_post_alonzo_output(x, out),
        }
    }

    /// Walks the outputs, in order, each under the coordinate of its
    /// output.
    pub fn crawl_babbage_outputs(
        &self,
        outputs: &Vec<MintedTransactionOutput>,
        out: &mut Vec<Event>,
    ) -> (outcome: Result<(), ConvertError>)
        ensures
            emitted(
                old(out)@,
                final(out)@,
                outcome,
                babbage_outputs_walk(self.context@, outputs@, outputs.len() as nat),
            ),
    {
        let ghost start = out@;
        let mut idx: usize = 0;
        assert(views(out@) =~= views(start) + Seq::<EventView>::empty());
        while idx < outputs.len()
            invariant
                idx <= outputs.len(),
                start == old(out)@,
                babbage_outputs_walk(self.context@, outputs@, idx as nat).failure is None,
                views(out@) == views(start) + babbage_outputs_walk(
                    self.context@,
                    outputs@,
                    idx as nat,
                ).events,
            decreases outputs.len() - idx,
        {
            let ghost before = out@;
            let ghost done = babbage_outputs_walk(self.context@, outputs@, idx as nat);
            let child = self.child_writer(EventContext::at_output(idx));
            let outcome = child.crawl_babbage_transaction_output(&outputs[idx], out);
            proof {
                let step = babbage_output_walk(
                    self.context@.child(at_output(idx)),
                    outputs@[idx as int],
                );
                assert(babbage_outputs_walk(self.context@, outputs@, (idx + 1) as nat)
                    == done.followed_by(step));
                lemma_emitted_in_turn(start, before, out@, outcome, done, step);
            }
            match outcome {
                Ok(_) => {},
                Err(e) => {
                    proof {
                        lemma_babbage_outputs_failure(
                            self.context@,
                            outputs@,
                            (idx + 1) as nat,
                            outputs.len() as nat,
                        );
                    }
                    return Err(e);
                },
            }
            idx += 1;
        }
        Ok(())
    }

    /// Writes the events of a witness set: the signatures, the native
    /// scripts, the compiled scripts of the first and then of the second
    /// language version, the redeemers and the data, list after list.
    pub fn crawl_babbage_witness_set(
        &self,
        witness_set: &KeepRaw<MintedWitnessSet>,
        out: &mut Vec<Event>,
    )
        ensures
            appended(
                old(out)@,
                final(out)@,
                babbage_witness_events(self.context@, Some(*witness_set)),
            ),
    {
        let witnesses = &witness_set.value;
        let ghost start = out@;
        let ghost context = self.context@;
        self.crawl_vkey_witnesses(&witnesses.vkeywitness, out);
        let ghost after_keys = out@;
        self.crawl_native_witnesses(&witnesses.native_script, out);
        let ghost after_native = out@;
        self.crawl_plutus_witnesses(&witnesses.plutus_v1_script, out);
        let ghost after_first = out@;
        self.crawl_plutus_v2_witnesses(&witnesses.plutus_v2_script, out);
        let ghost after_second = out@;
        self.crawl_redeemers(&witnesses.redeemer, out);
        let ghost after_redeemers = out@;
        self.crawl_witness_data(&witnesses.plutus_data, out);
        proof {
            let keys = vkey_witness_events(context, witnesses.vkeywitness);
            let native = native_witness_events(context, witnesses.native_script);
            let first = plutus_witness_events(context, witnesses.plutus_v1_script);
            let second = plutus_v2_witness_events(context, witnesses.plutus_v2_script);
            let redeemers = redeemer_events(context, witnesses.redeemer);
            let data = datum_events(context, witnesses.plutus_data);
            lemma_appended_twice(start, after_keys, after_native, keys, native);
            lemma_appended_twice(start, after_native, after_first, keys + native, first);
            lemma_appended_twice(
                start,
                after_first,
                after_second,
                keys + native + first,
                second,
            );
            lemma_appended_twice(
                start,
                after_second,
                after_redeemers,
                keys + native + first + second,
                redeemers,
            );
            lemma_appended_twice(
                start,
                after_redeemers,
                out@,
                keys + native + first + second + redeemers,
                data,
            );
        }
    }

    /// Walks a transaction of the later eras and writes its events.
    pub fn crawl_babbage_transaction(
        &self,
        tx: &KeepRaw<MintedTransactionBody>,
        tx_hash: &str,
        aux_data: Option<&KeepRaw<AuxiliaryData>>,
        witness_set: Option<&KeepRaw<MintedWitnessSet>>,
        out: &mut Vec<Event>,
    ) -> (outcome: Result<(), ConvertError>)
        ensures
            emitted(
                old(out)@,
                final(out)@,
                outcome,
                babbage_transaction_walk(
                    self.context@,
                    self.config,
                    *tx,
                    tx_hash@,
                    held(aux_data),
                    held(witness_set),
                ),
            ),
    {
        let ghost start = out@;
        let ghost context = self.context@;
        assert(views(out@) =~= views(start) + Seq::<EventView>::empty());
        let record = match self.to_babbage_transaction_record(tx, tx_hash, aux_data, witness_set) {
            Ok(record) => record,
            Err(e) => {
                return Err(e);
            },
        };
        let end_record = if self.config.include_transaction_end_events {
            match self.to_babbage_transaction_record(tx, tx_hash, aux_data, witness_set) {
                Ok(record) => Some(record),
                Err(e) => {
                    return Err(e);
                },
            }
        } else {
            None
        };
        let ghost record_view = record@;

        self.append(EventData::Transaction(record), out);
        let ghost walk0 = Walk::complete(
            seq![event_of(context, EventDataView::Transaction(record_view))],
        );
        assert(views(out@) =~= views(start) + walk0.events);

        let ghost before = out@;
        self.crawl_inputs(&tx.value.inputs, out);
        let ghost walk1 = walk0.and_emit(input_events(context, tx.value.inputs@));
        proof {
            lemma_emitted_in_turn(
                start,
                before,
                out@,
                Ok(()),
                walk0,
                Walk::complete(input_events(context, tx.value.inputs@)),
            );
        }

        let ghost before = out@;
        let outcome = self.crawl_babbage_outputs(&tx.value.outputs, out);
        let ghost walk2 = walk1.followed_by(
            babbage_outputs_walk(context, tx.value.outputs@, tx.value.outputs.len() as nat),
        );
        proof {
            lemma_emitted_in_turn(
                start,
                before,
                out@,
                outcome,
                walk1,
                babbage_outputs_walk(context, tx.value.outputs@, tx.value.outputs.len() as nat),
            );
        }
        match outcome {
            Ok(_) => {},
            Err(e) => {
                return Err(e);
            },
        }

        let ghost before = out@;
        self.crawl_certificates(&tx.value.certificates, out);
        let ghost walk3 = walk2.and_emit(certificate_events(context, tx.value.certificates));
        proof {
            lemma_emitted_in_turn(
                start,
                before,
                out@,
                Ok(()),
                walk2,
                Walk::complete(certificate_events(context, tx.value.certificates)),
            );
        }

        let ghost before = out@;
        self.crawl_collaterals(&tx.value.collateral, out);
        let ghost walk4 = walk3.and_emit(collateral_events(context, tx.value.collateral));
        proof {
            lemma_emitted_in_turn(
                start,
                before,
                out@,
                Ok(()),
                walk3,
                Walk::complete(collateral_events(context, tx.value.collateral)),
            );
        }

        let ghost before = out@;
        self.crawl_optional_mints(&tx.value.mint, out);
        let ghost walk5 = walk4.and_emit(mint_events(context, tx.value.mint));
        proof {
            lemma_emitted_in_turn(
                start,
                before,
                out@,
                Ok(()),
                walk4,
                Walk::complete(mint_events(context, tx.value.mint)),
            );
        }

        let ghost before = out@;
        let outcome = match aux_data {
            Some(aux_data) => self.crawl_auxdata(&aux_data.value, out),
            None => {
                assert(views(out@) =~= views(before) + Seq::<EventView>::empty());
                Ok(())
            },
        };
        let ghost walk6 = walk5.followed_by(optional_auxdata_walk(context, held(aux_data)));
        proof {
            lemma_emitted_in_turn(
                start,
                before,
                out@,
                outcome,
                walk5,
                optional_auxdata_walk(context, held(aux_data)),
            );
        }
        match outcome {
            Ok(_) => {},
            Err(e) => {
                return Err(e);
            },
        }

        let ghost before = out@;
        match witness_set {
            Some(witness_set) => {
                self.crawl_babbage_witness_set(witness_set, out);
            },
            None => {
                assert(views(out@) =~= views(before) + Seq::<EventView>::empty());
            },
        }
        let ghost walk7 = walk6.and_emit(babbage_witness_events(context, held(witness_set)));
        proof {
            lemma_emitted_in_turn(
                start,
                before,
                out@,
                Ok(()),
                walk6,
                Walk::complete(babbage_witness_events(context, held(witness_set))),
            );
        }

        let ghost before = out@;
        match end_record {
            Some(record) => {
                self.append(EventData::TransactionEnd(record), out);
                assert(views(out@) =~= views(before) + transaction_end_events(
                    context,
                    self.config,
                    record_view,
                ));
            },
            None => {
                assert(views(out@) =~= views(before) + Seq::<EventView>::empty());
            },
        }
        proof {
            lemma_emitted_in_turn(
                start,
                before,
                out@,
                Ok(()),
                walk7,
                Walk::complete(transaction_end_events(context, self.config, record_view)),
            );
        }
        Ok(())
    }

    /// Walks a block of the later eras under this writer's context, which
    /// is taken to hold the block's coordinates.
    pub fn crawl_babbage_block(
        &self,
        block: &MintedBlock,
        hash: &Vec<u8>,
        cbor: &[u8],
        out: &mut Vec<Event>,
    ) -> (outcome: Result<(), ConvertError>)
        ensures
            emitted(
                old(out)@,
                final(out)@,
                outcome,
                babbage_block_walk(self.context@, self.config, self.time, *block, hash@, cbor@),
            ),
    {
        let ghost start = out@;
        let ghost context = self.context@;
        assert(views(out@) =~= views(start) + Seq::<EventView>::empty());
        let record = match self.to_babbage_block_record(block, hash, cbor) {
            Ok(record) => record,
            Err(e) => {
                return Err(e);
            },
        };
        let end_record = if self.config.include_block_end_events {
            match self.to_babbage_block_record(block, hash, cbor) {
                Ok(record) => Some(record),
                Err(e) => {
                    return Err(e);
                },
            }
        } else {
            None
        };
        let ghost record_view = record@;

        self.append(EventData::Block(record), out);
        let ghost walk0 = Walk::complete(seq![event_of(context, EventDataView::Block(record_view))]);
        assert(views(out@) =~= views(start) + walk0.events);

        let ghost before_txs = out@;
        let mut idx: usize = 0;
        assert(views(out@) =~= views(before_txs) + Seq::<EventView>::empty());
        while idx < block.transaction_bodies.len()
            invariant
                idx <= block.transaction_bodies.len(),
                start == old(out)@,
                context == self.context@,
                views(before_txs) == views(start) + walk0.events,
                walk0 == Walk::complete(
                    seq![event_of(context, EventDataView::Block(record_view))],
                ),
                babbage_block_record(self.config, self.time, *block, hash@, cbor@) == Ok::<
                    BlockRecordView,
                    Failure,
                >(record_view),
                babbage_txs_walk(context, self.config, *block, idx as nat).failure is None,
                views(out@) == views(before_txs) + babbage_txs_walk(
                    context,
                    self.config,
                    *block,
                    idx as nat,
                ).events,
            decreases block.transaction_bodies.len() - idx,
        {
            let tx = &block.transaction_bodies[idx];
            let aux_data = find_aux_data(&block.auxiliary_data_set, idx);
            let witness_set = if idx < block.transaction_witness_sets.len() {
                Some(&block.transaction_witness_sets[idx])
            } else {
                None
            };
            let tx_hash = hash_256(tx.raw_cbor()).to_hex();
            let child = self.child_writer(EventContext::at_transaction(idx, tx_hash.clone()));
            let ghost before = out@;
            let ghost done = babbage_txs_walk(context, self.config, *block, idx as nat);
            let outcome = child.crawl_babbage_transaction(
                tx,
                tx_hash.as_str(),
                aux_data,
                witness_set,
                out,
            );
            proof {
                let step = babbage_tx_walk(context, self.config, *block, idx as int);
                assert(babbage_txs_walk(context, self.config, *block, (idx + 1) as nat)
                    == done.followed_by(step));
                lemma_emitted_in_turn(before_txs, before, out@, outcome, done, step);
            }
            match outcome {
                Ok(_) => {},
                Err(e) => {
                    proof {
                        lemma_babbage_txs_failure(
                            context,
                            self.config,
                            *block,
                            (idx + 1) as nat,
                            block.transaction_bodies.len() as nat,
                        );
                        let txs = babbage_txs_walk(
                            context,
                            self.config,
                            *block,
                            block.transaction_bodies.len() as nat,
                        );
                        lemma_emitted_in_turn(start, before_txs, out@, outcome, walk0, txs);
                    }
                    return Err(e);
                },
            }
            idx += 1;
        }
        let ghost txs = babbage_txs_walk(
            context,
            self.config,
            *block,
            block.transaction_bodies.len() as nat,
        );
        let ghost walk1 = walk0.followed_by(txs);
        proof {
            lemma_emitted_in_turn(start, before_txs, out@, Ok(()), walk0, txs);
        }

        let ghost before = out@;
        match end_record {
            Some(record) => {
                self.append(EventData::BlockEnd(record), out);
                assert(views(out@) =~= views(before) + block_end_events(
                    context,
                    self.config,
                    record_view,
                ));
            },
            None => {
                assert(views(out@) =~= views(before) + Seq::<EventView>::empty());
            },
        }
        proof {
            lemma_emitted_in_turn(
                start,
                before,
                out@,
                Ok(()),
                walk1,
                Walk::complete(block_end_events(context, self.config, record_view)),
            );
        }
        Ok(())
    }

    /// Walks a decoded block of the later eras from the top.
    ///
    /// This is the entry point for a block that is already decoded. The
    /// original encoding is passed along for the block record to carry
    /// where it is asked for. The events are appended to `out`; where the
    /// walk fails, the events that were written before stay there.
    pub fn crawl_babbage_with_cbor(&self, block: &MintedBlock, cbor: &[u8], out: &mut Vec<Event>) -> (
    outcome: Result<(), ConvertError>)
        ensures
            emitted(
                old(out)@,
                final(out)@,
                outcome,
                babbage_walk(self.context@, self.config, self.time, *block, cbor@),
            ),
    {
        let hash = hash_256(block.header.raw_cbor());
        let header = &block.header.value.header_body;
        let child = self.child_writer(
            EventContext::at_block(
                hash.to_hex(),
                header.block_number,
                header.slot,
                match self.time {
                    Some(t) => Some(t.timestamp),
                    None => None,
                },
            ),
        );
        child.crawl_babbage_block(block, &hash, cbor, out)
    }
}

} // verus!
