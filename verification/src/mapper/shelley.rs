//! Blocks of the legacy family of eras: the records of a transaction and of
//! a block.
use crate::collaborators::{blake2b_256, hash_256};
use crate::decoded::shelley::{MintedBlock, MintedWitnessSet, TransactionBody};
use crate::decoded::{AuxiliaryData, KeepRaw, NetworkId};
use crate::error::{
    all_ok, lemma_all_ok_failure, lemma_all_ok_step, lemma_all_ok_values, result_view,
    results_view, ConvertError, Failure,
};
use crate::mapper::certificates::hex_strings;
use crate::mapper::collect::{
    certificate_records, datum_records, input_records, legacy_output_outcomes,
    legacy_output_records, metadata_records,
    native_witness_records, plutus_v1_witness_records, redeemer_records, vkey_witness_records,
    withdrawal_records,
};
use crate::mapper::map::mint_records;
use crate::mapper::params::update_record;
use crate::mapper::crawl::{
    at_block, at_transaction, auxdata_walk, certificate_events, collateral_events, emitted,
    input_events, legacy_outputs_walk, lemma_emitted_in_turn, mint_events, witness_events, Walk,
};
use crate::mapper::{event_of, Config, EventWriter, SlotTime};
use crate::model::{
    BlockRecord, BlockRecordView, Era, Event, EventContext, EventContextView, EventData,
    EventDataView, EventView, MetadataRecordView, TransactionRecord, TransactionRecordView,
    TxOutputRecord, TxOutputRecordView,
};
use crate::text::{hex_string, ToHex};
use crate::views::{lemma_views_push, views};
use vstd::prelude::*;

verus! {

/// The length of the original encoding of a section, or `absent` where the
/// section is not there.
pub open spec fn section_len<T>(section: Option<KeepRaw<T>>, absent: nat) -> nat {
    match section {
        Some(s) => s.raw_cbor@.len(),
        None => absent,
    }
}

/// The size of a transaction: the lengths of the original encodings of its
/// body, its auxiliary data and its witness set. An absent section counts
/// as its empty encoding: two bytes for auxiliary data, one for a witness
/// set.
pub open spec fn tx_size<B, A, W>(
    body: KeepRaw<B>,
    aux_data: Option<KeepRaw<A>>,
    witness_set: Option<KeepRaw<W>>,
) -> nat {
    body.raw_cbor@.len() + section_len(aux_data, 2) + section_len(witness_set, 1)
}

/// The size as a transaction record holds it: the size itself, which has
/// to fit the 32 bits of the record's field.
pub open spec fn recorded_size(size: nat) -> Result<u32, Failure> {
    if size <= u32::MAX {
        Ok(size as u32)
    } else {
        Err(Failure::SizeOutOfRange)
    }
}

/// What a borrowed option holds.
pub open spec fn held<T>(item: Option<&T>) -> Option<T> {
    match item {
        Some(x) => Some(*x),
        None => None,
    }
}

/// The sum of the coin of some outputs.
pub open spec fn coin_sum(outputs: Seq<TxOutputRecordView>) -> nat
    decreases outputs.len(),
{
    if outputs.len() == 0 {
        0
    } else {
        coin_sum(outputs.drop_last()) + outputs.last().amount as nat
    }
}

/// The total of the outputs as a transaction record holds it: the sum of
/// their coin, which has to fit the 64 bits of the record's field.
pub open spec fn total_output(outputs: Seq<TxOutputRecordView>) -> Result<u64, Failure> {
    if coin_sum(outputs) <= u64::MAX {
        Ok(coin_sum(outputs) as u64)
    } else {
        Err(Failure::TotalOutputOutOfRange)
    }
}

/// The coin of the first outputs of a list adds up to no more than the
/// coin of all of them.
pub proof fn lemma_coin_sum_grows(outputs: Seq<TxOutputRecordView>, n: int)
    requires
        0 <= n <= outputs.len(),
    ensures
        coin_sum(outputs.take(n)) <= coin_sum(outputs),
    decreases outputs.len() - n,
{
    if n == outputs.len() {
        assert(outputs.take(n) =~= outputs);
    } else {
        assert(outputs.take(n + 1).drop_last() =~= outputs.take(n));
        lemma_coin_sum_grows(outputs, n + 1);
    }
}

/// The number of a network.
pub open spec fn network_number(id: Option<NetworkId>) -> Option<u32> {
    match id {
        Some(NetworkId::One) => Some(1u32),
        Some(NetworkId::Two) => Some(2u32),
        None => None,
    }
}

/// A list of records that stands in the details only.
pub open spec fn detail<T>(wanted: bool, items: Seq<T>) -> Option<Seq<T>> {
    if wanted {
        Some(items)
    } else {
        None
    }
}

/// The metadata that the details of a transaction carry: absent without
/// details or without auxiliary data.
pub open spec fn detail_metadata(wanted: bool, aux_data: Option<KeepRaw<AuxiliaryData>>) -> Result<
    Option<Seq<MetadataRecordView>>,
    Failure,
> {
    match aux_data {
        Some(aux) if wanted => match metadata_records(aux.value) {
            Ok(records) => Ok(Some(records)),
            Err(e) => Err(e),
        },
        _ => Ok(None),
    }
}

/// The record of a transaction of the legacy eras whose size, output
/// records and total are given: the counts always, and the details only
/// with `include_transaction_details`. It fails where the details are
/// asked for and the metadata cannot be rendered.
pub open spec fn transaction_record_of(
    config: Config,
    body: KeepRaw<TransactionBody>,
    tx_hash: Seq<char>,
    aux_data: Option<KeepRaw<AuxiliaryData>>,
    witness_set: Option<KeepRaw<MintedWitnessSet>>,
    size: u32,
    outputs: Seq<TxOutputRecordView>,
    total: u64,
) -> Result<TransactionRecordView, Failure> {
    let details = config.include_transaction_details;
    let tx = body.value;
    match detail_metadata(details, aux_data) {
        Err(e) => Err(e),
        Ok(metadata) => Ok(
            TransactionRecordView {
                hash: tx_hash,
                fee: tx.fee,
                ttl: tx.ttl,
                validity_interval_start: tx.validity_interval_start,
                network_id: network_number(tx.network_id),
                input_count: tx.inputs.len(),
                collateral_input_count: 0,
                has_collateral_output: false,
                output_count: tx.outputs.len(),
                mint_count: match tx.mint {
                    Some(mint) => mint_records(mint@).len(),
                    None => 0,
                },
                certificate_count: match tx.certificates {
                    Some(certs) => certs.len(),
                    None => 0,
                },
                total_output: total,
                required_signers_count: match tx.required_signers {
                    Some(signers) => signers.len(),
                    None => 0,
                },
                required_signers: match tx.required_signers {
                    Some(signers) if details => Some(hex_strings(signers@)),
                    _ => None,
                },
                update: match tx.update {
                    Some(update) if details => Some(update_record(update)),
                    _ => None,
                },
                metadata,
                inputs: detail(details, input_records(tx.inputs@)),
                outputs: detail(details, outputs),
                collateral_inputs: None,
                collateral_output: None,
                certs: match tx.certificates {
                    Some(certs) if details => Some(certificate_records(certs@)),
                    _ => None,
                },
                mint: match tx.mint {
                    Some(mint) if details => Some(mint_records(mint@)),
                    _ => None,
                },
                vkey_witnesses: match witness_set {
                    Some(w) if details => Some(vkey_witness_records(w.value.vkeywitness)),
                    _ => None,
                },
                native_witnesses: match witness_set {
                    Some(w) if details => Some(native_witness_records(w.value.native_script)),
                    _ => None,
                },
                plutus_witnesses: match witness_set {
                    Some(w) if details => Some(
                        plutus_v1_witness_records(w.value.plutus_script),
                    ),
                    _ => None,
                },
                plutus_redeemers: match witness_set {
                    Some(w) if details => Some(redeemer_records(w.value.redeemer)),
                    _ => None,
                },
                plutus_data: match witness_set {
                    Some(w) if details => Some(datum_records(w.value.plutus_data)),
                    _ => None,
                },
                withdrawals: match tx.withdrawals {
                    Some(withdrawals) if details => Some(withdrawal_records(withdrawals@)),
                    _ => None,
                },
                size,
            },
        ),
    }
}

/// The record of a transaction of the legacy eras.
///
/// The hash is the one given. The size is the exact sum of the lengths of
/// the original encodings, and the total is the exact sum of the coin of
/// the outputs. The counts are always there; the details are there only
/// with `include_transaction_details`. The conversion fails, and what is
/// looked at first decides how: where the size does not fit its 32 bits;
/// where an output's address is malformed; where the total does not fit
/// its 64 bits; where the details are asked for and the metadata cannot be
/// rendered.
pub open spec fn transaction_record(
    config: Config,
    body: KeepRaw<TransactionBody>,
    tx_hash: Seq<char>,
    aux_data: Option<KeepRaw<AuxiliaryData>>,
    witness_set: Option<KeepRaw<MintedWitnessSet>>,
) -> Result<TransactionRecordView, Failure> {
    match recorded_size(tx_size(body, aux_data, witness_set)) {
        Err(e) => Err(e),
        Ok(size) => match legacy_output_records(body.value.outputs@) {
            Err(e) => Err(e),
            Ok(outputs) => match total_output(outputs) {
                Err(e) => Err(e),
                Ok(total) => transaction_record_of(
                    config,
                    body,
                    tx_hash,
                    aux_data,
                    witness_set,
                    size,
                    outputs,
                    total,
                ),
            },
        },
    }
}

/// The auxiliary data of the transaction at `index`: the first entry at or
/// after `start` that is keyed by the index.
pub open spec fn aux_data_from(
    set: Seq<(u32, KeepRaw<AuxiliaryData>)>,
    index: int,
    start: int,
) -> Option<KeepRaw<AuxiliaryData>>
    decreases set.len() - start,
{
    if start < 0 || start >= set.len() {
        None
    } else if set[start].0 == index {
        Some(set[start].1)
    } else {
        aux_data_from(set, index, start + 1)
    }
}

/// The auxiliary data of the transaction at `index`, if it has any.
pub open spec fn aux_data_at(set: Seq<(u32, KeepRaw<AuxiliaryData>)>, index: int) -> Option<
    KeepRaw<AuxiliaryData>,
> {
    aux_data_from(set, index, 0)
}

/// The section at the position of the transaction at `index`, if the list
/// reaches that far.
pub open spec fn section_at<T>(sections: Seq<T>, index: int) -> Option<T> {
    if 0 <= index < sections.len() {
        Some(sections[index])
    } else {
        None
    }
}

/// The hash of a transaction in hexadecimal: the digest of the original
/// encoding of its body.
pub open spec fn tx_hash_text<B>(body: KeepRaw<B>) -> Seq<char> {
    hex_string(blake2b_256(body.raw_cbor@))
}

/// The outcome of converting the transaction at `index` of a block.
pub open spec fn shelley_tx_outcome(config: Config, block: MintedBlock, index: int) -> Result<
    TransactionRecordView,
    Failure,
> {
    transaction_record(
        config,
        block.transaction_bodies@[index],
        tx_hash_text(block.transaction_bodies@[index]),
        aux_data_at(block.auxiliary_data_set@, index),
        section_at(block.transaction_witness_sets@, index),
    )
}

/// The outcome of converting each transaction of a block.
pub open spec fn shelley_tx_outcomes(config: Config, block: MintedBlock) -> Seq<
    Result<TransactionRecordView, Failure>,
> {
    Seq::new(
        block.transaction_bodies.len() as nat,
        |i: int| shelley_tx_outcome(config, block, i),
    )
}

/// The records of the transactions of a block, or the first failure.
pub open spec fn shelley_tx_records(config: Config, block: MintedBlock) -> Result<
    Seq<TransactionRecordView>,
    Failure,
> {
    all_ok(shelley_tx_outcomes(config, block))
}

/// The record of a block with the given header, hash, encoding and list of
/// transactions: the header's fields as they are, hashes and keys in
/// hexadecimal, and the encoding only with `include_block_cbor`.
pub open spec fn block_record_of(
    config: Config,
    time: Option<SlotTime>,
    header: crate::decoded::Header,
    tx_count: usize,
    hash: Seq<u8>,
    cbor: Seq<u8>,
    era: Era,
    transactions: Option<Seq<TransactionRecordView>>,
) -> BlockRecordView {
    BlockRecordView {
        era,
        epoch: match time {
            Some(t) => Some(t.epoch),
            None => None,
        },
        epoch_slot: match time {
            Some(t) => Some(t.epoch_slot),
            None => None,
        },
        body_size: header.header_body.block_body_size,
        issuer_vkey: hex_string(header.header_body.issuer_vkey@),
        vrf_vkey: hex_string(header.header_body.vrf_vkey@),
        tx_count,
        slot: header.header_body.slot,
        hash: hex_string(hash),
        number: header.header_body.block_number,
        previous_hash: match header.header_body.prev_hash {
            Some(h) => hex_string(h@),
            None => Seq::empty(),
        },
        cbor_hex: if config.include_block_cbor {
            Some(hex_string(cbor))
        } else {
            None
        },
        transactions,
    }
}

/// The record of a block of the legacy eras.
///
/// The hash is the one given. The original encoding is there only with
/// `include_block_cbor`, and the transactions only with
/// `include_block_details`; the conversion then fails where the conversion
/// of a transaction fails. The previous hash of a first block is empty.
pub open spec fn block_record(
    config: Config,
    time: Option<SlotTime>,
    source: MintedBlock,
    hash: Seq<u8>,
    cbor: Seq<u8>,
    era: Era,
) -> Result<BlockRecordView, Failure> {
    if config.include_block_details {
        match shelley_tx_records(config, source) {
            Ok(transactions) => Ok(
                block_record_of(
                    config,
                    time,
                    source.header.value,
                    source.transaction_bodies.len(),
                    hash,
                    cbor,
                    era,
                    Some(transactions),
                ),
            ),
            Err(e) => Err(e),
        }
    } else {
        Ok(
            block_record_of(
                config,
                time,
                source.header.value,
                source.transaction_bodies.len(),
                hash,
                cbor,
                era,
                None,
            ),
        )
    }
}

/// Adds up the coin of some outputs. A sum beyond the range of `u64` is a
/// failure.
pub fn sum_output_amounts(outputs: &Vec<TxOutputRecord>) -> (total: Result<u64, ConvertError>)
    ensures
        match total {
            Ok(t) => total_output(views(outputs@)) == Ok::<u64, Failure>(t),
            Err(e) => total_output(views(outputs@)) == Err::<u64, Failure>(e@),
        },
{
    let mut total: u64 = 0;
    let mut i: usize = 0;
    assert(views(outputs@).take(0) =~= Seq::empty());
    while i < outputs.len()
        invariant
            i <= outputs.len(),
            total == coin_sum(views(outputs@).take(i as int)),
        decreases outputs.len() - i,
    {
        assert(views(outputs@).take(i + 1).drop_last() =~= views(outputs@).take(i as int));
        match total.checked_add(outputs[i].amount) {
            Some(sum) => {
                total = sum;
            },
            None => {
                proof {
                    lemma_coin_sum_grows(views(outputs@), i + 1);
                }
                return Err(ConvertError::TotalOutputOutOfRange);
            },
        }
        i += 1;
    }
    assert(views(outputs@).take(i as int) =~= views(outputs@));
    Ok(total)
}

/// The auxiliary data of the transaction at `index` of a block.
pub fn find_aux_data(set: &Vec<(u32, KeepRaw<AuxiliaryData>)>, index: usize) -> (found: Option<
    &KeepRaw<AuxiliaryData>,
>)
    ensures
        held(found) == aux_data_at(set@, index as int),
{
    let mut i: usize = 0;
    while i < set.len()
        invariant
            i <= set.len(),
            aux_data_at(set@, index as int) == aux_data_from(set@, index as int, i as int),
        decreases set.len() - i,
    {
        if set[i].0 as usize == index {
            return Some(&set[i].1);
        }
        i += 1;
    }
    None
}

/// The sum of three lengths. A sum beyond the range of `u32` is a failure.
pub fn size_of_sections(body: usize, aux_data: usize, witness_set: usize) -> (size: Result<
    u32,
    ConvertError,
>)
    ensures
        match size {
            Ok(n) => recorded_size((body + aux_data + witness_set) as nat) == Ok::<u32, Failure>(n),
            Err(e) => recorded_size((body + aux_data + witness_set) as nat) == Err::<u32, Failure>(
                e@,
            ),
        },
{
    let total: u128 = body as u128 + aux_data as u128 + witness_set as u128;
    if total <= 4294967295u128 {
        Ok(total as u32)
    } else {
        Err(ConvertError::SizeOutOfRange)
    }
}

impl EventWriter {
    /// The size of a transaction in bytes, from the original encodings of
    /// its sections.
    pub fn to_tx_size(
        &self,
        body: &KeepRaw<TransactionBody>,
        aux_data: Option<&KeepRaw<AuxiliaryData>>,
        witness_set: Option<&KeepRaw<MintedWitnessSet>>,
    ) -> (size: usize)
        requires
            tx_size(*body, held(aux_data), held(witness_set)) <= usize::MAX,
        ensures
            size == tx_size(*body, held(aux_data), held(witness_set)),
    {
        let aux_len = match aux_data {
            Some(ax) => ax.raw_cbor().len(),
            None => 2,
        };
        let witness_len = match witness_set {
            Some(ws) => ws.raw_cbor().len(),
            None => 1,
        };
        body.raw_cbor().len() + aux_len + witness_len
    }

    /// Converts a transaction of the legacy eras. The hash is taken as
    /// given and never derived again.
    pub fn to_transaction_record(
        &self,
        body: &KeepRaw<TransactionBody>,
        tx_hash: &str,
        aux_data: Option<&KeepRaw<AuxiliaryData>>,
        witness_set: Option<&KeepRaw<MintedWitnessSet>>,
    ) -> (record: Result<TransactionRecord, ConvertError>)
        ensures
            result_view(record) == transaction_record(
                self.config,
                *body,
                tx_hash@,
                held(aux_data),
                held(witness_set),
            ),
    {
        let details = self.config.include_transaction_details;
        let tx = &body.value;
        let aux_len = match aux_data {
            Some(ax) => ax.raw_cbor().len(),
            None => 2,
        };
        let witness_len = match witness_set {
            Some(ws) => ws.raw_cbor().len(),
            None => 1,
        };
        let size = size_of_sections(body.raw_cbor().len(), aux_len, witness_len)?;
        let network_id = match &tx.network_id {
            Some(NetworkId::One) => Some(1u32),
            Some(NetworkId::Two) => Some(2u32),
            None => None,
        };

        let outputs = self.collect_legacy_output_records(tx.outputs.as_slice())?;
        let output_count = outputs.len();
        proof {
            lemma_all_ok_values(legacy_output_outcomes(tx.outputs@));
            assert(views(outputs@).len() == outputs.len());
        }
        let total_output = sum_output_amounts(&outputs)?;

        let inputs = self.collect_input_records(&tx.inputs);
        let input_count = inputs.len();
        assert(views(inputs@).len() == inputs.len());

        let mut mint_count: usize = 0;
        let mut mint = None;
        if let Some(source) = &tx.mint {
            let mints = self.collect_mint_records(source);
            mint_count = mints.len();
            assert(views(mints@).len() == mints.len());
            if details {
                mint = Some(mints);
            }
        }

        let mut certificate_count: usize = 0;
        let mut certs = None;
        if let Some(source) = &tx.certificates {
            let records = self.collect_certificate_records(source);
            certificate_count = records.len();
            assert(views(records@).len() == records.len());
            if details {
                certs = Some(records);
            }
        }

        let mut update = None;
        if let Some(source) = &tx.update {
            if details {
                update = Some(self.to_update_record(source));
            }
        }

        let mut required_signers_count: usize = 0;
        let mut required_signers = None;
        if let Some(source) = &tx.required_signers {
            let signers = self.collect_required_signers_records(source)?;
            required_signers_count = signers.len();
            assert(views(signers@).len() == signers.len());
            if details {
                required_signers = Some(signers);
            }
        }

        let mut metadata = None;
        let mut vkey_witnesses = None;
        let mut native_witnesses = None;
        let mut plutus_witnesses = None;
        let mut plutus_redeemers = None;
        let mut plutus_data = None;
        let mut withdrawals = None;
        let mut detail_outputs = None;
        let mut detail_inputs = None;

        if details {
            metadata = match aux_data {
                Some(aux_data) => Some(self.collect_metadata_records(&aux_data.value)?),
                None => None,
            };

            if let Some(witnesses) = witness_set {
                let witnesses = &witnesses.value;
                vkey_witnesses = Some(self.collect_vkey_witness_records(&witnesses.vkeywitness)?);
                native_witnesses = Some(
                    self.collect_native_witness_records(&witnesses.native_script)?,
                );
                plutus_witnesses = Some(
                    self.collect_plutus_v1_witness_records(&witnesses.plutus_script)?,
                );
                plutus_redeemers = Some(
                    self.collect_plutus_redeemer_records(&witnesses.redeemer)?,
                );
                plutus_data = Some(
                    self.collect_witness_plutus_datum_records(&witnesses.plutus_data)?,
                );
            }

            if let Some(source) = &tx.withdrawals {
                withdrawals = Some(self.collect_withdrawal_records(source));
            }

            detail_outputs = Some(outputs);
            detail_inputs = Some(inputs);
        }

        Ok(
            TransactionRecord {
                hash: tx_hash.to_owned(),
                fee: tx.fee,
                ttl: tx.ttl,
                validity_interval_start: tx.validity_interval_start,
                network_id,
                input_count,
                collateral_input_count: 0,
                has_collateral_output: false,
                output_count,
                mint_count,
                certificate_count,
                total_output,
                required_signers_count,
                required_signers,
                update,
                metadata,
                inputs: detail_inputs,
                outputs: detail_outputs,
                collateral_inputs: None,
                collateral_output: None,
                certs,
                mint,
                vkey_witnesses,
                native_witnesses,
                plutus_witnesses,
                plutus_redeemers,
                plutus_data,
                withdrawals,
                size,
            },
        )
    }

    /// The records of the transactions of a block, each with the hash of
    /// its body's original encoding, its auxiliary data if it has any, and
    /// the witness set at its position.
    pub fn collect_shelley_tx_records(&self, block: &MintedBlock) -> (records: Result<
        Vec<TransactionRecord>,
        ConvertError,
    >)
        ensures
            results_view(records) == shelley_tx_records(self.config, *block),
    {
        let ghost outcomes = shelley_tx_outcomes(self.config, *block);
        let mut records: Vec<TransactionRecord> = Vec::new();
        let mut idx: usize = 0;
        assert(views(records@) =~= Seq::empty());
        while idx < block.transaction_bodies.len()
            invariant
                idx <= block.transaction_bodies.len(),
                outcomes == shelley_tx_outcomes(self.config, *block),
                all_ok(outcomes.take(idx as int)) == Ok::<Seq<TransactionRecordView>, Failure>(
                    views(records@),
                ),
            decreases block.transaction_bodies.len() - idx,
        {
            let tx = &block.transaction_bodies[idx];
            let aux_data = find_aux_data(&block.auxiliary_data_set, idx);
            let witness_set = if idx < block.transaction_witness_sets.len() {
                Some(&block.transaction_witness_sets[idx])
            } else {
                None
            };
            let tx_hash = hash_256(tx.raw_cbor()).to_hex();
            proof {
                lemma_all_ok_step(outcomes, idx as int);
            }
            match self.to_transaction_record(tx, tx_hash.as_str(), aux_data, witness_set) {
                Ok(record) => {
                    proof {
                        lemma_views_push(records@, record);
                    }
                    records.push(record);
                },
                Err(e) => {
                    proof {
                        lemma_all_ok_failure(outcomes, idx + 1);
                    }
                    return Err(e);
                },
            }
            idx += 1;
        }
        assert(outcomes.take(idx as int) =~= outcomes);
        Ok(records)
    }

    /// Converts a block of the legacy eras. The hash is taken as given.
    pub fn to_block_record(&self, source: &MintedBlock, hash: &Vec<u8>, cbor: &[u8], era: Era) -> (
    record: Result<BlockRecord, ConvertError>)
        ensures
            result_view(record) == block_record(self.config, self.time, *source, hash@, cbor@, era),
    {
        let header = &source.header.value.header_body;
        let transactions = if self.config.include_block_details {
            Some(self.collect_shelley_tx_records(source)?)
        } else {
            None
        };
        Ok(
            BlockRecord {
                era,
                body_size: header.block_body_size,
                issuer_vkey: header.issuer_vkey.to_hex(),
                vrf_vkey: header.vrf_vkey.to_hex(),
                tx_count: source.transaction_bodies.len(),
                hash: hash.to_hex(),
                number: header.block_number,
                slot: header.slot,
                epoch: match self.time {
                    Some(t) => Some(t.epoch),
                    None => None,
                },
                epoch_slot: match self.time {
                    Some(t) => Some(t.epoch_slot),
                    None => None,
                },
                previous_hash: match &header.prev_hash {
                    Some(h) => h.to_hex(),
                    None => String::new(),
                },
                cbor_hex: if self.config.include_block_cbor {
                    Some(cbor.to_hex())
                } else {
                    None
                },
                transactions,
            },
        )
    }
}

/// The event that closes a transaction, where such events are asked for.
pub open spec fn transaction_end_events(
    context: EventContextView,
    config: Config,
    record: TransactionRecordView,
) -> Seq<EventView> {
    if config.include_transaction_end_events {
        seq![event_of(context, EventDataView::TransactionEnd(record))]
    } else {
        Seq::empty()
    }
}

/// The walk over the auxiliary data of a transaction, if it has any.
pub open spec fn optional_auxdata_walk(
    context: EventContextView,
    aux_data: Option<KeepRaw<AuxiliaryData>>,
) -> Walk {
    match aux_data {
        Some(aux) => auxdata_walk(context, aux.value),
        None => Walk::complete(Seq::empty()),
    }
}

/// The events of the witness set of a transaction, if it has one.
pub open spec fn optional_witness_events(
    context: EventContextView,
    witness_set: Option<KeepRaw<MintedWitnessSet>>,
) -> Seq<EventView> {
    match witness_set {
        Some(w) => witness_events(
            context,
            w.value.vkeywitness,
            w.value.native_script,
            w.value.plutus_script,
            w.value.redeemer,
            w.value.plutus_data,
        ),
        None => Seq::empty(),
    }
}

/// The walk over a transaction of the legacy eras.
///
/// Where the record of the transaction cannot be made, the walk fails
/// before it emits anything. Else it emits, in this order: the
/// transaction; each input; each output, followed by its assets; each
/// certificate; each collateral input; each minted asset; the metadata
/// and scripts of the auxiliary data; the lists of the witness set; and,
/// where asked for, the end of the transaction, with the same record as
/// its beginning.
pub open spec fn transaction_walk(
    context: EventContextView,
    config: Config,
    body: KeepRaw<TransactionBody>,
    tx_hash: Seq<char>,
    aux_data: Option<KeepRaw<AuxiliaryData>>,
    witness_set: Option<KeepRaw<MintedWitnessSet>>,
) -> Walk {
    match transaction_record(config, body, tx_hash, aux_data, witness_set) {
        Err(e) => Walk::failed(e),
        Ok(record) => Walk::complete(
            seq![event_of(context, EventDataView::Transaction(record))],
        ).and_emit(input_events(context, body.value.inputs@)).followed_by(
            legacy_outputs_walk(context, body.value.outputs@, body.value.outputs.len() as nat),
        ).and_emit(certificate_events(context, body.value.certificates)).and_emit(
            collateral_events(context, body.value.collateral),
        ).and_emit(mint_events(context, body.value.mint)).followed_by(
            optional_auxdata_walk(context, aux_data),
        ).and_emit(optional_witness_events(context, witness_set)).and_emit(
            transaction_end_events(context, config, record),
        ),
    }
}

/// The walk over the transaction at `index` of a block, under the
/// coordinates of that transaction.
pub open spec fn shelley_tx_walk(
    context: EventContextView,
    config: Config,
    block: MintedBlock,
    index: int,
) -> Walk {
    transaction_walk(
        context.child(
            at_transaction(index as usize, tx_hash_text(block.transaction_bodies@[index])),
        ),
        config,
        block.transaction_bodies@[index],
        tx_hash_text(block.transaction_bodies@[index]),
        aux_data_at(block.auxiliary_data_set@, index),
        section_at(block.transaction_witness_sets@, index),
    )
}

/// The walk over the first `n` transactions of a block, in block order.
pub open spec fn shelley_txs_walk(
    context: EventContextView,
    config: Config,
    block: MintedBlock,
    n: nat,
) -> Walk
    decreases n,
{
    if n == 0 || n > block.transaction_bodies.len() {
        Walk::complete(Seq::empty())
    } else {
        shelley_txs_walk(context, config, block, (n - 1) as nat).followed_by(
            shelley_tx_walk(context, config, block, n - 1),
        )
    }
}

/// The event that closes a block, where such events are asked for.
pub open spec fn block_end_events(
    context: EventContextView,
    config: Config,
    record: BlockRecordView,
) -> Seq<EventView> {
    if config.include_block_end_events {
        seq![event_of(context, EventDataView::BlockEnd(record))]
    } else {
        Seq::empty()
    }
}

/// The walk over a block of the legacy eras: the block, then its
/// transactions in block order, then, where asked for, the end of the
/// block with the same record as its beginning. Where the record of the
/// block cannot be made, the walk fails before it emits anything; where a
/// transaction fails, what was emitted before stays.
pub open spec fn block_walk(
    context: EventContextView,
    config: Config,
    time: Option<SlotTime>,
    block: MintedBlock,
    hash: Seq<u8>,
    cbor: Seq<u8>,
    era: Era,
) -> Walk {
    match block_record(config, time, block, hash, cbor, era) {
        Err(e) => Walk::failed(e),
        Ok(record) => Walk::complete(
            seq![event_of(context, EventDataView::Block(record))],
        ).followed_by(
            shelley_txs_walk(context, config, block, block.transaction_bodies.len() as nat),
        ).and_emit(block_end_events(context, config, record)),
    }
}

/// The wall-clock time of a block, where a time collaborator is at hand.
pub open spec fn timestamp_of(time: Option<SlotTime>) -> Option<u64> {
    match time {
        Some(t) => Some(t.timestamp),
        None => None,
    }
}

/// The coordinates of a block with the given header: the hash of the
/// header's original encoding in hexadecimal, the number, the slot, and
/// the time.
pub open spec fn block_coordinates(
    time: Option<SlotTime>,
    header: KeepRaw<crate::decoded::Header>,
) -> EventContextView {
    at_block(
        hex_string(blake2b_256(header.raw_cbor@)),
        header.value.header_body.block_number,
        header.value.header_body.slot,
        timestamp_of(time),
    )
}

/// The walk over a decoded block of the legacy eras, from the top: the
/// walk over the block under the block's coordinates.
pub open spec fn shelley_walk(
    context: EventContextView,
    config: Config,
    time: Option<SlotTime>,
    block: MintedBlock,
    cbor: Seq<u8>,
    era: Era,
) -> Walk {
    block_walk(
        context.child(block_coordinates(time, block.header)),
        config,
        time,
        block,
        blake2b_256(block.header.raw_cbor@),
        cbor,
        era,
    )
}

/// A failure among the first transactions is the failure of the walk over
/// more of them, which emits no more.
pub proof fn lemma_shelley_txs_failure(
    context: EventContextView,
    config: Config,
    block: MintedBlock,
    n: nat,
    m: nat,
)
    requires
        n <= m <= block.transaction_bodies.len(),
        shelley_txs_walk(context, config, block, n).failure is Some,
    ensures
        shelley_txs_walk(context, config, block, m) == shelley_txs_walk(context, config, block, n),
    decreases m - n,
{
    if n < m {
        lemma_shelley_txs_failure(context, config, block, n, (m - 1) as nat);
    }
}

impl EventWriter {
    /// Walks a transaction of the legacy eras and writes its events.
    pub fn crawl_shelley_transaction(
        &self,
        tx: &KeepRaw<TransactionBody>,
        tx_hash: &str,
        aux_data: Option<&KeepRaw<AuxiliaryData>>,
        witness_set: Option<&KeepRaw<MintedWitnessSet>>,
        out: &mut Vec<Event>,
    ) -> (outcome: Result<(), ConvertError>)
        ensures
            emitted(
                old(out)@,
                final(out)@,
                outcome,
                transaction_walk(
                    self.context@,
                    self.config,
                    *tx,
                    tx_hash@,
                    held(aux_data),
                    held(witness_set),
                ),
            ),
    {
        let ghost start = out@;
        let ghost context = self.context@;
        assert(views(out@) =~= views(start) + Seq::<EventView>::empty());
        let record = match self.to_transaction_record(tx, tx_hash, aux_data, witness_set) {
            Ok(record) => record,
            Err(e) => {
                return Err(e);
            },
        };
        let end_record = if self.config.include_transaction_end_events {
            match self.to_transaction_record(tx, tx_hash, aux_data, witness_set) {
                Ok(record) => Some(record),
                Err(e) => {
                    return Err(e);
                },
            }
        } else {
            None
        };
        let ghost record_view = record@;

        self.append(EventData::Transaction(record), out);
        let ghost walk0 = Walk::complete(
            seq![event_of(context, EventDataView::Transaction(record_view))],
        );
        assert(views(out@) =~= views(start) + walk0.events);

        let ghost before = out@;
        self.crawl_inputs(&tx.value.inputs, out);
        let ghost walk1 = walk0.and_emit(input_events(context, tx.value.inputs@));
        proof {
            lemma_emitted_in_turn(
                start,
                before,
                out@,
                Ok(()),
                walk0,
                Walk::complete(input_events(context, tx.value.inputs@)),
            );
        }

        let ghost before = out@;
        let outcome = self.crawl_legacy_outputs(&tx.value.outputs, out);
        let ghost walk2 = walk1.followed_by(
            legacy_outputs_walk(context, tx.value.outputs@, tx.value.outputs.len() as nat),
        );
        proof {
            lemma_emitted_in_turn(
                start,
                before,
                out@,
                outcome,
                walk1,
                legacy_outputs_walk(context, tx.value.outputs@, tx.value.outputs.len() as nat),
            );
        }
        match outcome {
            Ok(_) => {},
            Err(e) => {
                return Err(e);
            },
        }

        let ghost before = out@;
        self.crawl_certificates(&tx.value.certificates, out);
        let ghost walk3 = walk2.and_emit(certificate_events(context, tx.value.certificates));
        proof {
            lemma_emitted_in_turn(
                start,
                before,
                out@,
                Ok(()),
                walk2,
                Walk::complete(certificate_events(context, tx.value.certificates)),
            );
        }

        let ghost before = out@;
        self.crawl_collaterals(&tx.value.collateral, out);
        let ghost walk4 = walk3.and_emit(collateral_events(context, tx.value.collateral));
        proof {
            lemma_emitted_in_turn(
                start,
                before,
                out@,
                Ok(()),
                walk3,
                Walk::complete(collateral_events(context, tx.value.collateral)),
            );
        }

        let ghost before = out@;
        self.crawl_optional_mints(&tx.value.mint, out);
        let ghost walk5 = walk4.and_emit(mint_events(context, tx.value.mint));
        proof {
            lemma_emitted_in_turn(
                start,
                before,
                out@,
                Ok(()),
                walk4,
                Walk::complete(mint_events(context, tx.value.mint)),
            );
        }

        let ghost before = out@;
        let outcome = match aux_data {
            Some(aux_data) => self.crawl_auxdata(&aux_data.value, out),
            None => {
                assert(views(out@) =~= views(before) + Seq::<EventView>::empty());
                Ok(())
            },
        };
        let ghost walk6 = walk5.followed_by(optional_auxdata_walk(context, held(aux_data)));
        proof {
            lemma_emitted_in_turn(
                start,
                before,
                out@,
                outcome,
                walk5,
                optional_auxdata_walk(context, held(aux_data)),
            );
        }
        match outcome {
            Ok(_) => {},
            Err(e) => {
                return Err(e);
            },
        }

        let ghost before = out@;
        match witness_set {
            Some(witness_set) => {
                let witnesses = &witness_set.value;
                self.crawl_witness_lists(
                    &witnesses.vkeywitness,
                    &witnesses.native_script,
                    &witnesses.plutus_script,
                    &witnesses.redeemer,
                    &witnesses.plutus_data,
                    out,
                );
            },
            None => {
                assert(views(out@) =~= views(before) + Seq::<EventView>::empty());
            },
        }
        let ghost walk7 = walk6.and_emit(optional_witness_events(context, held(witness_set)));
        proof {
            lemma_emitted_in_turn(
                start,
                before,
                out@,
                Ok(()),
                walk6,
                Walk::complete(optional_witness_events(context, held(witness_set))),
            );
        }

        let ghost before = out@;
        match end_record {
            Some(record) => {
                self.append(EventData::TransactionEnd(record), out);
                assert(views(out@) =~= views(before) + transaction_end_events(
                    context,
                    self.config,
                    record_view,
                ));
            },
            None => {
                assert(views(out@) =~= views(before) + Seq::<EventView>::empty());
            },
        }
        proof {
            lemma_emitted_in_turn(
                start,
                before,
                out@,
                Ok(()),
                walk7,
                Walk::complete(transaction_end_events(context, self.config, record_view)),
            );
        }
        Ok(())
    }

    /// Walks a block of the legacy eras under this writer's context, which
    /// is taken to hold the block's coordinates.
    pub fn crawl_shelley_block(
        &self,
        block: &MintedBlock,
        hash: &Vec<u8>,
        cbor: &[u8],
        era: Era,
        out: &mut Vec<Event>,
    ) -> (outcome: Result<(), ConvertError>)
        ensures
            emitted(
                old(out)@,
                final(out)@,
                outcome,
                block_walk(self.context@, self.config, self.time, *block, hash@, cbor@, era),
            ),
    {
        let ghost start = out@;
        let ghost context = self.context@;
        assert(views(out@) =~= views(start) + Seq::<EventView>::empty());
        let record = match self.to_block_record(block, hash, cbor, era) {
            Ok(record) => record,
            Err(e) => {
                return Err(e);
            },
        };
        let end_record = if self.config.include_block_end_events {
            match self.to_block_record(block, hash, cbor, era) {
                Ok(record) => Some(record),
                Err(e) => {
                    return Err(e);
                },
            }
        } else {
            None
        };
        let ghost record_view = record@;

        self.append(EventData::Block(record), out);
        let ghost walk0 = Walk::complete(seq![event_of(context, EventDataView::Block(record_view))]);
        assert(views(out@) =~= views(start) + walk0.events);

        let ghost before_txs = out@;
        let mut idx: usize = 0;
        assert(views(out@) =~= views(before_txs) + Seq::<EventView>::empty());
        while idx < block.transaction_bodies.len()
            invariant
                idx <= block.transaction_bodies.len(),
                start == old(out)@,
                context == self.context@,
                views(before_txs) == views(start) + walk0.events,
                walk0 == Walk::complete(
                    seq![event_of(context, EventDataView::Block(record_view))],
                ),
                block_record(self.config, self.time, *block, hash@, cbor@, era) == Ok::<
                    BlockRecordView,
                    Failure,
                >(record_view),
                shelley_txs_walk(context, self.config, *block, idx as nat).failure is None,
                views(out@) == views(before_txs) + shelley_txs_walk(
                    context,
                    self.config,
                    *block,
                    idx as nat,
                ).events,
            decreases block.transaction_bodies.len() - idx,
        {
            let tx = &block.transaction_bodies[idx];
            let aux_data = find_aux_data(&block.auxiliary_data_set, idx);
            let witness_set = if idx < block.transaction_witness_sets.len() {
                Some(&block.transaction_witness_sets[idx])
            } else {
                None
            };
            let tx_hash = hash_256(tx.raw_cbor()).to_hex();
            let child = self.child_writer(EventContext::at_transaction(idx, tx_hash.clone()));
            let ghost before = out@;
            let ghost done = shelley_txs_walk(context, self.config, *block, idx as nat);
            let outcome = child.crawl_shelley_transaction(
                tx,
                tx_hash.as_str(),
                aux_data,
                witness_set,
                out,
            );
            proof {
                let step = shelley_tx_walk(context, self.config, *block, idx as int);
                assert(shelley_txs_walk(context, self.config, *block, (idx + 1) as nat)
                    == done.followed_by(step));
                lemma_emitted_in_turn(before_txs, before, out@, outcome, done, step);
            }
            match outcome {
                Ok(_) => {},
                Err(e) => {
                    proof {
                        lemma_shelley_txs_failure(
                            context,
                            self.config,
                            *block,
                            (idx + 1) as nat,
                            block.transaction_bodies.len() as nat,
                        );
                        let txs = shelley_txs_walk(
                            context,
                            self.config,
                            *block,
                            block.transaction_bodies.len() as nat,
                        );
                        lemma_emitted_in_turn(start, before_txs, out@, outcome, walk0, txs);
                    }
                    return Err(e);
                },
            }
            idx += 1;
        }
        let ghost txs = shelley_txs_walk(
            context,
            self.config,
            *block,
            block.transaction_bodies.len() as nat,
        );
        let ghost walk1 = walk0.followed_by(txs);
        proof {
            lemma_emitted_in_turn(start, before_txs, out@, Ok(()), walk0, txs);
        }

        let ghost before = out@;
        match end_record {
            Some(record) => {
                self.append(EventData::BlockEnd(record), out);
                assert(views(out@) =~= views(before) + block_end_events(
                    context,
                    self.config,
                    record_view,
                ));
            },
            None => {
                assert(views(out@) =~= views(before) + Seq::<EventView>::empty());
            },
        }
        proof {
            lemma_emitted_in_turn(
                start,
                before,
                out@,
                Ok(()),
                walk1,
                Walk::complete(block_end_events(context, self.config, record_view)),
            );
        }
        Ok(())
    }

    /// Walks a decoded block of the legacy eras from the top. The events
    /// are appended to `out`; where the walk fails, the events that were
    /// written before stay there.
    pub fn crawl_shelley_with_cbor(
        &self,
        block: &MintedBlock,
        cbor: &[u8],
        era: Era,
        out: &mut Vec<Event>,
    ) -> (outcome: Result<(), ConvertError>)
        ensures
            emitted(
                old(out)@,
                final(out)@,
                outcome,
                shelley_walk(self.context@, self.config, self.time, *block, cbor@, era),
            ),
    {
        let hash = hash_256(block.header.raw_cbor());
        let header = &block.header.value.header_body;
        let child = self.child_writer(
            EventContext::at_block(
                hash.to_hex(),
                header.block_number,
                header.slot,
                match self.time {
                    Some(t) => Some(t.timestamp),
                    None => None,
                },
            ),
        );
        child.crawl_shelley_block(block, &hash, cbor, era, out)
    }
}

} // verus!
