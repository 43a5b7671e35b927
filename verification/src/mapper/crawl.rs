//! The walk over the parts of a transaction: what each part emits, in which
//! order, and under which context.
//!
//! A walk is described by the events it emits and by the failure that ended
//! it, if one did. Events that were emitted before a failure stay emitted.
use crate::decoded::{
    AuxiliaryData, Certificate, KeepRaw, Metadatum, OutputValue, PlutusScript, PolicyAssets,
    Redeemer, TransactionInput, TransactionOutput, VKeyWitness,
};
use crate::error::{ConvertError, Failure};
use crate::mapper::certificates::certificate_event;
use crate::mapper::collect::metadata_of;
use crate::mapper::map::{
    aux_native_script_event, aux_plutus_script_event, collateral_event, datum_record,
    input_record, legacy_output_record, mint_records, multiasset_records,
    native_witness_record, plutus_witness_record, policy_asset_records, policy_mint_records,
    redeemer_record, value_asset_records, vkey_witness_record,
};
use crate::mapper::metadata::metadata_record;
use crate::mapper::{event_of, EventWriter};
use crate::model::{
    Event, EventContext, EventContextView, EventData, EventDataView, EventView, MintRecordView,
    OutputAssetRecordView,
};
use crate::views::views;
use vstd::prelude::*;

verus! {

/// What a walk does: the events it emits, and the failure that ends it
/// early, if any.
pub struct Walk {
    pub events: Seq<EventView>,
    pub failure: Option<Failure>,
}

impl Walk {
    /// A walk that emits the events and comes to its end.
    pub open spec fn complete(events: Seq<EventView>) -> Walk {
        Walk { events, failure: None }
    }

    /// A walk that fails before it emits anything.
    pub open spec fn failed(failure: Failure) -> Walk {
        Walk { events: Seq::empty(), failure: Some(failure) }
    }

    /// This walk and then the next one; the next one does not start where
    /// this one fails.
    pub open spec fn followed_by(self, next: Walk) -> Walk {
        match self.failure {
            Some(_) => self,
            None => Walk { events: self.events + next.events, failure: next.failure },
        }
    }

    /// This walk, and then some events.
    pub open spec fn and_emit(self, events: Seq<EventView>) -> Walk {
        self.followed_by(Walk::complete(events))
    }
}

/// Whether a call that turned the output `before` into `after` and ended
/// in `outcome` did what `walk` says: it appended the walk's events, and it
/// failed exactly where the walk fails, in the same way.
pub open spec fn emitted(
    before: Seq<Event>,
    after: Seq<Event>,
    outcome: Result<(), ConvertError>,
    walk: Walk,
) -> bool {
    &&& views(after) == views(before) + walk.events
    &&& match outcome {
        Ok(_) => walk.failure is None,
        Err(e) => walk.failure == Some(e@),
    }
}

/// Whether a call that cannot fail appended the events.
pub open spec fn appended(before: Seq<Event>, after: Seq<Event>, events: Seq<EventView>) -> bool {
    views(after) == views(before) + events
}

/// Two calls in a row do what the two walks in a row say.
pub proof fn lemma_emitted_in_turn(
    start: Seq<Event>,
    middle: Seq<Event>,
    end: Seq<Event>,
    outcome: Result<(), ConvertError>,
    first: Walk,
    second: Walk,
)
    requires
        views(middle) == views(start) + first.events,
        first.failure is None,
        emitted(middle, end, outcome, second),
    ensures
        emitted(start, end, outcome, first.followed_by(second)),
{
    assert(views(start) + first.events + second.events =~= views(start) + (first.events
        + second.events));
}

/// Appending twice appends the concatenation.
pub proof fn lemma_appended_twice(
    start: Seq<Event>,
    middle: Seq<Event>,
    end: Seq<Event>,
    first: Seq<EventView>,
    second: Seq<EventView>,
)
    requires
        appended(start, middle, first),
        appended(middle, end, second),
    ensures
        appended(start, end, first + second),
{
    assert(views(start) + first + second =~= views(start) + (first + second));
}

/// The coordinate of an input.
pub open spec fn at_input(idx: usize) -> EventContextView {
    EventContextView { input_idx: Some(idx), ..EventContextView::empty() }
}

/// The coordinate of an output.
pub open spec fn at_output(idx: usize) -> EventContextView {
    EventContextView { output_idx: Some(idx), ..EventContextView::empty() }
}

/// The address of an output.
pub open spec fn at_address(address: Seq<char>) -> EventContextView {
    EventContextView { output_address: Some(address), ..EventContextView::empty() }
}

/// The coordinate of a certificate.
pub open spec fn at_certificate(idx: usize) -> EventContextView {
    EventContextView { certificate_idx: Some(idx), ..EventContextView::empty() }
}

/// The coordinates of a transaction.
pub open spec fn at_transaction(idx: usize, hash: Seq<char>) -> EventContextView {
    EventContextView { tx_idx: Some(idx), tx_hash: Some(hash), ..EventContextView::empty() }
}

/// The coordinates of a block.
pub open spec fn at_block(
    hash: Seq<char>,
    number: u64,
    slot: u64,
    timestamp: Option<u64>,
) -> EventContextView {
    EventContextView {
        block_hash: Some(hash),
        block_number: Some(number),
        slot: Some(slot),
        timestamp,
        ..EventContextView::empty()
    }
}

impl EventContext {
    pub fn at_input(idx: usize) -> (context: EventContext)
        ensures
            context@ == at_input(idx),
    {
        let mut context = EventContext::empty();
        context.input_idx = Some(idx);
        context
    }

    pub fn at_output(idx: usize) -> (context: EventContext)
        ensures
            context@ == at_output(idx),
    {
        let mut context = EventContext::empty();
        context.output_idx = Some(idx);
        context
    }

    pub fn at_address(address: String) -> (context: EventContext)
        ensures
            context@ == at_address(address@),
    {
        let mut context = EventContext::empty();
        context.output_address = Some(address);
        context
    }

    pub fn at_certificate(idx: usize) -> (context: EventContext)
        ensures
            context@ == at_certificate(idx),
    {
        let mut context = EventContext::empty();
        context.certificate_idx = Some(idx);
        context
    }

    pub fn at_transaction(idx: usize, hash: String) -> (context: EventContext)
        ensures
            context@ == at_transaction(idx, hash@),
    {
        let mut context = EventContext::empty();
        context.tx_idx = Some(idx);
        context.tx_hash = Some(hash);
        context
    }

    pub fn at_block(hash: String, number: u64, slot: u64, timestamp: Option<u64>) -> (context:
        EventContext)
        ensures
            context@ == at_block(hash@, number, slot, timestamp),
    {
        let mut context = EventContext::empty();
        context.block_hash = Some(hash);
        context.block_number = Some(number);
        context.slot = Some(slot);
        context.timestamp = timestamp;
        context
    }
}

/// One event for each input, each under the coordinate of its input.
pub open spec fn input_events(context: EventContextView, inputs: Seq<TransactionInput>) -> Seq<
    EventView,
> {
    Seq::new(
        inputs.len(),
        |i: int|
            event_of(
                context.child(at_input(i as usize)),
                EventDataView::TxInput(input_record(inputs[i])),
            ),
    )
}

/// One event for each asset record.
pub open spec fn asset_events(context: EventContextView, records: Seq<OutputAssetRecordView>) -> Seq<
    EventView,
> {
    Seq::new(records.len(), |i: int| event_of(context, EventDataView::OutputAsset(records[i])))
}

/// The walk over an output of the legacy format: the event of the output,
/// then one event for each of its assets under the output's address. A
/// malformed address fails the walk before anything is emitted.
pub open spec fn legacy_output_walk(context: EventContextView, output: TransactionOutput) -> Walk {
    match legacy_output_record(output) {
        Err(e) => Walk::failed(e),
        Ok(record) => Walk::complete(
            seq![event_of(context, EventDataView::TxOutput(record))] + asset_events(
                context.child(at_address(record.address)),
                value_asset_records(output.amount),
            ),
        ),
    }
}

/// The walk over the first `n` outputs of the legacy format, each under the
/// coordinate of its output.
pub open spec fn legacy_outputs_walk(
    context: EventContextView,
    outputs: Seq<TransactionOutput>,
    n: nat,
) -> Walk
    decreases n,
{
    if n == 0 || n > outputs.len() {
        Walk::complete(Seq::empty())
    } else {
        legacy_outputs_walk(context, outputs, (n - 1) as nat).followed_by(
            legacy_output_walk(context.child(at_output((n - 1) as usize)), outputs[n - 1]),
        )
    }
}

/// One event for each certificate, each under the coordinate of its
/// certificate; none where the list is absent.
pub open spec fn certificate_events(
    context: EventContextView,
    certificates: Option<Vec<Certificate>>,
) -> Seq<EventView> {
    match certificates {
        Some(certs) => Seq::new(
            certs.len() as nat,
            |i: int|
                event_of(context.child(at_certificate(i as usize)), certificate_event(certs@[i])),
        ),
        None => Seq::empty(),
    }
}

/// One event for each collateral input; none where the list is absent.
pub open spec fn collateral_events(
    context: EventContextView,
    collateral: Option<Vec<TransactionInput>>,
) -> Seq<EventView> {
    match collateral {
        Some(inputs) => Seq::new(
            inputs.len() as nat,
            |i: int| event_of(context, collateral_event(inputs@[i])),
        ),
        None => Seq::empty(),
    }
}

/// One event for each mint record.
pub open spec fn mint_record_events(context: EventContextView, records: Seq<MintRecordView>) -> Seq<
    EventView,
> {
    Seq::new(records.len(), |i: int| event_of(context, EventDataView::Mint(records[i])))
}

/// One event for each minted asset; none where nothing is minted.
pub open spec fn mint_events(context: EventContextView, mint: Option<Vec<PolicyAssets<i64>>>) -> Seq<
    EventView,
> {
    match mint {
        Some(policies) => mint_record_events(context, mint_records(policies@)),
        None => Seq::empty(),
    }
}

/// The walk over the first `n` labels of some metadata: one event for each
/// label, up to the first label whose content cannot be rendered.
pub open spec fn metadata_walk(context: EventContextView, entries: Seq<(u64, Metadatum)>, n: nat) -> Walk
    decreases n,
{
    if n == 0 || n > entries.len() {
        Walk::complete(Seq::empty())
    } else {
        metadata_walk(context, entries, (n - 1) as nat).followed_by(
            match metadata_record(entries[n - 1].0, entries[n - 1].1) {
                Ok(record) => Walk::complete(
                    seq![event_of(context, EventDataView::Metadata(record))],
                ),
                Err(e) => Walk::failed(e),
            },
        )
    }
}

/// One event for each native script that auxiliary data discloses.
pub open spec fn aux_native_script_events(
    context: EventContextView,
    scripts: Option<Vec<pallas::ledger::primitives::alonzo::NativeScript>>,
) -> Seq<EventView> {
    match scripts {
        Some(all) => Seq::new(
            all.len() as nat,
            |i: int| event_of(context, aux_native_script_event(all@[i])),
        ),
        None => Seq::empty(),
    }
}

/// One event for each compiled script that auxiliary data discloses.
pub open spec fn aux_plutus_script_events(
    context: EventContextView,
    scripts: Option<Vec<PlutusScript<1>>>,
) -> Seq<EventView> {
    match scripts {
        Some(all) => Seq::new(
            all.len() as nat,
            |i: int| event_of(context, aux_plutus_script_event(all@[i])),
        ),
        None => Seq::empty(),
    }
}

/// The native scripts that auxiliary data discloses, whatever its encoding.
pub open spec fn aux_native_scripts(aux_data: AuxiliaryData) -> Option<
    Vec<pallas::ledger::primitives::alonzo::NativeScript>,
> {
    match aux_data {
        AuxiliaryData::PostAlonzo { native_scripts, .. } => native_scripts,
        AuxiliaryData::Shelley(_) => None,
        AuxiliaryData::ShelleyMa { auxiliary_scripts, .. } => auxiliary_scripts,
    }
}

/// The compiled scripts that auxiliary data discloses, whatever its
/// encoding.
pub open spec fn aux_plutus_scripts(aux_data: AuxiliaryData) -> Option<Vec<PlutusScript<1>>> {
    match aux_data {
        AuxiliaryData::PostAlonzo { plutus_scripts, .. } => plutus_scripts,
        _ => None,
    }
}

/// The walk over the metadata of auxiliary data.
pub open spec fn aux_metadata_walk(context: EventContextView, aux_data: AuxiliaryData) -> Walk {
    match metadata_of(aux_data) {
        Some(entries) => metadata_walk(context, entries@, entries.len() as nat),
        None => Walk::complete(Seq::empty()),
    }
}

/// The walk over auxiliary data: one event for each label of the metadata,
/// then one for each native script, then one for each compiled script.
pub open spec fn auxdata_walk(context: EventContextView, aux_data: AuxiliaryData) -> Walk {
    aux_metadata_walk(context, aux_data).and_emit(
        aux_native_script_events(context, aux_native_scripts(aux_data)),
    ).and_emit(aux_plutus_script_events(context, aux_plutus_scripts(aux_data)))
}

/// One event for each signature; none where the list is absent.
pub open spec fn vkey_witness_events(context: EventContextView, source: Option<Vec<VKeyWitness>>) -> Seq<
    EventView,
> {
    match source {
        Some(all) => Seq::new(
            all.len() as nat,
            |i: int| event_of(context, EventDataView::VKeyWitness(vkey_witness_record(all@[i]))),
        ),
        None => Seq::empty(),
    }
}

/// One event for each native script; none where the list is absent.
pub open spec fn native_witness_events(
    context: EventContextView,
    source: Option<Vec<pallas::ledger::primitives::alonzo::NativeScript>>,
) -> Seq<EventView> {
    match source {
        Some(all) => Seq::new(
            all.len() as nat,
            |i: int|
                event_of(context, EventDataView::NativeWitness(native_witness_record(all@[i]))),
        ),
        None => Seq::empty(),
    }
}

/// One event for each compiled script of the first language version; none
/// where the list is absent.
pub open spec fn plutus_witness_events(
    context: EventContextView,
    source: Option<Vec<PlutusScript<1>>>,
) -> Seq<EventView> {
    match source {
        Some(all) => Seq::new(
            all.len() as nat,
            |i: int|
                event_of(
                    context,
                    EventDataView::PlutusWitness(plutus_witness_record(all@[i].0@, 1)),
                ),
        ),
        None => Seq::empty(),
    }
}

/// One event for each compiled script of the second language version;
/// none where the list is absent.
pub open spec fn plutus_v2_witness_events(
    context: EventContextView,
    source: Option<Vec<PlutusScript<2>>>,
) -> Seq<EventView> {
    match source {
        Some(all) => Seq::new(
            all.len() as nat,
            |i: int|
                event_of(
                    context,
                    EventDataView::PlutusWitness(plutus_witness_record(all@[i].0@, 2)),
                ),
        ),
        None => Seq::empty(),
    }
}

/// One event for each redeemer; none where the list is absent.
pub open spec fn redeemer_events(context: EventContextView, source: Option<Vec<Redeemer>>) -> Seq<
    EventView,
> {
    match source {
        Some(all) => Seq::new(
            all.len() as nat,
            |i: int| event_of(context, EventDataView::PlutusRedeemer(redeemer_record(all@[i]))),
        ),
        None => Seq::empty(),
    }
}

/// One event for each datum; none where the list is absent.
pub open spec fn datum_events(
    context: EventContextView,
    source: Option<Vec<KeepRaw<pallas::ledger::primitives::alonzo::PlutusData>>>,
) -> Seq<EventView> {
    match source {
        Some(all) => Seq::new(
            all.len() as nat,
            |i: int| event_of(context, EventDataView::PlutusDatum(datum_record(all@[i]))),
        ),
        None => Seq::empty(),
    }
}

/// The events of a witness set: the signatures, the native scripts, the
/// compiled scripts, the redeemers and the data, each list in its order.
pub open spec fn witness_events(
    context: EventContextView,
    vkeywitness: Option<Vec<VKeyWitness>>,
    native_script: Option<Vec<pallas::ledger::primitives::alonzo::NativeScript>>,
    plutus_script: Option<Vec<PlutusScript<1>>>,
    redeemer: Option<Vec<Redeemer>>,
    plutus_data: Option<Vec<KeepRaw<pallas::ledger::primitives::alonzo::PlutusData>>>,
) -> Seq<EventView> {
    vkey_witness_events(context, vkeywitness) + native_witness_events(context, native_script)
        + plutus_witness_events(context, plutus_script) + redeemer_events(context, redeemer)
        + datum_events(context, plutus_data)
}

impl EventWriter {
    /// Writes the event of one input.
    pub fn crawl_transaction_input(&self, input: &TransactionInput, out: &mut Vec<Event>)
        ensures
            appended(
                old(out)@,
                final(out)@,
                seq![event_of(self.context@, EventDataView::TxInput(input_record(*input)))],
            ),
    {
        let ghost start = out@;
        self.append(EventData::TxInput(self.to_transaction_input_record(input)), out);
        assert(views(out@) =~= views(start) + seq![
            event_of(self.context@, EventDataView::TxInput(input_record(*input))),
        ]);
    }

    /// Writes one event for each input, in order, each under the
    /// coordinate of its input.
    pub fn crawl_inputs(&self, inputs: &Vec<TransactionInput>, out: &mut Vec<Event>)
        ensures
            appended(old(out)@, final(out)@, input_events(self.context@, inputs@)),
    {
        let ghost start = out@;
        let ghost events = input_events(self.context@, inputs@);
        let mut idx: usize = 0;
        assert(views(out@) =~= views(start) + events.take(0));
        while idx < inputs.len()
            invariant
                idx <= inputs.len(),
                events == input_events(self.context@, inputs@),
                views(out@) == views(start) + events.take(idx as int),
            decreases inputs.len() - idx,
        {
            let ghost before = out@;
            let child = self.child_writer(EventContext::at_input(idx));
            child.crawl_transaction_input(&inputs[idx], out);
            assert(views(out@) =~= views(start) + events.take(idx + 1));
            idx += 1;
        }
        assert(events.take(idx as int) =~= events);
    }

    /// Writes one event for each asset of a value, policy after policy.
    pub fn crawl_transaction_output_amount(&self, amount: &OutputValue, out: &mut Vec<Event>)
        ensures
            appended(
                old(out)@,
                final(out)@,
                asset_events(self.context@, value_asset_records(*amount)),
            ),
    {
        let ghost start = out@;
        match amount {
            OutputValue::Coin(_) => {
                assert(views(out@) =~= views(start) + asset_events(
                    self.context@,
                    value_asset_records(*amount),
                ));
            },
            OutputValue::Multiasset(_, policies) => {
                let mut i: usize = 0;
                assert(views(out@) =~= views(start) + asset_events(
                    self.context@,
                    multiasset_records(policies@.take(0)),
                ));
                while i < policies.len()
                    invariant
                        i <= policies.len(),
                        views(out@) == views(start) + asset_events(
                            self.context@,
                            multiasset_records(policies@.take(i as int)),
                        ),
                    decreases policies.len() - i,
                {
                    let entry = &policies[i];
                    let ghost before = out@;
                    let ghost records = policy_asset_records(*entry);
                    let mut j: usize = 0;
                    assert(views(out@) =~= views(before) + asset_events(
                        self.context@,
                        records.take(0),
                    ));
                    while j < entry.assets.len()
                        invariant
                            j <= entry.assets.len(),
                            records == policy_asset_records(*entry),
                            views(out@) == views(before) + asset_events(
                                self.context@,
                                records.take(j as int),
                            ),
                        decreases entry.assets.len() - j,
                    {
                        let asset = &entry.assets[j];
                        let record = self.to_transaction_output_asset_record(
                            &entry.policy,
                            &asset.name,
                            asset.amount,
                        );
                        self.append(EventData::OutputAsset(record), out);
                        assert(views(out@) =~= views(before) + asset_events(
                            self.context@,
                            records.take(j + 1),
                        ));
                        j += 1;
                    }
                    proof {
                        assert(records.take(j as int) =~= records);
                        assert(policies@.take(i + 1).drop_last() =~= policies@.take(i as int));
                        assert(views(out@) =~= views(start) + asset_events(
                            self.context@,
                            multiasset_records(policies@.take(i + 1)),
                        ));
                    }
                    i += 1;
                }
                assert(policies@.take(i as int) =~= policies@);
            },
        }
    }

    /// Walks an output of the legacy format: its event, then its assets
    /// under its address.
    pub fn crawl_legacy_output(&self, output: &TransactionOutput, out: &mut Vec<Event>) -> (outcome:
        Result<(), ConvertError>)
        ensures
            emitted(old(out)@, final(out)@, outcome, legacy_output_walk(self.context@, *output)),
    {
        let ghost start = out@;
        let record = match self.to_legacy_output_record(output) {
            Ok(record) => record,
            Err(e) => {
                assert(views(out@) =~= views(start) + Seq::<EventView>::empty());
                return Err(e);
            },
        };
        let child = self.child_writer(EventContext::at_address(record.address.clone()));
        self.append(EventData::TxOutput(record), out);
        let ghost middle = out@;
        child.crawl_transaction_output_amount(&output.amount, out);
        proof {
            assert(views(out@) =~= views(start) + legacy_output_walk(self.context@, *output).events);
        }
        Ok(())
    }

    /// Walks the outputs of the legacy format, in order, each under the
    /// coordinate of its output.
    pub fn crawl_legacy_outputs(&self, outputs: &Vec<TransactionOutput>, out: &mut Vec<Event>) -> (
    outcome: Result<(), ConvertError>)
        ensures
            emitted(
                old(out)@,
                final(out)@,
                outcome,
                legacy_outputs_walk(self.context@, outputs@, outputs.len() as nat),
            ),
    {
        let ghost start = out@;
        let mut idx: usize = 0;
        assert(views(out@) =~= views(start) + Seq::<EventView>::empty());
        while idx < outputs.len()
            invariant
                idx <= outputs.len(),
                start == old(out)@,
                legacy_outputs_walk(self.context@, outputs@, idx as nat).failure is None,
                views(out@) == views(start) + legacy_outputs_walk(
                    self.context@,
                    outputs@,
                    idx as nat,
                ).events,
            decreases outputs.len() - idx,
        {
            let ghost before = out@;
            let ghost done = legacy_outputs_walk(self.context@, outputs@, idx as nat);
            let child = self.child_writer(EventContext::at_output(idx));
            let outcome = child.crawl_legacy_output(&outputs[idx], out);
            proof {
                assert(legacy_outputs_walk(self.context@, outputs@, (idx + 1) as nat)
                    == done.followed_by(
                    legacy_output_walk(
                        self.context@.child(at_output(idx)),
                        outputs@[idx as int],
                    ),
                ));
                lemma_emitted_in_turn(
                    start,
                    before,
                    out@,
                    outcome,
                    done,
                    legacy_output_walk(child.context@, outputs@[idx as int]),
                );
            }
            match outcome {
                Ok(_) => {},
                Err(e) => {
                    proof {
                        lemma_legacy_outputs_failure(
                            self.context@,
                            outputs@,
                            (idx + 1) as nat,
                            outputs.len() as nat,
                        );
                    }
                    return Err(e);
                },
            }
            idx += 1;
        }
        Ok(())
    }

    /// Writes the event of one certificate.
    pub fn crawl_certificate(&self, certificate: &Certificate, out: &mut Vec<Event>)
        ensures
            appended(
                old(out)@,
                final(out)@,
                seq![event_of(self.context@, certificate_event(*certificate))],
            ),
    {
        let ghost start = out@;
        self.append(self.to_certificate_event(certificate), out);
        assert(views(out@) =~= views(start) + seq![
            event_of(self.context@, certificate_event(*certificate)),
        ]);
    }

    /// Writes one event for each certificate, in order, each under the
    /// coordinate of its certificate.
    pub fn crawl_certificates(&self, certificates: &Option<Vec<Certificate>>, out: &mut Vec<Event>)
        ensures
            appended(old(out)@, final(out)@, certificate_events(self.context@, *certificates)),
    {
        let ghost start = out@;
        let ghost events = certificate_events(self.context@, *certificates);
        if let Some(certs) = certificates {
            let mut idx: usize = 0;
            assert(views(out@) =~= views(start) + events.take(0));
            while idx < certs.len()
                invariant
                    idx <= certs.len(),
                    *certificates == Some(*certs),
                    events == certificate_events(self.context@, *certificates),
                    views(out@) == views(start) + events.take(idx as int),
                decreases certs.len() - idx,
            {
                let child = self.child_writer(EventContext::at_certificate(idx));
                child.crawl_certificate(&certs[idx], out);
                assert(views(out@) =~= views(start) + events.take(idx + 1));
                idx += 1;
            }
            assert(events.take(idx as int) =~= events);
        } else {
            assert(views(out@) =~= views(start) + events);
        }
    }

    /// Writes the event of one collateral input.
    pub fn crawl_collateral(&self, collateral: &TransactionInput, out: &mut Vec<Event>)
        ensures
            appended(
                old(out)@,
                final(out)@,
                seq![event_of(self.context@, collateral_event(*collateral))],
            ),
    {
        let ghost start = out@;
        self.append(self.to_collateral_event(collateral), out);
        assert(views(out@) =~= views(start) + seq![
            event_of(self.context@, collateral_event(*collateral)),
        ]);
    }

    /// Writes one event for each collateral input, in order.
    pub fn crawl_collaterals(
        &self,
        collateral: &Option<Vec<TransactionInput>>,
        out: &mut Vec<Event>,
    )
        ensures
            appended(old(out)@, final(out)@, collateral_events(self.context@, *collateral)),
    {
        let ghost start = out@;
        let ghost events = collateral_events(self.context@, *collateral);
        if let Some(inputs) = collateral {
            let mut idx: usize = 0;
            assert(views(out@) =~= views(start) + events.take(0));
            while idx < inputs.len()
                invariant
                    idx <= inputs.len(),
                    *collateral == Some(*inputs),
                    events == collateral_events(self.context@, *collateral),
                    views(out@) == views(start) + events.take(idx as int),
                decreases inputs.len() - idx,
            {
                self.crawl_collateral(&inputs[idx], out);
                assert(views(out@) =~= views(start) + events.take(idx + 1));
                idx += 1;
            }
            assert(events.take(idx as int) =~= events);
        } else {
            assert(views(out@) =~= views(start) + events);
        }
    }

    /// Writes one event for each minted asset, policy after policy.
    pub fn crawl_mints(&self, mints: &Vec<PolicyAssets<i64>>, out: &mut Vec<Event>)
        ensures
            appended(
                old(out)@,
                final(out)@,
                mint_record_events(self.context@, mint_records(mints@)),
            ),
    {
        let ghost start = out@;
        let mut i: usize = 0;
        assert(views(out@) =~= views(start) + mint_record_events(
            self.context@,
            mint_records(mints@.take(0)),
        ));
        while i < mints.len()
            invariant
                i <= mints.len(),
                views(out@) == views(start) + mint_record_events(
                    self.context@,
                    mint_records(mints@.take(i as int)),
                ),
            decreases mints.len() - i,
        {
            let entry = &mints[i];
            let ghost before = out@;
            let ghost records = policy_mint_records(*entry);
            let mut j: usize = 0;
            assert(views(out@) =~= views(before) + mint_record_events(
                self.context@,
                records.take(0),
            ));
            while j < entry.assets.len()
                invariant
                    j <= entry.assets.len(),
                    records == policy_mint_records(*entry),
                    views(out@) == views(before) + mint_record_events(
                        self.context@,
                        records.take(j as int),
                    ),
                decreases entry.assets.len() - j,
            {
                let asset = &entry.assets[j];
                let record = self.to_mint_record(&entry.policy, &asset.name, asset.amount);
                self.append(EventData::Mint(record), out);
                assert(views(out@) =~= views(before) + mint_record_events(
                    self.context@,
                    records.take(j + 1),
                ));
                j += 1;
            }
            proof {
                assert(records.take(j as int) =~= records);
                assert(mints@.take(i + 1).drop_last() =~= mints@.take(i as int));
                assert(views(out@) =~= views(start) + mint_record_events(
                    self.context@,
                    mint_records(mints@.take(i + 1)),
                ));
            }
            i += 1;
        }
        assert(mints@.take(i as int) =~= mints@);
    }

    /// Writes one event for each minted asset; nothing where nothing is
    /// minted.
    pub fn crawl_optional_mints(
        &self,
        mint: &Option<Vec<PolicyAssets<i64>>>,
        out: &mut Vec<Event>,
    )
        ensures
            appended(old(out)@, final(out)@, mint_events(self.context@, *mint)),
    {
        let ghost start = out@;
        match mint {
            Some(mints) => self.crawl_mints(mints, out),
            None => {
                assert(views(out@) =~= views(start) + mint_events(self.context@, *mint));
            },
        }
    }

    /// Walks the labels of some metadata: one event for each label, in
    /// order. A label whose content cannot be rendered ends the walk.
    pub fn crawl_metadata(&self, metadata: &Vec<(u64, Metadatum)>, out: &mut Vec<Event>) -> (outcome:
        Result<(), ConvertError>)
        ensures
            emitted(
                old(out)@,
                final(out)@,
                outcome,
                metadata_walk(self.context@, metadata@, metadata.len() as nat),
            ),
    {
        let ghost start = out@;
        let mut idx: usize = 0;
        assert(views(out@) =~= views(start) + Seq::<EventView>::empty());
        while idx < metadata.len()
            invariant
                idx <= metadata.len(),
                start == old(out)@,
                metadata_walk(self.context@, metadata@, idx as nat).failure is None,
                views(out@) == views(start) + metadata_walk(
                    self.context@,
                    metadata@,
                    idx as nat,
                ).events,
            decreases metadata.len() - idx,
        {
            let ghost done = metadata_walk(self.context@, metadata@, idx as nat);
            let ghost step = match metadata_record(metadata@[idx as int].0, metadata@[idx as int].1) {
                Ok(record) => Walk::complete(
                    seq![event_of(self.context@, EventDataView::Metadata(record))],
                ),
                Err(e) => Walk::failed(e),
            };
            assert(metadata_walk(self.context@, metadata@, (idx + 1) as nat) == done.followed_by(
                step,
            ));
            match self.to_metadata_record(&metadata[idx].0, &metadata[idx].1) {
                Ok(record) => {
                    self.append(EventData::Metadata(record), out);
                    assert(views(out@) =~= views(start) + metadata_walk(
                        self.context@,
                        metadata@,
                        (idx + 1) as nat,
                    ).events);
                },
                Err(e) => {
                    proof {
                        assert(views(out@) =~= views(start) + metadata_walk(
                            self.context@,
                            metadata@,
                            (idx + 1) as nat,
                        ).events);
                        lemma_metadata_failure(
                            self.context@,
                            metadata@,
                            (idx + 1) as nat,
                            metadata.len() as nat,
                        );
                    }
                    return Err(e);
                },
            }
            idx += 1;
        }
        Ok(())
    }

    /// Writes one event for each native script that auxiliary data
    /// discloses.
    pub fn crawl_aux_native_scripts(
        &self,
        scripts: &Option<Vec<pallas::ledger::primitives::alonzo::NativeScript>>,
        out: &mut Vec<Event>,
    )
        ensures
            appended(old(out)@, final(out)@, aux_native_script_events(self.context@, *scripts)),
    {
        let ghost start = out@;
        let ghost events = aux_native_script_events(self.context@, *scripts);
        if let Some(all) = scripts {
            let mut idx: usize = 0;
            assert(views(out@) =~= views(start) + events.take(0));
            while idx < all.len()
                invariant
                    idx <= all.len(),
                    *scripts == Some(*all),
                    events == aux_native_script_events(self.context@, *scripts),
                    views(out@) == views(start) + events.take(idx as int),
                decreases all.len() - idx,
            {
                self.append(self.to_aux_native_script_event(&all[idx]), out);
                assert(views(out@) =~= views(start) + events.take(idx + 1));
                idx += 1;
            }
            assert(events.take(idx as int) =~= events);
        } else {
            assert(views(out@) =~= views(start) + events);
        }
    }

    /// Writes one event for each compiled script that auxiliary data
    /// discloses.
    pub fn crawl_aux_plutus_scripts(
        &self,
        scripts: &Option<Vec<PlutusScript<1>>>,
        out: &mut Vec<Event>,
    )
        ensures
            appended(old(out)@, final(out)@, aux_plutus_script_events(self.context@, *scripts)),
    {
        let ghost start = out@;
        let ghost events = aux_plutus_script_events(self.context@, *scripts);
        if let Some(all) = scripts {
            let mut idx: usize = 0;
            assert(views(out@) =~= views(start) + events.take(0));
            while idx < all.len()
                invariant
                    idx <= all.len(),
                    *scripts == Some(*all),
                    events == aux_plutus_script_events(self.context@, *scripts),
                    views(out@) == views(start) + events.take(idx as int),
                decreases all.len() - idx,
            {
                self.append(self.to_aux_plutus_script_event(&all[idx]), out);
                assert(views(out@) =~= views(start) + events.take(idx + 1));
                idx += 1;
            }
            assert(events.take(idx as int) =~= events);
        } else {
            assert(views(out@) =~= views(start) + events);
        }
    }

    /// Walks auxiliary data: its metadata, then the scripts it discloses.
    /// Metadata that cannot be rendered ends the walk.
    pub fn crawl_auxdata(&self, aux_data: &AuxiliaryData, out: &mut Vec<Event>) -> (outcome: Result<
        (),
        ConvertError,
    >)
        ensures
            emitted(old(out)@, final(out)@, outcome, auxdata_walk(self.context@, *aux_data)),
    {
        let ghost start = out@;
        let ghost context = self.context@;
        let none_native: Option<Vec<pallas::ledger::primitives::alonzo::NativeScript>> = None;
        let none_plutus: Option<Vec<PlutusScript<1>>> = None;
        let (metadata, native, plutus) = match aux_data {
            AuxiliaryData::PostAlonzo { metadata, native_scripts, plutus_scripts } => (
                match metadata {
                    Some(m) => Some(m),
                    None => None,
                },
                native_scripts,
                plutus_scripts,
            ),
            AuxiliaryData::Shelley(data) => (Some(data), &none_native, &none_plutus),
            AuxiliaryData::ShelleyMa { transaction_metadata, auxiliary_scripts } => (
                Some(transaction_metadata),
                auxiliary_scripts,
                &none_plutus,
            ),
        };
        assert(held_metadata(metadata) == metadata_of(*aux_data));
        assert(*native == aux_native_scripts(*aux_data));
        assert(*plutus == aux_plutus_scripts(*aux_data));
        let ghost first = aux_metadata_walk(context, *aux_data);
        if let Some(entries) = metadata {
            match self.crawl_metadata(entries, out) {
                Ok(_) => {},
                Err(e) => {
                    return Err(e);
                },
            }
        } else {
            assert(views(out@) =~= views(start) + first.events);
        }
        let ghost after_metadata = out@;
        self.crawl_aux_native_scripts(native, out);
        let ghost after_native = out@;
        self.crawl_aux_plutus_scripts(plutus, out);
        proof {
            let second = aux_native_script_events(context, *native);
            let third = aux_plutus_script_events(context, *plutus);
            assert(views(out@) =~= views(start) + (first.events + second + third));
        }
        Ok(())
    }

    /// Writes one event for each signature of a witness set.
    pub fn crawl_vkey_witnesses(&self, source: &Option<Vec<VKeyWitness>>, out: &mut Vec<Event>)
        ensures
            appended(old(out)@, final(out)@, vkey_witness_events(self.context@, *source)),
    {
        let ghost start = out@;
        let ghost events = vkey_witness_events(self.context@, *source);
        if let Some(all) = source {
            let mut idx: usize = 0;
            assert(views(out@) =~= views(start) + events.take(0));
            while idx < all.len()
                invariant
                    idx <= all.len(),
                    *source == Some(*all),
                    events == vkey_witness_events(self.context@, *source),
                    views(out@) == views(start) + events.take(idx as int),
                decreases all.len() - idx,
            {
                if let Ok(record) = self.to_vkey_witness_record(&all[idx]) {
                    self.append(EventData::VKeyWitness(record), out);
                }
                assert(views(out@) =~= views(start) + events.take(idx + 1));
                idx += 1;
            }
            assert(events.take(idx as int) =~= events);
        } else {
            assert(views(out@) =~= views(start) + events);
        }
    }

    /// Writes one event for each native script of a witness set.
    pub fn crawl_native_witnesses(
        &self,
        source: &Option<Vec<pallas::ledger::primitives::alonzo::NativeScript>>,
        out: &mut Vec<Event>,
    )
        ensures
            appended(old(out)@, final(out)@, native_witness_events(self.context@, *source)),
    {
        let ghost start = out@;
        let ghost events = native_witness_events(self.context@, *source);
        if let Some(all) = source {
            let mut idx: usize = 0;
            assert(views(out@) =~= views(start) + events.take(0));
            while idx < all.len()
                invariant
                    idx <= all.len(),
                    *source == Some(*all),
                    events == native_witness_events(self.context@, *source),
                    views(out@) == views(start) + events.take(idx as int),
                decreases all.len() - idx,
            {
                if let Ok(record) = self.to_native_witness_record(&all[idx]) {
                    self.append(EventData::NativeWitness(record), out);
                }
                assert(views(out@) =~= views(start) + events.take(idx + 1));
                idx += 1;
            }
            assert(events.take(idx as int) =~= events);
        } else {
            assert(views(out@) =~= views(start) + events);
        }
    }

    /// Writes one event for each compiled script of the first language
    /// version of a witness set.
    pub fn crawl_plutus_witnesses(&self, source: &Option<Vec<PlutusScript<1>>>, out: &mut Vec<Event>)
        ensures
            appended(old(out)@, final(out)@, plutus_witness_events(self.context@, *source)),
    {
        let ghost start = out@;
        let ghost events = plutus_witness_events(self.context@, *source);
        if let Some(all) = source {
            let mut idx: usize = 0;
            assert(views(out@) =~= views(start) + events.take(0));
            while idx < all.len()
                invariant
                    idx <= all.len(),
                    *source == Some(*all),
                    events == plutus_witness_events(self.context@, *source),
                    views(out@) == views(start) + events.take(idx as int),
                decreases all.len() - idx,
            {
                if let Ok(record) = self.to_plutus_v1_witness_record(&all[idx]) {
                    self.append(EventData::PlutusWitness(record), out);
                }
                assert(views(out@) =~= views(start) + events.take(idx + 1));
                idx += 1;
            }
            assert(events.take(idx as int) =~= events);
        } else {
            assert(views(out@) =~= views(start) + events);
        }
    }

    /// Writes one event for each compiled script of the second language
    /// version of a witness set.
    pub fn crawl_plutus_v2_witnesses(
        &self,
        source: &Option<Vec<PlutusScript<2>>>,
        out: &mut Vec<Event>,
    )
        ensures
            appended(old(out)@, final(out)@, plutus_v2_witness_events(self.context@, *source)),
    {
        let ghost start = out@;
        let ghost events = plutus_v2_witness_events(self.context@, *source);
        if let Some(all) = source {
            let mut idx: usize = 0;
            assert(views(out@) =~= views(start) + events.take(0));
            while idx < all.len()
                invariant
                    idx <= all.len(),
                    *source == Some(*all),
                    events == plutus_v2_witness_events(self.context@, *source),
                    views(out@) == views(start) + events.take(idx as int),
                decreases all.len() - idx,
            {
                if let Ok(record) = self.to_plutus_v2_witness_record(&all[idx]) {
                    self.append(EventData::PlutusWitness(record), out);
                }
                assert(views(out@) =~= views(start) + events.take(idx + 1));
                idx += 1;
            }
            assert(events.take(idx as int) =~= events);
        } else {
            assert(views(out@) =~= views(start) + events);
        }
    }

    /// Writes one event for each redeemer of a witness set.
    pub fn crawl_redeemers(&self, source: &Option<Vec<Redeemer>>, out: &mut Vec<Event>)
        ensures
            appended(old(out)@, final(out)@, redeemer_events(self.context@, *source)),
    {
        let ghost start = out@;
        let ghost events = redeemer_events(self.context@, *source);
        if let Some(all) = source {
            let mut idx: usize = 0;
            assert(views(out@) =~= views(start) + events.take(0));
            while idx < all.len()
                invariant
                    idx <= all.len(),
                    *source == Some(*all),
                    events == redeemer_events(self.context@, *source),
                    views(out@) == views(start) + events.take(idx as int),
                decreases all.len() - idx,
            {
                if let Ok(record) = self.to_plutus_redeemer_record(&all[idx]) {
                    self.append(EventData::PlutusRedeemer(record), out);
                }
                assert(views(out@) =~= views(start) + events.take(idx + 1));
                idx += 1;
            }
            assert(events.take(idx as int) =~= events);
        } else {
            assert(views(out@) =~= views(start) + events);
        }
    }

    /// Writes one event for each datum of a witness set.
    pub fn crawl_witness_data(
        &self,
        source: &Option<Vec<KeepRaw<pallas::ledger::primitives::alonzo::PlutusData>>>,
        out: &mut Vec<Event>,
    )
        ensures
            appended(old(out)@, final(out)@, datum_events(self.context@, *source)),
    {
        let ghost start = out@;
        let ghost events = datum_events(self.context@, *source);
        if let Some(all) = source {
            let mut idx: usize = 0;
            assert(views(out@) =~= views(start) + events.take(0));
            while idx < all.len()
                invariant
                    idx <= all.len(),
                    *source == Some(*all),
                    events == datum_events(self.context@, *source),
                    views(out@) == views(start) + events.take(idx as int),
                decreases all.len() - idx,
            {
                if let Ok(record) = self.to_plutus_datum_record(&all[idx]) {
                    self.append(EventData::PlutusDatum(record), out);
                }
                assert(views(out@) =~= views(start) + events.take(idx + 1));
                idx += 1;
            }
            assert(events.take(idx as int) =~= events);
        } else {
            assert(views(out@) =~= views(start) + events);
        }
    }

    /// Writes the events of the five lists of a witness set, list after
    /// list.
    pub fn crawl_witness_lists(
        &self,
        vkeywitness: &Option<Vec<VKeyWitness>>,
        native_script: &Option<Vec<pallas::ledger::primitives::alonzo::NativeScript>>,
        plutus_script: &Option<Vec<PlutusScript<1>>>,
        redeemer: &Option<Vec<Redeemer>>,
        plutus_data: &Option<Vec<KeepRaw<pallas::ledger::primitives::alonzo::PlutusData>>>,
        out: &mut Vec<Event>,
    )
        ensures
            appended(
                old(out)@,
                final(out)@,
                witness_events(
                    self.context@,
                    *vkeywitness,
                    *native_script,
                    *plutus_script,
                    *redeemer,
                    *plutus_data,
                ),
            ),
    {
        let ghost start = out@;
        let ghost context = self.context@;
        self.crawl_vkey_witnesses(vkeywitness, out);
        let ghost after_keys = out@;
        self.crawl_native_witnesses(native_script, out);
        let ghost after_native = out@;
        self.crawl_plutus_witnesses(plutus_script, out);
        let ghost after_plutus = out@;
        self.crawl_redeemers(redeemer, out);
        let ghost after_redeemers = out@;
        self.crawl_witness_data(plutus_data, out);
        proof {
            let keys = vkey_witness_events(context, *vkeywitness);
            let native = native_witness_events(context, *native_script);
            let plutus = plutus_witness_events(context, *plutus_script);
            let redeemers = redeemer_events(context, *redeemer);
            let data = datum_events(context, *plutus_data);
            lemma_appended_twice(start, after_keys, after_native, keys, native);
            lemma_appended_twice(start, after_native, after_plutus, keys + native, plutus);
            lemma_appended_twice(
                start,
                after_plutus,
                after_redeemers,
                keys + native + plutus,
                redeemers,
            );
            lemma_appended_twice(
                start,
                after_redeemers,
                out@,
                keys + native + plutus + redeemers,
                data,
            );
        }
    }
}

/// The event of a rollback to a point: the slot and hash of the point, and
/// slot zero with an empty hash for the origin.
pub open spec fn rollback_event(point: crate::decoded::Point) -> EventDataView {
    match point {
        crate::decoded::Point::Origin => EventDataView::RollBack {
            block_slot: 0,
            block_hash: Seq::empty(),
        },
        crate::decoded::Point::Specific(slot, hash) => EventDataView::RollBack {
            block_slot: slot,
            block_hash: crate::text::hex_string(hash@),
        },
    }
}

impl EventWriter {
    /// Writes the event of a rollback to a point of the chain.
    pub fn append_rollback_event(&self, point: &crate::decoded::Point, out: &mut Vec<Event>)
        ensures
            appended(
                old(out)@,
                final(out)@,
                seq![event_of(self.context@, rollback_event(*point))],
            ),
    {
        let ghost start = out@;
        let data = match point {
            crate::decoded::Point::Origin => EventData::RollBack {
                block_slot: 0,
                block_hash: String::new(),
            },
            crate::decoded::Point::Specific(slot, hash) => EventData::RollBack {
                block_slot: *slot,
                block_hash: crate::text::ToHex::to_hex(hash),
            },
        };
        self.append(data, out);
        assert(views(out@) =~= views(start) + seq![
            event_of(self.context@, rollback_event(*point)),
        ]);
    }
}

/// What a borrowed list of metadata holds.
pub open spec fn held_metadata(metadata: Option<&Vec<(u64, Metadatum)>>) -> Option<
    Vec<(u64, Metadatum)>,
> {
    match metadata {
        Some(m) => Some(*m),
        None => None,
    }
}

/// A failure among the first outputs is the failure of the walk over more
/// of them, which emits no more.
pub proof fn lemma_legacy_outputs_failure(
    context: EventContextView,
    outputs: Seq<TransactionOutput>,
    n: nat,
    m: nat,
)
    requires
        n <= m <= outputs.len(),
        legacy_outputs_walk(context, outputs, n).failure is Some,
    ensures
        legacy_outputs_walk(context, outputs, m) == legacy_outputs_walk(context, outputs, n),
    decreases m - n,
{
    if n < m {
        lemma_legacy_outputs_failure(context, outputs, n, (m - 1) as nat);
    }
}

/// A failure among the first labels is the failure of the walk over more of
/// them, which emits no more.
pub proof fn lemma_metadata_failure(
    context: EventContextView,
    entries: Seq<(u64, Metadatum)>,
    n: nat,
    m: nat,
)
    requires
        n <= m <= entries.len(),
        metadata_walk(context, entries, n).failure is Some,
    ensures
        metadata_walk(context, entries, m) == metadata_walk(context, entries, n),
    decreases m - n,
{
    if n < m {
        lemma_metadata_failure(context, entries, n, (m - 1) as nat);
    }
}

} // verus!
