//! The kinds of events, and which events of each kind a walk emits.
use crate::decoded::babbage;
use crate::decoded::shelley;
use crate::decoded::{AuxiliaryData, KeepRaw, OutputValue, TransactionOutput};
use crate::mapper::babbage::{
    babbage_block_record, babbage_block_walk, babbage_outputs_walk, babbage_transaction_record,
    babbage_transaction_walk, babbage_tx_walk, babbage_txs_walk, babbage_witness_events,
};
use crate::mapper::collect::metadata_of;
use crate::mapper::crawl::{
    aux_metadata_walk, aux_native_script_events, aux_native_scripts, aux_plutus_script_events,
    aux_plutus_scripts, certificate_events, collateral_events, datum_events, input_events,
    legacy_outputs_walk, metadata_walk, mint_events, native_witness_events,
    plutus_v2_witness_events, plutus_witness_events, redeemer_events, vkey_witness_events,
    Walk,
};
use crate::mapper::event_of;
use crate::mapper::laws::{
    inline_data_count, lemma_asset_record_count, lemma_certificate_event_kind,
    legacy_output_asset_entries, output_asset_entries, output_value,
};
use crate::mapper::metadata::metadata_record;
use crate::mapper::shelley::{
    block_end_events, block_record, block_walk, optional_auxdata_walk, optional_witness_events,
    shelley_tx_walk, shelley_txs_walk, transaction_end_events, transaction_record,
    transaction_walk,
};
use crate::mapper::{Config, SlotTime};
use crate::model::{Era, EventContextView, EventDataView, EventView};
use crate::text::decimal;
use vstd::prelude::*;

verus! {

/// What an event is about. The certificates of every form are one kind.
pub enum EventKind {
    Block,
    BlockEnd,
    Transaction,
    TransactionEnd,
    TxInput,
    TxOutput,
    OutputAsset,
    Metadata,
    VKeyWitness,
    NativeWitness,
    PlutusWitness,
    PlutusRedeemer,
    PlutusDatum,
    Asset,
    Mint,
    Collateral,
    NativeScript,
    PlutusScript,
    Certificate,
    RollBack,
}

/// The kind of an event, by what it carries.
pub open spec fn kind_of(data: EventDataView) -> EventKind {
    match data {
        EventDataView::Block(_) => EventKind::Block,
        EventDataView::BlockEnd(_) => EventKind::BlockEnd,
        EventDataView::Transaction(_) => EventKind::Transaction,
        EventDataView::TransactionEnd(_) => EventKind::TransactionEnd,
        EventDataView::TxInput(_) => EventKind::TxInput,
        EventDataView::TxOutput(_) => EventKind::TxOutput,
        EventDataView::OutputAsset(_) => EventKind::OutputAsset,
        EventDataView::Metadata(_) => EventKind::Metadata,
        EventDataView::VKeyWitness(_) => EventKind::VKeyWitness,
        EventDataView::NativeWitness(_) => EventKind::NativeWitness,
        EventDataView::PlutusWitness(_) => EventKind::PlutusWitness,
        EventDataView::PlutusRedeemer(_) => EventKind::PlutusRedeemer,
        EventDataView::PlutusDatum(_) => EventKind::PlutusDatum,
        EventDataView::CIP25Asset(_) => EventKind::Asset,
        EventDataView::CIP15Asset(_) => EventKind::Asset,
        EventDataView::Mint(_) => EventKind::Mint,
        EventDataView::Collateral { .. } => EventKind::Collateral,
        EventDataView::NativeScript { .. } => EventKind::NativeScript,
        EventDataView::PlutusScript { .. } => EventKind::PlutusScript,
        EventDataView::RollBack { .. } => EventKind::RollBack,
        _ => EventKind::Certificate,
    }
}

/// The events of one kind among some events, in their order.
pub open spec fn of_kind(events: Seq<EventView>, kind: EventKind) -> Seq<EventView>
    decreases events.len(),
{
    if events.len() == 0 {
        Seq::empty()
    } else if kind_of(events.last().data) == kind {
        of_kind(events.drop_last(), kind).push(events.last())
    } else {
        of_kind(events.drop_last(), kind)
    }
}

/// Whether every one of some events is of the kind `own`.
pub open spec fn all_of(events: Seq<EventView>, own: EventKind) -> bool {
    forall|i: int| 0 <= i < events.len() ==> kind_of(#[trigger] events[i].data) == own
}

/// The events of a kind among events in a row are those among the first,
/// then those among the second.
pub proof fn lemma_of_kind_add(a: Seq<EventView>, b: Seq<EventView>, kind: EventKind)
    ensures
        of_kind(a + b, kind) == of_kind(a, kind) + of_kind(b, kind),
    decreases b.len(),
{
    if b.len() == 0 {
        assert(a + b =~= a);
        assert(of_kind(a, kind) + of_kind(b, kind) =~= of_kind(a, kind));
    } else {
        lemma_of_kind_add(a, b.drop_last(), kind);
        assert((a + b).drop_last() =~= a + b.drop_last());
        assert((a + b).last() == b.last());
        if kind_of(b.last().data) == kind {
            assert(of_kind(a + b, kind) =~= of_kind(a, kind) + of_kind(b, kind));
        }
    }
}

/// Among events that are all of one kind, the events of that kind are all
/// of them, and there is none of another kind.
pub proof fn lemma_of_kind_all(events: Seq<EventView>, own: EventKind, kind: EventKind)
    requires
        all_of(events, own),
    ensures
        kind == own ==> of_kind(events, kind) == events,
        kind != own ==> of_kind(events, kind) == Seq::<EventView>::empty(),
    decreases events.len(),
{
    if events.len() > 0 {
        let earlier = events.drop_last();
        assert forall|i: int| 0 <= i < earlier.len() implies kind_of(#[trigger] earlier[i].data)
            == own by {
            assert(earlier[i] == events[i]);
        }
        lemma_of_kind_all(earlier, own, kind);
        assert(kind_of(events[events.len() - 1].data) == own);
        if kind == own {
            assert(earlier.push(events.last()) =~= events);
        }
    } else {
        assert(events =~= Seq::<EventView>::empty());
    }
}

/// The events of a kind of two walks in a row, where the first is
/// complete, are those of the first, then those of the second.
pub proof fn lemma_of_kind_followed_by(first: Walk, second: Walk, kind: EventKind)
    requires
        first.failure is None,
    ensures
        of_kind(first.followed_by(second).events, kind) == of_kind(first.events, kind) + of_kind(
            second.events,
            kind,
        ),
{
    lemma_of_kind_add(first.events, second.events, kind);
}

/// Each list of a transaction holds events of one kind: the inputs, the
/// certificates, the collateral inputs and the minted assets.
pub proof fn lemma_body_list_kinds(
    context: EventContextView,
    inputs: Seq<crate::decoded::TransactionInput>,
    certificates: Option<Vec<crate::decoded::Certificate>>,
    collateral: Option<Vec<crate::decoded::TransactionInput>>,
    mint: Option<Vec<crate::decoded::PolicyAssets<i64>>>,
)
    ensures
        all_of(input_events(context, inputs), EventKind::TxInput),
        all_of(certificate_events(context, certificates), EventKind::Certificate),
        all_of(collateral_events(context, collateral), EventKind::Collateral),
        all_of(mint_events(context, mint), EventKind::Mint),
{
    match certificates {
        Some(certs) => {
            let events = certificate_events(context, certificates);
            assert forall|i: int| 0 <= i < events.len() implies kind_of(#[trigger] events[i].data)
                == EventKind::Certificate by {
                lemma_certificate_event_kind(certs@[i]);
            }
        },
        None => {},
    }
}

/// How many events of a kind the walk over one output of the legacy format
/// emits: one for the output and one for each of its multi-asset entries.
pub open spec fn legacy_output_events_of_kind(output: TransactionOutput, kind: EventKind) -> nat {
    match kind {
        EventKind::TxOutput => 1,
        EventKind::OutputAsset => crate::mapper::laws::value_asset_entries(output.amount),
        _ => 0,
    }
}

/// How many events of a kind the walk over one output emits: one for the
/// output, one for the data it carries inline, and one for each of its
/// multi-asset entries.
pub open spec fn output_events_of_kind(
    output: babbage::MintedTransactionOutput,
    kind: EventKind,
) -> nat {
    match kind {
        EventKind::TxOutput => 1,
        EventKind::PlutusDatum => if crate::mapper::laws::carries_inline_data(output) {
            1
        } else {
            0
        },
        EventKind::OutputAsset => crate::mapper::laws::value_asset_entries(output_value(output)),
        _ => 0,
    }
}

/// How many events of a kind a complete walk over the first `n` outputs of
/// the legacy format emits.
pub open spec fn legacy_outputs_events_of_kind(
    outputs: Seq<TransactionOutput>,
    n: nat,
    kind: EventKind,
) -> nat {
    match kind {
        EventKind::TxOutput => n,
        EventKind::OutputAsset => legacy_output_asset_entries(outputs, n),
        _ => 0,
    }
}

/// How many events of a kind a complete walk over the first `n` outputs
/// emits.
pub open spec fn outputs_events_of_kind(
    outputs: Seq<babbage::MintedTransactionOutput>,
    n: nat,
    kind: EventKind,
) -> nat {
    match kind {
        EventKind::TxOutput => n,
        EventKind::PlutusDatum => inline_data_count(outputs, n),
        EventKind::OutputAsset => output_asset_entries(outputs, n),
        _ => 0,
    }
}

/// A complete walk over an output of the legacy format emits one event
/// for the output, one asset event for each multi-asset entry, and none of
/// another kind.
pub proof fn lemma_legacy_output_kinds(
    context: EventContextView,
    output: TransactionOutput,
    kind: EventKind,
)
    requires
        crate::mapper::crawl::legacy_output_walk(context, output).failure is None,
    ensures
        of_kind(crate::mapper::crawl::legacy_output_walk(context, output).events, kind).len()
            == legacy_output_events_of_kind(output, kind),
{
    let record = crate::mapper::map::legacy_output_record(output)->Ok_0;
    let first = seq![event_of(context, EventDataView::TxOutput(record))];
    let assets = crate::mapper::crawl::asset_events(
        context.child(crate::mapper::crawl::at_address(record.address)),
        crate::mapper::map::value_asset_records(output.amount),
    );
    lemma_of_kind_add(first, assets, kind);
    lemma_of_kind_all(first, EventKind::TxOutput, kind);
    lemma_of_kind_all(assets, EventKind::OutputAsset, kind);
    match output.amount {
        OutputValue::Coin(_) => {},
        OutputValue::Multiasset(_, policies) => lemma_asset_record_count(policies@),
    }
}

/// A complete walk over an output emits one event for the output, one
/// datum event where it carries inline data, one asset event for each
/// multi-asset entry, and none of another kind.
pub proof fn lemma_output_kinds(
    context: EventContextView,
    output: babbage::MintedTransactionOutput,
    kind: EventKind,
)
    requires
        crate::mapper::babbage::babbage_output_walk(context, output).failure is None,
    ensures
        of_kind(crate::mapper::babbage::babbage_output_walk(context, output).events, kind).len()
            == output_events_of_kind(output, kind),
{
    match output {
        babbage::MintedTransactionOutput::Legacy(x) => {
            lemma_legacy_output_kinds(context, x, kind);
        },
        babbage::MintedTransactionOutput::PostAlonzo(x) => {
            let record = crate::mapper::map::post_alonzo_output_record(x)->Ok_0;
            let inner = context.child(crate::mapper::crawl::at_address(record.address));
            let first = seq![event_of(context, EventDataView::TxOutput(record))];
            let data = crate::mapper::babbage::inline_datum_events(inner, x);
            let assets = crate::mapper::crawl::asset_events(
                inner,
                crate::mapper::map::value_asset_records(x.value),
            );
            lemma_of_kind_add(first, data, kind);
            lemma_of_kind_add(first + data, assets, kind);
            lemma_of_kind_all(first, EventKind::TxOutput, kind);
            lemma_of_kind_all(data, EventKind::PlutusDatum, kind);
            lemma_of_kind_all(assets, EventKind::OutputAsset, kind);
            match x.value {
                OutputValue::Coin(_) => {},
                OutputValue::Multiasset(_, policies) => lemma_asset_record_count(policies@),
            }
        },
    }
}

/// A complete walk over the first `n` outputs of the legacy format emits
/// `n` output events, one asset event for each multi-asset entry, and none
/// of another kind.
pub proof fn lemma_legacy_outputs_kinds(
    context: EventContextView,
    outputs: Seq<TransactionOutput>,
    n: nat,
    kind: EventKind,
)
    requires
        n <= outputs.len(),
        legacy_outputs_walk(context, outputs, n).failure is None,
    ensures
        of_kind(legacy_outputs_walk(context, outputs, n).events, kind).len()
            == legacy_outputs_events_of_kind(outputs, n, kind),
    decreases n,
{
    if n > 0 {
        let earlier = legacy_outputs_walk(context, outputs, (n - 1) as nat);
        let inner = context.child(crate::mapper::crawl::at_output((n - 1) as usize));
        let last = crate::mapper::crawl::legacy_output_walk(inner, outputs[n - 1]);
        lemma_legacy_outputs_kinds(context, outputs, (n - 1) as nat, kind);
        lemma_legacy_output_kinds(inner, outputs[n - 1], kind);
        lemma_of_kind_followed_by(earlier, last, kind);
    }
}

/// A complete walk over the first `n` outputs emits `n` output events, one
/// datum event for each output that carries inline data, one asset event
/// for each multi-asset entry, and none of another kind.
pub proof fn lemma_outputs_kinds(
    context: EventContextView,
    outputs: Seq<babbage::MintedTransactionOutput>,
    n: nat,
    kind: EventKind,
)
    requires
        n <= outputs.len(),
        babbage_outputs_walk(context, outputs, n).failure is None,
    ensures
        of_kind(babbage_outputs_walk(context, outputs, n).events, kind).len()
            == outputs_events_of_kind(outputs, n, kind),
    decreases n,
{
    if n > 0 {
        let earlier = babbage_outputs_walk(context, outputs, (n - 1) as nat);
        let inner = context.child(crate::mapper::crawl::at_output((n - 1) as usize));
        let last = crate::mapper::babbage::babbage_output_walk(inner, outputs[n - 1]);
        lemma_outputs_kinds(context, outputs, (n - 1) as nat, kind);
        lemma_output_kinds(inner, outputs[n - 1], kind);
        lemma_of_kind_followed_by(earlier, last, kind);
    }
}

/// A complete walk over the first `n` labels of some metadata emits `n`
/// events, all of them metadata events, the one at each place with the
/// record of the label at that place, whose label is the number in decimal.
pub proof fn lemma_metadata_events(
    context: EventContextView,
    entries: Seq<(u64, crate::decoded::Metadatum)>,
    n: nat,
)
    requires
        n <= entries.len(),
        metadata_walk(context, entries, n).failure is None,
    ensures
        metadata_walk(context, entries, n).events.len() == n,
        all_of(metadata_walk(context, entries, n).events, EventKind::Metadata),
        forall|i: int|
            0 <= i < n ==> {
                &&& metadata_record(entries[i].0, entries[i].1) matches Ok(record)
                &&& #[trigger] metadata_walk(context, entries, n).events[i] == event_of(
                    context,
                    EventDataView::Metadata(record),
                )
                &&& record.label == decimal(entries[i].0 as nat)
            },
    decreases n,
{
    if n > 0 {
        lemma_metadata_events(context, entries, (n - 1) as nat);
        let earlier = metadata_walk(context, entries, (n - 1) as nat);
        let events = metadata_walk(context, entries, n).events;
        assert forall|i: int| 0 <= i < n implies {
            &&& metadata_record(entries[i].0, entries[i].1) matches Ok(record)
            &&& #[trigger] events[i] == event_of(context, EventDataView::Metadata(record))
            &&& record.label == decimal(entries[i].0 as nat)
        } by {
            if i < n - 1 {
                assert(events[i] == earlier.events[i]);
            }
        }
    }
}

/// The events of a kind that a complete walk over auxiliary data emits:
/// the metadata events, those of the native scripts, those of the compiled
/// scripts, and none of another kind.
pub open spec fn auxdata_events_of_kind(
    context: EventContextView,
    aux_data: Option<KeepRaw<AuxiliaryData>>,
    kind: EventKind,
) -> Seq<EventView> {
    match aux_data {
        None => Seq::empty(),
        Some(aux) => match kind {
            EventKind::Metadata => aux_metadata_walk(context, aux.value).events,
            EventKind::NativeScript => aux_native_script_events(
                context,
                aux_native_scripts(aux.value),
            ),
            EventKind::PlutusScript => aux_plutus_script_events(
                context,
                aux_plutus_scripts(aux.value),
            ),
            _ => Seq::empty(),
        },
    }
}

/// A complete walk over auxiliary data emits, of each kind, the events
/// that the auxiliary data has of that kind.
pub proof fn lemma_auxdata_kinds(
    context: EventContextView,
    aux_data: Option<KeepRaw<AuxiliaryData>>,
    kind: EventKind,
)
    requires
        optional_auxdata_walk(context, aux_data).failure is None,
    ensures
        of_kind(optional_auxdata_walk(context, aux_data).events, kind) == auxdata_events_of_kind(
            context,
            aux_data,
            kind,
        ),
{
    match aux_data {
        Some(aux) => {
            let metadata = aux_metadata_walk(context, aux.value);
            let native = aux_native_script_events(context, aux_native_scripts(aux.value));
            let plutus = aux_plutus_script_events(context, aux_plutus_scripts(aux.value));
            match metadata_of(aux.value) {
                Some(entries) => lemma_metadata_events(context, entries@, entries.len() as nat),
                None => {},
            }
            lemma_of_kind_add(metadata.events, native, kind);
            lemma_of_kind_add(metadata.events + native, plutus, kind);
            lemma_of_kind_all(metadata.events, EventKind::Metadata, kind);
            lemma_of_kind_all(native, EventKind::NativeScript, kind);
            lemma_of_kind_all(plutus, EventKind::PlutusScript, kind);
            assert(of_kind(optional_auxdata_walk(context, aux_data).events, kind)
                =~= auxdata_events_of_kind(context, aux_data, kind));
        },
        None => {},
    }
}

/// The events of a kind among those of a witness set of the legacy eras.
pub open spec fn witness_events_of_kind(
    context: EventContextView,
    witness_set: Option<KeepRaw<shelley::MintedWitnessSet>>,
    kind: EventKind,
) -> Seq<EventView> {
    match witness_set {
        None => Seq::empty(),
        Some(w) => match kind {
            EventKind::VKeyWitness => vkey_witness_events(context, w.value.vkeywitness),
            EventKind::NativeWitness => native_witness_events(context, w.value.native_script),
            EventKind::PlutusWitness => plutus_witness_events(context, w.value.plutus_script),
            EventKind::PlutusRedeemer => redeemer_events(context, w.value.redeemer),
            EventKind::PlutusDatum => datum_events(context, w.value.plutus_data),
            _ => Seq::empty(),
        },
    }
}

/// The events of a kind among those of a witness set of the later eras;
/// the compiled scripts of the first language version come before those of
/// the second.
pub open spec fn babbage_witness_events_of_kind(
    context: EventContextView,
    witness_set: Option<KeepRaw<babbage::MintedWitnessSet>>,
    kind: EventKind,
) -> Seq<EventView> {
    match witness_set {
        None => Seq::empty(),
        Some(w) => match kind {
            EventKind::VKeyWitness => vkey_witness_events(context, w.value.vkeywitness),
            EventKind::NativeWitness => native_witness_events(context, w.value.native_script),
            EventKind::PlutusWitness => plutus_witness_events(context, w.value.plutus_v1_script)
                + plutus_v2_witness_events(context, w.value.plutus_v2_script),
            EventKind::PlutusRedeemer => redeemer_events(context, w.value.redeemer),
            EventKind::PlutusDatum => datum_events(context, w.value.plutus_data),
            _ => Seq::empty(),
        },
    }
}

/// A witness set of the legacy eras yields, of each kind, the events of
/// the list of that kind, and none of another kind; none at all where the
/// transaction has no witness set.
pub proof fn lemma_witness_kinds(
    context: EventContextView,
    witness_set: Option<KeepRaw<shelley::MintedWitnessSet>>,
    kind: EventKind,
)
    ensures
        of_kind(optional_witness_events(context, witness_set), kind) == witness_events_of_kind(
            context,
            witness_set,
            kind,
        ),
{
    match witness_set {
        Some(w) => {
            let a = vkey_witness_events(context, w.value.vkeywitness);
            let b = native_witness_events(context, w.value.native_script);
            let c = plutus_witness_events(context, w.value.plutus_script);
            let d = redeemer_events(context, w.value.redeemer);
            let e = datum_events(context, w.value.plutus_data);
            lemma_of_kind_add(a, b, kind);
            lemma_of_kind_add(a + b, c, kind);
            lemma_of_kind_add(a + b + c, d, kind);
            lemma_of_kind_add(a + b + c + d, e, kind);
            lemma_of_kind_all(a, EventKind::VKeyWitness, kind);
            lemma_of_kind_all(b, EventKind::NativeWitness, kind);
            lemma_of_kind_all(c, EventKind::PlutusWitness, kind);
            lemma_of_kind_all(d, EventKind::PlutusRedeemer, kind);
            lemma_of_kind_all(e, EventKind::PlutusDatum, kind);
            assert(of_kind(optional_witness_events(context, witness_set), kind)
                =~= witness_events_of_kind(context, witness_set, kind));
        },
        None => {},
    }
}

/// A witness set of the later eras yields, of each kind, the events of the
/// lists of that kind, and none of another kind; none at all where the
/// transaction has no witness set.
pub proof fn lemma_babbage_witness_kinds(
    context: EventContextView,
    witness_set: Option<KeepRaw<babbage::MintedWitnessSet>>,
    kind: EventKind,
)
    ensures
        of_kind(babbage_witness_events(context, witness_set), kind)
            == babbage_witness_events_of_kind(context, witness_set, kind),
{
    match witness_set {
        Some(w) => {
            let a = vkey_witness_events(context, w.value.vkeywitness);
            let b = native_witness_events(context, w.value.native_script);
            let c = plutus_witness_events(context, w.value.plutus_v1_script);
            let d = plutus_v2_witness_events(context, w.value.plutus_v2_script);
            let e = redeemer_events(context, w.value.redeemer);
            let f = datum_events(context, w.value.plutus_data);
            lemma_of_kind_add(a, b, kind);
            lemma_of_kind_add(a + b, c, kind);
            lemma_of_kind_add(a + b + c, d, kind);
            lemma_of_kind_add(a + b + c + d, e, kind);
            lemma_of_kind_add(a + b + c + d + e, f, kind);
            lemma_of_kind_all(a, EventKind::VKeyWitness, kind);
            lemma_of_kind_all(b, EventKind::NativeWitness, kind);
            lemma_of_kind_all(c, EventKind::PlutusWitness, kind);
            lemma_of_kind_all(d, EventKind::PlutusWitness, kind);
            lemma_of_kind_all(e, EventKind::PlutusRedeemer, kind);
            lemma_of_kind_all(f, EventKind::PlutusDatum, kind);
            assert(of_kind(babbage_witness_events(context, witness_set), kind)
                =~= babbage_witness_events_of_kind(context, witness_set, kind));
        },
        None => {},
    }
}

/// The events of a kind among some events that are all of the kind `own`:
/// all of them, or none.
pub open spec fn those_of(events: Seq<EventView>, own: EventKind, kind: EventKind) -> Seq<
    EventView,
> {
    if kind == own {
        events
    } else {
        Seq::empty()
    }
}

/// The events of a kind of a complete walk over a transaction of the later eras,
/// part by part in the order of the walk: the transaction, the inputs, the
/// outputs, the certificates, the collateral inputs, the minted assets, the
/// auxiliary data, the witness set, and the end of the transaction.
pub proof fn lemma_babbage_transaction_kinds(
    context: EventContextView,
    config: Config,
    body: KeepRaw<babbage::MintedTransactionBody>,
    tx_hash: Seq<char>,
    aux_data: Option<KeepRaw<AuxiliaryData>>,
    witness_set: Option<KeepRaw<babbage::MintedWitnessSet>>,
    kind: EventKind,
)
    requires
        babbage_transaction_walk(context, config, body, tx_hash, aux_data, witness_set).failure is None,
    ensures
        babbage_transaction_record(config, body, tx_hash, aux_data, witness_set) is Ok,
        babbage_outputs_walk(context, body.value.outputs@, body.value.outputs.len() as nat).failure is None,
        optional_auxdata_walk(context, aux_data).failure is None,
        of_kind(
            babbage_transaction_walk(context, config, body, tx_hash, aux_data, witness_set).events,
            kind,
        ) == those_of(
            seq![
                event_of(
                    context,
                    EventDataView::Transaction(
                        babbage_transaction_record(config, body, tx_hash, aux_data, witness_set)->Ok_0,
                    ),
                ),
            ],
            EventKind::Transaction,
            kind,
        ) + those_of(input_events(context, body.value.inputs@), EventKind::TxInput, kind)
            + of_kind(
            babbage_outputs_walk(context, body.value.outputs@, body.value.outputs.len() as nat).events,
            kind,
        ) + those_of(
            certificate_events(context, body.value.certificates),
            EventKind::Certificate,
            kind,
        ) + those_of(collateral_events(context, body.value.collateral), EventKind::Collateral, kind)
            + those_of(mint_events(context, body.value.mint), EventKind::Mint, kind)
            + auxdata_events_of_kind(context, aux_data, kind) + babbage_witness_events_of_kind(
            context,
            witness_set,
            kind,
        ) + those_of(
            transaction_end_events(
                context,
                config,
                babbage_transaction_record(config, body, tx_hash, aux_data, witness_set)->Ok_0,
            ),
            EventKind::TransactionEnd,
            kind,
        ),
{
    let record = babbage_transaction_record(config, body, tx_hash, aux_data, witness_set)->Ok_0;
    let tx = body.value;
    let w0 = Walk::complete(seq![event_of(context, EventDataView::Transaction(record))]);
    let s1 = Walk::complete(input_events(context, tx.inputs@));
    let s2 = babbage_outputs_walk(context, tx.outputs@, tx.outputs.len() as nat);
    let s3 = Walk::complete(certificate_events(context, tx.certificates));
    let s4 = Walk::complete(collateral_events(context, tx.collateral));
    let s5 = Walk::complete(mint_events(context, tx.mint));
    let s6 = optional_auxdata_walk(context, aux_data);
    let s7 = Walk::complete(babbage_witness_events(context, witness_set));
    let s8 = Walk::complete(transaction_end_events(context, config, record));
    let w1 = w0.followed_by(s1);
    let w2 = w1.followed_by(s2);
    let w3 = w2.followed_by(s3);
    let w4 = w3.followed_by(s4);
    let w5 = w4.followed_by(s5);
    let w6 = w5.followed_by(s6);
    let w7 = w6.followed_by(s7);
    assert(babbage_transaction_walk(context, config, body, tx_hash, aux_data, witness_set)
        == w7.followed_by(s8));
    lemma_of_kind_followed_by(w0, s1, kind);
    lemma_of_kind_followed_by(w1, s2, kind);
    lemma_of_kind_followed_by(w2, s3, kind);
    lemma_of_kind_followed_by(w3, s4, kind);
    lemma_of_kind_followed_by(w4, s5, kind);
    lemma_of_kind_followed_by(w5, s6, kind);
    lemma_of_kind_followed_by(w6, s7, kind);
    lemma_of_kind_followed_by(w7, s8, kind);
    lemma_body_list_kinds(context, tx.inputs@, tx.certificates, tx.collateral, tx.mint);
    lemma_of_kind_all(w0.events, EventKind::Transaction, kind);
    lemma_of_kind_all(s1.events, EventKind::TxInput, kind);
    lemma_of_kind_all(s3.events, EventKind::Certificate, kind);
    lemma_of_kind_all(s4.events, EventKind::Collateral, kind);
    lemma_of_kind_all(s5.events, EventKind::Mint, kind);
    lemma_of_kind_all(s8.events, EventKind::TransactionEnd, kind);
    lemma_auxdata_kinds(context, aux_data, kind);
    lemma_babbage_witness_kinds(context, witness_set, kind);
}

/// A complete walk over a transaction of the later eras emits exactly one
/// metadata event for each label of the metadata, in the order of the
/// labels, each with the record of its label, whose label is the number in
/// decimal; and none where the transaction has no metadata.
pub proof fn lemma_babbage_transaction_metadata_events(
    context: EventContextView,
    config: Config,
    body: KeepRaw<babbage::MintedTransactionBody>,
    tx_hash: Seq<char>,
    aux_data: Option<KeepRaw<AuxiliaryData>>,
    witness_set: Option<KeepRaw<babbage::MintedWitnessSet>>,
)
    requires
        babbage_transaction_walk(context, config, body, tx_hash, aux_data, witness_set).failure is None,
    ensures
        ({
            let found = of_kind(
                babbage_transaction_walk(context, config, body, tx_hash, aux_data, witness_set).events,
                EventKind::Metadata,
            );
            let labels = crate::mapper::laws::metadata_label_list(aux_data);
            &&& found.len() == labels.len()
            &&& forall|i: int|
                0 <= i < labels.len() ==> {
                    &&& (#[trigger] found[i]).context == context
                    &&& found[i].data matches EventDataView::Metadata(record)
                    &&& record.label == decimal(labels[i] as nat)
                    &&& Ok::<crate::model::MetadataRecordView, crate::error::Failure>(record)
                        == metadata_record(
                        labels[i],
                        metadata_of(aux_data->Some_0.value)->Some_0@[i].1,
                    )
                }
        }),
{
    let kind = EventKind::Metadata;
    let walk = babbage_transaction_walk(context, config, body, tx_hash, aux_data, witness_set);
    lemma_babbage_transaction_kinds(context, config, body, tx_hash, aux_data, witness_set, kind);
    lemma_outputs_kinds(context, body.value.outputs@, body.value.outputs.len() as nat, kind);
    let outs = of_kind(
        babbage_outputs_walk(context, body.value.outputs@, body.value.outputs.len() as nat).events,
        kind,
    );
    assert(outs =~= Seq::<EventView>::empty());
    assert(of_kind(walk.events, kind) =~= auxdata_events_of_kind(context, aux_data, kind));
    match aux_data {
        Some(aux) => match metadata_of(aux.value) {
            Some(entries) => lemma_metadata_events(context, entries@, entries.len() as nat),
            None => {},
        },
        None => {},
    }
}

/// A complete walk over a transaction of the later eras emits, of the
/// signatures, the native scripts, the compiled scripts and the redeemers,
/// exactly the events of the witness set, list by list, and so none of
/// them where the transaction has no witness set; and it emits one datum
/// event for each output that carries inline data and one for each datum of the witness set.
pub proof fn lemma_babbage_transaction_witness_events(
    context: EventContextView,
    config: Config,
    body: KeepRaw<babbage::MintedTransactionBody>,
    tx_hash: Seq<char>,
    aux_data: Option<KeepRaw<AuxiliaryData>>,
    witness_set: Option<KeepRaw<babbage::MintedWitnessSet>>,
    kind: EventKind,
)
    requires
        babbage_transaction_walk(context, config, body, tx_hash, aux_data, witness_set).failure is None,
        kind == EventKind::VKeyWitness || kind == EventKind::NativeWitness || kind
            == EventKind::PlutusWitness || kind == EventKind::PlutusRedeemer || kind
            == EventKind::PlutusDatum,
    ensures
        kind != EventKind::PlutusDatum ==> of_kind(
            babbage_transaction_walk(context, config, body, tx_hash, aux_data, witness_set).events,
            kind,
        ) == babbage_witness_events_of_kind(context, witness_set, kind),
        kind != EventKind::PlutusDatum && witness_set is None ==> of_kind(
            babbage_transaction_walk(context, config, body, tx_hash, aux_data, witness_set).events,
            kind,
        ).len() == 0,
        kind == EventKind::PlutusDatum ==> of_kind(
            babbage_transaction_walk(context, config, body, tx_hash, aux_data, witness_set).events,
            kind,
        ).len() == inline_data_count(
            body.value.outputs@,
            body.value.outputs.len() as nat,
        ) + babbage_witness_events_of_kind(context, witness_set, kind).len(),
        kind == EventKind::PlutusDatum && witness_set is None ==> of_kind(
            babbage_transaction_walk(context, config, body, tx_hash, aux_data, witness_set).events,
            kind,
        ).len() == inline_data_count(body.value.outputs@, body.value.outputs.len() as nat),
{
    let walk = babbage_transaction_walk(context, config, body, tx_hash, aux_data, witness_set);
    lemma_babbage_transaction_kinds(context, config, body, tx_hash, aux_data, witness_set, kind);
    lemma_outputs_kinds(context, body.value.outputs@, body.value.outputs.len() as nat, kind);
    let outs = of_kind(
        babbage_outputs_walk(context, body.value.outputs@, body.value.outputs.len() as nat).events,
        kind,
    );
    if kind != EventKind::PlutusDatum {
        assert(outs =~= Seq::<EventView>::empty());
        assert(of_kind(walk.events, kind) =~= babbage_witness_events_of_kind(context, witness_set, kind));
    }
}

/// A complete walk over a transaction of the later eras begins with the event
/// of the transaction, which is its only transaction event; it emits the
/// end of the transaction, with the same record, where that is asked for
/// and else no such event; and it emits no event of a block.
pub proof fn lemma_babbage_transaction_marks(
    context: EventContextView,
    config: Config,
    body: KeepRaw<babbage::MintedTransactionBody>,
    tx_hash: Seq<char>,
    aux_data: Option<KeepRaw<AuxiliaryData>>,
    witness_set: Option<KeepRaw<babbage::MintedWitnessSet>>,
)
    requires
        babbage_transaction_walk(context, config, body, tx_hash, aux_data, witness_set).failure is None,
    ensures
        ({
            let events = babbage_transaction_walk(
                context,
                config,
                body,
                tx_hash,
                aux_data,
                witness_set,
            ).events;
            let record = babbage_transaction_record(config, body, tx_hash, aux_data, witness_set)->Ok_0;
            let first = event_of(context, EventDataView::Transaction(record));
            &&& babbage_transaction_record(config, body, tx_hash, aux_data, witness_set) is Ok
            &&& events.len() > 0
            &&& events[0] == first
            &&& of_kind(events, EventKind::Transaction) == seq![first]
            &&& of_kind(events, EventKind::TransactionEnd) == transaction_end_events(
                context,
                config,
                record,
            )
            &&& of_kind(events, EventKind::Block).len() == 0
            &&& of_kind(events, EventKind::BlockEnd).len() == 0
        }),
{
    let walk = babbage_transaction_walk(context, config, body, tx_hash, aux_data, witness_set);
    let n = body.value.outputs.len() as nat;
    let outs = babbage_outputs_walk(context, body.value.outputs@, n);
    lemma_babbage_transaction_kinds(
        context,
        config,
        body,
        tx_hash,
        aux_data,
        witness_set,
        EventKind::Transaction,
    );
    lemma_outputs_kinds(context, body.value.outputs@, n, EventKind::Transaction);
    assert(of_kind(outs.events, EventKind::Transaction) =~= Seq::<EventView>::empty());
    lemma_babbage_transaction_kinds(
        context,
        config,
        body,
        tx_hash,
        aux_data,
        witness_set,
        EventKind::TransactionEnd,
    );
    lemma_outputs_kinds(context, body.value.outputs@, n, EventKind::TransactionEnd);
    assert(of_kind(outs.events, EventKind::TransactionEnd) =~= Seq::<EventView>::empty());
    lemma_babbage_transaction_kinds(
        context,
        config,
        body,
        tx_hash,
        aux_data,
        witness_set,
        EventKind::Block,
    );
    lemma_outputs_kinds(context, body.value.outputs@, n, EventKind::Block);
    assert(of_kind(outs.events, EventKind::Block) =~= Seq::<EventView>::empty());
    lemma_babbage_transaction_kinds(
        context,
        config,
        body,
        tx_hash,
        aux_data,
        witness_set,
        EventKind::BlockEnd,
    );
    lemma_outputs_kinds(context, body.value.outputs@, n, EventKind::BlockEnd);
    assert(of_kind(outs.events, EventKind::BlockEnd) =~= Seq::<EventView>::empty());
    let record = babbage_transaction_record(config, body, tx_hash, aux_data, witness_set)->Ok_0;
    let first = event_of(context, EventDataView::Transaction(record));
    assert(of_kind(walk.events, EventKind::Transaction) =~= seq![first]);
    assert(of_kind(walk.events, EventKind::TransactionEnd) =~= transaction_end_events(
        context,
        config,
        record,
    ));
    assert(of_kind(walk.events, EventKind::Block) =~= Seq::<EventView>::empty());
    assert(of_kind(walk.events, EventKind::BlockEnd) =~= Seq::<EventView>::empty());
}

/// The events of a kind of a complete walk over a transaction of the legacy eras,
/// part by part in the order of the walk: the transaction, the inputs, the
/// outputs, the certificates, the collateral inputs, the minted assets, the
/// auxiliary data, the witness set, and the end of the transaction.
pub proof fn lemma_transaction_kinds(
    context: EventContextView,
    config: Config,
    body: KeepRaw<shelley::TransactionBody>,
    tx_hash: Seq<char>,
    aux_data: Option<KeepRaw<AuxiliaryData>>,
    witness_set: Option<KeepRaw<shelley::MintedWitnessSet>>,
    kind: EventKind,
)
    requires
        transaction_walk(context, config, body, tx_hash, aux_data, witness_set).failure is None,
    ensures
        transaction_record(config, body, tx_hash, aux_data, witness_set) is Ok,
        legacy_outputs_walk(context, body.value.outputs@, body.value.outputs.len() as nat).failure is None,
        optional_auxdata_walk(context, aux_data).failure is None,
        of_kind(
            transaction_walk(context, config, body, tx_hash, aux_data, witness_set).events,
            kind,
        ) == those_of(
            seq![
                event_of(
                    context,
                    EventDataView::Transaction(
                        transaction_record(config, body, tx_hash, aux_data, witness_set)->Ok_0,
                    ),
                ),
            ],
            EventKind::Transaction,
            kind,
        ) + those_of(input_events(context, body.value.inputs@), EventKind::TxInput, kind)
            + of_kind(
            legacy_outputs_walk(context, body.value.outputs@, body.value.outputs.len() as nat).events,
            kind,
        ) + those_of(
            certificate_events(context, body.value.certificates),
            EventKind::Certificate,
            kind,
        ) + those_of(collateral_events(context, body.value.collateral), EventKind::Collateral, kind)
            + those_of(mint_events(context, body.value.mint), EventKind::Mint, kind)
            + auxdata_events_of_kind(context, aux_data, kind) + witness_events_of_kind(
            context,
            witness_set,
            kind,
        ) + those_of(
            transaction_end_events(
                context,
                config,
                transaction_record(config, body, tx_hash, aux_data, witness_set)->Ok_0,
            ),
            EventKind::TransactionEnd,
            kind,
        ),
{
    let record = transaction_record(config, body, tx_hash, aux_data, witness_set)->Ok_0;
    let tx = body.value;
    let w0 = Walk::complete(seq![event_of(context, EventDataView::Transaction(record))]);
    let s1 = Walk::complete(input_events(context, tx.inputs@));
    let s2 = legacy_outputs_walk(context, tx.outputs@, tx.outputs.len() as nat);
    let s3 = Walk::complete(certificate_events(context, tx.certificates));
    let s4 = Walk::complete(collateral_events(context, tx.collateral));
    let s5 = Walk::complete(mint_events(context, tx.mint));
    let s6 = optional_auxdata_walk(context, aux_data);
    let s7 = Walk::complete(optional_witness_events(context, witness_set));
    let s8 = Walk::complete(transaction_end_events(context, config, record));
    let w1 = w0.followed_by(s1);
    let w2 = w1.followed_by(s2);
    let w3 = w2.followed_by(s3);
    let w4 = w3.followed_by(s4);
    let w5 = w4.followed_by(s5);
    let w6 = w5.followed_by(s6);
    let w7 = w6.followed_by(s7);
    assert(transaction_walk(context, config, body, tx_hash, aux_data, witness_set)
        == w7.followed_by(s8));
    lemma_of_kind_followed_by(w0, s1, kind);
    lemma_of_kind_followed_by(w1, s2, kind);
    lemma_of_kind_followed_by(w2, s3, kind);
    lemma_of_kind_followed_by(w3, s4, kind);
    lemma_of_kind_followed_by(w4, s5, kind);
    lemma_of_kind_followed_by(w5, s6, kind);
    lemma_of_kind_followed_by(w6, s7, kind);
    lemma_of_kind_followed_by(w7, s8, kind);
    lemma_body_list_kinds(context, tx.inputs@, tx.certificates, tx.collateral, tx.mint);
    lemma_of_kind_all(w0.events, EventKind::Transaction, kind);
    lemma_of_kind_all(s1.events, EventKind::TxInput, kind);
    lemma_of_kind_all(s3.events, EventKind::Certificate, kind);
    lemma_of_kind_all(s4.events, EventKind::Collateral, kind);
    lemma_of_kind_all(s5.events, EventKind::Mint, kind);
    lemma_of_kind_all(s8.events, EventKind::TransactionEnd, kind);
    lemma_auxdata_kinds(context, aux_data, kind);
    lemma_witness_kinds(context, witness_set, kind);
}

/// A complete walk over a transaction of the legacy eras emits exactly one
/// metadata event for each label of the metadata, in the order of the
/// labels, each with the record of its label, whose label is the number in
/// decimal; and none where the transaction has no metadata.
pub proof fn lemma_transaction_metadata_events(
    context: EventContextView,
    config: Config,
    body: KeepRaw<shelley::TransactionBody>,
    tx_hash: Seq<char>,
    aux_data: Option<KeepRaw<AuxiliaryData>>,
    witness_set: Option<KeepRaw<shelley::MintedWitnessSet>>,
)
    requires
        transaction_walk(context, config, body, tx_hash, aux_data, witness_set).failure is None,
    ensures
        ({
            let found = of_kind(
                transaction_walk(context, config, body, tx_hash, aux_data, witness_set).events,
                EventKind::Metadata,
            );
            let labels = crate::mapper::laws::metadata_label_list(aux_data);
            &&& found.len() == labels.len()
            &&& forall|i: int|
                0 <= i < labels.len() ==> {
                    &&& (#[trigger] found[i]).context == context
                    &&& found[i].data matches EventDataView::Metadata(record)
                    &&& record.label == decimal(labels[i] as nat)
                    &&& Ok::<crate::model::MetadataRecordView, crate::error::Failure>(record)
                        == metadata_record(
                        labels[i],
                        metadata_of(aux_data->Some_0.value)->Some_0@[i].1,
                    )
                }
        }),
{
    let kind = EventKind::Metadata;
    let walk = transaction_walk(context, config, body, tx_hash, aux_data, witness_set);
    lemma_transaction_kinds(context, config, body, tx_hash, aux_data, witness_set, kind);
    lemma_legacy_outputs_kinds(context, body.value.outputs@, body.value.outputs.len() as nat, kind);
    let outs = of_kind(
        legacy_outputs_walk(context, body.value.outputs@, body.value.outputs.len() as nat).events,
        kind,
    );
    assert(outs =~= Seq::<EventView>::empty());
    assert(of_kind(walk.events, kind) =~= auxdata_events_of_kind(context, aux_data, kind));
    match aux_data {
        Some(aux) => match metadata_of(aux.value) {
            Some(entries) => lemma_metadata_events(context, entries@, entries.len() as nat),
            None => {},
        },
        None => {},
    }
}

/// A complete walk over a transaction of the legacy eras emits, of the
/// signatures, the native scripts, the compiled scripts and the redeemers,
/// exactly the events of the witness set, list by list, and so none of
/// them where the transaction has no witness set; and it emits one datum
/// event for each datum of the witness set.
pub proof fn lemma_transaction_witness_events(
    context: EventContextView,
    config: Config,
    body: KeepRaw<shelley::TransactionBody>,
    tx_hash: Seq<char>,
    aux_data: Option<KeepRaw<AuxiliaryData>>,
    witness_set: Option<KeepRaw<shelley::MintedWitnessSet>>,
    kind: EventKind,
)
    requires
        transaction_walk(context, config, body, tx_hash, aux_data, witness_set).failure is None,
        kind == EventKind::VKeyWitness || kind == EventKind::NativeWitness || kind
            == EventKind::PlutusWitness || kind == EventKind::PlutusRedeemer || kind
            == EventKind::PlutusDatum,
    ensures
        kind != EventKind::PlutusDatum ==> of_kind(
            transaction_walk(context, config, body, tx_hash, aux_data, witness_set).events,
            kind,
        ) == witness_events_of_kind(context, witness_set, kind),
        kind != EventKind::PlutusDatum && witness_set is None ==> of_kind(
            transaction_walk(context, config, body, tx_hash, aux_data, witness_set).events,
            kind,
        ).len() == 0,
        kind == EventKind::PlutusDatum ==> of_kind(
            transaction_walk(context, config, body, tx_hash, aux_data, witness_set).events,
            kind,
        ).len() == witness_events_of_kind(context, witness_set, kind).len(),
        kind == EventKind::PlutusDatum && witness_set is None ==> of_kind(
            transaction_walk(context, config, body, tx_hash, aux_data, witness_set).events,
            kind,
        ).len() == 0,
{
    let walk = transaction_walk(context, config, body, tx_hash, aux_data, witness_set);
    lemma_transaction_kinds(context, config, body, tx_hash, aux_data, witness_set, kind);
    lemma_legacy_outputs_kinds(context, body.value.outputs@, body.value.outputs.len() as nat, kind);
    let outs = of_kind(
        legacy_outputs_walk(context, body.value.outputs@, body.value.outputs.len() as nat).events,
        kind,
    );
    if kind != EventKind::PlutusDatum {
        assert(outs =~= Seq::<EventView>::empty());
        assert(of_kind(walk.events, kind) =~= witness_events_of_kind(context, witness_set, kind));
    }
}

/// A complete walk over a transaction of the legacy eras begins with the event
/// of the transaction, which is its only transaction event; it emits the
/// end of the transaction, with the same record, where that is asked for
/// and else no such event; and it emits no event of a block.
pub proof fn lemma_transaction_marks(
    context: EventContextView,
    config: Config,
    body: KeepRaw<shelley::TransactionBody>,
    tx_hash: Seq<char>,
    aux_data: Option<KeepRaw<AuxiliaryData>>,
    witness_set: Option<KeepRaw<shelley::MintedWitnessSet>>,
)
    requires
        transaction_walk(context, config, body, tx_hash, aux_data, witness_set).failure is None,
    ensures
        ({
            let events = transaction_walk(
                context,
                config,
                body,
                tx_hash,
                aux_data,
                witness_set,
            ).events;
            let record = transaction_record(config, body, tx_hash, aux_data, witness_set)->Ok_0;
            let first = event_of(context, EventDataView::Transaction(record));
            &&& transaction_record(config, body, tx_hash, aux_data, witness_set) is Ok
            &&& events.len() > 0
            &&& events[0] == first
            &&& of_kind(events, EventKind::Transaction) == seq![first]
            &&& of_kind(events, EventKind::TransactionEnd) == transaction_end_events(
                context,
                config,
                record,
            )
            &&& of_kind(events, EventKind::Block).len() == 0
            &&& of_kind(events, EventKind::BlockEnd).len() == 0
        }),
{
    let walk = transaction_walk(context, config, body, tx_hash, aux_data, witness_set);
    let n = body.value.outputs.len() as nat;
    let outs = legacy_outputs_walk(context, body.value.outputs@, n);
    lemma_transaction_kinds(
        context,
        config,
        body,
        tx_hash,
        aux_data,
        witness_set,
        EventKind::Transaction,
    );
    lemma_legacy_outputs_kinds(context, body.value.outputs@, n, EventKind::Transaction);
    assert(of_kind(outs.events, EventKind::Transaction) =~= Seq::<EventView>::empty());
    lemma_transaction_kinds(
        context,
        config,
        body,
        tx_hash,
        aux_data,
        witness_set,
        EventKind::TransactionEnd,
    );
    lemma_legacy_outputs_kinds(context, body.value.outputs@, n, EventKind::TransactionEnd);
    assert(of_kind(outs.events, EventKind::TransactionEnd) =~= Seq::<EventView>::empty());
    lemma_transaction_kinds(
        context,
        config,
        body,
        tx_hash,
        aux_data,
        witness_set,
        EventKind::Block,
    );
    lemma_legacy_outputs_kinds(context, body.value.outputs@, n, EventKind::Block);
    assert(of_kind(outs.events, EventKind::Block) =~= Seq::<EventView>::empty());
    lemma_transaction_kinds(
        context,
        config,
        body,
        tx_hash,
        aux_data,
        witness_set,
        EventKind::BlockEnd,
    );
    lemma_legacy_outputs_kinds(context, body.value.outputs@, n, EventKind::BlockEnd);
    assert(of_kind(outs.events, EventKind::BlockEnd) =~= Seq::<EventView>::empty());
    let record = transaction_record(config, body, tx_hash, aux_data, witness_set)->Ok_0;
    let first = event_of(context, EventDataView::Transaction(record));
    assert(of_kind(walk.events, EventKind::Transaction) =~= seq![first]);
    assert(of_kind(walk.events, EventKind::TransactionEnd) =~= transaction_end_events(
        context,
        config,
        record,
    ));
    assert(of_kind(walk.events, EventKind::Block) =~= Seq::<EventView>::empty());
    assert(of_kind(walk.events, EventKind::BlockEnd) =~= Seq::<EventView>::empty());
}

/// How many events of a kind that marks a block or a transaction a
/// complete walk over `n` transactions emits: one for each transaction,
/// one for the end of each where that is asked for, and none of a block.
pub open spec fn marks_among_transactions(config: Config, n: nat, kind: EventKind) -> nat {
    match kind {
        EventKind::Transaction => n,
        EventKind::TransactionEnd => if config.include_transaction_end_events {
            n
        } else {
            0
        },
        _ => 0,
    }
}

/// Whether a kind marks the beginning or the end of a block or of a
/// transaction.
pub open spec fn is_mark(kind: EventKind) -> bool {
    kind == EventKind::Block || kind == EventKind::BlockEnd || kind == EventKind::Transaction
        || kind == EventKind::TransactionEnd
}

/// A complete walk over the first `n` transactions of a block of
/// the later eras emits one transaction event for each of them, one end of a
/// transaction for each where that is asked for and else none, and no
/// event of a block.
pub proof fn lemma_babbage_txs_marks(
    context: EventContextView,
    config: Config,
    block: babbage::MintedBlock,
    n: nat,
    kind: EventKind,
)
    requires
        n <= block.transaction_bodies.len(),
        babbage_txs_walk(context, config, block, n).failure is None,
        is_mark(kind),
    ensures
        of_kind(babbage_txs_walk(context, config, block, n).events, kind).len()
            == marks_among_transactions(config, n, kind),
    decreases n,
{
    if n > 0 {
        let earlier = babbage_txs_walk(context, config, block, (n - 1) as nat);
        let last = babbage_tx_walk(context, config, block, n - 1);
        lemma_babbage_txs_marks(context, config, block, (n - 1) as nat, kind);
        lemma_of_kind_followed_by(earlier, last, kind);
        lemma_babbage_transaction_marks(
            context.child(
                crate::mapper::crawl::at_transaction(
                    (n - 1) as usize,
                    crate::mapper::shelley::tx_hash_text(block.transaction_bodies@[n - 1]),
                ),
            ),
            config,
            block.transaction_bodies@[n - 1],
            crate::mapper::shelley::tx_hash_text(block.transaction_bodies@[n - 1]),
            crate::mapper::shelley::aux_data_at(block.auxiliary_data_set@, n - 1),
            crate::mapper::shelley::section_at(block.transaction_witness_sets@, n - 1),
        );
    }
}

/// A complete walk over a block of the later eras begins with the event of
/// the block, which is its only block event; it emits one transaction
/// event for each transaction of the block; it emits the end of each
/// transaction where that is asked for and else no such event; and it
/// emits the end of the block, with the same record as its beginning,
/// where that is asked for and else no such event. The record counts the
/// transactions of the block; it lists them only with
/// `include_block_details` and carries the encoding only with
/// `include_block_cbor`.
pub proof fn lemma_babbage_block_walk_marks(
    context: EventContextView,
    config: Config,
    time: Option<SlotTime>,
    block: babbage::MintedBlock,
    hash: Seq<u8>,
    cbor: Seq<u8>,
)
    requires
        babbage_block_walk(context, config, time, block, hash, cbor).failure is None,
    ensures
        ({
            let events = babbage_block_walk(context, config, time, block, hash, cbor).events;
            let record = babbage_block_record(config, time, block, hash, cbor)->Ok_0;
            let first = event_of(context, EventDataView::Block(record));
            &&& babbage_block_record(config, time, block, hash, cbor) is Ok
            &&& record.tx_count == block.transaction_bodies.len()
            &&& record.transactions is Some <==> config.include_block_details
            &&& record.cbor_hex is Some <==> config.include_block_cbor
            &&& events.len() > 0
            &&& events[0] == first
            &&& of_kind(events, EventKind::Block) == seq![first]
            &&& of_kind(events, EventKind::BlockEnd) == block_end_events(context, config, record)
            &&& of_kind(events, EventKind::Transaction).len() == block.transaction_bodies.len()
            &&& of_kind(events, EventKind::TransactionEnd).len() == if config.include_transaction_end_events {
                block.transaction_bodies.len() as nat
            } else {
                0
            }
        }),
{
    let walk = babbage_block_walk(context, config, time, block, hash, cbor);
    let record = babbage_block_record(config, time, block, hash, cbor)->Ok_0;
    let first = event_of(context, EventDataView::Block(record));
    let n = block.transaction_bodies.len() as nat;
    let w0 = Walk::complete(seq![first]);
    let txs = babbage_txs_walk(context, config, block, n);
    let end = Walk::complete(block_end_events(context, config, record));
    let w1 = w0.followed_by(txs);
    assert(walk == w1.followed_by(end));
    lemma_of_kind_followed_by(w0, txs, EventKind::Block);
    lemma_of_kind_followed_by(w1, end, EventKind::Block);
    lemma_of_kind_all(w0.events, EventKind::Block, EventKind::Block);
    lemma_of_kind_all(end.events, EventKind::BlockEnd, EventKind::Block);
    lemma_babbage_txs_marks(context, config, block, n, EventKind::Block);
    lemma_of_kind_followed_by(w0, txs, EventKind::BlockEnd);
    lemma_of_kind_followed_by(w1, end, EventKind::BlockEnd);
    lemma_of_kind_all(w0.events, EventKind::Block, EventKind::BlockEnd);
    lemma_of_kind_all(end.events, EventKind::BlockEnd, EventKind::BlockEnd);
    lemma_babbage_txs_marks(context, config, block, n, EventKind::BlockEnd);
    lemma_of_kind_followed_by(w0, txs, EventKind::Transaction);
    lemma_of_kind_followed_by(w1, end, EventKind::Transaction);
    lemma_of_kind_all(w0.events, EventKind::Block, EventKind::Transaction);
    lemma_of_kind_all(end.events, EventKind::BlockEnd, EventKind::Transaction);
    lemma_babbage_txs_marks(context, config, block, n, EventKind::Transaction);
    lemma_of_kind_followed_by(w0, txs, EventKind::TransactionEnd);
    lemma_of_kind_followed_by(w1, end, EventKind::TransactionEnd);
    lemma_of_kind_all(w0.events, EventKind::Block, EventKind::TransactionEnd);
    lemma_of_kind_all(end.events, EventKind::BlockEnd, EventKind::TransactionEnd);
    lemma_babbage_txs_marks(context, config, block, n, EventKind::TransactionEnd);
    assert(of_kind(txs.events, EventKind::Block) =~= Seq::<EventView>::empty());
    assert(of_kind(txs.events, EventKind::BlockEnd) =~= Seq::<EventView>::empty());
    assert(of_kind(walk.events, EventKind::Block) =~= seq![first]);
    assert(of_kind(walk.events, EventKind::BlockEnd) =~= block_end_events(
        context,
        config,
        record,
    ));
    assert(of_kind(walk.events, EventKind::Transaction) =~= of_kind(
        txs.events,
        EventKind::Transaction,
    ));
    assert(of_kind(walk.events, EventKind::TransactionEnd) =~= of_kind(
        txs.events,
        EventKind::TransactionEnd,
    ));
}

/// A complete walk over the first `n` transactions of a block of
/// the legacy eras emits one transaction event for each of them, one end of a
/// transaction for each where that is asked for and else none, and no
/// event of a block.
pub proof fn lemma_shelley_txs_marks(
    context: EventContextView,
    config: Config,
    block: shelley::MintedBlock,
    n: nat,
    kind: EventKind,
)
    requires
        n <= block.transaction_bodies.len(),
        shelley_txs_walk(context, config, block, n).failure is None,
        is_mark(kind),
    ensures
        of_kind(shelley_txs_walk(context, config, block, n).events, kind).len()
            == marks_among_transactions(config, n, kind),
    decreases n,
{
    if n > 0 {
        let earlier = shelley_txs_walk(context, config, block, (n - 1) as nat);
        let last = shelley_tx_walk(context, config, block, n - 1);
        lemma_shelley_txs_marks(context, config, block, (n - 1) as nat, kind);
        lemma_of_kind_followed_by(earlier, last, kind);
        lemma_transaction_marks(
            context.child(
                crate::mapper::crawl::at_transaction(
                    (n - 1) as usize,
                    crate::mapper::shelley::tx_hash_text(block.transaction_bodies@[n - 1]),
                ),
            ),
            config,
            block.transaction_bodies@[n - 1],
            crate::mapper::shelley::tx_hash_text(block.transaction_bodies@[n - 1]),
            crate::mapper::shelley::aux_data_at(block.auxiliary_data_set@, n - 1),
            crate::mapper::shelley::section_at(block.transaction_witness_sets@, n - 1),
        );
    }
}

/// A complete walk over a block of the legacy eras begins with the event of
/// the block, which is its only block event; it emits one transaction
/// event for each transaction of the block; it emits the end of each
/// transaction where that is asked for and else no such event; and it
/// emits the end of the block, with the same record as its beginning,
/// where that is asked for and else no such event. The record counts the
/// transactions of the block; it lists them only with
/// `include_block_details` and carries the encoding only with
/// `include_block_cbor`.
pub proof fn lemma_block_walk_marks(
    context: EventContextView,
    config: Config,
    time: Option<SlotTime>,
    block: shelley::MintedBlock,
    hash: Seq<u8>,
    cbor: Seq<u8>,
    era: Era,
)
    requires
        block_walk(context, config, time, block, hash, cbor, era).failure is None,
    ensures
        ({
            let events = block_walk(context, config, time, block, hash, cbor, era).events;
            let record = block_record(config, time, block, hash, cbor, era)->Ok_0;
            let first = event_of(context, EventDataView::Block(record));
            &&& block_record(config, time, block, hash, cbor, era) is Ok
            &&& record.tx_count == block.transaction_bodies.len()
            &&& record.transactions is Some <==> config.include_block_details
            &&& record.cbor_hex is Some <==> config.include_block_cbor
            &&& events.len() > 0
            &&& events[0] == first
            &&& of_kind(events, EventKind::Block) == seq![first]
            &&& of_kind(events, EventKind::BlockEnd) == block_end_events(context, config, record)
            &&& of_kind(events, EventKind::Transaction).len() == block.transaction_bodies.len()
            &&& of_kind(events, EventKind::TransactionEnd).len() == if config.include_transaction_end_events {
                block.transaction_bodies.len() as nat
            } else {
                0
            }
        }),
{
    let walk = block_walk(context, config, time, block, hash, cbor, era);
    let record = block_record(config, time, block, hash, cbor, era)->Ok_0;
    let first = event_of(context, EventDataView::Block(record));
    let n = block.transaction_bodies.len() as nat;
    let w0 = Walk::complete(seq![first]);
    let txs = shelley_txs_walk(context, config, block, n);
    let end = Walk::complete(block_end_events(context, config, record));
    let w1 = w0.followed_by(txs);
    assert(walk == w1.followed_by(end));
    lemma_of_kind_followed_by(w0, txs, EventKind::Block);
    lemma_of_kind_followed_by(w1, end, EventKind::Block);
    lemma_of_kind_all(w0.events, EventKind::Block, EventKind::Block);
    lemma_of_kind_all(end.events, EventKind::BlockEnd, EventKind::Block);
    lemma_shelley_txs_marks(context, config, block, n, EventKind::Block);
    lemma_of_kind_followed_by(w0, txs, EventKind::BlockEnd);
    lemma_of_kind_followed_by(w1, end, EventKind::BlockEnd);
    lemma_of_kind_all(w0.events, EventKind::Block, EventKind::BlockEnd);
    lemma_of_kind_all(end.events, EventKind::BlockEnd, EventKind::BlockEnd);
    lemma_shelley_txs_marks(context, config, block, n, EventKind::BlockEnd);
    lemma_of_kind_followed_by(w0, txs, EventKind::Transaction);
    lemma_of_kind_followed_by(w1, end, EventKind::Transaction);
    lemma_of_kind_all(w0.events, EventKind::Block, EventKind::Transaction);
    lemma_of_kind_all(end.events, EventKind::BlockEnd, EventKind::Transaction);
    lemma_shelley_txs_marks(context, config, block, n, EventKind::Transaction);
    lemma_of_kind_followed_by(w0, txs, EventKind::TransactionEnd);
    lemma_of_kind_followed_by(w1, end, EventKind::TransactionEnd);
    lemma_of_kind_all(w0.events, EventKind::Block, EventKind::TransactionEnd);
    lemma_of_kind_all(end.events, EventKind::BlockEnd, EventKind::TransactionEnd);
    lemma_shelley_txs_marks(context, config, block, n, EventKind::TransactionEnd);
    assert(of_kind(txs.events, EventKind::Block) =~= Seq::<EventView>::empty());
    assert(of_kind(txs.events, EventKind::BlockEnd) =~= Seq::<EventView>::empty());
    assert(of_kind(walk.events, EventKind::Block) =~= seq![first]);
    assert(of_kind(walk.events, EventKind::BlockEnd) =~= block_end_events(
        context,
        config,
        record,
    ));
    assert(of_kind(walk.events, EventKind::Transaction) =~= of_kind(
        txs.events,
        EventKind::Transaction,
    ));
    assert(of_kind(walk.events, EventKind::TransactionEnd) =~= of_kind(
        txs.events,
        EventKind::TransactionEnd,
    ));
}

} // verus!
