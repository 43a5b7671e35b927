//! The unified records: one schema for the blocks of every era, and the
//! events that a walk over a block emits.
//!
//! Each record has a view, a mathematical value of the same shape in which
//! a text is a sequence of characters and a list is a sequence. Contracts
//! speak of views.
use crate::json::{json_model, JsonModel};
use crate::views::{keyed, opt_view, opt_views, views};
use vstd::prelude::*;

verus! {

/// Which protocol schema a block came from.
#[derive(Debug, Copy, Clone, PartialEq, Eq, PartialOrd, Ord, Structural)]
pub enum Era {
    Undefined,
    Unknown,
    Byron,
    Shelley,
    Allegra,
    Mary,
    Alonzo,
    Babbage,
}

impl Era {
    /// The era's name as a spec text.
    pub open spec fn name(self) -> Seq<char> {
        match self {
            Era::Undefined => "Undefined"@,
            Era::Unknown => "Unknown"@,
            Era::Byron => "Byron"@,
            Era::Shelley => "Shelley"@,
            Era::Allegra => "Allegra"@,
            Era::Mary => "Mary"@,
            Era::Alonzo => "Alonzo"@,
            Era::Babbage => "Babbage"@,
        }
    }

    /// The era's name.
    pub fn to_text(&self) -> (text: String)
        ensures
            text@ == self.name(),
    {
        match self {
            Era::Undefined => "Undefined".to_owned(),
            Era::Unknown => "Unknown".to_owned(),
            Era::Byron => "Byron".to_owned(),
            Era::Shelley => "Shelley".to_owned(),
            Era::Allegra => "Allegra".to_owned(),
            Era::Mary => "Mary".to_owned(),
            Era::Alonzo => "Alonzo".to_owned(),
            Era::Babbage => "Babbage".to_owned(),
        }
    }
}

/// How the content of one metadata label is rendered.
#[derive(Debug, Clone, PartialEq, Eq)]
pub enum MetadatumRendition {
    MapJson(serde_json::Value),
    ArrayJson(serde_json::Value),
    IntScalar(i128),
    TextScalar(String),
    BytesHex(String),
}

pub enum MetadatumRenditionView {
    MapJson(JsonModel),
    ArrayJson(JsonModel),
    IntScalar(i128),
    TextScalar(Seq<char>),
    BytesHex(Seq<char>),
}

impl View for MetadatumRendition {
    type V = MetadatumRenditionView;

    open spec fn view(&self) -> MetadatumRenditionView {
        match *self {
            MetadatumRendition::MapJson(x) => MetadatumRenditionView::MapJson(json_model(x)),
            MetadatumRendition::ArrayJson(x) => MetadatumRenditionView::ArrayJson(json_model(x)),
            MetadatumRendition::IntScalar(x) => MetadatumRenditionView::IntScalar(x),
            MetadatumRendition::TextScalar(x) => MetadatumRenditionView::TextScalar(x@),
            MetadatumRendition::BytesHex(x) => MetadatumRenditionView::BytesHex(x@),
        }
    }
}

#[derive(Debug, Clone, PartialEq, Eq)]
pub struct MetadataRecord {
    pub label: String,
    pub content: MetadatumRendition,
}

pub struct MetadataRecordView {
    pub label: Seq<char>,
    pub content: MetadatumRenditionView,
}

impl View for MetadataRecord {
    type V = MetadataRecordView;

    open spec fn view(&self) -> MetadataRecordView {
        MetadataRecordView { label: self.label@, content: self.content@ }
    }
}

#[derive(Debug, Clone)]
pub struct CIP25AssetRecord {
    pub version: String,
    pub policy: String,
    pub asset: String,
    pub name: Option<String>,
    pub image: Option<String>,
    pub media_type: Option<String>,
    pub description: Option<String>,
    pub raw_json: serde_json::Value,
}

pub struct CIP25AssetRecordView {
    pub version: Seq<char>,
    pub policy: Seq<char>,
    pub asset: Seq<char>,
    pub name: Option<Seq<char>>,
    pub image: Option<Seq<char>>,
    pub media_type: Option<Seq<char>>,
    pub description: Option<Seq<char>>,
    pub raw_json: JsonModel,
}

impl View for CIP25AssetRecord {
    type V = CIP25AssetRecordView;

    open spec fn view(&self) -> CIP25AssetRecordView {
        CIP25AssetRecordView {
            version: self.version@,
            policy: self.policy@,
            asset: self.asset@,
            name: opt_view(self.name),
            image: opt_view(self.image),
            media_type: opt_view(self.media_type),
            description: opt_view(self.description),
            raw_json: json_model(self.raw_json),
        }
    }
}

#[derive(Debug, Clone, PartialEq, Eq)]
pub struct CIP15AssetRecord {
    pub voting_key: String,
    pub stake_pub: String,
    pub reward_address: String,
    pub nonce: i64,
    pub raw_json: serde_json::Value,
}

pub struct CIP15AssetRecordView {
    pub voting_key: Seq<char>,
    pub stake_pub: Seq<char>,
    pub reward_address: Seq<char>,
    pub nonce: i64,
    pub raw_json: JsonModel,
}

impl View for CIP15AssetRecord {
    type V = CIP15AssetRecordView;

    open spec fn view(&self) -> CIP15AssetRecordView {
        CIP15AssetRecordView {
            voting_key: self.voting_key@,
            stake_pub: self.stake_pub@,
            reward_address: self.reward_address@,
            nonce: self.nonce,
            raw_json: json_model(self.raw_json),
        }
    }
}

#[derive(Debug, Clone, PartialEq, Eq)]
pub struct TxInputRecord {
    pub tx_id: String,
    pub index: u64,
}

pub struct TxInputRecordView {
    pub tx_id: Seq<char>,
    pub index: u64,
}

impl View for TxInputRecord {
    type V = TxInputRecordView;

    open spec fn view(&self) -> TxInputRecordView {
        TxInputRecordView { tx_id: self.tx_id@, index: self.index }
    }
}

#[derive(Debug, Clone, PartialEq, Eq, PartialOrd, Ord)]
pub struct OutputAssetRecord {
    pub policy: String,
    pub asset: String,
    pub asset_ascii: Option<String>,
    pub amount: u64,
}

pub struct OutputAssetRecordView {
    pub policy: Seq<char>,
    pub asset: Seq<char>,
    pub asset_ascii: Option<Seq<char>>,
    pub amount: u64,
}

impl View for OutputAssetRecord {
    type V = OutputAssetRecordView;

    open spec fn view(&self) -> OutputAssetRecordView {
        OutputAssetRecordView {
            policy: self.policy@,
            asset: self.asset@,
            asset_ascii: opt_view(self.asset_ascii),
            amount: self.amount,
        }
    }
}

#[derive(Debug, Clone, PartialEq, Eq)]
pub struct PlutusDatumRecord {
    pub datum_hash: String,
    pub plutus_data: serde_json::Value,
}

pub struct PlutusDatumRecordView {
    pub datum_hash: Seq<char>,
    pub plutus_data: JsonModel,
}

impl View for PlutusDatumRecord {
    type V = PlutusDatumRecordView;

    open spec fn view(&self) -> PlutusDatumRecordView {
        PlutusDatumRecordView {
            datum_hash: self.datum_hash@,
            plutus_data: json_model(self.plutus_data),
        }
    }
}

/// A script that an output carries along.
#[derive(Debug, Clone, PartialEq, Eq)]
pub enum ScriptRefRecord {
    PlutusV1 { script_hash: String, script_hex: String },
    PlutusV2 { script_hash: String, script_hex: String },
    PlutusV3 { script_hash: String, script_hex: String },
    NativeScript { policy_id: String, script_json: serde_json::Value },
}

pub enum ScriptRefRecordView {
    PlutusV1 { script_hash: Seq<char>, script_hex: Seq<char> },
    PlutusV2 { script_hash: Seq<char>, script_hex: Seq<char> },
    PlutusV3 { script_hash: Seq<char>, script_hex: Seq<char> },
    NativeScript { policy_id: Seq<char>, script_json: JsonModel },
}

impl View for ScriptRefRecord {
    type V = ScriptRefRecordView;

    open spec fn view(&self) -> ScriptRefRecordView {
        match *self {
            ScriptRefRecord::PlutusV1 { script_hash, script_hex } => ScriptRefRecordView::PlutusV1 {
                script_hash: script_hash@,
                script_hex: script_hex@,
            },
            ScriptRefRecord::PlutusV2 { script_hash, script_hex } => ScriptRefRecordView::PlutusV2 {
                script_hash: script_hash@,
                script_hex: script_hex@,
            },
            ScriptRefRecord::PlutusV3 { script_hash, script_hex } => ScriptRefRecordView::PlutusV3 {
                script_hash: script_hash@,
                script_hex: script_hex@,
            },
            ScriptRefRecord::NativeScript { policy_id, script_json } => {
                ScriptRefRecordView::NativeScript {
                    policy_id: policy_id@,
                    script_json: json_model(script_json),
                }
            },
        }
    }
}

#[derive(Debug, Clone, PartialEq, Eq)]
pub struct TxOutputRecord {
    pub address: String,
    pub amount: u64,
    pub assets: Option<Vec<OutputAssetRecord>>,
    pub datum_hash: Option<String>,
    pub inline_datum: Option<PlutusDatumRecord>,
    pub inlined_script: Option<ScriptRefRecord>,
}

pub struct TxOutputRecordView {
    pub address: Seq<char>,
    pub amount: u64,
    pub assets: Option<Seq<OutputAssetRecordView>>,
    pub datum_hash: Option<Seq<char>>,
    pub inline_datum: Option<PlutusDatumRecordView>,
    pub inlined_script: Option<ScriptRefRecordView>,
}

impl View for TxOutputRecord {
    type V = TxOutputRecordView;

    open spec fn view(&self) -> TxOutputRecordView {
        TxOutputRecordView {
            address: self.address@,
            amount: self.amount,
            assets: opt_views(self.assets),
            datum_hash: opt_view(self.datum_hash),
            inline_datum: opt_view(self.inline_datum),
            inlined_script: opt_view(self.inlined_script),
        }
    }
}

#[derive(Debug, Clone, PartialEq, Eq, PartialOrd, Ord)]
pub struct MintRecord {
    pub policy: String,
    pub asset: String,
    pub quantity: i64,
}

pub struct MintRecordView {
    pub policy: Seq<char>,
    pub asset: Seq<char>,
    pub quantity: i64,
}

impl View for MintRecord {
    type V = MintRecordView;

    open spec fn view(&self) -> MintRecordView {
        MintRecordView { policy: self.policy@, asset: self.asset@, quantity: self.quantity }
    }
}

#[derive(Debug, Clone, PartialEq, Eq, PartialOrd, Ord)]
pub struct WithdrawalRecord {
    pub reward_account: String,
    pub coin: u64,
}

pub struct WithdrawalRecordView {
    pub reward_account: Seq<char>,
    pub coin: u64,
}

impl View for WithdrawalRecord {
    type V = WithdrawalRecordView;

    open spec fn view(&self) -> WithdrawalRecordView {
        WithdrawalRecordView { reward_account: self.reward_account@, coin: self.coin }
    }
}

/// The coordinates of an event in the hierarchy of a block. A coordinate
/// that is not known at an event's depth is absent.
#[derive(Debug)]
pub struct EventContext {
    pub block_hash: Option<String>,
    pub block_number: Option<u64>,
    pub slot: Option<u64>,
    pub timestamp: Option<u64>,
    pub tx_idx: Option<usize>,
    pub tx_hash: Option<String>,
    pub input_idx: Option<usize>,
    pub output_idx: Option<usize>,
    pub output_address: Option<String>,
    pub certificate_idx: Option<usize>,
}

pub struct EventContextView {
    pub block_hash: Option<Seq<char>>,
    pub block_number: Option<u64>,
    pub slot: Option<u64>,
    pub timestamp: Option<u64>,
    pub tx_idx: Option<usize>,
    pub tx_hash: Option<Seq<char>>,
    pub input_idx: Option<usize>,
    pub output_idx: Option<usize>,
    pub output_address: Option<Seq<char>>,
    pub certificate_idx: Option<usize>,
}

impl View for EventContext {
    type V = EventContextView;

    open spec fn view(&self) -> EventContextView {
        EventContextView {
            block_hash: opt_view(self.block_hash),
            block_number: self.block_number,
            slot: self.slot,
            timestamp: self.timestamp,
            tx_idx: self.tx_idx,
            tx_hash: opt_view(self.tx_hash),
            input_idx: self.input_idx,
            output_idx: self.output_idx,
            output_address: opt_view(self.output_address),
            certificate_idx: self.certificate_idx,
        }
    }
}

/// The first of two optional values that is present.
pub open spec fn first_some<T>(a: Option<T>, b: Option<T>) -> Option<T> {
    match a {
        Some(x) => Some(x),
        None => b,
    }
}

impl EventContextView {
    /// The context without any coordinate.
    pub open spec fn empty() -> EventContextView {
        EventContextView {
            block_hash: None,
            block_number: None,
            slot: None,
            timestamp: None,
            tx_idx: None,
            tx_hash: None,
            input_idx: None,
            output_idx: None,
            output_address: None,
            certificate_idx: None,
        }
    }

    /// The context of a child: each coordinate that `overrides` sets, and
    /// the parent's coordinate where it sets none.
    pub open spec fn child(self, overrides: EventContextView) -> EventContextView {
        EventContextView {
            block_hash: first_some(overrides.block_hash, self.block_hash),
            block_number: first_some(overrides.block_number, self.block_number),
            slot: first_some(overrides.slot, self.slot),
            timestamp: first_some(overrides.timestamp, self.timestamp),
            tx_idx: first_some(overrides.tx_idx, self.tx_idx),
            tx_hash: first_some(overrides.tx_hash, self.tx_hash),
            input_idx: first_some(overrides.input_idx, self.input_idx),
            output_idx: first_some(overrides.output_idx, self.output_idx),
            output_address: first_some(overrides.output_address, self.output_address),
            certificate_idx: first_some(overrides.certificate_idx, self.certificate_idx),
        }
    }

}

fn clone_text(text: &Option<String>) -> (copy: Option<String>)
    ensures
        opt_view(copy) == opt_view(*text),
{
    match text {
        Some(t) => Some(t.clone()),
        None => None,
    }
}

fn text_or(first: Option<String>, second: &Option<String>) -> (chosen: Option<String>)
    ensures
        opt_view(chosen) == first_some(opt_view(first), opt_view(*second)),
{
    match first {
        Some(t) => Some(t),
        None => clone_text(second),
    }
}

fn value_or<T: Copy>(first: Option<T>, second: Option<T>) -> (chosen: Option<T>)
    ensures
        chosen == first_some(first, second),
{
    match first {
        Some(t) => Some(t),
        None => second,
    }
}

impl Clone for EventContext {
    fn clone(&self) -> (copy: Self)
        ensures
            copy@ == self@,
    {
        EventContext {
            block_hash: clone_text(&self.block_hash),
            block_number: self.block_number,
            slot: self.slot,
            timestamp: self.timestamp,
            tx_idx: self.tx_idx,
            tx_hash: clone_text(&self.tx_hash),
            input_idx: self.input_idx,
            output_idx: self.output_idx,
            output_address: clone_text(&self.output_address),
            certificate_idx: self.certificate_idx,
        }
    }
}

impl Default for EventContext {
    fn default() -> (context: Self)
        ensures
            context@ == EventContextView::empty(),
    {
        EventContext::empty()
    }
}

impl EventContext {
    /// A context without any coordinate.
    pub fn empty() -> (context: Self)
        ensures
            context@ == EventContextView::empty(),
    {
        EventContext {
            block_hash: None,
            block_number: None,
            slot: None,
            timestamp: None,
            tx_idx: None,
            tx_hash: None,
            input_idx: None,
            output_idx: None,
            output_address: None,
            certificate_idx: None,
        }
    }

    /// Fills each coordinate that this context lacks from `other`; a
    /// coordinate that is set here stays as it is.
    pub fn merge(&mut self, other: EventContext)
        ensures
            final(self)@ == other@.child(old(self)@),
    {
        let merged = other.derive_child(EventContext {
            block_hash: clone_text(&self.block_hash),
            block_number: self.block_number,
            slot: self.slot,
            timestamp: self.timestamp,
            tx_idx: self.tx_idx,
            tx_hash: clone_text(&self.tx_hash),
            input_idx: self.input_idx,
            output_idx: self.output_idx,
            output_address: clone_text(&self.output_address),
            certificate_idx: self.certificate_idx,
        });
        *self = merged;
    }

    /// The context of a child of this one: the coordinates that `overrides`
    /// sets, on top of this context's. Neither argument is changed, and no
    /// coordinate of the parent is ever cleared.
    pub fn derive_child(&self, overrides: EventContext) -> (child: EventContext)
        ensures
            child@ == self@.child(overrides@),
    {
        EventContext {
            block_hash: text_or(overrides.block_hash, &self.block_hash),
            block_number: value_or(overrides.block_number, self.block_number),
            slot: value_or(overrides.slot, self.slot),
            timestamp: value_or(overrides.timestamp, self.timestamp),
            tx_idx: value_or(overrides.tx_idx, self.tx_idx),
            tx_hash: text_or(overrides.tx_hash, &self.tx_hash),
            input_idx: value_or(overrides.input_idx, self.input_idx),
            output_idx: value_or(overrides.output_idx, self.output_idx),
            output_address: text_or(overrides.output_address, &self.output_address),
            certificate_idx: value_or(overrides.certificate_idx, self.certificate_idx),
        }
    }
}

/// Who holds a stake: a key or a script, named by its hash in hexadecimal.
#[derive(Debug, Clone, PartialEq, Eq, PartialOrd, Ord)]
pub enum StakeCredential {
    AddrKeyhash(String),
    Scripthash(String),
}

pub enum StakeCredentialView {
    AddrKeyhash(Seq<char>),
    Scripthash(Seq<char>),
}

impl View for StakeCredential {
    type V = StakeCredentialView;

    open spec fn view(&self) -> StakeCredentialView {
        match *self {
            StakeCredential::AddrKeyhash(x) => StakeCredentialView::AddrKeyhash(x@),
            StakeCredential::Scripthash(x) => StakeCredentialView::Scripthash(x@),
        }
    }
}

/// To whom voting power is delegated.
#[derive(Debug, Clone, PartialEq, Eq, PartialOrd, Ord)]
pub enum DRep {
    KeyHash(String),
    ScriptHash(String),
    Abstain,
    NoConfidence,
}

pub enum DRepView {
    KeyHash(Seq<char>),
    ScriptHash(Seq<char>),
    Abstain,
    NoConfidence,
}

impl View for DRep {
    type V = DRepView;

    open spec fn view(&self) -> DRepView {
        match *self {
            DRep::KeyHash(x) => DRepView::KeyHash(x@),
            DRep::ScriptHash(x) => DRepView::ScriptHash(x@),
            DRep::Abstain => DRepView::Abstain,
            DRep::NoConfidence => DRepView::NoConfidence,
        }
    }
}

#[derive(Debug, Clone, PartialEq, Eq, PartialOrd, Ord)]
pub struct AnchorRecord {
    pub url: String,
    pub data_hash: String,
}

pub struct AnchorRecordView {
    pub url: Seq<char>,
    pub data_hash: Seq<char>,
}

impl View for AnchorRecord {
    type V = AnchorRecordView;

    open spec fn view(&self) -> AnchorRecordView {
        AnchorRecordView { url: self.url@, data_hash: self.data_hash@ }
    }
}

#[derive(Debug, Clone, PartialEq, Eq, PartialOrd, Ord)]
pub struct RationalNumberRecord {
    pub numerator: u64,
    pub denominator: u64,
}

impl View for RationalNumberRecord {
    type V = RationalNumberRecord;

    open spec fn view(&self) -> RationalNumberRecord {
        *self
    }
}

#[derive(Debug, Clone, PartialEq, Eq, PartialOrd, Ord)]
pub struct UnitIntervalRecord(pub u64, pub u64);

impl View for UnitIntervalRecord {
    type V = UnitIntervalRecord;

    open spec fn view(&self) -> UnitIntervalRecord {
        *self
    }
}

#[derive(Debug, Clone, PartialEq, Eq, PartialOrd, Ord)]
pub struct PositiveIntervalRecord(pub u64, pub u64);

impl View for PositiveIntervalRecord {
    type V = PositiveIntervalRecord;

    open spec fn view(&self) -> PositiveIntervalRecord {
        *self
    }
}

#[derive(Debug, Clone, PartialEq, Eq, PartialOrd, Ord)]
pub struct ExUnitsRecord {
    pub mem: u32,
    pub steps: u64,
}

impl View for ExUnitsRecord {
    type V = ExUnitsRecord;

    open spec fn view(&self) -> ExUnitsRecord {
        *self
    }
}

#[derive(Debug, Clone, PartialEq, Eq, PartialOrd, Ord)]
pub struct ExUnitPricesRecord {
    pub mem_price: PositiveIntervalRecord,
    pub step_price: PositiveIntervalRecord,
}

impl View for ExUnitPricesRecord {
    type V = ExUnitPricesRecord;

    open spec fn view(&self) -> ExUnitPricesRecord {
        *self
    }
}

#[derive(Debug, Clone, PartialEq, Eq, PartialOrd, Ord)]
pub enum NonceVariantRecord {
    NeutralNonce,
    Nonce,
}

#[derive(Debug, Clone, PartialEq, Eq, PartialOrd, Ord)]
pub struct NonceRecord {
    pub variant: NonceVariantRecord,
    pub hash: Option<String>,
}

pub struct NonceRecordView {
    pub variant: NonceVariantRecord,
    pub hash: Option<Seq<char>>,
}

impl View for NonceRecord {
    type V = NonceRecordView;

    open spec fn view(&self) -> NonceRecordView {
        NonceRecordView { variant: self.variant, hash: opt_view(self.hash) }
    }
}

#[derive(Debug, Clone, Copy, Hash, PartialEq, Eq, PartialOrd, Ord, Structural)]
pub enum LanguageVersionRecord {
    PlutusV1,
    PlutusV2,
}

/// The coefficients of one cost model, in their fixed order.
#[derive(Debug, Clone, PartialEq, Eq, PartialOrd, Ord)]
pub struct CostModelRecord(pub Vec<i64>);

impl View for CostModelRecord {
    type V = Seq<i64>;

    open spec fn view(&self) -> Seq<i64> {
        self.0@
    }
}

/// The cost model of each script language version. The entries stand for a
/// map: no version comes twice.
#[derive(Debug, Clone, PartialEq, Eq)]
pub struct CostModelsRecord(pub Vec<(LanguageVersionRecord, CostModelRecord)>);

/// The version and coefficients of each entry.
pub open spec fn cost_model_entries(entries: Seq<(LanguageVersionRecord, CostModelRecord)>) -> Seq<
    (LanguageVersionRecord, Seq<i64>),
> {
    Seq::new(entries.len(), |i: int| (entries[i].0, entries[i].1@))
}

impl View for CostModelsRecord {
    type V = Map<LanguageVersionRecord, Seq<i64>>;

    open spec fn view(&self) -> Map<LanguageVersionRecord, Seq<i64>> {
        keyed(cost_model_entries(self.0@))
    }
}

impl CostModelsRecord {
    /// No language version has two entries.
    pub open spec fn well_formed(&self) -> bool {
        crate::views::distinct_keys(cost_model_entries(self.0@))
    }
}

#[derive(Debug, Clone, PartialEq, Eq)]
pub struct VKeyWitnessRecord {
    pub vkey_hex: String,
    pub signature_hex: String,
}

pub struct VKeyWitnessRecordView {
    pub vkey_hex: Seq<char>,
    pub signature_hex: Seq<char>,
}

impl View for VKeyWitnessRecord {
    type V = VKeyWitnessRecordView;

    open spec fn view(&self) -> VKeyWitnessRecordView {
        VKeyWitnessRecordView { vkey_hex: self.vkey_hex@, signature_hex: self.signature_hex@ }
    }
}

#[derive(Debug, Clone, PartialEq, Eq)]
pub struct RequiredSignerRecord(pub String);

impl View for RequiredSignerRecord {
    type V = Seq<char>;

    open spec fn view(&self) -> Seq<char> {
        self.0@
    }
}

#[derive(Debug, Clone, PartialEq, Eq)]
pub struct NativeWitnessRecord {
    pub policy_id: String,
    pub script_json: serde_json::Value,
}

pub struct NativeWitnessRecordView {
    pub policy_id: Seq<char>,
    pub script_json: JsonModel,
}

impl View for NativeWitnessRecord {
    type V = NativeWitnessRecordView;

    open spec fn view(&self) -> NativeWitnessRecordView {
        NativeWitnessRecordView {
            policy_id: self.policy_id@,
            script_json: json_model(self.script_json),
        }
    }
}

#[derive(Debug, Clone, PartialEq, Eq)]
pub struct PlutusWitnessRecord {
    pub script_hash: String,
    pub script_hex: String,
}

pub struct PlutusWitnessRecordView {
    pub script_hash: Seq<char>,
    pub script_hex: Seq<char>,
}

impl View for PlutusWitnessRecord {
    type V = PlutusWitnessRecordView;

    open spec fn view(&self) -> PlutusWitnessRecordView {
        PlutusWitnessRecordView { script_hash: self.script_hash@, script_hex: self.script_hex@ }
    }
}

#[derive(Debug, Clone, PartialEq, Eq)]
pub struct PlutusRedeemerRecord {
    pub purpose: String,
    pub ex_units_mem: u32,
    pub ex_units_steps: u64,
    pub input_idx: u32,
    pub plutus_data: serde_json::Value,
}

pub struct PlutusRedeemerRecordView {
    pub purpose: Seq<char>,
    pub ex_units_mem: u32,
    pub ex_units_steps: u64,
    pub input_idx: u32,
    pub plutus_data: JsonModel,
}

impl View for PlutusRedeemerRecord {
    type V = PlutusRedeemerRecordView;

    open spec fn view(&self) -> PlutusRedeemerRecordView {
        PlutusRedeemerRecordView {
            purpose: self.purpose@,
            ex_units_mem: self.ex_units_mem,
            ex_units_steps: self.ex_units_steps,
            input_idx: self.input_idx,
            plutus_data: json_model(self.plutus_data),
        }
    }
}

#[derive(Debug, Clone, PartialEq, Eq, PartialOrd)]
pub struct StakeRegistrationRecord {
    pub credential: StakeCredential,
}

pub struct StakeRegistrationRecordView {
    pub credential: StakeCredentialView,
}

impl View for StakeRegistrationRecord {
    type V = StakeRegistrationRecordView;

    open spec fn view(&self) -> StakeRegistrationRecordView {
        StakeRegistrationRecordView {
            credential: self.credential@,
        }
    }
}

#[derive(Debug, Clone, PartialEq, Eq, PartialOrd)]
pub struct StakeDeregistrationRecord {
    pub credential: StakeCredential,
}

pub struct StakeDeregistrationRecordView {
    pub credential: StakeCredentialView,
}

impl View for StakeDeregistrationRecord {
    type V = StakeDeregistrationRecordView;

    open spec fn view(&self) -> StakeDeregistrationRecordView {
        StakeDeregistrationRecordView {
            credential: self.credential@,
        }
    }
}

#[derive(Debug, Clone, PartialEq, Eq, PartialOrd)]
pub struct StakeDelegationRecord {
    pub credential: StakeCredential,
    pub pool_hash: String,
}

pub struct StakeDelegationRecordView {
    pub credential: StakeCredentialView,
    pub pool_hash: Seq<char>,
}

impl View for StakeDelegationRecord {
    type V = StakeDelegationRecordView;

    open spec fn view(&self) -> StakeDelegationRecordView {
        StakeDelegationRecordView {
            credential: self.credential@,
            pool_hash: self.pool_hash@,
        }
    }
}

#[derive(Debug, Clone, PartialEq, Eq, PartialOrd)]
pub struct PoolRetirementRecord {
    pub pool: String,
    pub epoch: u64,
}

pub struct PoolRetirementRecordView {
    pub pool: Seq<char>,
    pub epoch: u64,
}

impl View for PoolRetirementRecord {
    type V = PoolRetirementRecordView;

    open spec fn view(&self) -> PoolRetirementRecordView {
        PoolRetirementRecordView {
            pool: self.pool@,
            epoch: self.epoch,
        }
    }
}

#[derive(Debug, Clone, PartialEq, Eq, PartialOrd)]
pub struct GenesisKeyDelegationRecord {
    pub genesis_hash: String,
    pub genesis_delegate_hash: String,
    pub vrf_key_hash: String,
}

pub struct GenesisKeyDelegationRecordView {
    pub genesis_hash: Seq<char>,
    pub genesis_delegate_hash: Seq<char>,
    pub vrf_key_hash: Seq<char>,
}

impl View for GenesisKeyDelegationRecord {
    type V = GenesisKeyDelegationRecordView;

    open spec fn view(&self) -> GenesisKeyDelegationRecordView {
        GenesisKeyDelegationRecordView {
            genesis_hash: self.genesis_hash@,
            genesis_delegate_hash: self.genesis_delegate_hash@,
            vrf_key_hash: self.vrf_key_hash@,
        }
    }
}

#[derive(Debug, Clone, PartialEq, Eq, PartialOrd, Ord)]
pub struct RegCertRecord {
    pub credential: StakeCredential,
    pub coin: u64,
}

pub struct RegCertRecordView {
    pub credential: StakeCredentialView,
    pub coin: u64,
}

impl View for RegCertRecord {
    type V = RegCertRecordView;

    open spec fn view(&self) -> RegCertRecordView {
        RegCertRecordView {
            credential: self.credential@,
            coin: self.coin,
        }
    }
}

#[derive(Debug, Clone, PartialEq, Eq, PartialOrd, Ord)]
pub struct UnRegCertRecord {
    pub credential: StakeCredential,
    pub coin: u64,
}

pub struct UnRegCertRecordView {
    pub credential: StakeCredentialView,
    pub coin: u64,
}

impl View for UnRegCertRecord {
    type V = UnRegCertRecordView;

    open spec fn view(&self) -> UnRegCertRecordView {
        UnRegCertRecordView {
            credential: self.credential@,
            coin: self.coin,
        }
    }
}

#[derive(Debug, Clone, PartialEq, Eq, PartialOrd, Ord)]
pub struct VoteDelegCertRecord {
    pub credential: StakeCredential,
    pub drep: DRep,
}

pub struct VoteDelegCertRecordView {
    pub credential: StakeCredentialView,
    pub drep: DRepView,
}

impl View for VoteDelegCertRecord {
    type V = VoteDelegCertRecordView;

    open spec fn view(&self) -> VoteDelegCertRecordView {
        VoteDelegCertRecordView {
            credential: self.credential@,
            drep: self.drep@,
        }
    }
}

#[derive(Debug, Clone, PartialEq, Eq, PartialOrd, Ord)]
pub struct StakeVoteDelegCertRecord {
    pub credential: StakeCredential,
    pub pool_keyhash: String,
    pub drep: DRep,
}

pub struct StakeVoteDelegCertRecordView {
    pub credential: StakeCredentialView,
    pub pool_keyhash: Seq<char>,
    pub drep: DRepView,
}

impl View for StakeVoteDelegCertRecord {
    type V = StakeVoteDelegCertRecordView;

    open spec fn view(&self) -> StakeVoteDelegCertRecordView {
        StakeVoteDelegCertRecordView {
            credential: self.credential@,
            pool_keyhash: self.pool_keyhash@,
            drep: self.drep@,
        }
    }
}

#[derive(Debug, Clone, PartialEq, Eq, PartialOrd, Ord)]
pub struct StakeRegDelegCertRecord {
    pub credential: StakeCredential,
    pub pool_keyhash: String,
    pub coin: u64,
}

pub struct StakeRegDelegCertRecordView {
    pub credential: StakeCredentialView,
    pub pool_keyhash: Seq<char>,
    pub coin: u64,
}

impl View for StakeRegDelegCertRecord {
    type V = StakeRegDelegCertRecordView;

    open spec fn view(&self) -> StakeRegDelegCertRecordView {
        StakeRegDelegCertRecordView {
            credential: self.credential@,
            pool_keyhash: self.pool_keyhash@,
            coin: self.coin,
        }
    }
}

#[derive(Debug, Clone, PartialEq, Eq, PartialOrd, Ord)]
pub struct VoteRegDelegCertRecord {
    pub credential: StakeCredential,
    pub drep: DRep,
    pub coin: u64,
}

pub struct VoteRegDelegCertRecordView {
    pub credential: StakeCredentialView,
    pub drep: DRepView,
    pub coin: u64,
}

impl View for VoteRegDelegCertRecord {
    type V = VoteRegDelegCertRecordView;

    open spec fn view(&self) -> VoteRegDelegCertRecordView {
        VoteRegDelegCertRecordView {
            credential: self.credential@,
            drep: self.drep@,
            coin: self.coin,
        }
    }
}

#[derive(Debug, Clone, PartialEq, Eq, PartialOrd, Ord)]
pub struct StakeVoteRegDelegCertRecord {
    pub credential: StakeCredential,
    pub pool_keyhash: String,
    pub drep: DRep,
    pub coin: u64,
}

pub struct StakeVoteRegDelegCertRecordView {
    pub credential: StakeCredentialView,
    pub pool_keyhash: Seq<char>,
    pub drep: DRepView,
    pub coin: u64,
}

impl View for StakeVoteRegDelegCertRecord {
    type V = StakeVoteRegDelegCertRecordView;

    open spec fn view(&self) -> StakeVoteRegDelegCertRecordView {
        StakeVoteRegDelegCertRecordView {
            credential: self.credential@,
            pool_keyhash: self.pool_keyhash@,
            drep: self.drep@,
            coin: self.coin,
        }
    }
}

#[derive(Debug, Clone, PartialEq, Eq, PartialOrd, Ord)]
pub struct AuthCommitteeHotCertRecord {
    pub committee_cold_credential: StakeCredential,
    pub committee_hot_credential: StakeCredential,
}

pub struct AuthCommitteeHotCertRecordView {
    pub committee_cold_credential: StakeCredentialView,
    pub committee_hot_credential: StakeCredentialView,
}

impl View for AuthCommitteeHotCertRecord {
    type V = AuthCommitteeHotCertRecordView;

    open spec fn view(&self) -> AuthCommitteeHotCertRecordView {
        AuthCommitteeHotCertRecordView {
            committee_cold_credential: self.committee_cold_credential@,
            committee_hot_credential: self.committee_hot_credential@,
        }
    }
}

#[derive(Debug, Clone, PartialEq, Eq, PartialOrd, Ord)]
pub struct ResignCommitteeColdCertRecord {
    pub committee_cold_credential: StakeCredential,
    pub anchor: Option<AnchorRecord>,
}

pub struct ResignCommitteeColdCertRecordView {
    pub committee_cold_credential: StakeCredentialView,
    pub anchor: Option<AnchorRecordView>,
}

impl View for ResignCommitteeColdCertRecord {
    type V = ResignCommitteeColdCertRecordView;

    open spec fn view(&self) -> ResignCommitteeColdCertRecordView {
        ResignCommitteeColdCertRecordView {
            committee_cold_credential: self.committee_cold_credential@,
            anchor: opt_view(self.anchor),
        }
    }
}

#[derive(Debug, Clone, PartialEq, Eq, PartialOrd, Ord)]
pub struct RegDRepCertRecord {
    pub credential: StakeCredential,
    pub coin: u64,
    pub anchor: Option<AnchorRecord>,
}

pub struct RegDRepCertRecordView {
    pub credential: StakeCredentialView,
    pub coin: u64,
    pub anchor: Option<AnchorRecordView>,
}

impl View for RegDRepCertRecord {
    type V = RegDRepCertRecordView;

    open spec fn view(&self) -> RegDRepCertRecordView {
        RegDRepCertRecordView {
            credential: self.credential@,
            coin: self.coin,
            anchor: opt_view(self.anchor),
        }
    }
}

#[derive(Debug, Clone, PartialEq, Eq, PartialOrd, Ord)]
pub struct UnRegDRepCertRecord {
    pub credential: StakeCredential,
    pub coin: u64,
}

pub struct UnRegDRepCertRecordView {
    pub credential: StakeCredentialView,
    pub coin: u64,
}

impl View for UnRegDRepCertRecord {
    type V = UnRegDRepCertRecordView;

    open spec fn view(&self) -> UnRegDRepCertRecordView {
        UnRegDRepCertRecordView {
            credential: self.credential@,
            coin: self.coin,
        }
    }
}

#[derive(Debug, Clone, PartialEq, Eq, PartialOrd, Ord)]
pub struct UpdateDRepCertRecord {
    pub credential: StakeCredential,
    pub anchor: Option<AnchorRecord>,
}

pub struct UpdateDRepCertRecordView {
    pub credential: StakeCredentialView,
    pub anchor: Option<AnchorRecordView>,
}

impl View for UpdateDRepCertRecord {
    type V = UpdateDRepCertRecordView;

    open spec fn view(&self) -> UpdateDRepCertRecordView {
        UpdateDRepCertRecordView {
            credential: self.credential@,
            anchor: opt_view(self.anchor),
        }
    }
}
#[derive(Debug, Clone, PartialEq, Eq, PartialOrd)]
pub struct PoolRegistrationRecord {
    pub operator: String,
    pub vrf_keyhash: String,
    pub pledge: u64,
    pub cost: u64,
    pub margin: RationalNumberRecord,
    pub reward_account: String,
    pub pool_owners: Vec<String>,
    pub relays: Vec<String>,
    pub pool_metadata: Option<String>,
    pub pool_metadata_hash: Option<String>,
}

pub struct PoolRegistrationRecordView {
    pub operator: Seq<char>,
    pub vrf_keyhash: Seq<char>,
    pub pledge: u64,
    pub cost: u64,
    pub margin: RationalNumberRecord,
    pub reward_account: Seq<char>,
    pub pool_owners: Seq<Seq<char>>,
    pub relays: Seq<Seq<char>>,
    pub pool_metadata: Option<Seq<char>>,
    pub pool_metadata_hash: Option<Seq<char>>,
}

impl View for PoolRegistrationRecord {
    type V = PoolRegistrationRecordView;

    open spec fn view(&self) -> PoolRegistrationRecordView {
        PoolRegistrationRecordView {
            operator: self.operator@,
            vrf_keyhash: self.vrf_keyhash@,
            pledge: self.pledge,
            cost: self.cost,
            margin: self.margin,
            reward_account: self.reward_account@,
            pool_owners: views(self.pool_owners@),
            relays: views(self.relays@),
            pool_metadata: opt_view(self.pool_metadata),
            pool_metadata_hash: opt_view(self.pool_metadata_hash),
        }
    }
}

/// The credential and amount of each entry.
pub open spec fn reward_views(entries: Seq<(StakeCredential, i64)>) -> Seq<
    (StakeCredentialView, i64),
> {
    Seq::new(entries.len(), |i: int| (entries[i].0@, entries[i].1))
}

/// A movement of instantaneous rewards: out of one of two pots, and either
/// to stake credentials or to the other pot.
#[derive(Debug, Clone, PartialEq, Eq, PartialOrd, Ord)]
pub struct MoveInstantaneousRewardsCertRecord {
    pub from_reserves: bool,
    pub from_treasury: bool,
    pub to_stake_credentials: Option<Vec<(StakeCredential, i64)>>,
    pub to_other_pot: Option<u64>,
}

pub struct MoveInstantaneousRewardsCertRecordView {
    pub from_reserves: bool,
    pub from_treasury: bool,
    pub to_stake_credentials: Option<Seq<(StakeCredentialView, i64)>>,
    pub to_other_pot: Option<u64>,
}

impl View for MoveInstantaneousRewardsCertRecord {
    type V = MoveInstantaneousRewardsCertRecordView;

    open spec fn view(&self) -> MoveInstantaneousRewardsCertRecordView {
        MoveInstantaneousRewardsCertRecordView {
            from_reserves: self.from_reserves,
            from_treasury: self.from_treasury,
            to_stake_credentials: match self.to_stake_credentials {
                Some(entries) => Some(reward_views(entries@)),
                None => None,
            },
            to_other_pot: self.to_other_pot,
        }
    }
}

/// A certificate of any kind.
#[derive(Debug, Clone, PartialEq, Eq, PartialOrd)]
pub enum CertificateRecord {
    StakeRegistration(StakeRegistrationRecord),
    StakeDeregistration(StakeDeregistrationRecord),
    StakeDelegation(StakeDelegationRecord),
    PoolRegistration(PoolRegistrationRecord),
    PoolRetirement(PoolRetirementRecord),
    GenesisKeyDelegation(GenesisKeyDelegationRecord),
    MoveInstantaneousRewardsCert(MoveInstantaneousRewardsCertRecord),
    RegCert(RegCertRecord),
    UnRegCert(UnRegCertRecord),
    VoteDeleg(VoteDelegCertRecord),
    StakeVoteDeleg(StakeVoteDelegCertRecord),
    StakeRegDeleg(StakeRegDelegCertRecord),
    VoteRegDeleg(VoteRegDelegCertRecord),
    StakeVoteRegDeleg(StakeVoteRegDelegCertRecord),
    AuthCommitteeHot(AuthCommitteeHotCertRecord),
    ResignCommitteeCold(ResignCommitteeColdCertRecord),
    RegDRepCert(RegDRepCertRecord),
    UnRegDRepCert(UnRegDRepCertRecord),
    UpdateDRepCert(UpdateDRepCertRecord),
}

pub enum CertificateRecordView {
    StakeRegistration(StakeRegistrationRecordView),
    StakeDeregistration(StakeDeregistrationRecordView),
    StakeDelegation(StakeDelegationRecordView),
    PoolRegistration(PoolRegistrationRecordView),
    PoolRetirement(PoolRetirementRecordView),
    GenesisKeyDelegation(GenesisKeyDelegationRecordView),
    MoveInstantaneousRewardsCert(MoveInstantaneousRewardsCertRecordView),
    RegCert(RegCertRecordView),
    UnRegCert(UnRegCertRecordView),
    VoteDeleg(VoteDelegCertRecordView),
    StakeVoteDeleg(StakeVoteDelegCertRecordView),
    StakeRegDeleg(StakeRegDelegCertRecordView),
    VoteRegDeleg(VoteRegDelegCertRecordView),
    StakeVoteRegDeleg(StakeVoteRegDelegCertRecordView),
    AuthCommitteeHot(AuthCommitteeHotCertRecordView),
    ResignCommitteeCold(ResignCommitteeColdCertRecordView),
    RegDRepCert(RegDRepCertRecordView),
    UnRegDRepCert(UnRegDRepCertRecordView),
    UpdateDRepCert(UpdateDRepCertRecordView),
}

impl View for CertificateRecord {
    type V = CertificateRecordView;

    open spec fn view(&self) -> CertificateRecordView {
        match *self {
            CertificateRecord::StakeRegistration(x) => CertificateRecordView::StakeRegistration(x@),
            CertificateRecord::StakeDeregistration(x) => CertificateRecordView::StakeDeregistration(x@),
            CertificateRecord::StakeDelegation(x) => CertificateRecordView::StakeDelegation(x@),
            CertificateRecord::PoolRegistration(x) => CertificateRecordView::PoolRegistration(x@),
            CertificateRecord::PoolRetirement(x) => CertificateRecordView::PoolRetirement(x@),
            CertificateRecord::GenesisKeyDelegation(x) => CertificateRecordView::GenesisKeyDelegation(x@),
            CertificateRecord::MoveInstantaneousRewardsCert(x) => CertificateRecordView::MoveInstantaneousRewardsCert(x@),
            CertificateRecord::RegCert(x) => CertificateRecordView::RegCert(x@),
            CertificateRecord::UnRegCert(x) => CertificateRecordView::UnRegCert(x@),
            CertificateRecord::VoteDeleg(x) => CertificateRecordView::VoteDeleg(x@),
            CertificateRecord::StakeVoteDeleg(x) => CertificateRecordView::StakeVoteDeleg(x@),
            CertificateRecord::StakeRegDeleg(x) => CertificateRecordView::StakeRegDeleg(x@),
            CertificateRecord::VoteRegDeleg(x) => CertificateRecordView::VoteRegDeleg(x@),
            CertificateRecord::StakeVoteRegDeleg(x) => CertificateRecordView::StakeVoteRegDeleg(x@),
            CertificateRecord::AuthCommitteeHot(x) => CertificateRecordView::AuthCommitteeHot(x@),
            CertificateRecord::ResignCommitteeCold(x) => CertificateRecordView::ResignCommitteeCold(x@),
            CertificateRecord::RegDRepCert(x) => CertificateRecordView::RegDRepCert(x@),
            CertificateRecord::UnRegDRepCert(x) => CertificateRecordView::UnRegDRepCert(x@),
            CertificateRecord::UpdateDRepCert(x) => CertificateRecordView::UpdateDRepCert(x@),
        }
    }
}

/// A proposed change of protocol parameters. Each parameter is optional, and
/// the record has the parameters of every era.
#[derive(Debug, Clone, PartialEq, Eq)]
pub struct ProtocolParamUpdateRecord {
    pub minfee_a: Option<u32>,
    pub minfee_b: Option<u32>,
    pub max_block_body_size: Option<u32>,
    pub max_transaction_size: Option<u32>,
    pub max_block_header_size: Option<u32>,
    pub key_deposit: Option<u64>,
    pub pool_deposit: Option<u64>,
    pub maximum_epoch: Option<u64>,
    pub desired_number_of_stake_pools: Option<u32>,
    pub pool_pledge_influence: Option<RationalNumberRecord>,
    pub expansion_rate: Option<UnitIntervalRecord>,
    pub treasury_growth_rate: Option<UnitIntervalRecord>,
    pub decentralization_constant: Option<UnitIntervalRecord>,
    pub extra_entropy: Option<NonceRecord>,
    pub protocol_version: Option<(u64, u64)>,
    pub min_pool_cost: Option<u64>,
    pub ada_per_utxo_byte: Option<u64>,
    pub cost_models_for_script_languages: Option<CostModelsRecord>,
    pub execution_costs: Option<serde_json::Value>,
    pub max_tx_ex_units: Option<ExUnitsRecord>,
    pub max_block_ex_units: Option<ExUnitsRecord>,
    pub max_value_size: Option<u32>,
    pub collateral_percentage: Option<u32>,
    pub max_collateral_inputs: Option<u32>,
}

pub struct ProtocolParamUpdateRecordView {
    pub minfee_a: Option<u32>,
    pub minfee_b: Option<u32>,
    pub max_block_body_size: Option<u32>,
    pub max_transaction_size: Option<u32>,
    pub max_block_header_size: Option<u32>,
    pub key_deposit: Option<u64>,
    pub pool_deposit: Option<u64>,
    pub maximum_epoch: Option<u64>,
    pub desired_number_of_stake_pools: Option<u32>,
    pub pool_pledge_influence: Option<RationalNumberRecord>,
    pub expansion_rate: Option<UnitIntervalRecord>,
    pub treasury_growth_rate: Option<UnitIntervalRecord>,
    pub decentralization_constant: Option<UnitIntervalRecord>,
    pub extra_entropy: Option<NonceRecordView>,
    pub protocol_version: Option<(u64, u64)>,
    pub min_pool_cost: Option<u64>,
    pub ada_per_utxo_byte: Option<u64>,
    pub cost_models_for_script_languages: Option<Map<LanguageVersionRecord, Seq<i64>>>,
    pub execution_costs: Option<JsonModel>,
    pub max_tx_ex_units: Option<ExUnitsRecord>,
    pub max_block_ex_units: Option<ExUnitsRecord>,
    pub max_value_size: Option<u32>,
    pub collateral_percentage: Option<u32>,
    pub max_collateral_inputs: Option<u32>,
}

impl View for ProtocolParamUpdateRecord {
    type V = ProtocolParamUpdateRecordView;

    open spec fn view(&self) -> ProtocolParamUpdateRecordView {
        ProtocolParamUpdateRecordView {
            minfee_a: self.minfee_a,
            minfee_b: self.minfee_b,
            max_block_body_size: self.max_block_body_size,
            max_transaction_size: self.max_transaction_size,
            max_block_header_size: self.max_block_header_size,
            key_deposit: self.key_deposit,
            pool_deposit: self.pool_deposit,
            maximum_epoch: self.maximum_epoch,
            desired_number_of_stake_pools: self.desired_number_of_stake_pools,
            pool_pledge_influence: self.pool_pledge_influence,
            expansion_rate: self.expansion_rate,
            treasury_growth_rate: self.treasury_growth_rate,
            decentralization_constant: self.decentralization_constant,
            extra_entropy: opt_view(self.extra_entropy),
            protocol_version: self.protocol_version,
            min_pool_cost: self.min_pool_cost,
            ada_per_utxo_byte: self.ada_per_utxo_byte,
            cost_models_for_script_languages: opt_view(self.cost_models_for_script_languages),
            execution_costs: match self.execution_costs {
                Some(x) => Some(json_model(x)),
                None => None,
            },
            max_tx_ex_units: self.max_tx_ex_units,
            max_block_ex_units: self.max_block_ex_units,
            max_value_size: self.max_value_size,
            collateral_percentage: self.collateral_percentage,
            max_collateral_inputs: self.max_collateral_inputs,
        }
    }
}

/// The change of parameters that each proposer asks for.
pub open spec fn proposal_views(entries: Seq<(String, ProtocolParamUpdateRecord)>) -> Seq<
    (Seq<char>, ProtocolParamUpdateRecordView),
> {
    Seq::new(entries.len(), |i: int| (entries[i].0@, entries[i].1@))
}

/// The proposals of one update, keyed by the proposer's hash in
/// hexadecimal. The entries stand for a map: no key comes twice.
#[derive(Debug, Clone, PartialEq, Eq)]
pub struct UpdateRecord {
    pub proposed_protocol_parameter_updates: Vec<(String, ProtocolParamUpdateRecord)>,
    pub epoch: u64,
}

pub struct UpdateRecordView {
    pub proposed_protocol_parameter_updates: Map<Seq<char>, ProtocolParamUpdateRecordView>,
    pub epoch: u64,
}

impl View for UpdateRecord {
    type V = UpdateRecordView;

    open spec fn view(&self) -> UpdateRecordView {
        UpdateRecordView {
            proposed_protocol_parameter_updates: keyed(
                proposal_views(self.proposed_protocol_parameter_updates@),
            ),
            epoch: self.epoch,
        }
    }
}

impl UpdateRecord {
    /// No proposer has two entries.
    pub open spec fn well_formed(&self) -> bool {
        crate::views::distinct_keys(proposal_views(self.proposed_protocol_parameter_updates@))
    }
}

/// One transaction: what always stands in the record, and a bundle of
/// details that is present only where details were asked for.
#[derive(Debug, Clone, PartialEq, Eq)]
pub struct TransactionRecord {
    pub hash: String,
    pub fee: u64,
    pub ttl: Option<u64>,
    pub validity_interval_start: Option<u64>,
    pub network_id: Option<u32>,
    pub input_count: usize,
    pub collateral_input_count: usize,
    pub has_collateral_output: bool,
    pub output_count: usize,
    pub mint_count: usize,
    pub certificate_count: usize,
    pub total_output: u64,
    pub required_signers_count: usize,
    pub required_signers: Option<Vec<RequiredSignerRecord>>,
    pub update: Option<UpdateRecord>,
    pub metadata: Option<Vec<MetadataRecord>>,
    pub inputs: Option<Vec<TxInputRecord>>,
    pub outputs: Option<Vec<TxOutputRecord>>,
    pub collateral_inputs: Option<Vec<TxInputRecord>>,
    pub collateral_output: Option<TxOutputRecord>,
    pub certs: Option<Vec<CertificateRecord>>,
    pub mint: Option<Vec<MintRecord>>,
    pub vkey_witnesses: Option<Vec<VKeyWitnessRecord>>,
    pub native_witnesses: Option<Vec<NativeWitnessRecord>>,
    pub plutus_witnesses: Option<Vec<PlutusWitnessRecord>>,
    pub plutus_redeemers: Option<Vec<PlutusRedeemerRecord>>,
    pub plutus_data: Option<Vec<PlutusDatumRecord>>,
    pub withdrawals: Option<Vec<WithdrawalRecord>>,
    pub size: u32,
}

pub struct TransactionRecordView {
    pub hash: Seq<char>,
    pub fee: u64,
    pub ttl: Option<u64>,
    pub validity_interval_start: Option<u64>,
    pub network_id: Option<u32>,
    pub input_count: usize,
    pub collateral_input_count: usize,
    pub has_collateral_output: bool,
    pub output_count: usize,
    pub mint_count: nat,
    pub certificate_count: usize,
    pub total_output: u64,
    pub required_signers_count: usize,
    pub required_signers: Option<Seq<Seq<char>>>,
    pub update: Option<UpdateRecordView>,
    pub metadata: Option<Seq<MetadataRecordView>>,
    pub inputs: Option<Seq<TxInputRecordView>>,
    pub outputs: Option<Seq<TxOutputRecordView>>,
    pub collateral_inputs: Option<Seq<TxInputRecordView>>,
    pub collateral_output: Option<TxOutputRecordView>,
    pub certs: Option<Seq<CertificateRecordView>>,
    pub mint: Option<Seq<MintRecordView>>,
    pub vkey_witnesses: Option<Seq<VKeyWitnessRecordView>>,
    pub native_witnesses: Option<Seq<NativeWitnessRecordView>>,
    pub plutus_witnesses: Option<Seq<PlutusWitnessRecordView>>,
    pub plutus_redeemers: Option<Seq<PlutusRedeemerRecordView>>,
    pub plutus_data: Option<Seq<PlutusDatumRecordView>>,
    pub withdrawals: Option<Seq<WithdrawalRecordView>>,
    pub size: u32,
}

impl View for TransactionRecord {
    type V = TransactionRecordView;

    open spec fn view(&self) -> TransactionRecordView {
        TransactionRecordView {
            hash: self.hash@,
            fee: self.fee,
            ttl: self.ttl,
            validity_interval_start: self.validity_interval_start,
            network_id: self.network_id,
            input_count: self.input_count,
            collateral_input_count: self.collateral_input_count,
            has_collateral_output: self.has_collateral_output,
            output_count: self.output_count,
            mint_count: self.mint_count as nat,
            certificate_count: self.certificate_count,
            total_output: self.total_output,
            required_signers_count: self.required_signers_count,
            required_signers: opt_views(self.required_signers),
            update: opt_view(self.update),
            metadata: opt_views(self.metadata),
            inputs: opt_views(self.inputs),
            outputs: opt_views(self.outputs),
            collateral_inputs: opt_views(self.collateral_inputs),
            collateral_output: opt_view(self.collateral_output),
            certs: opt_views(self.certs),
            mint: opt_views(self.mint),
            vkey_witnesses: opt_views(self.vkey_witnesses),
            native_witnesses: opt_views(self.native_witnesses),
            plutus_witnesses: opt_views(self.plutus_witnesses),
            plutus_redeemers: opt_views(self.plutus_redeemers),
            plutus_data: opt_views(self.plutus_data),
            withdrawals: opt_views(self.withdrawals),
            size: self.size,
        }
    }
}

impl TransactionRecordView {
    /// The record of an empty transaction: every count zero, no detail.
    pub open spec fn empty() -> TransactionRecordView {
        TransactionRecordView {
            hash: Seq::empty(),
            fee: 0,
            ttl: None,
            validity_interval_start: None,
            network_id: None,
            input_count: 0,
            collateral_input_count: 0,
            has_collateral_output: false,
            output_count: 0,
            mint_count: 0,
            certificate_count: 0,
            total_output: 0,
            required_signers_count: 0,
            required_signers: None,
            update: None,
            metadata: None,
            inputs: None,
            outputs: None,
            collateral_inputs: None,
            collateral_output: None,
            certs: None,
            mint: None,
            vkey_witnesses: None,
            native_witnesses: None,
            plutus_witnesses: None,
            plutus_redeemers: None,
            plutus_data: None,
            withdrawals: None,
            size: 0,
        }
    }
}

impl Default for TransactionRecord {
    fn default() -> (record: Self)
        ensures
            record@ == TransactionRecordView::empty(),
    {
        TransactionRecord {
            hash: String::new(),
            fee: 0,
            ttl: None,
            validity_interval_start: None,
            network_id: None,
            input_count: 0,
            collateral_input_count: 0,
            has_collateral_output: false,
            output_count: 0,
            mint_count: 0,
            certificate_count: 0,
            total_output: 0,
            required_signers_count: 0,
            required_signers: None,
            update: None,
            metadata: None,
            inputs: None,
            outputs: None,
            collateral_inputs: None,
            collateral_output: None,
            certs: None,
            mint: None,
            vkey_witnesses: None,
            native_witnesses: None,
            plutus_witnesses: None,
            plutus_redeemers: None,
            plutus_data: None,
            withdrawals: None,
            size: 0,
        }
    }
}

/// One block. The original encoding and the list of transactions are
/// present only where they were asked for.
#[derive(Debug, Clone, PartialEq, Eq)]
pub struct BlockRecord {
    pub era: Era,
    pub epoch: Option<u64>,
    pub epoch_slot: Option<u64>,
    pub body_size: usize,
    pub issuer_vkey: String,
    pub vrf_vkey: String,
    pub tx_count: usize,
    pub slot: u64,
    pub hash: String,
    pub number: u64,
    pub previous_hash: String,
    pub cbor_hex: Option<String>,
    pub transactions: Option<Vec<TransactionRecord>>,
}

pub struct BlockRecordView {
    pub era: Era,
    pub epoch: Option<u64>,
    pub epoch_slot: Option<u64>,
    pub body_size: usize,
    pub issuer_vkey: Seq<char>,
    pub vrf_vkey: Seq<char>,
    pub tx_count: usize,
    pub slot: u64,
    pub hash: Seq<char>,
    pub number: u64,
    pub previous_hash: Seq<char>,
    pub cbor_hex: Option<Seq<char>>,
    pub transactions: Option<Seq<TransactionRecordView>>,
}

impl View for BlockRecord {
    type V = BlockRecordView;

    open spec fn view(&self) -> BlockRecordView {
        BlockRecordView {
            era: self.era,
            epoch: self.epoch,
            epoch_slot: self.epoch_slot,
            body_size: self.body_size,
            issuer_vkey: self.issuer_vkey@,
            vrf_vkey: self.vrf_vkey@,
            tx_count: self.tx_count,
            slot: self.slot,
            hash: self.hash@,
            number: self.number,
            previous_hash: self.previous_hash@,
            cbor_hex: opt_view(self.cbor_hex),
            transactions: opt_views(self.transactions),
        }
    }
}
/// What an event is about: exactly one kind of record.
#[derive(Debug, Clone)]
pub enum EventData {
    Block(BlockRecord),
    BlockEnd(BlockRecord),
    Transaction(TransactionRecord),
    TransactionEnd(TransactionRecord),
    TxInput(TxInputRecord),
    TxOutput(TxOutputRecord),
    OutputAsset(OutputAssetRecord),
    Metadata(MetadataRecord),
    VKeyWitness(VKeyWitnessRecord),
    NativeWitness(NativeWitnessRecord),
    PlutusWitness(PlutusWitnessRecord),
    PlutusRedeemer(PlutusRedeemerRecord),
    PlutusDatum(PlutusDatumRecord),
    CIP25Asset(CIP25AssetRecord),
    CIP15Asset(CIP15AssetRecord),
    Mint(MintRecord),
    Collateral { tx_id: String, index: u64 },
    NativeScript { policy_id: String, script: serde_json::Value },
    PlutusScript { hash: String, data: String },
    StakeRegistration(StakeRegistrationRecord),
    StakeDeregistration(StakeDeregistrationRecord),
    StakeDelegation(StakeDelegationRecord),
    PoolRegistration(PoolRegistrationRecord),
    PoolRetirement(PoolRetirementRecord),
    GenesisKeyDelegation(GenesisKeyDelegationRecord),
    MoveInstantaneousRewardsCert(MoveInstantaneousRewardsCertRecord),
    RegCert(RegCertRecord),
    UnRegCert(UnRegCertRecord),
    VoteDeleg(VoteDelegCertRecord),
    StakeVoteDeleg(StakeVoteDelegCertRecord),
    StakeRegDeleg(StakeRegDelegCertRecord),
    VoteRegDeleg(VoteRegDelegCertRecord),
    StakeVoteRegDeleg(StakeVoteRegDelegCertRecord),
    AuthCommitteeHot(AuthCommitteeHotCertRecord),
    ResignCommitteeCold(ResignCommitteeColdCertRecord),
    RegDRepCert(RegDRepCertRecord),
    UnRegDRepCert(UnRegDRepCertRecord),
    UpdateDRepCert(UpdateDRepCertRecord),
    RollBack { block_slot: u64, block_hash: String },
}

pub enum EventDataView {
    Block(BlockRecordView),
    BlockEnd(BlockRecordView),
    Transaction(TransactionRecordView),
    TransactionEnd(TransactionRecordView),
    TxInput(TxInputRecordView),
    TxOutput(TxOutputRecordView),
    OutputAsset(OutputAssetRecordView),
    Metadata(MetadataRecordView),
    VKeyWitness(VKeyWitnessRecordView),
    NativeWitness(NativeWitnessRecordView),
    PlutusWitness(PlutusWitnessRecordView),
    PlutusRedeemer(PlutusRedeemerRecordView),
    PlutusDatum(PlutusDatumRecordView),
    CIP25Asset(CIP25AssetRecordView),
    CIP15Asset(CIP15AssetRecordView),
    Mint(MintRecordView),
    Collateral { tx_id: Seq<char>, index: u64 },
    NativeScript { policy_id: Seq<char>, script: JsonModel },
    PlutusScript { hash: Seq<char>, data: Seq<char> },
    StakeRegistration(StakeRegistrationRecordView),
    StakeDeregistration(StakeDeregistrationRecordView),
    StakeDelegation(StakeDelegationRecordView),
    PoolRegistration(PoolRegistrationRecordView),
    PoolRetirement(PoolRetirementRecordView),
    GenesisKeyDelegation(GenesisKeyDelegationRecordView),
    MoveInstantaneousRewardsCert(MoveInstantaneousRewardsCertRecordView),
    RegCert(RegCertRecordView),
    UnRegCert(UnRegCertRecordView),
    VoteDeleg(VoteDelegCertRecordView),
    StakeVoteDeleg(StakeVoteDelegCertRecordView),
    StakeRegDeleg(StakeRegDelegCertRecordView),
    VoteRegDeleg(VoteRegDelegCertRecordView),
    StakeVoteRegDeleg(StakeVoteRegDelegCertRecordView),
    AuthCommitteeHot(AuthCommitteeHotCertRecordView),
    ResignCommitteeCold(ResignCommitteeColdCertRecordView),
    RegDRepCert(RegDRepCertRecordView),
    UnRegDRepCert(UnRegDRepCertRecordView),
    UpdateDRepCert(UpdateDRepCertRecordView),
    RollBack { block_slot: u64, block_hash: Seq<char> },
}

impl View for EventData {
    type V = EventDataView;

    open spec fn view(&self) -> EventDataView {
        match *self {
            EventData::Block(x) => EventDataView::Block(x@),
            EventData::BlockEnd(x) => EventDataView::BlockEnd(x@),
            EventData::Transaction(x) => EventDataView::Transaction(x@),
            EventData::TransactionEnd(x) => EventDataView::TransactionEnd(x@),
            EventData::TxInput(x) => EventDataView::TxInput(x@),
            EventData::TxOutput(x) => EventDataView::TxOutput(x@),
            EventData::OutputAsset(x) => EventDataView::OutputAsset(x@),
            EventData::Metadata(x) => EventDataView::Metadata(x@),
            EventData::VKeyWitness(x) => EventDataView::VKeyWitness(x@),
            EventData::NativeWitness(x) => EventDataView::NativeWitness(x@),
            EventData::PlutusWitness(x) => EventDataView::PlutusWitness(x@),
            EventData::PlutusRedeemer(x) => EventDataView::PlutusRedeemer(x@),
            EventData::PlutusDatum(x) => EventDataView::PlutusDatum(x@),
            EventData::CIP25Asset(x) => EventDataView::CIP25Asset(x@),
            EventData::CIP15Asset(x) => EventDataView::CIP15Asset(x@),
            EventData::Mint(x) => EventDataView::Mint(x@),
            EventData::Collateral { tx_id, index } => EventDataView::Collateral { tx_id: tx_id@, index },
            EventData::NativeScript { policy_id, script } => EventDataView::NativeScript {
                policy_id: policy_id@,
                script: json_model(script),
            },
            EventData::PlutusScript { hash, data } => EventDataView::PlutusScript { hash: hash@, data: data@ },
            EventData::StakeRegistration(x) => EventDataView::StakeRegistration(x@),
            EventData::StakeDeregistration(x) => EventDataView::StakeDeregistration(x@),
            EventData::StakeDelegation(x) => EventDataView::StakeDelegation(x@),
            EventData::PoolRegistration(x) => EventDataView::PoolRegistration(x@),
            EventData::PoolRetirement(x) => EventDataView::PoolRetirement(x@),
            EventData::GenesisKeyDelegation(x) => EventDataView::GenesisKeyDelegation(x@),
            EventData::MoveInstantaneousRewardsCert(x) => EventDataView::MoveInstantaneousRewardsCert(x@),
            EventData::RegCert(x) => EventDataView::RegCert(x@),
            EventData::UnRegCert(x) => EventDataView::UnRegCert(x@),
            EventData::VoteDeleg(x) => EventDataView::VoteDeleg(x@),
            EventData::StakeVoteDeleg(x) => EventDataView::StakeVoteDeleg(x@),
            EventData::StakeRegDeleg(x) => EventDataView::StakeRegDeleg(x@),
            EventData::VoteRegDeleg(x) => EventDataView::VoteRegDeleg(x@),
            EventData::StakeVoteRegDeleg(x) => EventDataView::StakeVoteRegDeleg(x@),
            EventData::AuthCommitteeHot(x) => EventDataView::AuthCommitteeHot(x@),
            EventData::ResignCommitteeCold(x) => EventDataView::ResignCommitteeCold(x@),
            EventData::RegDRepCert(x) => EventDataView::RegDRepCert(x@),
            EventData::UnRegDRepCert(x) => EventDataView::UnRegDRepCert(x@),
            EventData::UpdateDRepCert(x) => EventDataView::UpdateDRepCert(x@),
            EventData::RollBack { block_slot, block_hash } => EventDataView::RollBack {
                block_slot,
                block_hash: block_hash@,
            },
        }
    }
}

/// One event of a walk: where it stands, what it is about, and a key for
/// deduplication that consumers may assign. This library leaves the key
/// absent.
#[derive(Debug, Clone)]
pub struct Event {
    pub context: EventContext,
    pub data: EventData,
    pub fingerprint: Option<String>,
}

pub struct EventView {
    pub context: EventContextView,
    pub data: EventDataView,
    pub fingerprint: Option<Seq<char>>,
}

impl View for Event {
    type V = EventView;

    open spec fn view(&self) -> EventView {
        EventView {
            context: self.context@,
            data: self.data@,
            fingerprint: opt_view(self.fingerprint),
        }
    }
}

impl From<MetadataRecord> for EventData {
    fn from(x: MetadataRecord) -> (data: EventData) {
        EventData::Metadata(x)
    }
}

impl vstd::std_specs::convert::FromSpecImpl<MetadataRecord> for EventData {
    open spec fn obeys_from_spec() -> bool {
        true
    }

    open spec fn from_spec(x: MetadataRecord) -> EventData {
        EventData::Metadata(x)
    }
}

impl From<CIP25AssetRecord> for EventData {
    fn from(x: CIP25AssetRecord) -> (data: EventData) {
        EventData::CIP25Asset(x)
    }
}

impl vstd::std_specs::convert::FromSpecImpl<CIP25AssetRecord> for EventData {
    open spec fn obeys_from_spec() -> bool {
        true
    }

    open spec fn from_spec(x: CIP25AssetRecord) -> EventData {
        EventData::CIP25Asset(x)
    }
}

impl From<CIP15AssetRecord> for EventData {
    fn from(x: CIP15AssetRecord) -> (data: EventData) {
        EventData::CIP15Asset(x)
    }
}

impl vstd::std_specs::convert::FromSpecImpl<CIP15AssetRecord> for EventData {
    open spec fn obeys_from_spec() -> bool {
        true
    }

    open spec fn from_spec(x: CIP15AssetRecord) -> EventData {
        EventData::CIP15Asset(x)
    }
}

impl From<TxInputRecord> for EventData {
    fn from(x: TxInputRecord) -> (data: EventData) {
        EventData::TxInput(x)
    }
}

impl vstd::std_specs::convert::FromSpecImpl<TxInputRecord> for EventData {
    open spec fn obeys_from_spec() -> bool {
        true
    }

    open spec fn from_spec(x: TxInputRecord) -> EventData {
        EventData::TxInput(x)
    }
}

impl From<OutputAssetRecord> for EventData {
    fn from(x: OutputAssetRecord) -> (data: EventData) {
        EventData::OutputAsset(x)
    }
}

impl vstd::std_specs::convert::FromSpecImpl<OutputAssetRecord> for EventData {
    open spec fn obeys_from_spec() -> bool {
        true
    }

    open spec fn from_spec(x: OutputAssetRecord) -> EventData {
        EventData::OutputAsset(x)
    }
}

impl From<TxOutputRecord> for EventData {
    fn from(x: TxOutputRecord) -> (data: EventData) {
        EventData::TxOutput(x)
    }
}

impl vstd::std_specs::convert::FromSpecImpl<TxOutputRecord> for EventData {
    open spec fn obeys_from_spec() -> bool {
        true
    }

    open spec fn from_spec(x: TxOutputRecord) -> EventData {
        EventData::TxOutput(x)
    }
}

impl From<MintRecord> for EventData {
    fn from(x: MintRecord) -> (data: EventData) {
        EventData::Mint(x)
    }
}

impl vstd::std_specs::convert::FromSpecImpl<MintRecord> for EventData {
    open spec fn obeys_from_spec() -> bool {
        true
    }

    open spec fn from_spec(x: MintRecord) -> EventData {
        EventData::Mint(x)
    }
}

impl From<TransactionRecord> for EventData {
    fn from(x: TransactionRecord) -> (data: EventData) {
        EventData::Transaction(x)
    }
}

impl vstd::std_specs::convert::FromSpecImpl<TransactionRecord> for EventData {
    open spec fn obeys_from_spec() -> bool {
        true
    }

    open spec fn from_spec(x: TransactionRecord) -> EventData {
        EventData::Transaction(x)
    }
}

impl From<NativeWitnessRecord> for EventData {
    fn from(x: NativeWitnessRecord) -> (data: EventData) {
        EventData::NativeWitness(x)
    }
}

impl vstd::std_specs::convert::FromSpecImpl<NativeWitnessRecord> for EventData {
    open spec fn obeys_from_spec() -> bool {
        true
    }

    open spec fn from_spec(x: NativeWitnessRecord) -> EventData {
        EventData::NativeWitness(x)
    }
}

impl From<PlutusWitnessRecord> for EventData {
    fn from(x: PlutusWitnessRecord) -> (data: EventData) {
        EventData::PlutusWitness(x)
    }
}

impl vstd::std_specs::convert::FromSpecImpl<PlutusWitnessRecord> for EventData {
    open spec fn obeys_from_spec() -> bool {
        true
    }

    open spec fn from_spec(x: PlutusWitnessRecord) -> EventData {
        EventData::PlutusWitness(x)
    }
}

impl From<PlutusRedeemerRecord> for EventData {
    fn from(x: PlutusRedeemerRecord) -> (data: EventData) {
        EventData::PlutusRedeemer(x)
    }
}

impl vstd::std_specs::convert::FromSpecImpl<PlutusRedeemerRecord> for EventData {
    open spec fn obeys_from_spec() -> bool {
        true
    }

    open spec fn from_spec(x: PlutusRedeemerRecord) -> EventData {
        EventData::PlutusRedeemer(x)
    }
}

impl From<PlutusDatumRecord> for EventData {
    fn from(x: PlutusDatumRecord) -> (data: EventData) {
        EventData::PlutusDatum(x)
    }
}

impl vstd::std_specs::convert::FromSpecImpl<PlutusDatumRecord> for EventData {
    open spec fn obeys_from_spec() -> bool {
        true
    }

    open spec fn from_spec(x: PlutusDatumRecord) -> EventData {
        EventData::PlutusDatum(x)
    }
}

impl From<BlockRecord> for EventData {
    fn from(x: BlockRecord) -> (data: EventData) {
        EventData::Block(x)
    }
}

impl vstd::std_specs::convert::FromSpecImpl<BlockRecord> for EventData {
    open spec fn obeys_from_spec() -> bool {
        true
    }

    open spec fn from_spec(x: BlockRecord) -> EventData {
        EventData::Block(x)
    }
}

} // verus!
