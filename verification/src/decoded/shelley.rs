//! Decoded blocks of the legacy family of eras: outputs of a single format.
use crate::decoded::{
    AuxiliaryData, Certificate, ExUnitPrices, ExUnits, Header, KeepRaw, NetworkId, Nonce,
    PlutusScript, PolicyAssets, RationalNumber, Redeemer, TransactionInput, TransactionOutput,
    UnitInterval, VKeyWitness,
};
use vstd::prelude::*;

verus! {

#[derive(Debug, Clone, Copy)]
pub enum Language {
    PlutusV1,
}

/// Cost models by language, in encoded order.
pub type CostMdls = Vec<(Language, Vec<i64>)>;

#[derive(Debug, Clone)]
pub struct ProtocolParamUpdate {
    pub minfee_a: Option<u32>,
    pub minfee_b: Option<u32>,
    pub max_block_body_size: Option<u32>,
    pub max_transaction_size: Option<u32>,
    pub max_block_header_size: Option<u32>,
    pub key_deposit: Option<u64>,
    pub pool_deposit: Option<u64>,
    pub maximum_epoch: Option<u64>,
    pub desired_number_of_stake_pools: Option<u32>,
    pub pool_pledge_influence: Option<RationalNumber>,
    pub expansion_rate: Option<UnitInterval>,
    pub treasury_growth_rate: Option<UnitInterval>,
    pub decentralization_constant: Option<UnitInterval>,
    pub extra_entropy: Option<Nonce>,
    pub protocol_version: Option<(u64, u64)>,
    pub min_pool_cost: Option<u64>,
    pub ada_per_utxo_byte: Option<u64>,
    pub cost_models_for_script_languages: Option<CostMdls>,
    pub execution_costs: Option<ExUnitPrices>,
    pub max_tx_ex_units: Option<ExUnits>,
    pub max_block_ex_units: Option<ExUnits>,
    pub max_value_size: Option<u32>,
    pub collateral_percentage: Option<u32>,
    pub max_collateral_inputs: Option<u32>,
}

/// Proposed parameter changes by proposer, in encoded order.
#[derive(Debug, Clone)]
pub struct Update {
    pub proposed_protocol_parameter_updates: Vec<(Vec<u8>, ProtocolParamUpdate)>,
    pub epoch: u64,
}

#[derive(Debug, Clone)]
pub struct TransactionBody {
    pub inputs: Vec<TransactionInput>,
    pub outputs: Vec<TransactionOutput>,
    pub fee: u64,
    pub ttl: Option<u64>,
    pub certificates: Option<Vec<Certificate>>,
    pub withdrawals: Option<Vec<(Vec<u8>, u64)>>,
    pub update: Option<Update>,
    pub validity_interval_start: Option<u64>,
    pub mint: Option<Vec<PolicyAssets<i64>>>,
    pub collateral: Option<Vec<TransactionInput>>,
    pub required_signers: Option<Vec<Vec<u8>>>,
    pub network_id: Option<NetworkId>,
}

#[derive(Debug, Clone)]
pub struct MintedWitnessSet {
    pub vkeywitness: Option<Vec<VKeyWitness>>,
    pub native_script: Option<Vec<pallas::ledger::primitives::alonzo::NativeScript>>,
    pub plutus_script: Option<Vec<PlutusScript<1>>>,
    pub plutus_data: Option<Vec<KeepRaw<pallas::ledger::primitives::alonzo::PlutusData>>>,
    pub redeemer: Option<Vec<Redeemer>>,
}

/// A block as it was minted: each section with its original bytes. The
/// auxiliary data is sparse, keyed by the index of its transaction; the
/// witness sets stand at the position of their transaction.
#[derive(Debug, Clone)]
pub struct MintedBlock {
    pub header: KeepRaw<Header>,
    pub transaction_bodies: Vec<KeepRaw<TransactionBody>>,
    pub transaction_witness_sets: Vec<KeepRaw<MintedWitnessSet>>,
    pub auxiliary_data_set: Vec<(u32, KeepRaw<AuxiliaryData>)>,
}

} // verus!
