//! Decoded blocks as the converters read them: plain values for everything
//! that the conversion looks into, and the decoder's own values for scripts
//! and data, which are only handed on.
pub mod shelley;
pub mod babbage;

use vstd::prelude::*;

verus! {

/// The decoder's native script, which is handed on as it is.
#[verifier::external_type_specification]
#[verifier::external_body]
pub struct ExNativeScript(pallas::ledger::primitives::alonzo::NativeScript);

/// The decoder's datum, which is handed on as it is.
#[verifier::external_type_specification]
#[verifier::external_body]
pub struct ExPlutusData(pallas::ledger::primitives::alonzo::PlutusData);

/// `NativeScript::clone`: hands back a script; nothing is claimed of it.
pub assume_specification[ <pallas::ledger::primitives::alonzo::NativeScript as Clone>::clone ](
    script: &pallas::ledger::primitives::alonzo::NativeScript,
) -> pallas::ledger::primitives::alonzo::NativeScript
;

/// `PlutusData::clone`: hands back a datum; nothing is claimed of it.
pub assume_specification[ <pallas::ledger::primitives::alonzo::PlutusData as Clone>::clone ](
    data: &pallas::ledger::primitives::alonzo::PlutusData,
) -> pallas::ledger::primitives::alonzo::PlutusData
;

/// A decoded value together with the bytes it was decoded from.
#[derive(Debug, Clone)]
pub struct KeepRaw<T> {
    pub raw_cbor: Vec<u8>,
    pub value: T,
}

impl<T> KeepRaw<T> {
    /// The original encoding.
    pub fn raw_cbor(&self) -> (bytes: &[u8])
        ensures
            bytes@ == self.raw_cbor@,
    {
        self.raw_cbor.as_slice()
    }
}

#[derive(Debug, Clone)]
pub struct TransactionInput {
    pub transaction_id: Vec<u8>,
    pub index: u64,
}

/// A quantity of one asset, by the asset's name.
#[derive(Debug, Clone)]
pub struct Asset<A> {
    pub name: Vec<u8>,
    pub amount: A,
}

/// The assets of one minting policy, in their encoded order.
#[derive(Debug, Clone)]
pub struct PolicyAssets<A> {
    pub policy: Vec<u8>,
    pub assets: Vec<Asset<A>>,
}

/// What an output is worth: coin alone, or coin and assets.
#[derive(Debug, Clone)]
pub enum OutputValue {
    Coin(u64),
    Multiasset(u64, Vec<PolicyAssets<u64>>),
}

#[derive(Debug, Clone)]
pub enum StakeCredential {
    AddrKeyhash(Vec<u8>),
    Scripthash(Vec<u8>),
}

#[derive(Debug, Clone)]
pub enum DRep {
    Key(Vec<u8>),
    Script(Vec<u8>),
    Abstain,
    NoConfidence,
}

#[derive(Debug, Clone)]
pub struct Anchor {
    pub url: String,
    pub data_hash: Vec<u8>,
}

/// Where a pool can be reached. An IPv4 address has four bytes and an IPv6
/// address sixteen.
#[derive(Debug, Clone)]
pub enum Relay {
    SingleHostAddr(Option<u32>, Option<[u8; 4]>, Option<[u8; 16]>),
    SingleHostName(Option<u32>, String),
    MultiHostName(String),
}

#[derive(Debug, Clone)]
pub struct PoolMetadata {
    pub url: String,
    pub hash: Vec<u8>,
}

#[derive(Debug, Clone, Copy)]
pub struct RationalNumber {
    pub numerator: u64,
    pub denominator: u64,
}

#[derive(Debug, Clone, Copy)]
pub struct UnitInterval {
    pub numerator: u64,
    pub denominator: u64,
}

#[derive(Debug, Clone, Copy)]
pub struct PositiveInterval {
    pub numerator: u64,
    pub denominator: u64,
}

#[derive(Debug, Clone, Copy)]
pub enum NonceVariant {
    NeutralNonce,
    Nonce,
}

#[derive(Debug, Clone)]
pub struct Nonce {
    pub variant: NonceVariant,
    pub hash: Option<Vec<u8>>,
}

#[derive(Debug, Clone, Copy)]
pub struct ExUnits {
    pub mem: u32,
    pub steps: u64,
}

#[derive(Debug, Clone, Copy)]
pub struct ExUnitPrices {
    pub mem_price: PositiveInterval,
    pub step_price: PositiveInterval,
}

#[derive(Debug, Clone, Copy)]
pub enum NetworkId {
    One,
    Two,
}

#[derive(Debug, Clone, Copy)]
pub enum InstantaneousRewardSource {
    Reserves,
    Treasury,
}

#[derive(Debug, Clone)]
pub enum InstantaneousRewardTarget {
    StakeCredentials(Vec<(StakeCredential, i64)>),
    OtherAccountingPot(u64),
}

#[derive(Debug, Clone)]
pub struct MoveInstantaneousReward {
    pub source: InstantaneousRewardSource,
    pub target: InstantaneousRewardTarget,
}

/// A certificate of any era.
#[derive(Debug, Clone)]
pub enum Certificate {
    StakeRegistration(StakeCredential),
    StakeDeregistration(StakeCredential),
    StakeDelegation(StakeCredential, Vec<u8>),
    PoolRegistration {
        operator: Vec<u8>,
        vrf_keyhash: Vec<u8>,
        pledge: u64,
        cost: u64,
        margin: RationalNumber,
        reward_account: Vec<u8>,
        pool_owners: Vec<Vec<u8>>,
        relays: Vec<Relay>,
        pool_metadata: Option<PoolMetadata>,
    },
    PoolRetirement(Vec<u8>, u64),
    GenesisKeyDelegation(Vec<u8>, Vec<u8>, Vec<u8>),
    MoveInstantaneousRewardsCert(MoveInstantaneousReward),
    Reg(StakeCredential, u64),
    UnReg(StakeCredential, u64),
    VoteDeleg(StakeCredential, DRep),
    StakeVoteDeleg(StakeCredential, Vec<u8>, DRep),
    StakeRegDeleg(StakeCredential, Vec<u8>, u64),
    VoteRegDeleg(StakeCredential, DRep, u64),
    StakeVoteRegDeleg(StakeCredential, Vec<u8>, DRep, u64),
    AuthCommitteeHot(StakeCredential, StakeCredential),
    ResignCommitteeCold(StakeCredential, Option<Anchor>),
    RegDRepCert(StakeCredential, u64, Option<Anchor>),
    UnRegDRepCert(StakeCredential, u64),
    UpdateDRepCert(StakeCredential, Option<Anchor>),
}

/// A piece of transaction metadata.
#[derive(Debug)]
pub enum Metadatum {
    Int(i128),
    Bytes(Vec<u8>),
    Text(String),
    Array(Vec<Metadatum>),
    Mapping(Vec<(Metadatum, Metadatum)>),
}

impl Clone for Metadatum {
    fn clone(&self) -> Self
        decreases self,
    {
        match self {
            Metadatum::Int(x) => Metadatum::Int(*x),
            Metadatum::Bytes(x) => Metadatum::Bytes(x.clone()),
            Metadatum::Text(x) => Metadatum::Text(x.clone()),
            Metadatum::Array(items) => {
                let mut copies: Vec<Metadatum> = Vec::new();
                let mut i: usize = 0;
                while i < items.len()
                    invariant
                        i <= items.len(),
                        decreases_to!(self => items),
                    decreases items.len() - i,
                {
                    copies.push(items[i].clone());
                    i += 1;
                }
                Metadatum::Array(copies)
            },
            Metadatum::Mapping(entries) => {
                let mut copies: Vec<(Metadatum, Metadatum)> = Vec::new();
                let mut i: usize = 0;
                while i < entries.len()
                    invariant
                        i <= entries.len(),
                        decreases_to!(self => entries),
                    decreases entries.len() - i,
                {
                    copies.push((entries[i].0.clone(), entries[i].1.clone()));
                    i += 1;
                }
                Metadatum::Mapping(copies)
            },
        }
    }
}

/// The metadata of a transaction: contents by label, in encoded order.
pub type Metadata = Vec<(u64, Metadatum)>;

/// A compiled script of the virtual machine, of language version `VERSION`.
#[derive(Debug, Clone)]
pub struct PlutusScript<const VERSION: usize>(pub Vec<u8>);

#[derive(Debug, Clone)]
pub struct VKeyWitness {
    pub vkey: Vec<u8>,
    pub signature: Vec<u8>,
}

#[derive(Debug, Clone, Copy)]
pub enum RedeemerTag {
    Spend,
    Mint,
    Cert,
    Reward,
    Voting,
    Proposing,
}

#[derive(Debug, Clone)]
pub struct Redeemer {
    pub tag: RedeemerTag,
    pub index: u32,
    pub data: pallas::ledger::primitives::alonzo::PlutusData,
    pub ex_units: ExUnits,
}

/// An output of the eras before inline data and scripts.
#[derive(Debug, Clone)]
pub struct TransactionOutput {
    pub address: Vec<u8>,
    pub amount: OutputValue,
    pub datum_hash: Option<Vec<u8>>,
}

#[derive(Debug, Clone)]
pub struct HeaderBody {
    pub block_number: u64,
    pub slot: u64,
    pub prev_hash: Option<Vec<u8>>,
    pub issuer_vkey: Vec<u8>,
    pub vrf_vkey: Vec<u8>,
    pub block_body_size: usize,
}

#[derive(Debug, Clone)]
pub struct Header {
    pub header_body: HeaderBody,
}

/// The auxiliary data of a transaction, in one of its three encodings.
#[derive(Debug, Clone)]
pub enum AuxiliaryData {
    Shelley(Metadata),
    ShelleyMa {
        transaction_metadata: Metadata,
        auxiliary_scripts: Option<Vec<pallas::ledger::primitives::alonzo::NativeScript>>,
    },
    PostAlonzo {
        metadata: Option<Metadata>,
        native_scripts: Option<Vec<pallas::ledger::primitives::alonzo::NativeScript>>,
        plutus_scripts: Option<Vec<PlutusScript<1>>>,
    },
}

/// A point of the chain: its origin, or the block of a slot and a hash.
#[derive(Debug, Clone)]
pub enum Point {
    Origin,
    Specific(u64, Vec<u8>),
}

} // verus!
