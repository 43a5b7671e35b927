//! The functions of the ledger toolkit that the conversion calls: address
//! decoding and rendering, hashing, and the canonical JSON of scripts and
//! data. Verus takes their contracts on trust; each one says no more than
//! that the call's result is a function of its arguments.
use crate::json::{json_model, JsonModel};
use vstd::prelude::*;

verus! {

/// The toolkit's decoded address, which only goes from the decoding to the
/// rendering.
#[verifier::external_type_specification]
#[verifier::external_body]
pub struct ExAddress(pallas::ledger::addresses::Address);

/// What a byte string decodes to: an address, or the decoder's error where
/// the bytes are no address.
pub uninterp spec fn decoded_address(bytes: Seq<u8>) -> Result<
    pallas::ledger::addresses::Address,
    pallas::ledger::addresses::Error,
>;

/// The text of an address, as the toolkit displays it.
pub uninterp spec fn address_text(address: pallas::ledger::addresses::Address) -> Seq<char>;

/// The Blake2b digest of 256 bits of a byte string.
pub uninterp spec fn blake2b_256(bytes: Seq<u8>) -> Seq<u8>;

/// The Blake2b digest of 224 bits of a tag byte followed by a byte string.
pub uninterp spec fn blake2b_224_tagged(bytes: Seq<u8>, tag: u8) -> Seq<u8>;

/// The hash that names a native script.
pub uninterp spec fn native_script_hash(
    script: pallas::ledger::primitives::alonzo::NativeScript,
) -> Seq<u8>;

/// The canonical JSON of a native script.
pub uninterp spec fn native_script_json(
    script: pallas::ledger::primitives::alonzo::NativeScript,
) -> JsonModel;

/// The canonical JSON of a datum.
pub uninterp spec fn plutus_data_json(
    data: pallas::ledger::primitives::alonzo::PlutusData,
) -> JsonModel;

/// `Address::from_bytes`: decodes the bytes of an address, or says why they
/// are none. The outcome, the address as much as the error, depends on the
/// bytes alone.
#[verifier::external_body]
pub(crate) fn address_from_bytes(bytes: &[u8]) -> (decoded: Result<
    pallas::ledger::addresses::Address,
    pallas::ledger::addresses::Error,
>)
    ensures
        decoded == decoded_address(bytes@),
{
    pallas::ledger::addresses::Address::from_bytes(bytes)
}

/// `Address::to_string`: the text of a decoded address, which depends on
/// the address alone.
#[verifier::external_body]
pub(crate) fn address_to_string(address: &pallas::ledger::addresses::Address) -> (text: String)
    ensures
        text@ == address_text(*address),
{
    address.to_string()
}

/// `Hasher::<256>::hash`: the digest of the bytes, 32 bytes long, which is
/// what the toolkit takes as the hash of a section kept with its original
/// encoding.
#[verifier::external_body]
pub(crate) fn hash_256(bytes: &[u8]) -> (digest: Vec<u8>)
    ensures
        digest@ == blake2b_256(bytes@),
        digest@.len() == 32,
{
    pallas::crypto::hash::Hasher::<256>::hash(bytes).to_vec()
}

/// `Hasher::<224>::hash_tagged`: the digest of the tag byte followed by the
/// bytes, 28 bytes long, which is what the toolkit takes as the hash of a
/// compiled script, tagged with its language version.
#[verifier::external_body]
pub(crate) fn hash_224_tagged(bytes: &[u8], tag: u8) -> (digest: Vec<u8>)
    ensures
        digest@ == blake2b_224_tagged(bytes@, tag),
        digest@.len() == 28,
{
    pallas::crypto::hash::Hasher::<224>::hash_tagged(bytes, tag).to_vec()
}

/// `ComputeHash::compute_hash` of a native script: the hash of the script,
/// 28 bytes long, which depends on the script alone.
#[verifier::external_body]
pub(crate) fn hash_native_script(
    script: &pallas::ledger::primitives::alonzo::NativeScript,
) -> (digest: Vec<u8>)
    ensures
        digest@ == native_script_hash(*script),
        digest@.len() == 28,
{
    pallas::ledger::traverse::ComputeHash::compute_hash(script).to_vec()
}

/// `ToCanonicalJson::to_json` of a native script: its JSON, which depends on
/// the script alone.
#[verifier::external_body]
pub(crate) fn native_script_to_json(
    script: &pallas::ledger::primitives::alonzo::NativeScript,
) -> (value: serde_json::Value)
    ensures
        json_model(value) == native_script_json(*script),
{
    pallas::ledger::primitives::ToCanonicalJson::to_json(script)
}

/// `ToCanonicalJson::to_json` of a datum: its JSON, which depends on the
/// datum alone.
#[verifier::external_body]
pub(crate) fn plutus_data_to_json(data: &pallas::ledger::primitives::alonzo::PlutusData) -> (value:
    serde_json::Value)
    ensures
        json_model(value) == plutus_data_json(*data),
{
    pallas::ledger::primitives::ToCanonicalJson::to_json(data)
}

} // verus!
