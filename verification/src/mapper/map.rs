//! The records of what a transaction is made of: inputs, outputs, assets,
//! mints, scripts, data, redeemers and witnesses.
use crate::collaborators::{
    address_from_bytes, address_text, address_to_string, blake2b_224_tagged,
    blake2b_256, decoded_address, hash_224_tagged, hash_256, hash_native_script,
    native_script_hash, native_script_json, native_script_to_json, plutus_data_json,
    plutus_data_to_json,
};
use crate::decoded::babbage::{
    MintedDatumOption, MintedPostAlonzoTransactionOutput, Script, ScriptRef,
};
use crate::decoded::{
    KeepRaw, OutputValue, PlutusScript, PolicyAssets, Redeemer, RedeemerTag,
    TransactionInput, TransactionOutput, VKeyWitness,
};
use crate::error::{result_view, ConvertError, Failure};
use crate::mapper::EventWriter;
use crate::model::{
    EventData, EventDataView, MintRecord, MintRecordView, NativeWitnessRecord,
    NativeWitnessRecordView, OutputAssetRecord, OutputAssetRecordView, PlutusDatumRecord,
    PlutusDatumRecordView, PlutusRedeemerRecord, PlutusRedeemerRecordView, PlutusWitnessRecord,
    PlutusWitnessRecordView, ScriptRefRecord, ScriptRefRecordView, TxInputRecord,
    TxInputRecordView, TxOutputRecord, TxOutputRecordView, VKeyWitnessRecord,
    VKeyWitnessRecordView,
};
use crate::text::{hex_string, text_from_utf8, utf8_text, ToHex};
use crate::views::views;
use vstd::prelude::*;

verus! {

/// The record of an input: the spent transaction in hexadecimal, and the
/// index of the spent output.
pub open spec fn input_record(input: TransactionInput) -> TxInputRecordView {
    TxInputRecordView { tx_id: hex_string(input.transaction_id@), index: input.index }
}

/// The coin of a value, with or without assets beside it.
pub open spec fn coin_value(amount: OutputValue) -> u64 {
    match amount {
        OutputValue::Coin(x) => x,
        OutputValue::Multiasset(x, _) => x,
    }
}

/// The coin of a value.
pub fn get_tx_output_coin_value(amount: &OutputValue) -> (coin: u64)
    ensures
        coin == coin_value(*amount),
{
    match amount {
        OutputValue::Coin(x) => *x,
        OutputValue::Multiasset(x, _) => *x,
    }
}

/// The record of a quantity of one asset: policy and name in hexadecimal,
/// and the name as text where its bytes are valid UTF-8.
pub open spec fn asset_record(policy: Seq<u8>, asset: Seq<u8>, amount: u64) -> OutputAssetRecordView {
    OutputAssetRecordView {
        policy: hex_string(policy),
        asset: hex_string(asset),
        asset_ascii: utf8_text(asset),
        amount,
    }
}

/// The records of the assets of one policy, in order.
pub open spec fn policy_asset_records(entry: PolicyAssets<u64>) -> Seq<OutputAssetRecordView> {
    Seq::new(
        entry.assets.len() as nat,
        |i: int| asset_record(entry.policy@, entry.assets@[i].name@, entry.assets@[i].amount),
    )
}

/// The records of the assets of all policies: policy after policy, and
/// within a policy asset after asset.
pub open spec fn multiasset_records(policies: Seq<PolicyAssets<u64>>) -> Seq<OutputAssetRecordView>
    decreases policies.len(),
{
    if policies.len() == 0 {
        Seq::empty()
    } else {
        multiasset_records(policies.drop_last()) + policy_asset_records(policies.last())
    }
}

/// The asset records of a value: none for coin alone.
pub open spec fn value_asset_records(amount: OutputValue) -> Seq<OutputAssetRecordView> {
    match amount {
        OutputValue::Coin(_) => Seq::empty(),
        OutputValue::Multiasset(_, policies) => multiasset_records(policies@),
    }
}

/// The record of a minted or burnt quantity of one asset.
pub open spec fn mint_record(policy: Seq<u8>, asset: Seq<u8>, quantity: i64) -> MintRecordView {
    MintRecordView { policy: hex_string(policy), asset: hex_string(asset), quantity }
}

/// The mint records of one policy, in order.
pub open spec fn policy_mint_records(entry: PolicyAssets<i64>) -> Seq<MintRecordView> {
    Seq::new(
        entry.assets.len() as nat,
        |i: int| mint_record(entry.policy@, entry.assets@[i].name@, entry.assets@[i].amount),
    )
}

/// The mint records of all policies: policy after policy, and within a
/// policy asset after asset.
pub open spec fn mint_records(policies: Seq<PolicyAssets<i64>>) -> Seq<MintRecordView>
    decreases policies.len(),
{
    if policies.len() == 0 {
        Seq::empty()
    } else {
        mint_records(policies.drop_last()) + policy_mint_records(policies.last())
    }
}

/// The text of an address given by its bytes; where the bytes are no
/// address, the decoder's error as it is.
pub open spec fn rendered_address(bytes: Seq<u8>) -> Result<Seq<char>, Failure> {
    match decoded_address(bytes) {
        Ok(address) => Ok(address_text(address)),
        Err(e) => Err(Failure::MalformedAddress(e)),
    }
}

/// The hexadecimal text of an optional hash.
pub open spec fn optional_hex(hash: Option<Vec<u8>>) -> Option<Seq<char>> {
    match hash {
        Some(h) => Some(hex_string(h@)),
        None => None,
    }
}

/// The record of an output of the single legacy format. It fails where the
/// address bytes are no address, and never carries inline data or a script.
pub open spec fn legacy_output_record(output: TransactionOutput) -> Result<
    TxOutputRecordView,
    Failure,
> {
    match rendered_address(output.address@) {
        Ok(address) => Ok(
            TxOutputRecordView {
                address,
                amount: coin_value(output.amount),
                assets: Some(value_asset_records(output.amount)),
                datum_hash: optional_hex(output.datum_hash),
                inline_datum: None,
                inlined_script: None,
            },
        ),
        Err(e) => Err(e),
    }
}

/// The record of a datum kept with its encoding: the hash of the encoding
/// in hexadecimal, and the datum's canonical JSON.
pub open spec fn datum_record(
    datum: KeepRaw<pallas::ledger::primitives::alonzo::PlutusData>,
) -> PlutusDatumRecordView {
    PlutusDatumRecordView {
        datum_hash: hex_string(blake2b_256(datum.raw_cbor@)),
        plutus_data: plutus_data_json(datum.value),
    }
}

/// The record of a script that an output refers to.
pub open spec fn script_ref_record(script_ref: ScriptRef) -> ScriptRefRecordView {
    match script_ref.0 {
        Script::PlutusV1Script(script) => ScriptRefRecordView::PlutusV1 {
            script_hash: hex_string(blake2b_224_tagged(script.0@, 1)),
            script_hex: hex_string(script.0@),
        },
        Script::PlutusV2Script(script) => ScriptRefRecordView::PlutusV2 {
            script_hash: hex_string(blake2b_224_tagged(script.0@, 2)),
            script_hex: hex_string(script.0@),
        },
        Script::PlutusV3Script(script) => ScriptRefRecordView::PlutusV3 {
            script_hash: hex_string(blake2b_224_tagged(script.0@, 3)),
            script_hex: hex_string(script.0@),
        },
        Script::NativeScript(script) => ScriptRefRecordView::NativeScript {
            policy_id: hex_string(native_script_hash(script)),
            script_json: native_script_json(script),
        },
    }
}

/// The record of an output that may carry inline data and a script. It
/// fails where the address bytes are no address.
pub open spec fn post_alonzo_output_record(output: MintedPostAlonzoTransactionOutput) -> Result<
    TxOutputRecordView,
    Failure,
> {
    match rendered_address(output.address@) {
        Ok(address) => Ok(
            TxOutputRecordView {
                address,
                amount: coin_value(output.value),
                assets: Some(value_asset_records(output.value)),
                datum_hash: match output.datum_option {
                    Some(MintedDatumOption::Hash(x)) => Some(hex_string(x@)),
                    Some(MintedDatumOption::Data(x)) => Some(
                        hex_string(blake2b_256(x.raw_cbor@)),
                    ),
                    None => None,
                },
                inline_datum: match output.datum_option {
                    Some(MintedDatumOption::Data(x)) => Some(datum_record(x)),
                    _ => None,
                },
                inlined_script: match output.script_ref {
                    Some(script) => Some(script_ref_record(script)),
                    None => None,
                },
            },
        ),
        Err(e) => Err(e),
    }
}

/// The event that discloses a native script of the auxiliary data.
pub open spec fn aux_native_script_event(
    script: pallas::ledger::primitives::alonzo::NativeScript,
) -> EventDataView {
    EventDataView::NativeScript {
        policy_id: hex_string(native_script_hash(script)),
        script: native_script_json(script),
    }
}

/// The event that discloses a compiled script of the auxiliary data.
pub open spec fn aux_plutus_script_event(script: PlutusScript<1>) -> EventDataView {
    EventDataView::PlutusScript {
        hash: hex_string(blake2b_224_tagged(script.0@, 1)),
        data: hex_string(script.0@),
    }
}

/// The name of what a redeemer is for.
pub open spec fn purpose_text(tag: RedeemerTag) -> Seq<char> {
    match tag {
        RedeemerTag::Spend => "spend"@,
        RedeemerTag::Mint => "mint"@,
        RedeemerTag::Cert => "cert"@,
        RedeemerTag::Reward => "reward"@,
        RedeemerTag::Voting => "voting"@,
        RedeemerTag::Proposing => "proposing"@,
    }
}

/// The record of a redeemer.
pub open spec fn redeemer_record(redeemer: Redeemer) -> PlutusRedeemerRecordView {
    PlutusRedeemerRecordView {
        purpose: purpose_text(redeemer.tag),
        ex_units_mem: redeemer.ex_units.mem,
        ex_units_steps: redeemer.ex_units.steps,
        input_idx: redeemer.index,
        plutus_data: plutus_data_json(redeemer.data),
    }
}

/// The witness record of a compiled script of language version `version`.
pub open spec fn plutus_witness_record(bytes: Seq<u8>, version: u8) -> PlutusWitnessRecordView {
    PlutusWitnessRecordView {
        script_hash: hex_string(blake2b_224_tagged(bytes, version)),
        script_hex: hex_string(bytes),
    }
}

/// The witness record of a native script.
pub open spec fn native_witness_record(
    script: pallas::ledger::primitives::alonzo::NativeScript,
) -> NativeWitnessRecordView {
    NativeWitnessRecordView {
        policy_id: hex_string(native_script_hash(script)),
        script_json: native_script_json(script),
    }
}

/// The record of a signature with its key.
pub open spec fn vkey_witness_record(witness: VKeyWitness) -> VKeyWitnessRecordView {
    VKeyWitnessRecordView {
        vkey_hex: hex_string(witness.vkey@),
        signature_hex: hex_string(witness.signature@),
    }
}

/// The event of a collateral input.
pub open spec fn collateral_event(collateral: TransactionInput) -> EventDataView {
    EventDataView::Collateral {
        tx_id: hex_string(collateral.transaction_id@),
        index: collateral.index,
    }
}

/// Renders the bytes of an address as text.
pub fn render_address(bytes: &Vec<u8>) -> (text: Result<String, ConvertError>)
    ensures
        match text {
            Ok(t) => rendered_address(bytes@) == Ok::<Seq<char>, Failure>(t@),
            Err(e) => rendered_address(bytes@) == Err::<Seq<char>, Failure>(e@),
        },
{
    match address_from_bytes(bytes.as_slice()) {
        Ok(address) => Ok(address_to_string(&address)),
        Err(e) => Err(ConvertError::MalformedAddress(e)),
    }
}

fn optional_to_hex(hash: &Option<Vec<u8>>) -> (text: Option<String>)
    ensures
        crate::views::opt_view(text) == optional_hex(*hash),
{
    match hash {
        Some(h) => Some(h.to_hex()),
        None => None,
    }
}

impl EventWriter {
    pub fn to_transaction_input_record(&self, input: &TransactionInput) -> (record: TxInputRecord)
        ensures
            record@ == input_record(*input),
    {
        TxInputRecord { tx_id: input.transaction_id.to_hex(), index: input.index }
    }

    pub fn to_transaction_output_asset_record(
        &self,
        policy: &Vec<u8>,
        asset: &Vec<u8>,
        amount: u64,
    ) -> (record: OutputAssetRecord)
        ensures
            record@ == asset_record(policy@, asset@, amount),
    {
        OutputAssetRecord {
            policy: policy.to_hex(),
            asset: asset.to_hex(),
            asset_ascii: text_from_utf8(asset.clone()),
            amount,
        }
    }

    pub fn to_mint_record(&self, policy: &Vec<u8>, asset: &Vec<u8>, quantity: i64) -> (record:
        MintRecord)
        ensures
            record@ == mint_record(policy@, asset@, quantity),
    {
        MintRecord { policy: policy.to_hex(), asset: asset.to_hex(), quantity }
    }

    /// Converts an output of the legacy format. A malformed address fails
    /// the conversion.
    pub fn to_legacy_output_record(&self, output: &TransactionOutput) -> (record: Result<
        TxOutputRecord,
        ConvertError,
    >)
        ensures
            result_view(record) == legacy_output_record(*output),
    {
        let address = render_address(&output.address)?;
        Ok(
            TxOutputRecord {
                address,
                amount: get_tx_output_coin_value(&output.amount),
                assets: Some(self.collect_asset_records(&output.amount)),
                datum_hash: optional_to_hex(&output.datum_hash),
                inline_datum: None,
                inlined_script: None,
            },
        )
    }

    /// Converts an output that may carry inline data and a script. A
    /// malformed address fails the conversion.
    pub fn to_post_alonzo_output_record(
        &self,
        output: &MintedPostAlonzoTransactionOutput,
    ) -> (record: Result<TxOutputRecord, ConvertError>)
        ensures
            result_view(record) == post_alonzo_output_record(*output),
    {
        let address = render_address(&output.address)?;
        let datum_hash = match &output.datum_option {
            Some(MintedDatumOption::Hash(x)) => Some(x.to_hex()),
            Some(MintedDatumOption::Data(x)) => Some(hash_256(x.raw_cbor()).to_hex()),
            None => None,
        };
        let inline_datum = match &output.datum_option {
            Some(MintedDatumOption::Data(x)) => Some(self.datum_record_of(x)),
            _ => None,
        };
        let inlined_script = match &output.script_ref {
            Some(script) => Some(self.script_ref_record_of(script)),
            None => None,
        };
        Ok(
            TxOutputRecord {
                address,
                amount: get_tx_output_coin_value(&output.value),
                assets: Some(self.collect_asset_records(&output.value)),
                datum_hash,
                inline_datum,
                inlined_script,
            },
        )
    }

    /// The asset records of a value: none for coin alone, else one for
    /// each pair of policy and asset name, in order.
    pub fn collect_asset_records(&self, amount: &OutputValue) -> (records: Vec<OutputAssetRecord>)
        ensures
            views(records@) == value_asset_records(*amount),
    {
        let mut records: Vec<OutputAssetRecord> = Vec::new();
        match amount {
            OutputValue::Coin(_) => {
                assert(views(records@) =~= value_asset_records(*amount));
            },
            OutputValue::Multiasset(_, policies) => {
                let mut i: usize = 0;
                assert(views(records@) =~= multiasset_records(policies@.take(0)));
                while i < policies.len()
                    invariant
                        i <= policies.len(),
                        views(records@) == multiasset_records(policies@.take(i as int)),
                    decreases policies.len() - i,
                {
                    let entry = &policies[i];
                    let ghost before = records@;
                    let mut j: usize = 0;
                    while j < entry.assets.len()
                        invariant
                            j <= entry.assets.len(),
                            records@.len() == before.len() + j,
                            forall|k: int| 0 <= k < before.len() ==> records@[k] == before[k],
                            forall|k: int|
                                0 <= k < j ==> records@[before.len() + k]@ == asset_record(
                                    entry.policy@,
                                    entry.assets@[k].name@,
                                    entry.assets@[k].amount,
                                ),
                        decreases entry.assets.len() - j,
                    {
                        let asset = &entry.assets[j];
                        records.push(
                            self.to_transaction_output_asset_record(
                                &entry.policy,
                                &asset.name,
                                asset.amount,
                            ),
                        );
                        j += 1;
                    }
                    proof {
                        assert(policies@.take(i + 1).drop_last() =~= policies@.take(i as int));
                        assert(views(records@) =~= views(before) + policy_asset_records(*entry));
                    }
                    i += 1;
                }
                assert(policies@.take(i as int) =~= policies@);
            },
        }
        records
    }

    /// The mint records of all policies, policy after policy.
    pub fn collect_mint_records(&self, mint: &Vec<PolicyAssets<i64>>) -> (records: Vec<MintRecord>)
        ensures
            views(records@) == mint_records(mint@),
    {
        let mut records: Vec<MintRecord> = Vec::new();
        let mut i: usize = 0;
        assert(views(records@) =~= mint_records(mint@.take(0)));
        while i < mint.len()
            invariant
                i <= mint.len(),
                views(records@) == mint_records(mint@.take(i as int)),
            decreases mint.len() - i,
        {
            let entry = &mint[i];
            let ghost before = records@;
            let mut j: usize = 0;
            while j < entry.assets.len()
                invariant
                    j <= entry.assets.len(),
                    records@.len() == before.len() + j,
                    forall|k: int| 0 <= k < before.len() ==> records@[k] == before[k],
                    forall|k: int|
                        0 <= k < j ==> records@[before.len() + k]@ == mint_record(
                            entry.policy@,
                            entry.assets@[k].name@,
                            entry.assets@[k].amount,
                        ),
                decreases entry.assets.len() - j,
            {
                let asset = &entry.assets[j];
                records.push(self.to_mint_record(&entry.policy, &asset.name, asset.amount));
                j += 1;
            }
            proof {
                assert(mint@.take(i + 1).drop_last() =~= mint@.take(i as int));
                assert(views(records@) =~= views(before) + policy_mint_records(*entry));
            }
            i += 1;
        }
        assert(mint@.take(i as int) =~= mint@);
        records
    }

    fn datum_record_of(
        &self,
        datum: &KeepRaw<pallas::ledger::primitives::alonzo::PlutusData>,
    ) -> (record: PlutusDatumRecord)
        ensures
            record@ == datum_record(*datum),
    {
        PlutusDatumRecord {
            datum_hash: hash_256(datum.raw_cbor()).to_hex(),
            plutus_data: plutus_data_to_json(&datum.value),
        }
    }

    fn script_ref_record_of(&self, script_ref: &ScriptRef) -> (record: ScriptRefRecord)
        ensures
            record@ == script_ref_record(*script_ref),
    {
        match &script_ref.0 {
            Script::PlutusV1Script(script) => ScriptRefRecord::PlutusV1 {
                script_hash: hash_224_tagged(script.0.as_slice(), 1).to_hex(),
                script_hex: script.0.to_hex(),
            },
            Script::PlutusV2Script(script) => ScriptRefRecord::PlutusV2 {
                script_hash: hash_224_tagged(script.0.as_slice(), 2).to_hex(),
                script_hex: script.0.to_hex(),
            },
            Script::PlutusV3Script(script) => ScriptRefRecord::PlutusV3 {
                script_hash: hash_224_tagged(script.0.as_slice(), 3).to_hex(),
                script_hex: script.0.to_hex(),
            },
            Script::NativeScript(script) => ScriptRefRecord::NativeScript {
                policy_id: hash_native_script(script).to_hex(),
                script_json: native_script_to_json(script),
            },
        }
    }

    pub fn to_aux_native_script_event(
        &self,
        script: &pallas::ledger::primitives::alonzo::NativeScript,
    ) -> (data: EventData)
        ensures
            data@ == aux_native_script_event(*script),
    {
        EventData::NativeScript {
            policy_id: hash_native_script(script).to_hex(),
            script: native_script_to_json(script),
        }
    }

    pub fn to_aux_plutus_script_event(&self, script: &PlutusScript<1>) -> (data: EventData)
        ensures
            data@ == aux_plutus_script_event(*script),
    {
        EventData::PlutusScript {
            hash: hash_224_tagged(script.0.as_slice(), 1).to_hex(),
            data: script.0.to_hex(),
        }
    }

    /// Converts a redeemer; this never fails.
    pub fn to_plutus_redeemer_record(&self, redeemer: &Redeemer) -> (record: Result<
        PlutusRedeemerRecord,
        ConvertError,
    >)
        ensures
            result_view(record) == Ok::<PlutusRedeemerRecordView, Failure>(
                redeemer_record(*redeemer),
            ),
    {
        Ok(
            PlutusRedeemerRecord {
                purpose: match redeemer.tag {
                    RedeemerTag::Spend => "spend".to_owned(),
                    RedeemerTag::Mint => "mint".to_owned(),
                    RedeemerTag::Cert => "cert".to_owned(),
                    RedeemerTag::Reward => "reward".to_owned(),
                    RedeemerTag::Voting => "voting".to_owned(),
                    RedeemerTag::Proposing => "proposing".to_owned(),
                },
                ex_units_mem: redeemer.ex_units.mem,
                ex_units_steps: redeemer.ex_units.steps,
                input_idx: redeemer.index,
                plutus_data: plutus_data_to_json(&redeemer.data),
            },
        )
    }

    /// Converts a datum kept with its encoding; this never fails.
    pub fn to_plutus_datum_record(
        &self,
        datum: &KeepRaw<pallas::ledger::primitives::alonzo::PlutusData>,
    ) -> (record: Result<PlutusDatumRecord, ConvertError>)
        ensures
            result_view(record) == Ok::<PlutusDatumRecordView, Failure>(datum_record(*datum)),
    {
        Ok(self.datum_record_of(datum))
    }

    /// Converts a compiled script of the first language version; this
    /// never fails.
    pub fn to_plutus_v1_witness_record(&self, script: &PlutusScript<1>) -> (record: Result<
        PlutusWitnessRecord,
        ConvertError,
    >)
        ensures
            result_view(record) == Ok::<PlutusWitnessRecordView, Failure>(
                plutus_witness_record(script.0@, 1),
            ),
    {
        Ok(
            PlutusWitnessRecord {
                script_hash: hash_224_tagged(script.0.as_slice(), 1).to_hex(),
                script_hex: script.0.to_hex(),
            },
        )
    }

    /// Converts a compiled script of the second language version; this
    /// never fails.
    pub fn to_plutus_v2_witness_record(&self, script: &PlutusScript<2>) -> (record: Result<
        PlutusWitnessRecord,
        ConvertError,
    >)
        ensures
            result_view(record) == Ok::<PlutusWitnessRecordView, Failure>(
                plutus_witness_record(script.0@, 2),
            ),
    {
        Ok(
            PlutusWitnessRecord {
                script_hash: hash_224_tagged(script.0.as_slice(), 2).to_hex(),
                script_hex: script.0.to_hex(),
            },
        )
    }

    /// Converts a native script; this never fails.
    pub fn to_native_witness_record(
        &self,
        script: &pallas::ledger::primitives::alonzo::NativeScript,
    ) -> (record: Result<NativeWitnessRecord, ConvertError>)
        ensures
            result_view(record) == Ok::<NativeWitnessRecordView, Failure>(
                native_witness_record(*script),
            ),
    {
        Ok(
            NativeWitnessRecord {
                policy_id: hash_native_script(script).to_hex(),
                script_json: native_script_to_json(script),
            },
        )
    }

    /// Converts the script that an output refers to; this never fails.
    pub fn to_script_ref_record(&self, script_ref: &ScriptRef) -> (record: Result<
        ScriptRefRecord,
        ConvertError,
    >)
        ensures
            result_view(record) == Ok::<ScriptRefRecordView, Failure>(
                script_ref_record(*script_ref),
            ),
    {
        Ok(self.script_ref_record_of(script_ref))
    }

    /// Converts a signature with its key; this never fails.
    pub fn to_vkey_witness_record(&self, witness: &VKeyWitness) -> (record: Result<
        VKeyWitnessRecord,
        ConvertError,
    >)
        ensures
            result_view(record) == Ok::<VKeyWitnessRecordView, Failure>(
                vkey_witness_record(*witness),
            ),
    {
        Ok(
            VKeyWitnessRecord {
                vkey_hex: witness.vkey.to_hex(),
                signature_hex: witness.signature.to_hex(),
            },
        )
    }

    pub fn to_collateral_event(&self, collateral: &TransactionInput) -> (data: EventData)
        ensures
            data@ == collateral_event(*collateral),
    {
        EventData::Collateral {
            tx_id: collateral.transaction_id.to_hex(),
            index: collateral.index,
        }
    }
}

} // verus!
