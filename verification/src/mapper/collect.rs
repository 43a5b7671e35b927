//! Collections of records: one record for each decoded item, in the order
//! of the items. A collection is all or nothing: one item that fails, fails
//! the collection.
use crate::decoded::babbage::{MintedPostAlonzoTransactionOutput, MintedTransactionOutput};
use crate::decoded::{
    AuxiliaryData, Certificate, KeepRaw, Metadatum, PlutusScript, Redeemer, TransactionInput,
    TransactionOutput, VKeyWitness,
};
use crate::error::{
    all_ok, lemma_all_ok_failure, lemma_all_ok_step, result_view, results_view, ConvertError,
    Failure,
};
use crate::mapper::certificates::{certificate_record, hex_strings};
use crate::mapper::map::{
    datum_record, input_record, legacy_output_record, native_witness_record,
    plutus_witness_record, post_alonzo_output_record, redeemer_record, vkey_witness_record,
};
use crate::mapper::metadata::metadata_record;
use crate::mapper::EventWriter;
use crate::model::{
    CertificateRecord, CertificateRecordView, MetadataRecord, MetadataRecordView,
    NativeWitnessRecord, NativeWitnessRecordView, PlutusDatumRecord, PlutusDatumRecordView,
    PlutusRedeemerRecord, PlutusRedeemerRecordView, PlutusWitnessRecord,
    PlutusWitnessRecordView, RequiredSignerRecord, TxInputRecord, TxInputRecordView,
    TxOutputRecord, TxOutputRecordView, VKeyWitnessRecord, VKeyWitnessRecordView,
    WithdrawalRecord, WithdrawalRecordView,
};
use crate::text::{hex_string, lemma_hex_first, ToHex};
use crate::views::{lemma_views_push, views};
use vstd::prelude::*;
use vstd::slice::slice_subrange;

verus! {

/// The record of each input.
pub open spec fn input_records(source: Seq<TransactionInput>) -> Seq<TxInputRecordView> {
    Seq::new(source.len(), |i: int| input_record(source[i]))
}

/// The outcome of converting each legacy output.
pub open spec fn legacy_output_outcomes(source: Seq<TransactionOutput>) -> Seq<
    Result<TxOutputRecordView, Failure>,
> {
    Seq::new(source.len(), |i: int| legacy_output_record(source[i]))
}

/// The records of legacy outputs, or the failure of the first output whose
/// address is malformed.
pub open spec fn legacy_output_records(source: Seq<TransactionOutput>) -> Result<
    Seq<TxOutputRecordView>,
    Failure,
> {
    all_ok(legacy_output_outcomes(source))
}

/// The outcome of converting each output of the later format.
pub open spec fn post_alonzo_output_outcomes(
    source: Seq<MintedPostAlonzoTransactionOutput>,
) -> Seq<Result<TxOutputRecordView, Failure>> {
    Seq::new(source.len(), |i: int| post_alonzo_output_record(source[i]))
}

/// The records of outputs of the later format, or the failure of the first
/// output whose address is malformed.
pub open spec fn post_alonzo_output_records(
    source: Seq<MintedPostAlonzoTransactionOutput>,
) -> Result<Seq<TxOutputRecordView>, Failure> {
    all_ok(post_alonzo_output_outcomes(source))
}

/// The record of an output in either format.
pub open spec fn any_output_record(output: MintedTransactionOutput) -> Result<
    TxOutputRecordView,
    Failure,
> {
    match output {
        MintedTransactionOutput::Legacy(x) => legacy_output_record(x),
        MintedTransactionOutput::PostAlonzo(x) => post_alonzo_output_record(x),
    }
}

/// The outcome of converting each output, whatever its format.
pub open spec fn any_output_outcomes(source: Seq<MintedTransactionOutput>) -> Seq<
    Result<TxOutputRecordView, Failure>,
> {
    Seq::new(source.len(), |i: int| any_output_record(source[i]))
}

/// The records of outputs of either format, or the failure of the first
/// output whose address is malformed.
pub open spec fn any_output_records(source: Seq<MintedTransactionOutput>) -> Result<
    Seq<TxOutputRecordView>,
    Failure,
> {
    all_ok(any_output_outcomes(source))
}

/// The record of each certificate.
pub open spec fn certificate_records(source: Seq<Certificate>) -> Seq<CertificateRecordView> {
    Seq::new(source.len(), |i: int| certificate_record(source[i]))
}

/// The text of a reward account: its bytes in hexadecimal, without the two
/// leading digits `e1` where it has them.
pub open spec fn reward_account_text(account: Seq<u8>) -> Seq<char> {
    let hex = hex_string(account);
    if hex.len() >= 2 && hex[0] == 'e' && hex[1] == '1' {
        hex.skip(2)
    } else {
        hex
    }
}

/// The record of each withdrawal.
pub open spec fn withdrawal_records(source: Seq<(Vec<u8>, u64)>) -> Seq<WithdrawalRecordView> {
    Seq::new(
        source.len(),
        |i: int|
            WithdrawalRecordView {
                reward_account: reward_account_text(source[i].0@),
                coin: source[i].1,
            },
    )
}

/// The metadata that auxiliary data carries, whatever its encoding.
pub open spec fn metadata_of(aux_data: AuxiliaryData) -> Option<Vec<(u64, Metadatum)>> {
    match aux_data {
        AuxiliaryData::PostAlonzo { metadata, .. } => metadata,
        AuxiliaryData::Shelley(data) => Some(data),
        AuxiliaryData::ShelleyMa { transaction_metadata, .. } => Some(transaction_metadata),
    }
}

/// The outcome of converting the content of each label.
pub open spec fn metadata_outcomes(entries: Seq<(u64, Metadatum)>) -> Seq<
    Result<MetadataRecordView, Failure>,
> {
    Seq::new(entries.len(), |i: int| metadata_record(entries[i].0, entries[i].1))
}

/// The metadata records of auxiliary data, one for each label in order:
/// none where the data carries no metadata, and the first failure where the
/// content of a label cannot be rendered.
pub open spec fn metadata_records(aux_data: AuxiliaryData) -> Result<
    Seq<MetadataRecordView>,
    Failure,
> {
    match metadata_of(aux_data) {
        Some(entries) => all_ok(metadata_outcomes(entries@)),
        None => Ok(Seq::empty()),
    }
}

/// The record of each signature; none where the list is absent.
pub open spec fn vkey_witness_records(source: Option<Vec<VKeyWitness>>) -> Seq<
    VKeyWitnessRecordView,
> {
    match source {
        Some(all) => Seq::new(all.len() as nat, |i: int| vkey_witness_record(all@[i])),
        None => Seq::empty(),
    }
}

/// The record of each native script; none where the list is absent.
pub open spec fn native_witness_records(
    source: Option<Vec<pallas::ledger::primitives::alonzo::NativeScript>>,
) -> Seq<NativeWitnessRecordView> {
    match source {
        Some(all) => Seq::new(all.len() as nat, |i: int| native_witness_record(all@[i])),
        None => Seq::empty(),
    }
}

/// The record of each compiled script of the first language version; none
/// where the list is absent.
pub open spec fn plutus_v1_witness_records(source: Option<Vec<PlutusScript<1>>>) -> Seq<
    PlutusWitnessRecordView,
> {
    match source {
        Some(all) => Seq::new(all.len() as nat, |i: int| plutus_witness_record(all@[i].0@, 1)),
        None => Seq::empty(),
    }
}

/// The record of each compiled script of the second language version; none
/// where the list is absent.
pub open spec fn plutus_v2_witness_records(source: Option<Vec<PlutusScript<2>>>) -> Seq<
    PlutusWitnessRecordView,
> {
    match source {
        Some(all) => Seq::new(all.len() as nat, |i: int| plutus_witness_record(all@[i].0@, 2)),
        None => Seq::empty(),
    }
}

/// The record of each redeemer; none where the list is absent.
pub open spec fn redeemer_records(source: Option<Vec<Redeemer>>) -> Seq<PlutusRedeemerRecordView> {
    match source {
        Some(all) => Seq::new(all.len() as nat, |i: int| redeemer_record(all@[i])),
        None => Seq::empty(),
    }
}

/// The record of each datum; none where the list is absent.
pub open spec fn datum_records(
    source: Option<Vec<KeepRaw<pallas::ledger::primitives::alonzo::PlutusData>>>,
) -> Seq<PlutusDatumRecordView> {
    match source {
        Some(all) => Seq::new(all.len() as nat, |i: int| datum_record(all@[i])),
        None => Seq::empty(),
    }
}

impl EventWriter {
    pub fn collect_input_records(&self, source: &Vec<TransactionInput>) -> (records: Vec<
        TxInputRecord,
    >)
        ensures
            views(records@) == input_records(source@),
    {
        let mut records: Vec<TxInputRecord> = Vec::new();
        let mut i: usize = 0;
        while i < source.len()
            invariant
                i <= source.len(),
                records.len() == i,
                forall|j: int| 0 <= j < i ==> records@[j]@ == input_record(source@[j]),
            decreases source.len() - i,
        {
            records.push(self.to_transaction_input_record(&source[i]));
            i += 1;
        }
        assert(views(records@) =~= input_records(source@));
        records
    }

    pub fn collect_legacy_output_records(&self, source: &[TransactionOutput]) -> (records: Result<
        Vec<TxOutputRecord>,
        ConvertError,
    >)
        ensures
            results_view(records) == legacy_output_records(source@),
    {
        let ghost outcomes = legacy_output_outcomes(source@);
        let mut records: Vec<TxOutputRecord> = Vec::new();
        let mut i: usize = 0;
        assert(views(records@) =~= Seq::empty());
        while i < source.len()
            invariant
                i <= source.len(),
                outcomes == legacy_output_outcomes(source@),
                all_ok(outcomes.take(i as int)) == Ok::<Seq<TxOutputRecordView>, Failure>(
                    views(records@),
                ),
            decreases source.len() - i,
        {
            proof {
                lemma_all_ok_step(outcomes, i as int);
            }
            match self.to_legacy_output_record(&source[i]) {
                Ok(record) => {
                    proof {
                        lemma_views_push(records@, record);
                    }
                    records.push(record);
                },
                Err(e) => {
                    proof {
                        lemma_all_ok_failure(outcomes, i + 1);
                    }
                    return Err(e);
                },
            }
            i += 1;
        }
        assert(outcomes.take(i as int) =~= outcomes);
        Ok(records)
    }

    pub fn collect_post_alonzo_output_records(
        &self,
        source: &[MintedPostAlonzoTransactionOutput],
    ) -> (records: Result<Vec<TxOutputRecord>, ConvertError>)
        ensures
            results_view(records) == post_alonzo_output_records(source@),
    {
        let ghost outcomes = post_alonzo_output_outcomes(source@);
        let mut records: Vec<TxOutputRecord> = Vec::new();
        let mut i: usize = 0;
        assert(views(records@) =~= Seq::empty());
        while i < source.len()
            invariant
                i <= source.len(),
                outcomes == post_alonzo_output_outcomes(source@),
                all_ok(outcomes.take(i as int)) == Ok::<Seq<TxOutputRecordView>, Failure>(
                    views(records@),
                ),
            decreases source.len() - i,
        {
            proof {
                lemma_all_ok_step(outcomes, i as int);
            }
            match self.to_post_alonzo_output_record(&source[i]) {
                Ok(record) => {
                    proof {
                        lemma_views_push(records@, record);
                    }
                    records.push(record);
                },
                Err(e) => {
                    proof {
                        lemma_all_ok_failure(outcomes, i + 1);
                    }
                    return Err(e);
                },
            }
            i += 1;
        }
        assert(outcomes.take(i as int) =~= outcomes);
        Ok(records)
    }

    /// Converts one output, whatever its format.
    pub fn to_any_output_record(&self, output: &MintedTransactionOutput) -> (record: Result<
        TxOutputRecord,
        ConvertError,
    >)
        ensures
            result_view(record) == any_output_record(*output),
    {
        match output {
            MintedTransactionOutput::Legacy(x) => self.to_legacy_output_record(x),
            MintedTransactionOutput::PostAlonzo(x) => self.to_post_alonzo_output_record(x),
        }
    }

    pub fn collect_any_output_records(&self, source: &[MintedTransactionOutput]) -> (records:
        Result<Vec<TxOutputRecord>, ConvertError>)
        ensures
            results_view(records) == any_output_records(source@),
    {
        let ghost outcomes = any_output_outcomes(source@);
        let mut records: Vec<TxOutputRecord> = Vec::new();
        let mut i: usize = 0;
        assert(views(records@) =~= Seq::empty());
        while i < source.len()
            invariant
                i <= source.len(),
                outcomes == any_output_outcomes(source@),
                all_ok(outcomes.take(i as int)) == Ok::<Seq<TxOutputRecordView>, Failure>(
                    views(records@),
                ),
            decreases source.len() - i,
        {
            proof {
                lemma_all_ok_step(outcomes, i as int);
            }
            match self.to_any_output_record(&source[i]) {
                Ok(record) => {
                    proof {
                        lemma_views_push(records@, record);
                    }
                    records.push(record);
                },
                Err(e) => {
                    proof {
                        lemma_all_ok_failure(outcomes, i + 1);
                    }
                    return Err(e);
                },
            }
            i += 1;
        }
        assert(outcomes.take(i as int) =~= outcomes);
        Ok(records)
    }

    pub fn collect_certificate_records(&self, certificates: &Vec<Certificate>) -> (records: Vec<
        CertificateRecord,
    >)
        ensures
            views(records@) == certificate_records(certificates@),
    {
        let mut records: Vec<CertificateRecord> = Vec::new();
        let mut i: usize = 0;
        while i < certificates.len()
            invariant
                i <= certificates.len(),
                records.len() == i,
                forall|j: int| 0 <= j < i ==> records@[j]@ == certificate_record(certificates@[j]),
            decreases certificates.len() - i,
        {
            records.push(self.to_certificate_record(&certificates[i]));
            i += 1;
        }
        assert(views(records@) =~= certificate_records(certificates@));
        records
    }

    pub fn collect_withdrawal_records(&self, withdrawls: &Vec<(Vec<u8>, u64)>) -> (records: Vec<
        WithdrawalRecord,
    >)
        ensures
            views(records@) == withdrawal_records(withdrawls@),
    {
        let mut records: Vec<WithdrawalRecord> = Vec::new();
        let mut i: usize = 0;
        while i < withdrawls.len()
            invariant
                i <= withdrawls.len(),
                records.len() == i,
                forall|j: int|
                    0 <= j < i ==> records@[j]@ == (WithdrawalRecordView {
                        reward_account: reward_account_text(withdrawls@[j].0@),
                        coin: withdrawls@[j].1,
                    }),
            decreases withdrawls.len() - i,
        {
            let account = &withdrawls[i].0;
            let reward_account = if account.len() > 0 && account[0] == 0xe1 {
                proof {
                    lemma_hex_first(account@);
                    assert(account@.subrange(1, account.len() as int) =~= account@.skip(1));
                }
                slice_subrange(account.as_slice(), 1, account.len()).to_hex()
            } else {
                proof {
                    if account.len() > 0 {
                        lemma_hex_first(account@);
                    }
                }
                account.to_hex()
            };
            records.push(WithdrawalRecord { reward_account, coin: withdrawls[i].1 });
            i += 1;
        }
        assert(views(records@) =~= withdrawal_records(withdrawls@));
        records
    }

    /// The metadata records of auxiliary data, one for each label. Data
    /// without metadata gives an empty list, not an error.
    pub fn collect_metadata_records(&self, aux_data: &AuxiliaryData) -> (records: Result<
        Vec<MetadataRecord>,
        ConvertError,
    >)
        ensures
            results_view(records) == metadata_records(*aux_data),
    {
        let metadata = match aux_data {
            AuxiliaryData::PostAlonzo { metadata, .. } => match metadata {
                Some(m) => Some(m),
                None => None,
            },
            AuxiliaryData::Shelley(data) => Some(data),
            AuxiliaryData::ShelleyMa { transaction_metadata, .. } => Some(transaction_metadata),
        };
        let mut records: Vec<MetadataRecord> = Vec::new();
        assert(views(records@) =~= Seq::empty());
        match metadata {
            Some(x) => {
                assert(metadata_of(*aux_data) == Some(*x));
                let ghost outcomes = metadata_outcomes(x@);
                let mut i: usize = 0;
                while i < x.len()
                    invariant
                        i <= x.len(),
                        metadata_of(*aux_data) == Some(*x),
                        outcomes == metadata_outcomes(x@),
                        all_ok(outcomes.take(i as int)) == Ok::<Seq<MetadataRecordView>, Failure>(
                            views(records@),
                        ),
                    decreases x.len() - i,
                {
                    proof {
                        lemma_all_ok_step(outcomes, i as int);
                    }
                    match self.to_metadata_record(&x[i].0, &x[i].1) {
                        Ok(record) => {
                            proof {
                                lemma_views_push(records@, record);
                            }
                            records.push(record);
                        },
                        Err(e) => {
                            proof {
                                lemma_all_ok_failure(outcomes, i + 1);
                            }
                            return Err(e);
                        },
                    }
                    i += 1;
                }
                assert(outcomes.take(i as int) =~= outcomes);
                Ok(records)
            },
            None => Ok(records),
        }
    }

    pub fn collect_vkey_witness_records(&self, witness_set: &Option<Vec<VKeyWitness>>) -> (records:
        Result<Vec<VKeyWitnessRecord>, ConvertError>)
        ensures
            results_view(records) == Ok::<Seq<VKeyWitnessRecordView>, Failure>(
                vkey_witness_records(*witness_set),
            ),
    {
        let mut records: Vec<VKeyWitnessRecord> = Vec::new();
        match witness_set {
            Some(all) => {
                let mut i: usize = 0;
                while i < all.len()
                    invariant
                        i <= all.len(),
                        records.len() == i,
                        forall|j: int| 0 <= j < i ==> records@[j]@ == vkey_witness_record(all@[j]),
                    decreases all.len() - i,
                {
                    let record = self.to_vkey_witness_record(&all[i])?;
                    records.push(record);
                    i += 1;
                }
            },
            None => {},
        }
        assert(views(records@) =~= vkey_witness_records(*witness_set));
        Ok(records)
    }

    pub fn collect_vkey_witness_records_babbage(
        &self,
        witness_set: &Option<Vec<VKeyWitness>>,
    ) -> (records: Result<Vec<VKeyWitnessRecord>, ConvertError>)
        ensures
            results_view(records) == Ok::<Seq<VKeyWitnessRecordView>, Failure>(
                vkey_witness_records(*witness_set),
            ),
    {
        self.collect_vkey_witness_records(witness_set)
    }

    pub fn collect_native_witness_records(
        &self,
        witness_set: &Option<Vec<pallas::ledger::primitives::alonzo::NativeScript>>,
    ) -> (records: Result<Vec<NativeWitnessRecord>, ConvertError>)
        ensures
            results_view(records) == Ok::<Seq<NativeWitnessRecordView>, Failure>(
                native_witness_records(*witness_set),
            ),
    {
        let mut records: Vec<NativeWitnessRecord> = Vec::new();
        match witness_set {
            Some(all) => {
                let mut i: usize = 0;
                while i < all.len()
                    invariant
                        i <= all.len(),
                        records.len() == i,
                        forall|j: int|
                            0 <= j < i ==> records@[j]@ == native_witness_record(all@[j]),
                    decreases all.len() - i,
                {
                    let record = self.to_native_witness_record(&all[i])?;
                    records.push(record);
                    i += 1;
                }
            },
            None => {},
        }
        assert(views(records@) =~= native_witness_records(*witness_set));
        Ok(records)
    }

    pub fn collect_native_witness_records_babbage(
        &self,
        witness_set: &Option<Vec<pallas::ledger::primitives::alonzo::NativeScript>>,
    ) -> (records: Result<Vec<NativeWitnessRecord>, ConvertError>)
        ensures
            results_view(records) == Ok::<Seq<NativeWitnessRecordView>, Failure>(
                native_witness_records(*witness_set),
            ),
    {
        self.collect_native_witness_records(witness_set)
    }

    pub fn collect_plutus_v1_witness_records(
        &self,
        witness_set: &Option<Vec<PlutusScript<1>>>,
    ) -> (records: Result<Vec<PlutusWitnessRecord>, ConvertError>)
        ensures
            results_view(records) == Ok::<Seq<PlutusWitnessRecordView>, Failure>(
                plutus_v1_witness_records(*witness_set),
            ),
    {
        let mut records: Vec<PlutusWitnessRecord> = Vec::new();
        match witness_set {
            Some(all) => {
                let mut i: usize = 0;
                while i < all.len()
                    invariant
                        i <= all.len(),
                        records.len() == i,
                        forall|j: int|
                            0 <= j < i ==> records@[j]@ == plutus_witness_record(all@[j].0@, 1),
                    decreases all.len() - i,
                {
                    let record = self.to_plutus_v1_witness_record(&all[i])?;
                    records.push(record);
                    i += 1;
                }
            },
            None => {},
        }
        assert(views(records@) =~= plutus_v1_witness_records(*witness_set));
        Ok(records)
    }

    pub fn collect_plutus_v1_witness_records_babbage(
        &self,
        witness_set: &Option<Vec<PlutusScript<1>>>,
    ) -> (records: Result<Vec<PlutusWitnessRecord>, ConvertError>)
        ensures
            results_view(records) == Ok::<Seq<PlutusWitnessRecordView>, Failure>(
                plutus_v1_witness_records(*witness_set),
            ),
    {
        self.collect_plutus_v1_witness_records(witness_set)
    }

    pub fn collect_plutus_v2_witness_records(
        &self,
        witness_set: &Option<Vec<PlutusScript<2>>>,
    ) -> (records: Result<Vec<PlutusWitnessRecord>, ConvertError>)
        ensures
            results_view(records) == Ok::<Seq<PlutusWitnessRecordView>, Failure>(
                plutus_v2_witness_records(*witness_set),
            ),
    {
        let mut records: Vec<PlutusWitnessRecord> = Vec::new();
        match witness_set {
            Some(all) => {
                let mut i: usize = 0;
                while i < all.len()
                    invariant
                        i <= all.len(),
                        records.len() == i,
                        forall|j: int|
                            0 <= j < i ==> records@[j]@ == plutus_witness_record(all@[j].0@, 2),
                    decreases all.len() - i,
                {
                    let record = self.to_plutus_v2_witness_record(&all[i])?;
                    records.push(record);
                    i += 1;
                }
            },
            None => {},
        }
        assert(views(records@) =~= plutus_v2_witness_records(*witness_set));
        Ok(records)
    }

    pub fn collect_plutus_redeemer_records(&self, witness_set: &Option<Vec<Redeemer>>) -> (records:
        Result<Vec<PlutusRedeemerRecord>, ConvertError>)
        ensures
            results_view(records) == Ok::<Seq<PlutusRedeemerRecordView>, Failure>(
                redeemer_records(*witness_set),
            ),
    {
        let mut records: Vec<PlutusRedeemerRecord> = Vec::new();
        match witness_set {
            Some(all) => {
                let mut i: usize = 0;
                while i < all.len()
                    invariant
                        i <= all.len(),
                        records.len() == i,
                        forall|j: int| 0 <= j < i ==> records@[j]@ == redeemer_record(all@[j]),
                    decreases all.len() - i,
                {
                    let record = self.to_plutus_redeemer_record(&all[i])?;
                    records.push(record);
                    i += 1;
                }
            },
            None => {},
        }
        assert(views(records@) =~= redeemer_records(*witness_set));
        Ok(records)
    }

    pub fn collect_plutus_redeemer_records_2(
        &self,
        witness_set: &Option<Vec<Redeemer>>,
    ) -> (records: Result<Vec<PlutusRedeemerRecord>, ConvertError>)
        ensures
            results_view(records) == Ok::<Seq<PlutusRedeemerRecordView>, Failure>(
                redeemer_records(*witness_set),
            ),
    {
        self.collect_plutus_redeemer_records(witness_set)
    }

    pub fn collect_witness_plutus_datum_records(
        &self,
        witness_set: &Option<Vec<KeepRaw<pallas::ledger::primitives::alonzo::PlutusData>>>,
    ) -> (records: Result<Vec<PlutusDatumRecord>, ConvertError>)
        ensures
            results_view(records) == Ok::<Seq<PlutusDatumRecordView>, Failure>(
                datum_records(*witness_set),
            ),
    {
        let mut records: Vec<PlutusDatumRecord> = Vec::new();
        match witness_set {
            Some(all) => {
                let mut i: usize = 0;
                while i < all.len()
                    invariant
                        i <= all.len(),
                        records.len() == i,
                        forall|j: int| 0 <= j < i ==> records@[j]@ == datum_record(all@[j]),
                    decreases all.len() - i,
                {
                    let record = self.to_plutus_datum_record(&all[i])?;
                    records.push(record);
                    i += 1;
                }
            },
            None => {},
        }
        assert(views(records@) =~= datum_records(*witness_set));
        Ok(records)
    }

    pub fn collect_witness_plutus_datum_records_babbage(
        &self,
        witness_set: &Option<Vec<KeepRaw<pallas::ledger::primitives::alonzo::PlutusData>>>,
    ) -> (records: Result<Vec<PlutusDatumRecord>, ConvertError>)
        ensures
            results_view(records) == Ok::<Seq<PlutusDatumRecordView>, Failure>(
                datum_records(*witness_set),
            ),
    {
        self.collect_witness_plutus_datum_records(witness_set)
    }

    /// The record of each required signer: its key hash in hexadecimal.
    /// This never fails.
    pub fn collect_required_signers_records(&self, req_signers: &Vec<Vec<u8>>) -> (records: Result<
        Vec<RequiredSignerRecord>,
        ConvertError,
    >)
        ensures
            results_view(records) == Ok::<Seq<Seq<char>>, Failure>(hex_strings(req_signers@)),
    {
        let mut signers: Vec<RequiredSignerRecord> = Vec::new();
        let mut i: usize = 0;
        while i < req_signers.len()
            invariant
                i <= req_signers.len(),
                signers.len() == i,
                forall|j: int| 0 <= j < i ==> signers@[j]@ == hex_string(req_signers@[j]@),
            decreases req_signers.len() - i,
        {
            let hex = req_signers[i].to_hex();
            signers.push(RequiredSignerRecord(hex));
            i += 1;
        }
        assert(views(signers@) =~= hex_strings(req_signers@));
        Ok(signers)
    }
}

} // verus!
