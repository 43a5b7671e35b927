use oura::decoded::babbage;
use oura::decoded::shelley;
use oura::decoded::{
    Asset, AuxiliaryData, Certificate, Header, HeaderBody, KeepRaw, Metadatum, NetworkId,
    OutputValue, PlutusScript, PolicyAssets, StakeCredential, TransactionInput,
    TransactionOutput, VKeyWitness,
};
use oura::error::ConvertError;
use oura::mapper::shelley::{find_aux_data, size_of_sections, sum_output_amounts};
use oura::mapper::{Config, EventWriter, SlotTime};
use oura::model::{Era, TxOutputRecord};
use pallas::ledger::addresses::Address;

const ENTERPRISE: &str = "addr1vx2fxv2umyhttkxyxp8x0dlpdt3k6cwng5pxj3jhsydzers66hrl8";

fn config(details: bool) -> Config {
    Config {
        include_block_end_events: false,
        include_transaction_details: details,
        include_transaction_end_events: false,
        include_block_details: false,
        include_block_cbor: false,
    }
}

fn writer(details: bool) -> EventWriter {
    EventWriter::new(config(details), None)
}

fn address_bytes() -> Vec<u8> {
    Address::from_bech32(ENTERPRISE).unwrap().to_vec()
}

fn output(amount: u64) -> TransactionOutput {
    TransactionOutput { address: address_bytes(), amount: OutputValue::Coin(amount), datum_hash: None }
}

fn body(outputs: Vec<TransactionOutput>) -> shelley::TransactionBody {
    shelley::TransactionBody {
        inputs: vec![TransactionInput { transaction_id: vec![7; 32], index: 1 }],
        outputs,
        fee: 200_000,
        ttl: Some(5000),
        certificates: None,
        withdrawals: None,
        update: None,
        validity_interval_start: None,
        mint: None,
        collateral: None,
        required_signers: None,
        network_id: None,
    }
}

fn empty_witnesses() -> shelley::MintedWitnessSet {
    shelley::MintedWitnessSet {
        vkeywitness: None,
        native_script: None,
        plutus_script: None,
        plutus_data: None,
        redeemer: None,
    }
}

fn babbage_body(outputs: Vec<babbage::MintedTransactionOutput>) -> babbage::MintedTransactionBody {
    babbage::MintedTransactionBody {
        inputs: vec![TransactionInput { transaction_id: vec![7; 32], index: 1 }],
        outputs,
        fee: 170_000,
        ttl: None,
        certificates: None,
        withdrawals: None,
        update: None,
        validity_interval_start: Some(12),
        mint: None,
        collateral: None,
        required_signers: None,
        network_id: Some(NetworkId::One),
        collateral_return: None,
    }
}

fn header(number: u64, slot: u64) -> KeepRaw<Header> {
    KeepRaw {
        raw_cbor: vec![0x82, 0x01, 0x02],
        value: Header {
            header_body: HeaderBody {
                block_number: number,
                slot,
                prev_hash: Some(vec![0x0a; 32]),
                issuer_vkey: vec![0x01, 0x02],
                vrf_vkey: vec![0x03],
                block_body_size: 1234,
            },
        },
    }
}

#[test]
fn size_counts_original_bytes_or_defaults() {
    let w = writer(false);
    let tx = KeepRaw { raw_cbor: vec![0; 100], value: body(vec![output(1)]) };
    let aux = KeepRaw { raw_cbor: vec![0; 30], value: AuxiliaryData::Shelley(Vec::new()) };
    let witnesses = KeepRaw { raw_cbor: vec![0; 7], value: empty_witnesses() };
    assert_eq!(w.to_tx_size(&tx, None, None), 103);
    assert_eq!(w.to_tx_size(&tx, Some(&aux), None), 131);
    assert_eq!(w.to_tx_size(&tx, None, Some(&witnesses)), 109);
    assert_eq!(w.to_tx_size(&tx, Some(&aux), Some(&witnesses)), 137);
    assert_eq!(w.to_transaction_record(&tx, "aa", None, None).unwrap().size, 103);
    assert_eq!(w.to_transaction_record(&tx, "aa", Some(&aux), None).unwrap().size, 131);
    assert_eq!(w.to_transaction_record(&tx, "aa", None, Some(&witnesses)).unwrap().size, 109);
    assert_eq!(w.to_transaction_record(&tx, "aa", Some(&aux), Some(&witnesses)).unwrap().size, 137);
}

#[test]
fn size_of_an_empty_body_is_the_two_defaults() {
    let tx = KeepRaw { raw_cbor: Vec::new(), value: body(Vec::new()) };
    assert_eq!(writer(false).to_tx_size(&tx, None, None), 3);
    assert_eq!(size_of_sections(0, 2, 1).unwrap(), 3);
}

#[test]
fn size_beyond_its_field_fails() {
    assert_eq!(size_of_sections(4_294_967_292, 2, 1).unwrap(), u32::MAX);
    assert_eq!(size_of_sections(u32::MAX as usize, 0, 0).unwrap(), u32::MAX);
    assert!(matches!(size_of_sections(4_294_967_293, 2, 1), Err(ConvertError::SizeOutOfRange)));
    assert!(matches!(size_of_sections(usize::MAX, 2, 1), Err(ConvertError::SizeOutOfRange)));
    assert!(matches!(
        size_of_sections(usize::MAX, usize::MAX, usize::MAX),
        Err(ConvertError::SizeOutOfRange)
    ));
}

#[test]
fn babbage_size_counts_original_bytes_or_defaults() {
    let w = writer(false);
    let tx = KeepRaw { raw_cbor: vec![0; 50], value: babbage_body(Vec::new()) };
    let aux = KeepRaw { raw_cbor: vec![0; 5], value: AuxiliaryData::Shelley(Vec::new()) };
    assert_eq!(w.to_babbage_tx_size(&tx, None, None), 53);
    assert_eq!(w.to_babbage_tx_size(&tx, Some(&aux), None), 56);
    assert_eq!(w.to_babbage_transaction_record(&tx, "bb", None, None).unwrap().size, 53);
    assert_eq!(w.to_babbage_transaction_record(&tx, "bb", Some(&aux), None).unwrap().size, 56);
}

#[test]
fn record_without_details_has_counts_only() {
    let mut inner = body(vec![output(1_000_000), output(500_000)]);
    inner.certificates = Some(vec![Certificate::StakeRegistration(StakeCredential::AddrKeyhash(vec![1]))]);
    inner.mint = Some(vec![PolicyAssets {
        policy: vec![1],
        assets: vec![Asset { name: vec![2], amount: 5i64 }, Asset { name: vec![3], amount: -5i64 }],
    }]);
    inner.required_signers = Some(vec![vec![9], vec![8], vec![7]]);
    inner.withdrawals = Some(vec![(vec![0xe1, 1], 10)]);
    inner.network_id = Some(NetworkId::Two);
    inner.validity_interval_start = Some(44);
    let tx = KeepRaw { raw_cbor: vec![0; 10], value: inner };
    let aux = KeepRaw {
        raw_cbor: vec![0; 4],
        value: AuxiliaryData::Shelley(vec![(1, Metadatum::Int(1))]),
    };
    let witnesses = KeepRaw {
        raw_cbor: vec![0; 3],
        value: shelley::MintedWitnessSet {
            vkeywitness: Some(vec![VKeyWitness { vkey: vec![1], signature: vec![2] }]),
            ..empty_witnesses()
        },
    };
    let record = writer(false).to_transaction_record(&tx, "cafe", Some(&aux), Some(&witnesses)).unwrap();
    assert_eq!(record.hash, "cafe");
    assert_eq!(record.fee, 200_000);
    assert_eq!(record.ttl, Some(5000));
    assert_eq!(record.validity_interval_start, Some(44));
    assert_eq!(record.network_id, Some(2));
    assert_eq!(record.input_count, 1);
    assert_eq!(record.output_count, 2);
    assert_eq!(record.total_output, 1_500_000);
    assert_eq!(record.mint_count, 2);
    assert_eq!(record.certificate_count, 1);
    assert_eq!(record.required_signers_count, 3);
    assert_eq!(record.collateral_input_count, 0);
    assert!(!record.has_collateral_output);
    assert_eq!(record.size, 17);
    assert_eq!(record.inputs, None);
    assert_eq!(record.outputs, None);
    assert_eq!(record.certs, None);
    assert_eq!(record.mint, None);
    assert_eq!(record.metadata, None);
    assert_eq!(record.required_signers, None);
    assert_eq!(record.update, None);
    assert_eq!(record.vkey_witnesses, None);
    assert_eq!(record.native_witnesses, None);
    assert_eq!(record.plutus_witnesses, None);
    assert_eq!(record.plutus_redeemers, None);
    assert_eq!(record.plutus_data, None);
    assert_eq!(record.withdrawals, None);
    assert_eq!(record.collateral_inputs, None);
    assert_eq!(record.collateral_output, None);
}

#[test]
fn record_with_details_has_the_bundle() {
    let mut inner = body(vec![output(1_000_000), output(500_000)]);
    inner.certificates = Some(vec![Certificate::StakeRegistration(StakeCredential::AddrKeyhash(vec![1]))]);
    inner.required_signers = Some(vec![vec![9]]);
    inner.withdrawals = Some(vec![(vec![0xe1, 1], 10)]);
    inner.update = Some(shelley::Update { proposed_protocol_parameter_updates: Vec::new(), epoch: 3 });
    let tx = KeepRaw { raw_cbor: vec![0; 10], value: inner };
    let aux = KeepRaw {
        raw_cbor: vec![0; 4],
        value: AuxiliaryData::Shelley(vec![(1, Metadatum::Int(1))]),
    };
    let witnesses = KeepRaw {
        raw_cbor: vec![0; 3],
        value: shelley::MintedWitnessSet {
            vkeywitness: Some(vec![VKeyWitness { vkey: vec![1], signature: vec![2] }]),
            plutus_script: Some(vec![PlutusScript::<1>(vec![5])]),
            ..empty_witnesses()
        },
    };
    let record = writer(true).to_transaction_record(&tx, "cafe", Some(&aux), Some(&witnesses)).unwrap();
    let counts = writer(false).to_transaction_record(&tx, "cafe", Some(&aux), Some(&witnesses)).unwrap();
    assert_eq!(record.output_count, counts.output_count);
    assert_eq!(record.total_output, counts.total_output);
    assert_eq!(record.size, counts.size);
    assert_eq!(record.inputs.as_ref().map(|x| x.len()), Some(1));
    let outputs = record.outputs.unwrap();
    assert_eq!(outputs.len(), 2);
    assert_eq!(outputs[0].amount, 1_000_000);
    assert_eq!(outputs[1].amount, 500_000);
    assert_eq!(outputs[0].address, ENTERPRISE);
    assert_eq!(record.certs.map(|x| x.len()), Some(1));
    assert_eq!(record.mint, None);
    assert_eq!(record.metadata.map(|x| x.len()), Some(1));
    assert_eq!(record.required_signers.map(|x| x.len()), Some(1));
    assert_eq!(record.update.map(|x| x.epoch), Some(3));
    assert_eq!(record.vkey_witnesses.map(|x| x.len()), Some(1));
    assert_eq!(record.native_witnesses, Some(Vec::new()));
    assert_eq!(record.plutus_witnesses.map(|x| x.len()), Some(1));
    assert_eq!(record.plutus_redeemers, Some(Vec::new()));
    assert_eq!(record.plutus_data, Some(Vec::new()));
    assert_eq!(record.withdrawals.map(|x| x.len()), Some(1));
}

#[test]
fn details_without_sections_leave_their_lists_absent() {
    let tx = KeepRaw { raw_cbor: vec![0; 10], value: body(vec![output(1)]) };
    let record = writer(true).to_transaction_record(&tx, "cafe", None, None).unwrap();
    assert_eq!(record.metadata, None);
    assert_eq!(record.vkey_witnesses, None);
    assert_eq!(record.plutus_data, None);
    assert_eq!(record.certs, None);
    assert_eq!(record.withdrawals, None);
    assert_eq!(record.outputs.map(|x| x.len()), Some(1));
}

#[test]
fn malformed_address_fails_the_transaction() {
    let bad = TransactionOutput { address: vec![0x01], amount: OutputValue::Coin(1), datum_hash: None };
    let tx = KeepRaw { raw_cbor: vec![0; 10], value: body(vec![output(1), bad]) };
    assert!(matches!(
        writer(false).to_transaction_record(&tx, "cafe", None, None),
        Err(ConvertError::MalformedAddress(_))
    ));
    assert!(matches!(
        writer(true).to_transaction_record(&tx, "cafe", None, None),
        Err(ConvertError::MalformedAddress(_))
    ));
}

#[test]
fn unrenderable_metadata_fails_only_with_details() {
    let tx = KeepRaw { raw_cbor: vec![0; 10], value: body(vec![output(1)]) };
    let aux = KeepRaw {
        raw_cbor: vec![0; 4],
        value: AuxiliaryData::Shelley(vec![(1, Metadatum::Array(vec![Metadatum::Int(i128::MIN)]))]),
    };
    assert!(writer(false).to_transaction_record(&tx, "cafe", Some(&aux), None).is_ok());
    assert!(matches!(
        writer(true).to_transaction_record(&tx, "cafe", Some(&aux), None),
        Err(ConvertError::MetadataNumberOutOfRange)
    ));
}

#[test]
fn babbage_record_counts_collateral() {
    let mut inner = babbage_body(vec![
        babbage::MintedTransactionOutput::Legacy(output(3)),
        babbage::MintedTransactionOutput::PostAlonzo(babbage::MintedPostAlonzoTransactionOutput {
            address: address_bytes(),
            value: OutputValue::Coin(4),
            datum_option: None,
            script_ref: None,
        }),
    ]);
    inner.collateral = Some(vec![
        TransactionInput { transaction_id: vec![1], index: 0 },
        TransactionInput { transaction_id: vec![2], index: 1 },
    ]);
    inner.collateral_return = Some(babbage::MintedTransactionOutput::Legacy(output(9)));
    let tx = KeepRaw { raw_cbor: vec![0; 10], value: inner };
    let plain = writer(false).to_babbage_transaction_record(&tx, "f00d", None, None).unwrap();
    assert_eq!(plain.hash, "f00d");
    assert_eq!(plain.fee, 170_000);
    assert_eq!(plain.network_id, Some(1));
    assert_eq!(plain.validity_interval_start, Some(12));
    assert_eq!(plain.output_count, 2);
    assert_eq!(plain.total_output, 7);
    assert_eq!(plain.collateral_input_count, 2);
    assert!(plain.has_collateral_output);
    assert_eq!(plain.collateral_inputs, None);
    assert_eq!(plain.collateral_output, None);
    let detailed = writer(true).to_babbage_transaction_record(&tx, "f00d", None, None).unwrap();
    assert_eq!(detailed.collateral_inputs.map(|x| x.len()), Some(2));
    assert_eq!(detailed.collateral_output.map(|x| x.amount), Some(9));
    assert_eq!(detailed.outputs.map(|x| x.len()), Some(2));
}

#[test]
fn babbage_malformed_collateral_return_fails_only_with_details() {
    let mut inner = babbage_body(vec![babbage::MintedTransactionOutput::Legacy(output(3))]);
    inner.collateral_return = Some(babbage::MintedTransactionOutput::Legacy(TransactionOutput {
        address: vec![0xff],
        amount: OutputValue::Coin(1),
        datum_hash: None,
    }));
    let tx = KeepRaw { raw_cbor: vec![0; 10], value: inner };
    let plain = writer(false).to_babbage_transaction_record(&tx, "f00d", None, None).unwrap();
    assert!(plain.has_collateral_output);
    assert!(matches!(
        writer(true).to_babbage_transaction_record(&tx, "f00d", None, None),
        Err(ConvertError::MalformedAddress(_))
    ));
}

fn amount_record(amount: u64) -> TxOutputRecord {
    TxOutputRecord {
        address: String::new(),
        amount,
        assets: None,
        datum_hash: None,
        inline_datum: None,
        inlined_script: None,
    }
}

#[test]
fn total_output_is_the_exact_sum() {
    assert_eq!(sum_output_amounts(&Vec::new()).unwrap(), 0);
    assert_eq!(sum_output_amounts(&vec![amount_record(1_000_000), amount_record(500_000)]).unwrap(), 1_500_000);
    assert_eq!(sum_output_amounts(&vec![amount_record(u64::MAX - 5), amount_record(5)]).unwrap(), u64::MAX);
    assert_eq!(sum_output_amounts(&vec![amount_record(0), amount_record(u64::MAX)]).unwrap(), u64::MAX);
}

#[test]
fn total_output_beyond_its_field_fails() {
    assert!(matches!(
        sum_output_amounts(&vec![amount_record(u64::MAX), amount_record(5)]),
        Err(ConvertError::TotalOutputOutOfRange)
    ));
    assert!(matches!(
        sum_output_amounts(&vec![amount_record(u64::MAX - 5), amount_record(5), amount_record(1)]),
        Err(ConvertError::TotalOutputOutOfRange)
    ));
    let tx = KeepRaw { raw_cbor: vec![0; 10], value: body(vec![output(u64::MAX), output(1)]) };
    assert!(matches!(
        writer(false).to_transaction_record(&tx, "cafe", None, None),
        Err(ConvertError::TotalOutputOutOfRange)
    ));
    let later = KeepRaw {
        raw_cbor: vec![0; 10],
        value: babbage_body(vec![
            babbage::MintedTransactionOutput::Legacy(output(u64::MAX)),
            babbage::MintedTransactionOutput::Legacy(output(1)),
        ]),
    };
    assert!(matches!(
        writer(true).to_babbage_transaction_record(&later, "cafe", None, None),
        Err(ConvertError::TotalOutputOutOfRange)
    ));
    let bad = TransactionOutput { address: vec![0x01], amount: OutputValue::Coin(1), datum_hash: None };
    let both = KeepRaw { raw_cbor: vec![0; 10], value: body(vec![output(u64::MAX), output(1), bad]) };
    assert!(matches!(
        writer(false).to_transaction_record(&both, "cafe", None, None),
        Err(ConvertError::MalformedAddress(_))
    ));
}

#[test]
fn auxiliary_data_is_found_by_transaction_index() {
    let set = vec![
        (2u32, KeepRaw { raw_cbor: vec![2], value: AuxiliaryData::Shelley(Vec::new()) }),
        (0u32, KeepRaw { raw_cbor: vec![0], value: AuxiliaryData::Shelley(Vec::new()) }),
        (2u32, KeepRaw { raw_cbor: vec![9], value: AuxiliaryData::Shelley(Vec::new()) }),
    ];
    assert_eq!(find_aux_data(&set, 0).map(|x| x.raw_cbor.clone()), Some(vec![0]));
    assert_eq!(find_aux_data(&set, 2).map(|x| x.raw_cbor.clone()), Some(vec![2]));
    assert!(find_aux_data(&set, 1).is_none());
    assert!(find_aux_data(&Vec::new(), 0).is_none());
}

fn block(tx_outputs: Vec<Vec<TransactionOutput>>) -> shelley::MintedBlock {
    shelley::MintedBlock {
        header: header(5, 1000),
        transaction_bodies: tx_outputs
            .into_iter()
            .enumerate()
            .map(|(i, outputs)| KeepRaw { raw_cbor: vec![i as u8; 4], value: body(outputs) })
            .collect(),
        transaction_witness_sets: Vec::new(),
        auxiliary_data_set: Vec::new(),
    }
}

#[test]
fn block_record_is_the_same_on_every_conversion() {
    let source = block(vec![vec![output(1)], vec![output(2), output(3)]]);
    let mut settings = config(true);
    settings.include_block_details = true;
    settings.include_block_cbor = true;
    let w = EventWriter::new(settings, Some(SlotTime { epoch: 2, epoch_slot: 136, timestamp: 99 }));
    let first = w.to_block_record(&source, &vec![0xab; 32], &[1, 2, 3], Era::Alonzo).unwrap();
    let second = w.to_block_record(&source, &vec![0xab; 32], &[1, 2, 3], Era::Alonzo).unwrap();
    assert_eq!(first, second);
}

#[test]
fn block_record_fields() {
    let source = block(vec![vec![output(1)], vec![output(2), output(3)]]);
    let w = EventWriter::new(config(false), Some(SlotTime { epoch: 2, epoch_slot: 136, timestamp: 99 }));
    let record = w.to_block_record(&source, &vec![0xab; 32], &[1, 2, 3], Era::Mary).unwrap();
    assert_eq!(record.era, Era::Mary);
    assert_eq!(record.epoch, Some(2));
    assert_eq!(record.epoch_slot, Some(136));
    assert_eq!(record.body_size, 1234);
    assert_eq!(record.issuer_vkey, "0102");
    assert_eq!(record.vrf_vkey, "03");
    assert_eq!(record.tx_count, 2);
    assert_eq!(record.slot, 1000);
    assert_eq!(record.hash, "ab".repeat(32));
    assert_eq!(record.number, 5);
    assert_eq!(record.previous_hash, "0a".repeat(32));
    assert_eq!(record.cbor_hex, None);
    assert_eq!(record.transactions, None);
}

#[test]
fn block_record_without_time_or_previous_block() {
    let mut source = block(Vec::new());
    source.header.value.header_body.prev_hash = None;
    let record = writer(false).to_block_record(&source, &vec![1], &[], Era::Shelley).unwrap();
    assert_eq!(record.epoch, None);
    assert_eq!(record.epoch_slot, None);
    assert_eq!(record.previous_hash, "");
    assert_eq!(record.tx_count, 0);
}

#[test]
fn each_block_switch_acts_alone() {
    let source = block(vec![vec![output(1)]]);
    for details in [false, true] {
        for cbor in [false, true] {
            for tx_details in [false, true] {
                for ends in [false, true] {
                    let settings = Config {
                        include_block_end_events: ends,
                        include_transaction_details: tx_details,
                        include_transaction_end_events: ends,
                        include_block_details: details,
                        include_block_cbor: cbor,
                    };
                    let w = EventWriter::new(settings, None);
                    let record = w.to_block_record(&source, &vec![1], &[0xca, 0xfe], Era::Alonzo).unwrap();
                    assert_eq!(record.cbor_hex.is_some(), cbor);
                    assert_eq!(record.cbor_hex, if cbor { Some("cafe".to_string()) } else { None });
                    assert_eq!(record.transactions.is_some(), details);
                    if let Some(transactions) = record.transactions {
                        assert_eq!(transactions.len(), 1);
                        assert_eq!(transactions[0].outputs.is_some(), tx_details);
                    }
                }
            }
        }
    }
}

#[test]
fn block_details_carry_each_transaction_with_its_hash() {
    let source = block(vec![vec![output(1)], vec![output(2)]]);
    let mut settings = config(false);
    settings.include_block_details = true;
    let w = EventWriter::new(settings, None);
    let records = w.collect_shelley_tx_records(&source).unwrap();
    assert_eq!(records.len(), 2);
    for (i, record) in records.iter().enumerate() {
        let expected = hex::encode(pallas::crypto::hash::Hasher::<256>::hash(&vec![i as u8; 4]));
        assert_eq!(record.hash, expected);
        assert_eq!(record.size, 7);
    }
    let record = w.to_block_record(&source, &vec![1], &[], Era::Alonzo).unwrap();
    assert_eq!(record.transactions, Some(records));
}

#[test]
fn one_bad_transaction_fails_the_block_details() {
    let bad = TransactionOutput { address: Vec::new(), amount: OutputValue::Coin(1), datum_hash: None };
    let source = block(vec![vec![output(1)], vec![bad]]);
    let mut settings = config(false);
    settings.include_block_details = true;
    let w = EventWriter::new(settings, None);
    assert!(matches!(
        w.to_block_record(&source, &vec![1], &[], Era::Alonzo),
        Err(ConvertError::MalformedAddress(_))
    ));
    assert!(writer(false).to_block_record(&source, &vec![1], &[], Era::Alonzo).is_ok());
}

#[test]
fn babbage_block_record_has_its_era() {
    let source = babbage::MintedBlock {
        header: header(8, 2000),
        transaction_bodies: vec![KeepRaw {
            raw_cbor: vec![1, 2],
            value: babbage_body(vec![babbage::MintedTransactionOutput::Legacy(output(3))]),
        }],
        transaction_witness_sets: vec![KeepRaw {
            raw_cbor: vec![0xa0],
            value: babbage::MintedWitnessSet {
                vkeywitness: None,
                native_script: None,
                plutus_v1_script: None,
                plutus_v2_script: None,
                plutus_data: None,
                redeemer: None,
            },
        }],
        auxiliary_data_set: Vec::new(),
    };
    let mut settings = config(false);
    settings.include_block_details = true;
    let w = EventWriter::new(settings, None);
    let first = w.to_babbage_block_record(&source, &vec![0xcd], &[9]).unwrap();
    let second = w.to_babbage_block_record(&source, &vec![0xcd], &[9]).unwrap();
    assert_eq!(first, second);
    assert_eq!(first.era, Era::Babbage);
    assert_eq!(first.number, 8);
    assert_eq!(first.slot, 2000);
    assert_eq!(first.hash, "cd");
    let transactions = first.transactions.unwrap();
    assert_eq!(transactions.len(), 1);
    assert_eq!(transactions[0].size, 2 + 2 + 1);
    assert_eq!(transactions, w.collect_babbage_tx_records(&source).unwrap());
}

#[test]
fn later_record_lists_scripts_of_the_first_version() {
    let tx = KeepRaw {
        raw_cbor: vec![0; 10],
        value: babbage_body(vec![babbage::MintedTransactionOutput::Legacy(output(3))]),
    };
    let witnesses = KeepRaw {
        raw_cbor: vec![0; 4],
        value: babbage::MintedWitnessSet {
            vkeywitness: None,
            native_script: None,
            plutus_v1_script: Some(vec![PlutusScript::<1>(vec![1])]),
            plutus_v2_script: Some(vec![PlutusScript::<2>(vec![2]), PlutusScript::<2>(vec![3])]),
            plutus_data: None,
            redeemer: None,
        },
    };
    let record = writer(true).to_babbage_transaction_record(&tx, "f00d", None, Some(&witnesses)).unwrap();
    let listed: Vec<String> = record.plutus_witnesses.unwrap().into_iter().map(|w| w.script_hex).collect();
    assert_eq!(listed, vec!["01".to_string()]);
    assert_eq!(record.size, 10 + 2 + 4);
}

#[test]
fn later_record_of_two_outputs_with_details() {
    let assets = vec![PolicyAssets {
        policy: vec![0xaa; 28],
        assets: vec![
            Asset { name: b"one".to_vec(), amount: 3u64 },
            Asset { name: b"two".to_vec(), amount: 4u64 },
        ],
    }];
    let mut inner = babbage_body(vec![
        babbage::MintedTransactionOutput::Legacy(output(1_000_000)),
        babbage::MintedTransactionOutput::PostAlonzo(babbage::MintedPostAlonzoTransactionOutput {
            address: address_bytes(),
            value: OutputValue::Multiasset(500_000, assets),
            datum_option: None,
            script_ref: None,
        }),
    ]);
    inner.fee = 200_000;
    let tx = KeepRaw { raw_cbor: vec![0; 10], value: inner };
    let record = writer(true).to_babbage_transaction_record(&tx, "cafe", None, None).unwrap();
    assert_eq!(record.fee, 200_000);
    assert_eq!(record.output_count, 2);
    assert_eq!(record.certificate_count, 0);
    assert_eq!(record.total_output, 1_500_000);
    let outputs = record.outputs.unwrap();
    assert_eq!(outputs.len(), 2);
    assert_eq!(outputs[0].amount, 1_000_000);
    assert_eq!(outputs[1].amount, 500_000);
    assert_eq!(outputs[0].assets, Some(Vec::new()));
    assert_eq!(outputs[1].assets.as_ref().unwrap().len(), 2);
}
