use oura::decoded::babbage;
use oura::decoded::shelley;
use oura::decoded::{
    Asset, AuxiliaryData, Certificate, ExUnits, Header, HeaderBody, KeepRaw, Metadatum,
    OutputValue, PlutusScript, Point, PolicyAssets, Redeemer, RedeemerTag, StakeCredential,
    TransactionInput, TransactionOutput, VKeyWitness,
};
use oura::error::ConvertError;
use oura::mapper::{Config, EventWriter, SlotTime};
use oura::model::{Era, Event, EventContext, EventData};
use pallas::ledger::addresses::Address;
use pallas::ledger::primitives::alonzo::{NativeScript, PlutusData};
use pallas::ledger::traverse::ComputeHash;

const ENTERPRISE: &str = "addr1vx2fxv2umyhttkxyxp8x0dlpdt3k6cwng5pxj3jhsydzers66hrl8";

fn all_off() -> Config {
    Config {
        include_block_end_events: false,
        include_transaction_details: false,
        include_transaction_end_events: false,
        include_block_details: false,
        include_block_cbor: false,
    }
}

fn all_on() -> Config {
    Config {
        include_block_end_events: true,
        include_transaction_details: true,
        include_transaction_end_events: true,
        include_block_details: true,
        include_block_cbor: true,
    }
}

fn address_bytes() -> Vec<u8> {
    Address::from_bech32(ENTERPRISE).unwrap().to_vec()
}

fn unit_datum() -> PlutusData {
    pallas::codec::minicbor::decode(&[0xd8, 0x79, 0x80]).unwrap()
}

fn coin_output(amount: u64) -> TransactionOutput {
    TransactionOutput { address: address_bytes(), amount: OutputValue::Coin(amount), datum_hash: None }
}

fn two_assets(coin: u64) -> OutputValue {
    OutputValue::Multiasset(
        coin,
        vec![PolicyAssets {
            policy: vec![0xaa; 28],
            assets: vec![
                Asset { name: b"first".to_vec(), amount: 1 },
                Asset { name: b"second".to_vec(), amount: 2 },
            ],
        }],
    )
}

fn body(outputs: Vec<TransactionOutput>) -> shelley::TransactionBody {
    shelley::TransactionBody {
        inputs: Vec::new(),
        outputs,
        fee: 200_000,
        ttl: None,
        certificates: None,
        withdrawals: None,
        update: None,
        validity_interval_start: None,
        mint: None,
        collateral: None,
        required_signers: None,
        network_id: None,
    }
}

fn header(number: u64, slot: u64) -> KeepRaw<Header> {
    KeepRaw {
        raw_cbor: vec![0x82, number as u8, slot as u8],
        value: Header {
            header_body: HeaderBody {
                block_number: number,
                slot,
                prev_hash: None,
                issuer_vkey: vec![1],
                vrf_vkey: vec![2],
                block_body_size: 10,
            },
        },
    }
}

fn block_of(number: u64, slot: u64, bodies: Vec<shelley::TransactionBody>) -> shelley::MintedBlock {
    shelley::MintedBlock {
        header: header(number, slot),
        transaction_bodies: bodies
            .into_iter()
            .enumerate()
            .map(|(i, value)| KeepRaw { raw_cbor: vec![i as u8, 0xff], value })
            .collect(),
        transaction_witness_sets: Vec::new(),
        auxiliary_data_set: Vec::new(),
    }
}

fn kind(event: &Event) -> &'static str {
    match &event.data {
        EventData::Block(_) => "Block",
        EventData::BlockEnd(_) => "BlockEnd",
        EventData::Transaction(_) => "Transaction",
        EventData::TransactionEnd(_) => "TransactionEnd",
        EventData::TxInput(_) => "TxInput",
        EventData::TxOutput(_) => "TxOutput",
        EventData::OutputAsset(_) => "OutputAsset",
        EventData::Metadata(_) => "Metadata",
        EventData::VKeyWitness(_) => "VKeyWitness",
        EventData::NativeWitness(_) => "NativeWitness",
        EventData::PlutusWitness(_) => "PlutusWitness",
        EventData::PlutusRedeemer(_) => "PlutusRedeemer",
        EventData::PlutusDatum(_) => "PlutusDatum",
        EventData::Mint(_) => "Mint",
        EventData::Collateral { .. } => "Collateral",
        EventData::NativeScript { .. } => "NativeScript",
        EventData::PlutusScript { .. } => "PlutusScript",
        EventData::StakeRegistration(_) => "StakeRegistration",
        EventData::StakeDeregistration(_) => "StakeDeregistration",
        EventData::RollBack { .. } => "RollBack",
        _ => "Other",
    }
}

fn kinds(events: &[Event]) -> Vec<&'static str> {
    events.iter().map(kind).collect()
}

fn scenario_block() -> shelley::MintedBlock {
    let outputs = vec![
        coin_output(1_000_000),
        TransactionOutput { address: address_bytes(), amount: two_assets(500_000), datum_hash: None },
    ];
    let mut block = block_of(5, 1000, vec![body(outputs)]);
    block.transaction_bodies[0].value.inputs =
        vec![TransactionInput { transaction_id: vec![1; 32], index: 0 }];
    block
}

#[test]
fn block_with_all_switches_off() {
    let block = scenario_block();
    let mut out = Vec::new();
    EventWriter::new(all_off(), None).crawl_shelley_with_cbor(&block, &[1, 2], Era::Alonzo, &mut out).unwrap();
    assert_eq!(
        kinds(&out),
        vec!["Block", "Transaction", "TxInput", "TxOutput", "TxOutput", "OutputAsset", "OutputAsset"]
    );
    match &out[0].data {
        EventData::Block(record) => {
            assert_eq!(record.tx_count, 1);
            assert_eq!(record.transactions, None);
            assert_eq!(record.cbor_hex, None);
            assert_eq!(record.slot, 1000);
            assert_eq!(record.number, 5);
        }
        other => panic!("unexpected event {:?}", other),
    }
    match &out[1].data {
        EventData::Transaction(record) => {
            assert_eq!(record.fee, 200_000);
            assert_eq!(record.certificate_count, 0);
            assert_eq!(record.outputs, None);
        }
        other => panic!("unexpected event {:?}", other),
    }
}

#[test]
fn block_with_all_switches_on() {
    let block = scenario_block();
    let mut out = Vec::new();
    EventWriter::new(all_on(), None).crawl_shelley_with_cbor(&block, &[1, 2], Era::Alonzo, &mut out).unwrap();
    assert_eq!(
        kinds(&out),
        vec![
            "Block",
            "Transaction",
            "TxInput",
            "TxOutput",
            "TxOutput",
            "OutputAsset",
            "OutputAsset",
            "TransactionEnd",
            "BlockEnd",
        ]
    );
    let transaction = match &out[1].data {
        EventData::Transaction(record) => record.clone(),
        other => panic!("unexpected event {:?}", other),
    };
    let outputs = transaction.outputs.clone().unwrap();
    assert_eq!(outputs.len(), 2);
    assert_eq!(outputs.iter().map(|o| o.amount).sum::<u64>(), 1_500_000);
    assert_eq!(transaction.total_output, 1_500_000);
    match (&out[4].data, &out[5].data, &out[6].data) {
        (EventData::TxOutput(output), EventData::OutputAsset(first), EventData::OutputAsset(second)) => {
            assert_eq!(output.amount, 500_000);
            assert_eq!(first.asset_ascii, Some("first".to_string()));
            assert_eq!(second.asset_ascii, Some("second".to_string()));
        }
        other => panic!("unexpected events {:?}", other),
    }
    match &out[7].data {
        EventData::TransactionEnd(record) => assert_eq!(*record, transaction),
        other => panic!("unexpected event {:?}", other),
    }
    match (&out[0].data, &out[8].data) {
        (EventData::Block(begin), EventData::BlockEnd(end)) => {
            assert_eq!(begin, end);
            assert_eq!(begin.cbor_hex, Some("0102".to_string()));
            assert_eq!(begin.transactions, Some(vec![transaction]));
        }
        other => panic!("unexpected events {:?}", other),
    }
}

#[test]
fn absent_witness_set_emits_no_witness_event() {
    let tx = KeepRaw { raw_cbor: vec![0; 40], value: body(vec![coin_output(1)]) };
    let mut out = Vec::new();
    EventWriter::new(all_off(), None).crawl_shelley_transaction(&tx, "ab", None, None, &mut out).unwrap();
    assert_eq!(kinds(&out), vec!["Transaction", "TxOutput"]);
    match &out[0].data {
        EventData::Transaction(record) => assert_eq!(record.size, 40 + 2 + 1),
        other => panic!("unexpected event {:?}", other),
    }
}

fn full_babbage_transaction() -> (
    KeepRaw<babbage::MintedTransactionBody>,
    KeepRaw<AuxiliaryData>,
    KeepRaw<babbage::MintedWitnessSet>,
) {
    let datum = KeepRaw { raw_cbor: vec![0xd8, 0x79, 0x80], value: unit_datum() };
    let outputs = vec![
        babbage::MintedTransactionOutput::Legacy(TransactionOutput {
            address: address_bytes(),
            amount: two_assets(10),
            datum_hash: None,
        }),
        babbage::MintedTransactionOutput::PostAlonzo(babbage::MintedPostAlonzoTransactionOutput {
            address: address_bytes(),
            value: two_assets(20),
            datum_option: Some(babbage::MintedDatumOption::Data(datum.clone())),
            script_ref: None,
        }),
        babbage::MintedTransactionOutput::PostAlonzo(babbage::MintedPostAlonzoTransactionOutput {
            address: address_bytes(),
            value: OutputValue::Coin(30),
            datum_option: Some(babbage::MintedDatumOption::Hash(vec![1; 32])),
            script_ref: None,
        }),
    ];
    let body = babbage::MintedTransactionBody {
        inputs: vec![
            TransactionInput { transaction_id: vec![1; 32], index: 0 },
            TransactionInput { transaction_id: vec![2; 32], index: 1 },
        ],
        outputs,
        fee: 1,
        ttl: None,
        certificates: Some(vec![
            Certificate::StakeRegistration(StakeCredential::AddrKeyhash(vec![1])),
            Certificate::StakeDeregistration(StakeCredential::AddrKeyhash(vec![1])),
        ]),
        withdrawals: None,
        update: None,
        validity_interval_start: None,
        mint: Some(vec![PolicyAssets {
            policy: vec![3],
            assets: vec![Asset { name: vec![4], amount: 1i64 }],
        }]),
        collateral: Some(vec![TransactionInput { transaction_id: vec![9; 32], index: 0 }]),
        required_signers: None,
        network_id: None,
        collateral_return: None,
    };
    let aux = AuxiliaryData::PostAlonzo {
        metadata: Some(vec![(1, Metadatum::Int(1)), (2, Metadatum::Text("t".to_string()))]),
        native_scripts: Some(vec![NativeScript::InvalidBefore(1)]),
        plutus_scripts: Some(vec![PlutusScript::<1>(vec![1])]),
    };
    let witnesses = babbage::MintedWitnessSet {
        vkeywitness: Some(vec![VKeyWitness { vkey: vec![1], signature: vec![2] }]),
        native_script: Some(vec![NativeScript::InvalidHereafter(2)]),
        plutus_v1_script: Some(vec![PlutusScript::<1>(vec![7])]),
        plutus_v2_script: Some(vec![PlutusScript::<2>(vec![8])]),
        plutus_data: Some(vec![datum]),
        redeemer: Some(vec![Redeemer {
            tag: RedeemerTag::Spend,
            index: 0,
            data: unit_datum(),
            ex_units: ExUnits { mem: 1, steps: 2 },
        }]),
    };
    (
        KeepRaw { raw_cbor: vec![0; 9], value: body },
        KeepRaw { raw_cbor: vec![0; 5], value: aux },
        KeepRaw { raw_cbor: vec![0; 6], value: witnesses },
    )
}

#[test]
fn transaction_events_come_in_the_fixed_order() {
    let (tx, aux, witnesses) = full_babbage_transaction();
    let mut settings = all_off();
    settings.include_transaction_end_events = true;
    let mut out = Vec::new();
    EventWriter::new(settings, None)
        .crawl_babbage_transaction(&tx, "ab", Some(&aux), Some(&witnesses), &mut out)
        .unwrap();
    assert_eq!(
        kinds(&out),
        vec![
            "Transaction",
            "TxInput",
            "TxInput",
            "TxOutput",
            "OutputAsset",
            "OutputAsset",
            "TxOutput",
            "PlutusDatum",
            "OutputAsset",
            "OutputAsset",
            "TxOutput",
            "StakeRegistration",
            "StakeDeregistration",
            "Collateral",
            "Mint",
            "Metadata",
            "Metadata",
            "NativeScript",
            "PlutusScript",
            "VKeyWitness",
            "NativeWitness",
            "PlutusWitness",
            "PlutusWitness",
            "PlutusRedeemer",
            "PlutusDatum",
            "TransactionEnd",
        ]
    );
    let first = pallas::ledger::primitives::babbage::PlutusScript::<1>(vec![7u8].into());
    let second = pallas::ledger::primitives::babbage::PlutusScript::<2>(vec![8u8].into());
    match (&out[21].data, &out[22].data) {
        (EventData::PlutusWitness(v1), EventData::PlutusWitness(v2)) => {
            assert_eq!(v1.script_hex, "07");
            assert_eq!(v1.script_hash, hex::encode(first.compute_hash()));
            assert_eq!(v2.script_hex, "08");
            assert_eq!(v2.script_hash, hex::encode(second.compute_hash()));
        }
        other => panic!("unexpected events {:?}", other),
    }
}

#[test]
fn transaction_event_count() {
    let (tx, aux, witnesses) = full_babbage_transaction();
    for ends in [false, true] {
        let mut settings = all_off();
        settings.include_transaction_end_events = ends;
        let mut out = Vec::new();
        EventWriter::new(settings, None)
            .crawl_babbage_transaction(&tx, "ab", Some(&aux), Some(&witnesses), &mut out)
            .unwrap();
        let inputs = 2;
        let outputs = 3;
        let inline = 1;
        let assets = 4;
        let certificates = 2;
        let collateral = 1;
        let mints = 1;
        let labels = 2;
        let aux_scripts = 2;
        let witness_lists = 6;
        let expected = 1 + inputs + outputs + inline + assets + certificates + collateral + mints + labels
            + aux_scripts + witness_lists + if ends { 1 } else { 0 };
        assert_eq!(out.len(), expected);
    }
}

#[test]
fn contexts_carry_what_is_known_at_each_depth() {
    let (tx, aux, witnesses) = full_babbage_transaction();
    let block = babbage::MintedBlock {
        header: header(100, 77),
        transaction_bodies: vec![
            KeepRaw { raw_cbor: vec![0], value: tx.value.clone() },
            KeepRaw { raw_cbor: vec![1], value: tx.value.clone() },
            KeepRaw { raw_cbor: vec![2], value: tx.value.clone() },
            KeepRaw { raw_cbor: vec![3], value: tx.value.clone() },
        ],
        transaction_witness_sets: vec![
            KeepRaw { raw_cbor: vec![0], value: witnesses.value.clone() },
            KeepRaw { raw_cbor: vec![0], value: witnesses.value.clone() },
            KeepRaw { raw_cbor: vec![0], value: witnesses.value.clone() },
            KeepRaw { raw_cbor: vec![0], value: witnesses.value.clone() },
        ],
        auxiliary_data_set: vec![(3, aux)],
    };
    let time = Some(SlotTime { epoch: 1, epoch_slot: 2, timestamp: 1_600_000_000 });
    let mut out = Vec::new();
    EventWriter::new(all_on(), time).crawl_babbage_with_cbor(&block, &[0], &mut out).unwrap();
    let block_hash = hex::encode(pallas::crypto::hash::Hasher::<256>::hash(&block.header.raw_cbor));
    let tx_hash = hex::encode(pallas::crypto::hash::Hasher::<256>::hash(&[3]));
    for event in &out {
        assert_eq!(event.context.block_number, Some(100));
        assert_eq!(event.context.slot, Some(77));
        assert_eq!(event.context.block_hash, Some(block_hash.clone()));
        assert_eq!(event.context.timestamp, Some(1_600_000_000));
        assert_eq!(event.fingerprint, None);
    }
    assert_eq!(kind(&out[0]), "Block");
    assert_eq!(out[0].context.tx_idx, None);
    assert_eq!(out[0].context.tx_hash, None);
    assert_eq!(kind(out.last().unwrap()), "BlockEnd");
    assert_eq!(out.last().unwrap().context.tx_idx, None);
    let third: Vec<&Event> = out.iter().filter(|e| e.context.tx_idx == Some(3)).collect();
    assert_eq!(third.len(), 24 + 2);
    assert_eq!(kind(third[0]), "Transaction");
    assert_eq!(kind(third[third.len() - 1]), "TransactionEnd");
    for event in &third {
        assert_eq!(event.context.tx_hash, Some(tx_hash.clone()));
    }
    assert_eq!(third[0].context.input_idx, None);
    assert_eq!(third[0].context.output_idx, None);
    assert_eq!(third[1].context.input_idx, Some(0));
    assert_eq!(third[2].context.input_idx, Some(1));
    assert_eq!(third[2].context.output_idx, None);
    assert_eq!(kind(third[3]), "TxOutput");
    assert_eq!(third[3].context.output_idx, Some(0));
    assert_eq!(third[3].context.output_address, None);
    assert_eq!(kind(third[4]), "OutputAsset");
    assert_eq!(third[4].context.output_idx, Some(0));
    assert_eq!(third[4].context.output_address, Some(ENTERPRISE.to_string()));
    assert_eq!(kind(third[7]), "PlutusDatum");
    assert_eq!(third[7].context.output_idx, Some(1));
    assert_eq!(third[7].context.output_address, Some(ENTERPRISE.to_string()));
    assert_eq!(kind(third[11]), "StakeRegistration");
    assert_eq!(third[11].context.certificate_idx, Some(0));
    assert_eq!(third[12].context.certificate_idx, Some(1));
    assert_eq!(third[12].context.output_idx, None);
    assert_eq!(kind(third[13]), "Collateral");
    assert_eq!(third[13].context.certificate_idx, None);
    assert_eq!(third[13].context.input_idx, None);
    let others = out.iter().filter(|e| e.context.tx_idx == Some(0)).count();
    assert_eq!(others, 24 - 4 + 2);
}

#[test]
fn failing_transaction_keeps_earlier_events() {
    let bad = TransactionOutput { address: vec![0x61], amount: OutputValue::Coin(1), datum_hash: None };
    let block = block_of(1, 2, vec![body(vec![coin_output(1)]), body(vec![bad]), body(vec![coin_output(2)])]);
    let mut settings = all_off();
    settings.include_block_end_events = true;
    let mut out = Vec::new();
    let outcome = EventWriter::new(settings, None).crawl_shelley_with_cbor(&block, &[], Era::Mary, &mut out);
    assert!(matches!(outcome, Err(ConvertError::MalformedAddress(_))));
    assert_eq!(kinds(&out), vec!["Block", "Transaction", "TxOutput"]);
}

#[test]
fn failing_block_record_emits_nothing() {
    let bad = TransactionOutput { address: vec![0x61], amount: OutputValue::Coin(1), datum_hash: None };
    let block = block_of(1, 2, vec![body(vec![coin_output(1)]), body(vec![bad])]);
    let mut settings = all_off();
    settings.include_block_details = true;
    let mut out = vec![];
    let outcome = EventWriter::new(settings, None).crawl_shelley_with_cbor(&block, &[], Era::Mary, &mut out);
    assert!(matches!(outcome, Err(ConvertError::MalformedAddress(_))));
    assert!(out.is_empty());
}

#[test]
fn unrenderable_metadata_ends_the_walk_where_it_stands() {
    let tx = KeepRaw { raw_cbor: vec![0; 4], value: body(vec![coin_output(1)]) };
    let aux = KeepRaw {
        raw_cbor: vec![0; 4],
        value: AuxiliaryData::ShelleyMa {
            transaction_metadata: vec![
                (1, Metadatum::Int(1)),
                (2, Metadatum::Array(vec![Metadatum::Int(i128::MAX)])),
                (3, Metadatum::Int(3)),
            ],
            auxiliary_scripts: Some(vec![NativeScript::InvalidBefore(1)]),
        },
    };
    let mut out = Vec::new();
    let outcome = EventWriter::new(all_off(), None).crawl_shelley_transaction(&tx, "ab", Some(&aux), None, &mut out);
    assert!(matches!(outcome, Err(ConvertError::MetadataNumberOutOfRange)));
    assert_eq!(kinds(&out), vec!["Transaction", "TxOutput", "Metadata"]);
}

#[test]
fn end_events_follow_their_switches_only() {
    let block = scenario_block();
    for block_end in [false, true] {
        for tx_end in [false, true] {
            let mut settings = all_off();
            settings.include_block_end_events = block_end;
            settings.include_transaction_end_events = tx_end;
            let mut out = Vec::new();
            EventWriter::new(settings, None)
                .crawl_shelley_with_cbor(&block, &[], Era::Alonzo, &mut out)
                .unwrap();
            assert_eq!(kinds(&out).contains(&"BlockEnd"), block_end);
            assert_eq!(kinds(&out).contains(&"TransactionEnd"), tx_end);
            assert_eq!(out.len(), 7 + block_end as usize + tx_end as usize);
        }
    }
}

#[test]
fn events_are_appended_after_what_is_there() {
    let w = EventWriter::new(all_off(), None);
    let mut out = Vec::new();
    w.append_rollback_event(&Point::Origin, &mut out);
    w.append_rollback_event(&Point::Specific(42, vec![0xab, 0xcd]), &mut out);
    assert_eq!(kinds(&out), vec!["RollBack", "RollBack"]);
    match (&out[0].data, &out[1].data) {
        (
            EventData::RollBack { block_slot: first_slot, block_hash: first_hash },
            EventData::RollBack { block_slot: second_slot, block_hash: second_hash },
        ) => {
            assert_eq!(*first_slot, 0);
            assert_eq!(first_hash, "");
            assert_eq!(*second_slot, 42);
            assert_eq!(second_hash, "abcd");
        }
        other => panic!("unexpected events {:?}", other),
    }
    w.crawl_shelley_with_cbor(&scenario_block(), &[], Era::Alonzo, &mut out).unwrap();
    assert_eq!(out.len(), 2 + 7);
    assert_eq!(kind(&out[2]), "Block");
}

#[test]
fn child_context_overrides_and_inherits() {
    let mut parent = EventContext::default();
    parent.block_number = Some(100);
    parent.slot = Some(7);
    parent.tx_idx = Some(1);
    let mut overrides = EventContext::default();
    overrides.tx_idx = Some(3);
    overrides.output_address = Some("addr".to_string());
    let child = parent.derive_child(overrides);
    assert_eq!(child.block_number, Some(100));
    assert_eq!(child.slot, Some(7));
    assert_eq!(child.tx_idx, Some(3));
    assert_eq!(child.output_address, Some("addr".to_string()));
    assert_eq!(child.block_hash, None);
    assert_eq!(parent.tx_idx, Some(1));
    assert_eq!(parent.output_address, None);

    let mut merged = EventContext::default();
    merged.tx_idx = Some(9);
    merged.merge(parent.clone());
    assert_eq!(merged.tx_idx, Some(9));
    assert_eq!(merged.block_number, Some(100));

    let writer = EventWriter { context: parent, config: all_on(), time: None };
    let child = writer.child_writer(EventContext::at_certificate(4));
    assert_eq!(child.context.certificate_idx, Some(4));
    assert_eq!(child.context.block_number, Some(100));
    assert_eq!(child.config, all_on());
    assert_eq!(child.time, None);
}

#[test]
fn legacy_transaction_events_come_in_the_fixed_order() {
    let mut inner = body(vec![
        TransactionOutput { address: address_bytes(), amount: two_assets(10), datum_hash: None },
        coin_output(5),
    ]);
    inner.inputs = vec![TransactionInput { transaction_id: vec![1; 32], index: 0 }];
    inner.certificates = Some(vec![Certificate::StakeRegistration(StakeCredential::Scripthash(vec![1]))]);
    inner.collateral = Some(vec![
        TransactionInput { transaction_id: vec![8; 32], index: 0 },
        TransactionInput { transaction_id: vec![9; 32], index: 1 },
    ]);
    inner.mint = Some(vec![
        PolicyAssets { policy: vec![3], assets: vec![Asset { name: vec![4], amount: 1i64 }] },
        PolicyAssets { policy: vec![5], assets: vec![Asset { name: vec![6], amount: -1i64 }] },
    ]);
    let tx = KeepRaw { raw_cbor: vec![0; 12], value: inner };
    let aux = KeepRaw {
        raw_cbor: vec![0; 3],
        value: AuxiliaryData::ShelleyMa {
            transaction_metadata: vec![(7, Metadatum::Bytes(vec![1]))],
            auxiliary_scripts: Some(vec![NativeScript::InvalidBefore(1), NativeScript::InvalidBefore(2)]),
        },
    };
    let witnesses = KeepRaw {
        raw_cbor: vec![0; 2],
        value: shelley::MintedWitnessSet {
            vkeywitness: Some(vec![
                VKeyWitness { vkey: vec![1], signature: vec![2] },
                VKeyWitness { vkey: vec![3], signature: vec![4] },
            ]),
            native_script: None,
            plutus_script: Some(vec![PlutusScript::<1>(vec![7])]),
            plutus_data: None,
            redeemer: Some(Vec::new()),
        },
    };
    let mut out = Vec::new();
    EventWriter::new(all_off(), None)
        .crawl_shelley_transaction(&tx, "ab", Some(&aux), Some(&witnesses), &mut out)
        .unwrap();
    assert_eq!(
        kinds(&out),
        vec![
            "Transaction",
            "TxInput",
            "TxOutput",
            "OutputAsset",
            "OutputAsset",
            "TxOutput",
            "StakeRegistration",
            "Collateral",
            "Collateral",
            "Mint",
            "Mint",
            "Metadata",
            "NativeScript",
            "NativeScript",
            "VKeyWitness",
            "VKeyWitness",
            "PlutusWitness",
        ]
    );
    match &out[0].data {
        EventData::Transaction(record) => {
            assert_eq!(record.hash, "ab");
            assert_eq!(record.size, 12 + 3 + 2);
            assert_eq!(record.total_output, 15);
        }
        other => panic!("unexpected event {:?}", other),
    }
    match (&out[9].data, &out[10].data) {
        (EventData::Mint(first), EventData::Mint(second)) => {
            assert_eq!((first.policy.as_str(), first.quantity), ("03", 1));
            assert_eq!((second.policy.as_str(), second.quantity), ("05", -1));
        }
        other => panic!("unexpected events {:?}", other),
    }
}

#[test]
fn coordinates_of_each_depth() {
    let input = EventContext::at_input(2);
    assert_eq!(input.input_idx, Some(2));
    assert_eq!(input.output_idx, None);
    let output = EventContext::at_output(3);
    assert_eq!(output.output_idx, Some(3));
    assert_eq!(output.output_address, None);
    let address = EventContext::at_address("addr".to_string());
    assert_eq!(address.output_address, Some("addr".to_string()));
    assert_eq!(address.output_idx, None);
    let transaction = EventContext::at_transaction(4, "ff".to_string());
    assert_eq!(transaction.tx_idx, Some(4));
    assert_eq!(transaction.tx_hash, Some("ff".to_string()));
    assert_eq!(transaction.block_number, None);
    let block = EventContext::at_block("aa".to_string(), 5, 6, Some(7));
    assert_eq!(block.block_hash, Some("aa".to_string()));
    assert_eq!(block.block_number, Some(5));
    assert_eq!(block.slot, Some(6));
    assert_eq!(block.timestamp, Some(7));
    assert_eq!(block.tx_idx, None);
    let empty = EventContext::empty();
    assert_eq!(empty.block_hash, None);
    assert_eq!(empty.certificate_idx, None);
}

#[test]
fn metadata_events_carry_their_labels_in_decimal() {
    let (tx, _, _) = full_babbage_transaction();
    let aux = KeepRaw {
        raw_cbor: vec![0; 3],
        value: AuxiliaryData::PostAlonzo {
            metadata: Some(vec![
                (674, Metadatum::Text("a".to_string())),
                (0, Metadatum::Int(-1)),
                (u64::MAX, Metadatum::Bytes(vec![0xab])),
            ]),
            native_scripts: None,
            plutus_scripts: None,
        },
    };
    let mut out = Vec::new();
    EventWriter::new(all_off(), None)
        .crawl_babbage_transaction(&tx, "ab", Some(&aux), None, &mut out)
        .unwrap();
    let labels: Vec<String> = out
        .iter()
        .filter_map(|event| match &event.data {
            EventData::Metadata(record) => Some(record.label.clone()),
            _ => None,
        })
        .collect();
    assert_eq!(labels, vec!["674", "0", "18446744073709551615"]);
}

#[test]
fn later_transaction_without_sections() {
    let (tx, _, _) = full_babbage_transaction();
    let mut out = Vec::new();
    EventWriter::new(all_on(), None).crawl_babbage_transaction(&tx, "ab", None, None, &mut out).unwrap();
    let found = kinds(&out);
    for absent in ["VKeyWitness", "NativeWitness", "PlutusWitness", "PlutusRedeemer", "Metadata"] {
        assert!(!found.contains(&absent));
    }
    assert_eq!(found.iter().filter(|k| **k == "PlutusDatum").count(), 1);
    assert_eq!(found.iter().filter(|k| **k == "Transaction").count(), 1);
    assert_eq!(found.iter().filter(|k| **k == "TransactionEnd").count(), 1);
    match &out[0].data {
        EventData::Transaction(record) => {
            assert_eq!(record.size, 9 + 2 + 1);
            assert_eq!(record.metadata, None);
            assert_eq!(record.vkey_witnesses, None);
            assert_eq!(record.native_witnesses, None);
            assert_eq!(record.plutus_witnesses, None);
            assert_eq!(record.plutus_redeemers, None);
            assert_eq!(record.plutus_data, None);
        }
        other => panic!("unexpected event {:?}", other),
    }
}

#[test]
fn later_block_with_all_switches_off() {
    let (tx, aux, witnesses) = full_babbage_transaction();
    let block = babbage::MintedBlock {
        header: header(9, 300),
        transaction_bodies: vec![
            KeepRaw { raw_cbor: vec![0], value: tx.value.clone() },
            KeepRaw { raw_cbor: vec![1], value: tx.value.clone() },
        ],
        transaction_witness_sets: vec![KeepRaw { raw_cbor: vec![0], value: witnesses.value.clone() }],
        auxiliary_data_set: vec![(1, aux)],
    };
    let mut out = Vec::new();
    EventWriter::new(all_off(), None).crawl_babbage_with_cbor(&block, &[1, 2], &mut out).unwrap();
    let found = kinds(&out);
    assert_eq!(found[0], "Block");
    assert_eq!(found.iter().filter(|k| **k == "Block").count(), 1);
    assert_eq!(found.iter().filter(|k| **k == "Transaction").count(), 2);
    assert_eq!(found.iter().filter(|k| **k == "TransactionEnd").count(), 0);
    assert_eq!(found.iter().filter(|k| **k == "BlockEnd").count(), 0);
    assert_eq!(found.iter().filter(|k| **k == "Metadata").count(), 2);
    assert_eq!(found.iter().filter(|k| **k == "PlutusWitness").count(), 2);
    match &out[0].data {
        EventData::Block(record) => {
            assert_eq!(record.tx_count, 2);
            assert_eq!(record.transactions, None);
            assert_eq!(record.cbor_hex, None);
            assert_eq!(record.era, Era::Babbage);
        }
        other => panic!("unexpected event {:?}", other),
    }
}
