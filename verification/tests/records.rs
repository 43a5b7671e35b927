use oura::decoded;
use oura::decoded::babbage::{
    MintedDatumOption, MintedPostAlonzoTransactionOutput, MintedTransactionOutput, Script,
    ScriptRef,
};
use oura::decoded::{
    Anchor, Asset, Certificate, InstantaneousRewardSource, InstantaneousRewardTarget, KeepRaw,
    MoveInstantaneousReward, OutputValue, PlutusScript, PolicyAssets, PoolMetadata,
    RationalNumber, Redeemer, RedeemerTag, Relay, TransactionInput, TransactionOutput,
    VKeyWitness,
};
use oura::error::ConvertError;
use oura::mapper::certificates::{relay_to_string, to_option_anchor_record};
use oura::mapper::map::{get_tx_output_coin_value, render_address};
use oura::mapper::{Config, EventWriter};
use oura::model::{
    AnchorRecord, CertificateRecord, DRep, EventData, MintRecord, OutputAssetRecord,
    ScriptRefRecord, StakeCredential, TxInputRecord, WithdrawalRecord,
};
use pallas::ledger::addresses::Address;
use pallas::ledger::primitives::alonzo::{NativeScript, PlutusData};
use pallas::ledger::primitives::ToCanonicalJson;
use pallas::ledger::traverse::ComputeHash;

const ENTERPRISE: &str = "addr1vx2fxv2umyhttkxyxp8x0dlpdt3k6cwng5pxj3jhsydzers66hrl8";

fn writer() -> EventWriter {
    EventWriter::new(
        Config {
            include_block_end_events: false,
            include_transaction_details: false,
            include_transaction_end_events: false,
            include_block_details: false,
            include_block_cbor: false,
        },
        None,
    )
}

fn address_bytes() -> Vec<u8> {
    Address::from_bech32(ENTERPRISE).unwrap().to_vec()
}

fn key_hash(byte: u8) -> Vec<u8> {
    vec![byte; 28]
}

fn hex_of(byte: u8, count: usize) -> String {
    format!("{:02x}", byte).repeat(count)
}

fn unit_datum() -> PlutusData {
    pallas::codec::minicbor::decode(&[0xd8, 0x79, 0x80]).unwrap()
}

fn sample_script() -> NativeScript {
    NativeScript::ScriptAll(vec![NativeScript::InvalidBefore(112500819)])
}

#[test]
fn stake_credential_keeps_hash_and_kind() {
    let key = StakeCredential::from(&decoded::StakeCredential::AddrKeyhash(key_hash(0xab)));
    assert_eq!(key, StakeCredential::AddrKeyhash(hex_of(0xab, 28)));
    let script = StakeCredential::from(&decoded::StakeCredential::Scripthash(key_hash(0x01)));
    assert_eq!(script, StakeCredential::Scripthash(hex_of(0x01, 28)));
    match key {
        StakeCredential::AddrKeyhash(text) => assert_eq!(hex::decode(text).unwrap(), key_hash(0xab)),
        StakeCredential::Scripthash(_) => panic!("a key hash became a script hash"),
    }
}

#[test]
fn drep_of_each_kind() {
    assert_eq!(DRep::from(&decoded::DRep::Key(vec![1, 2])), DRep::KeyHash("0102".to_string()));
    assert_eq!(DRep::from(&decoded::DRep::Script(vec![255])), DRep::ScriptHash("ff".to_string()));
    assert_eq!(DRep::from(&decoded::DRep::Abstain), DRep::Abstain);
    assert_eq!(DRep::from(&decoded::DRep::NoConfidence), DRep::NoConfidence);
}

#[test]
fn anchor_record_keeps_url_and_hex_hash() {
    let anchor = Anchor { url: "https://example.org/a.json".to_string(), data_hash: vec![0, 17, 34] };
    let expected =
        AnchorRecord { url: "https://example.org/a.json".to_string(), data_hash: "001122".to_string() };
    assert_eq!(AnchorRecord::from(&anchor), expected);
    assert_eq!(to_option_anchor_record(&Some(anchor)), Some(expected));
    assert_eq!(to_option_anchor_record(&None), None);
}

#[test]
fn relay_text_of_each_shape() {
    let ipv4 = Some([192, 168, 0, 7]);
    let ipv6 = Some([32, 1, 13, 184, 0, 0, 0, 0, 0, 0, 0, 0, 0, 0, 0, 1]);
    assert_eq!(relay_to_string(&Relay::SingleHostAddr(Some(3001), ipv4, None)), "192.168.0.7:3001");
    assert_eq!(relay_to_string(&Relay::SingleHostAddr(None, ipv4, ipv6)), "192.168.0.7");
    assert_eq!(relay_to_string(&Relay::SingleHostAddr(Some(1), None, ipv6)), "32.1.13.184:1");
    assert_eq!(relay_to_string(&Relay::SingleHostAddr(None, None, None)), "");
    assert_eq!(relay_to_string(&Relay::SingleHostAddr(Some(80), None, None)), ":80");
    assert_eq!(
        relay_to_string(&Relay::SingleHostName(Some(6000), "relay.example".to_string())),
        "relay.example:6000"
    );
    assert_eq!(relay_to_string(&Relay::SingleHostName(None, "relay.example".to_string())), "relay.example");
    assert_eq!(relay_to_string(&Relay::MultiHostName("pool.example".to_string())), "pool.example");
}

#[test]
fn move_rewards_from_reserves_to_other_pot() {
    let certificate = Certificate::MoveInstantaneousRewardsCert(MoveInstantaneousReward {
        source: InstantaneousRewardSource::Reserves,
        target: InstantaneousRewardTarget::OtherAccountingPot(7_000_000),
    });
    match writer().to_certificate_record(&certificate) {
        CertificateRecord::MoveInstantaneousRewardsCert(record) => {
            assert!(record.from_reserves);
            assert!(!record.from_treasury);
            assert_eq!(record.to_stake_credentials, None);
            assert_eq!(record.to_other_pot, Some(7_000_000));
        }
        other => panic!("unexpected record {:?}", other),
    }
}

#[test]
fn move_rewards_from_treasury_to_credentials() {
    let certificate = Certificate::MoveInstantaneousRewardsCert(MoveInstantaneousReward {
        source: InstantaneousRewardSource::Treasury,
        target: InstantaneousRewardTarget::StakeCredentials(vec![
            (decoded::StakeCredential::AddrKeyhash(vec![1]), -5),
            (decoded::StakeCredential::Scripthash(vec![2]), 9),
        ]),
    });
    match writer().to_certificate_record(&certificate) {
        CertificateRecord::MoveInstantaneousRewardsCert(record) => {
            assert!(!record.from_reserves);
            assert!(record.from_treasury);
            assert_eq!(
                record.to_stake_credentials,
                Some(vec![
                    (StakeCredential::AddrKeyhash("01".to_string()), -5),
                    (StakeCredential::Scripthash("02".to_string()), 9),
                ])
            );
            assert_eq!(record.to_other_pot, None);
        }
        other => panic!("unexpected record {:?}", other),
    }
}

#[test]
fn pool_registration_record() {
    let certificate = Certificate::PoolRegistration {
        operator: vec![0xaa; 2],
        vrf_keyhash: vec![0xbb; 2],
        pledge: 500,
        cost: 340,
        margin: RationalNumber { numerator: 1, denominator: 20 },
        reward_account: vec![0xe1, 0x05],
        pool_owners: vec![vec![1], vec![2, 3]],
        relays: vec![
            Relay::SingleHostAddr(Some(3001), Some([10, 0, 0, 1]), None),
            Relay::MultiHostName("pool.example".to_string()),
        ],
        pool_metadata: Some(PoolMetadata { url: "https://pool.example/m.json".to_string(), hash: vec![9, 9] }),
    };
    match writer().to_certificate_record(&certificate) {
        CertificateRecord::PoolRegistration(record) => {
            assert_eq!(record.operator, "aaaa");
            assert_eq!(record.vrf_keyhash, "bbbb");
            assert_eq!(record.pledge, 500);
            assert_eq!(record.cost, 340);
            assert_eq!(record.margin.numerator, 1);
            assert_eq!(record.margin.denominator, 20);
            assert_eq!(record.reward_account, "e105");
            assert_eq!(record.pool_owners, vec!["01".to_string(), "0203".to_string()]);
            assert_eq!(record.relays, vec!["10.0.0.1:3001".to_string(), "pool.example".to_string()]);
            assert_eq!(record.pool_metadata, Some("https://pool.example/m.json".to_string()));
            assert_eq!(record.pool_metadata_hash, Some("0909".to_string()));
        }
        other => panic!("unexpected record {:?}", other),
    }
}

#[test]
fn certificate_of_each_other_kind() {
    let w = writer();
    let key = decoded::StakeCredential::AddrKeyhash(vec![1]);
    let script = decoded::StakeCredential::Scripthash(vec![2]);
    let key_record = StakeCredential::AddrKeyhash("01".to_string());
    let script_record = StakeCredential::Scripthash("02".to_string());
    let anchor = Anchor { url: "u".to_string(), data_hash: vec![3] };
    let anchor_record = AnchorRecord { url: "u".to_string(), data_hash: "03".to_string() };

    match w.to_certificate_record(&Certificate::StakeRegistration(key.clone())) {
        CertificateRecord::StakeRegistration(r) => assert_eq!(r.credential, key_record),
        other => panic!("unexpected record {:?}", other),
    }
    match w.to_certificate_record(&Certificate::StakeDeregistration(script.clone())) {
        CertificateRecord::StakeDeregistration(r) => assert_eq!(r.credential, script_record),
        other => panic!("unexpected record {:?}", other),
    }
    match w.to_certificate_record(&Certificate::StakeDelegation(key.clone(), vec![0xcc])) {
        CertificateRecord::StakeDelegation(r) => {
            assert_eq!(r.credential, key_record);
            assert_eq!(r.pool_hash, "cc");
        }
        other => panic!("unexpected record {:?}", other),
    }
    match w.to_certificate_record(&Certificate::PoolRetirement(vec![0xdd], 321)) {
        CertificateRecord::PoolRetirement(r) => {
            assert_eq!(r.pool, "dd");
            assert_eq!(r.epoch, 321);
        }
        other => panic!("unexpected record {:?}", other),
    }
    match w.to_certificate_record(&Certificate::GenesisKeyDelegation(vec![1], vec![2], vec![3])) {
        CertificateRecord::GenesisKeyDelegation(r) => {
            assert_eq!(r.genesis_hash, "01");
            assert_eq!(r.genesis_delegate_hash, "02");
            assert_eq!(r.vrf_key_hash, "03");
        }
        other => panic!("unexpected record {:?}", other),
    }
    match w.to_certificate_record(&Certificate::Reg(key.clone(), 2_000_000)) {
        CertificateRecord::RegCert(r) => {
            assert_eq!(r.credential, key_record);
            assert_eq!(r.coin, 2_000_000);
        }
        other => panic!("unexpected record {:?}", other),
    }
    match w.to_certificate_record(&Certificate::UnReg(key.clone(), 3)) {
        CertificateRecord::UnRegCert(r) => assert_eq!(r.coin, 3),
        other => panic!("unexpected record {:?}", other),
    }
    match w.to_certificate_record(&Certificate::VoteDeleg(key.clone(), decoded::DRep::Abstain)) {
        CertificateRecord::VoteDeleg(r) => assert_eq!(r.drep, DRep::Abstain),
        other => panic!("unexpected record {:?}", other),
    }
    match w.to_certificate_record(&Certificate::StakeVoteDeleg(
        key.clone(),
        vec![0xee],
        decoded::DRep::Key(vec![4]),
    )) {
        CertificateRecord::StakeVoteDeleg(r) => {
            assert_eq!(r.pool_keyhash, "ee");
            assert_eq!(r.drep, DRep::KeyHash("04".to_string()));
        }
        other => panic!("unexpected record {:?}", other),
    }
    match w.to_certificate_record(&Certificate::StakeRegDeleg(key.clone(), vec![0xee], 5)) {
        CertificateRecord::StakeRegDeleg(r) => {
            assert_eq!(r.pool_keyhash, "ee");
            assert_eq!(r.coin, 5);
        }
        other => panic!("unexpected record {:?}", other),
    }
    match w.to_certificate_record(&Certificate::VoteRegDeleg(key.clone(), decoded::DRep::NoConfidence, 6)) {
        CertificateRecord::VoteRegDeleg(r) => {
            assert_eq!(r.drep, DRep::NoConfidence);
            assert_eq!(r.coin, 6);
        }
        other => panic!("unexpected record {:?}", other),
    }
    match w.to_certificate_record(&Certificate::StakeVoteRegDeleg(
        key.clone(),
        vec![0xee],
        decoded::DRep::Script(vec![7]),
        8,
    )) {
        CertificateRecord::StakeVoteRegDeleg(r) => {
            assert_eq!(r.pool_keyhash, "ee");
            assert_eq!(r.drep, DRep::ScriptHash("07".to_string()));
            assert_eq!(r.coin, 8);
        }
        other => panic!("unexpected record {:?}", other),
    }
    match w.to_certificate_record(&Certificate::AuthCommitteeHot(key.clone(), script.clone())) {
        CertificateRecord::AuthCommitteeHot(r) => {
            assert_eq!(r.committee_cold_credential, key_record);
            assert_eq!(r.committee_hot_credential, script_record);
        }
        other => panic!("unexpected record {:?}", other),
    }
    match w.to_certificate_record(&Certificate::ResignCommitteeCold(key.clone(), Some(anchor.clone()))) {
        CertificateRecord::ResignCommitteeCold(r) => {
            assert_eq!(r.committee_cold_credential, key_record);
            assert_eq!(r.anchor, Some(anchor_record.clone()));
        }
        other => panic!("unexpected record {:?}", other),
    }
    match w.to_certificate_record(&Certificate::RegDRepCert(key.clone(), 9, None)) {
        CertificateRecord::RegDRepCert(r) => {
            assert_eq!(r.coin, 9);
            assert_eq!(r.anchor, None);
        }
        other => panic!("unexpected record {:?}", other),
    }
    match w.to_certificate_record(&Certificate::UnRegDRepCert(script.clone(), 10)) {
        CertificateRecord::UnRegDRepCert(r) => {
            assert_eq!(r.credential, script_record);
            assert_eq!(r.coin, 10);
        }
        other => panic!("unexpected record {:?}", other),
    }
    match w.to_certificate_record(&Certificate::UpdateDRepCert(key.clone(), Some(anchor))) {
        CertificateRecord::UpdateDRepCert(r) => assert_eq!(r.anchor, Some(anchor_record)),
        other => panic!("unexpected record {:?}", other),
    }
}

#[test]
fn certificate_event_has_the_kind_of_its_record() {
    let w = writer();
    let certificate = Certificate::PoolRetirement(vec![0xdd], 321);
    match w.to_certificate_event(&certificate) {
        EventData::PoolRetirement(r) => {
            assert_eq!(r.pool, "dd");
            assert_eq!(r.epoch, 321);
        }
        other => panic!("unexpected event {:?}", other),
    }
    let certificate = Certificate::Reg(decoded::StakeCredential::AddrKeyhash(vec![1]), 4);
    assert!(matches!(w.to_certificate_event(&certificate), EventData::RegCert(_)));
}

#[test]
fn input_and_collateral_records() {
    let input = TransactionInput { transaction_id: vec![0xab; 32], index: 3 };
    assert_eq!(
        writer().to_transaction_input_record(&input),
        TxInputRecord { tx_id: hex_of(0xab, 32), index: 3 }
    );
    match writer().to_collateral_event(&input) {
        EventData::Collateral { tx_id, index } => {
            assert_eq!(tx_id, hex_of(0xab, 32));
            assert_eq!(index, 3);
        }
        other => panic!("unexpected event {:?}", other),
    }
    let inputs = vec![input.clone(), TransactionInput { transaction_id: vec![1], index: 0 }];
    assert_eq!(
        writer().collect_input_records(&inputs),
        vec![
            TxInputRecord { tx_id: hex_of(0xab, 32), index: 3 },
            TxInputRecord { tx_id: "01".to_string(), index: 0 },
        ]
    );
    assert_eq!(writer().collect_input_records(&Vec::new()), Vec::new());
}

#[test]
fn asset_record_has_text_only_for_utf8_names() {
    let readable = writer().to_transaction_output_asset_record(&vec![0xaa], &b"HOSKY".to_vec(), 12);
    assert_eq!(
        readable,
        OutputAssetRecord {
            policy: "aa".to_string(),
            asset: "484f534b59".to_string(),
            asset_ascii: Some("HOSKY".to_string()),
            amount: 12,
        }
    );
    let opaque = writer().to_transaction_output_asset_record(&vec![0xaa], &vec![0xff, 0xfe], 1);
    assert_eq!(opaque.asset, "fffe");
    assert_eq!(opaque.asset_ascii, None);
    let empty = writer().to_transaction_output_asset_record(&vec![0xaa], &Vec::new(), 1);
    assert_eq!(empty.asset_ascii, Some(String::new()));
}

#[test]
fn asset_records_follow_policies_then_assets() {
    let value = OutputValue::Multiasset(
        5,
        vec![
            PolicyAssets {
                policy: vec![1],
                assets: vec![
                    Asset { name: b"a".to_vec(), amount: 10 },
                    Asset { name: b"b".to_vec(), amount: 20 },
                ],
            },
            PolicyAssets { policy: vec![2], assets: Vec::new() },
            PolicyAssets { policy: vec![3], assets: vec![Asset { name: b"c".to_vec(), amount: 30 }] },
        ],
    );
    let records = writer().collect_asset_records(&value);
    let summary: Vec<(String, String, u64)> =
        records.iter().map(|r| (r.policy.clone(), r.asset.clone(), r.amount)).collect();
    assert_eq!(
        summary,
        vec![
            ("01".to_string(), "61".to_string(), 10),
            ("01".to_string(), "62".to_string(), 20),
            ("03".to_string(), "63".to_string(), 30),
        ]
    );
    assert_eq!(get_tx_output_coin_value(&value), 5);
    assert_eq!(writer().collect_asset_records(&OutputValue::Coin(9)), Vec::new());
    assert_eq!(get_tx_output_coin_value(&OutputValue::Coin(9)), 9);
}

#[test]
fn mint_records_follow_policies_then_assets() {
    let mint = vec![
        PolicyAssets { policy: vec![1], assets: vec![Asset { name: vec![0x61], amount: -4i64 }] },
        PolicyAssets { policy: vec![2], assets: vec![Asset { name: vec![0x62], amount: 7i64 }] },
    ];
    assert_eq!(
        writer().collect_mint_records(&mint),
        vec![
            MintRecord { policy: "01".to_string(), asset: "61".to_string(), quantity: -4 },
            MintRecord { policy: "02".to_string(), asset: "62".to_string(), quantity: 7 },
        ]
    );
    assert_eq!(
        writer().to_mint_record(&vec![0xff], &vec![0x00], i64::MIN),
        MintRecord { policy: "ff".to_string(), asset: "00".to_string(), quantity: i64::MIN }
    );
}

#[test]
fn legacy_output_record_renders_the_address() {
    let output = TransactionOutput {
        address: address_bytes(),
        amount: OutputValue::Coin(1_000_000),
        datum_hash: Some(vec![0x11; 32]),
    };
    let record = writer().to_legacy_output_record(&output).unwrap();
    assert_eq!(record.address, ENTERPRISE);
    assert_eq!(record.amount, 1_000_000);
    assert_eq!(record.assets, Some(Vec::new()));
    assert_eq!(record.datum_hash, Some(hex_of(0x11, 32)));
    assert_eq!(record.inline_datum, None);
    assert_eq!(record.inlined_script, None);
}

#[test]
fn malformed_address_fails_the_output() {
    let output =
        TransactionOutput { address: vec![0x61, 1, 2], amount: OutputValue::Coin(1), datum_hash: None };
    assert!(matches!(
        writer().to_legacy_output_record(&output),
        Err(ConvertError::MalformedAddress(_))
    ));
    let empty = TransactionOutput { address: Vec::new(), amount: OutputValue::Coin(1), datum_hash: None };
    assert!(matches!(writer().to_legacy_output_record(&empty), Err(ConvertError::MalformedAddress(_))));
    assert!(matches!(render_address(&vec![0x90]), Err(ConvertError::MalformedAddress(_))));
    assert_eq!(render_address(&address_bytes()).unwrap(), ENTERPRISE);
    assert!(matches!(
        writer().collect_legacy_output_records(&[
            TransactionOutput { address: address_bytes(), amount: OutputValue::Coin(1), datum_hash: None },
            output,
        ]),
        Err(ConvertError::MalformedAddress(_))
    ));
}

#[test]
fn post_alonzo_output_with_inline_datum_and_script() {
    let raw = vec![0xd8, 0x79, 0x80];
    let script = PlutusScript::<2>(vec![1, 2, 3]);
    let output = MintedPostAlonzoTransactionOutput {
        address: address_bytes(),
        value: OutputValue::Coin(77),
        datum_option: Some(MintedDatumOption::Data(KeepRaw { raw_cbor: raw.clone(), value: unit_datum() })),
        script_ref: Some(ScriptRef(Script::PlutusV2Script(script))),
    };
    let record = writer().to_post_alonzo_output_record(&output).unwrap();
    let expected_hash = hex::encode(pallas::crypto::hash::Hasher::<256>::hash(&raw));
    assert_eq!(record.address, ENTERPRISE);
    assert_eq!(record.amount, 77);
    assert_eq!(record.datum_hash, Some(expected_hash.clone()));
    let datum = record.inline_datum.unwrap();
    assert_eq!(datum.datum_hash, expected_hash);
    assert_eq!(datum.plutus_data, unit_datum().to_json());
    let pallas_script = pallas::ledger::primitives::babbage::PlutusScript::<2>(vec![1u8, 2, 3].into());
    assert_eq!(
        record.inlined_script,
        Some(ScriptRefRecord::PlutusV2 {
            script_hash: hex::encode(pallas_script.compute_hash()),
            script_hex: "010203".to_string(),
        })
    );
}

#[test]
fn post_alonzo_output_with_datum_hash_only() {
    let output = MintedPostAlonzoTransactionOutput {
        address: address_bytes(),
        value: OutputValue::Coin(1),
        datum_option: Some(MintedDatumOption::Hash(vec![0x22; 32])),
        script_ref: None,
    };
    let record = writer().to_post_alonzo_output_record(&output).unwrap();
    assert_eq!(record.datum_hash, Some(hex_of(0x22, 32)));
    assert_eq!(record.inline_datum, None);
    assert_eq!(record.inlined_script, None);
    let any = writer().to_any_output_record(&MintedTransactionOutput::PostAlonzo(output)).unwrap();
    assert_eq!(any.datum_hash, Some(hex_of(0x22, 32)));
}

#[test]
fn script_ref_record_of_each_kind() {
    let w = writer();
    let bytes = vec![9u8, 8, 7];
    let v1 = pallas::ledger::primitives::babbage::PlutusScript::<1>(bytes.clone().into());
    let v3 = pallas::ledger::primitives::babbage::PlutusScript::<3>(bytes.clone().into());
    assert_eq!(
        w.to_script_ref_record(&ScriptRef(Script::PlutusV1Script(PlutusScript::<1>(bytes.clone())))).unwrap(),
        ScriptRefRecord::PlutusV1 {
            script_hash: hex::encode(v1.compute_hash()),
            script_hex: "090807".to_string(),
        }
    );
    assert_eq!(
        w.to_script_ref_record(&ScriptRef(Script::PlutusV3Script(PlutusScript::<3>(bytes.clone())))).unwrap(),
        ScriptRefRecord::PlutusV3 {
            script_hash: hex::encode(v3.compute_hash()),
            script_hex: "090807".to_string(),
        }
    );
    assert_ne!(hex::encode(v1.compute_hash()), hex::encode(v3.compute_hash()));
    assert_eq!(
        w.to_script_ref_record(&ScriptRef(Script::NativeScript(sample_script()))).unwrap(),
        ScriptRefRecord::NativeScript {
            policy_id: hex::encode(sample_script().compute_hash()),
            script_json: sample_script().to_json(),
        }
    );
}

#[test]
fn native_script_hash_matches_the_known_value() {
    let script = NativeScript::ScriptAll(vec![
        NativeScript::ScriptPubkey(
            "4d04380dcb9fbad5aff8e2f4e19394ef4e5e11b37932838f01984a12".parse().unwrap(),
        ),
        NativeScript::InvalidBefore(112500819),
    ]);
    let record = writer().to_native_witness_record(&script).unwrap();
    assert_eq!(record.policy_id, "d6a8ced01ecdfbb26c90850010a06fbc20a7c23632fc92f531667f36");
    assert_eq!(record.script_json, script.to_json());
    match writer().to_aux_native_script_event(&script) {
        EventData::NativeScript { policy_id, script: json } => {
            assert_eq!(policy_id, "d6a8ced01ecdfbb26c90850010a06fbc20a7c23632fc92f531667f36");
            assert_eq!(json, script.to_json());
        }
        other => panic!("unexpected event {:?}", other),
    }
}

#[test]
fn plutus_witness_records_hash_with_their_version() {
    let bytes = vec![0x4d, 0x01, 0x00];
    let v1 = pallas::ledger::primitives::babbage::PlutusScript::<1>(bytes.clone().into());
    let v2 = pallas::ledger::primitives::babbage::PlutusScript::<2>(bytes.clone().into());
    let first = writer().to_plutus_v1_witness_record(&PlutusScript::<1>(bytes.clone())).unwrap();
    let second = writer().to_plutus_v2_witness_record(&PlutusScript::<2>(bytes.clone())).unwrap();
    assert_eq!(first.script_hash, hex::encode(v1.compute_hash()));
    assert_eq!(second.script_hash, hex::encode(v2.compute_hash()));
    assert_eq!(first.script_hex, "4d0100");
    assert_eq!(second.script_hex, "4d0100");
    assert_eq!(first.script_hash.len(), 56);
    assert_ne!(first.script_hash, first.script_hex);
    match writer().to_aux_plutus_script_event(&PlutusScript::<1>(bytes)) {
        EventData::PlutusScript { hash, data } => {
            assert_eq!(hash, hex::encode(v1.compute_hash()));
            assert_eq!(data, "4d0100");
        }
        other => panic!("unexpected event {:?}", other),
    }
}

#[test]
fn redeemer_record_names_its_purpose() {
    let tags = [
        (RedeemerTag::Spend, "spend"),
        (RedeemerTag::Mint, "mint"),
        (RedeemerTag::Cert, "cert"),
        (RedeemerTag::Reward, "reward"),
        (RedeemerTag::Voting, "voting"),
        (RedeemerTag::Proposing, "proposing"),
    ];
    for (tag, name) in tags {
        let redeemer = Redeemer {
            tag,
            index: 4,
            data: unit_datum(),
            ex_units: decoded::ExUnits { mem: 1000, steps: 2_000_000 },
        };
        let record = writer().to_plutus_redeemer_record(&redeemer).unwrap();
        assert_eq!(record.purpose, name);
        assert_eq!(record.ex_units_mem, 1000);
        assert_eq!(record.ex_units_steps, 2_000_000);
        assert_eq!(record.input_idx, 4);
        assert_eq!(record.plutus_data, unit_datum().to_json());
    }
}

#[test]
fn datum_record_hashes_the_original_encoding() {
    let raw = vec![0xd8, 0x79, 0x80];
    let datum = KeepRaw { raw_cbor: raw.clone(), value: unit_datum() };
    let record = writer().to_plutus_datum_record(&datum).unwrap();
    assert_eq!(record.datum_hash, hex::encode(pallas::crypto::hash::Hasher::<256>::hash(&raw)));
    assert_eq!(record.datum_hash, "923918e403bf43c34b4ef6b48eb2ee04babed17320d8d1b9ff9ad086e86f44ec");
    assert_eq!(record.plutus_data, unit_datum().to_json());
}

#[test]
fn vkey_witness_record() {
    let witness = VKeyWitness { vkey: vec![1, 2], signature: vec![3, 4, 5] };
    let record = writer().to_vkey_witness_record(&witness).unwrap();
    assert_eq!(record.vkey_hex, "0102");
    assert_eq!(record.signature_hex, "030405");
    let records = writer().collect_vkey_witness_records(&Some(vec![witness.clone(), witness])).unwrap();
    assert_eq!(records.len(), 2);
    assert_eq!(writer().collect_vkey_witness_records(&None).unwrap(), Vec::new());
    assert_eq!(writer().collect_vkey_witness_records_babbage(&None).unwrap(), Vec::new());
}

#[test]
fn withdrawal_records_drop_the_reward_prefix() {
    let withdrawals = vec![
        (vec![0xe1, 0xaa, 0xbb], 5u64),
        (vec![0xf1, 0xaa], 6u64),
        (vec![0xe1], 7u64),
        (Vec::new(), 8u64),
        (vec![0x0e, 0x10], 9u64),
    ];
    assert_eq!(
        writer().collect_withdrawal_records(&withdrawals),
        vec![
            WithdrawalRecord { reward_account: "aabb".to_string(), coin: 5 },
            WithdrawalRecord { reward_account: "f1aa".to_string(), coin: 6 },
            WithdrawalRecord { reward_account: "".to_string(), coin: 7 },
            WithdrawalRecord { reward_account: "".to_string(), coin: 8 },
            WithdrawalRecord { reward_account: "0e10".to_string(), coin: 9 },
        ]
    );
}

#[test]
fn required_signers_in_hex() {
    let records = writer().collect_required_signers_records(&vec![vec![1, 2], vec![255]]).unwrap();
    let texts: Vec<String> = records.into_iter().map(|r| r.0).collect();
    assert_eq!(texts, vec!["0102".to_string(), "ff".to_string()]);
}

#[test]
fn witness_collections_keep_order_and_accept_absence() {
    let w = writer();
    assert_eq!(w.collect_native_witness_records(&None).unwrap(), Vec::new());
    assert_eq!(w.collect_native_witness_records_babbage(&Some(Vec::new())).unwrap(), Vec::new());
    assert_eq!(w.collect_plutus_v1_witness_records(&None).unwrap(), Vec::new());
    assert_eq!(w.collect_plutus_v1_witness_records_babbage(&None).unwrap(), Vec::new());
    assert_eq!(w.collect_plutus_v2_witness_records(&None).unwrap(), Vec::new());
    assert_eq!(w.collect_plutus_redeemer_records(&None).unwrap(), Vec::new());
    assert_eq!(w.collect_plutus_redeemer_records_2(&None).unwrap(), Vec::new());
    assert_eq!(w.collect_witness_plutus_datum_records(&None).unwrap(), Vec::new());
    assert_eq!(w.collect_witness_plutus_datum_records_babbage(&None).unwrap(), Vec::new());
    let scripts = Some(vec![PlutusScript::<2>(vec![1]), PlutusScript::<2>(vec![2])]);
    let records = w.collect_plutus_v2_witness_records(&scripts).unwrap();
    assert_eq!(records.iter().map(|r| r.script_hex.clone()).collect::<Vec<_>>(), vec!["01", "02"]);
    let natives = Some(vec![sample_script(), NativeScript::InvalidHereafter(5)]);
    let records = w.collect_native_witness_records(&natives).unwrap();
    assert_eq!(records[0].script_json, sample_script().to_json());
    assert_eq!(records[1].script_json, NativeScript::InvalidHereafter(5).to_json());
}

#[test]
fn address_error_is_carried_unchanged() {
    for bytes in [Vec::new(), vec![0x90u8], vec![0x61, 1, 2]] {
        let own = pallas::ledger::addresses::Address::from_bytes(&bytes).unwrap_err();
        match render_address(&bytes) {
            Err(ConvertError::MalformedAddress(carried)) => {
                assert_eq!(format!("{:?}", carried), format!("{:?}", own));
                assert_eq!(carried.to_string(), own.to_string());
            }
            other => panic!("unexpected outcome {:?}", other),
        }
    }
}
