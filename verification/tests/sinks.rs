use oura::model::{
    BlockRecord, CIP15AssetRecord, CIP25AssetRecord, Era, Event, EventContext, EventData,
    GenesisKeyDelegationRecord, MetadataRecord, MetadatumRendition, MintRecord,
    MoveInstantaneousRewardsCertRecord, NativeWitnessRecord, OutputAssetRecord,
    PlutusDatumRecord, PlutusRedeemerRecord, PlutusWitnessRecord, PoolRegistrationRecord,
    PoolRetirementRecord, RationalNumberRecord, RegCertRecord, StakeCredential,
    StakeDelegationRecord, StakeDeregistrationRecord, StakeRegistrationRecord,
    TransactionRecord, TxInputRecord, TxOutputRecord, VKeyWitnessRecord,
};
use oura::sinks::aws_s3_sqs::combined_client::{
    block_to_send, define_obj_key, encode_block, fifo_ids, object_metadata, plan_delivery,
    ClientSettings, Content, EncodeError, SqsMessage, DEFAULT_MAX_RETRIES,
};
use oura::sinks::aws_s3_sqs::config::{Config, ContentType, Naming};
use oura::sinks::terminal::format::{Body, Color, LogLine};

fn record() -> BlockRecord {
    BlockRecord {
        era: Era::Babbage,
        epoch: Some(321),
        epoch_slot: Some(44),
        body_size: 900,
        issuer_vkey: "aabb".to_string(),
        vrf_vkey: "ccdd".to_string(),
        tx_count: 12,
        slot: 5000,
        hash: "f00d".to_string(),
        number: 77,
        previous_hash: "beef".to_string(),
        cbor_hex: Some("82a0ff".to_string()),
        transactions: None,
    }
}

fn event(data: EventData) -> Event {
    let mut context = EventContext::default();
    context.block_number = Some(77);
    context.tx_idx = Some(3);
    context.timestamp = Some(1_600_000_000);
    context.output_address = Some("addr1xyz".to_string());
    Event { context, data, fingerprint: None }
}

fn line(data: EventData) -> LogLine {
    LogLine::new(&event(data), None, "handles").unwrap()
}

#[test]
fn object_key_of_each_naming() {
    let r = record();
    assert_eq!(define_obj_key("blocks/", &Naming::Hash, &r), "blocks/f00d");
    assert_eq!(define_obj_key("blocks/", &Naming::SlotHash, &r), "blocks/5000.f00d");
    assert_eq!(define_obj_key("blocks/", &Naming::BlockHash, &r), "blocks/77.f00d");
    assert_eq!(define_obj_key("blocks/", &Naming::BlockNumber, &r), "77");
    assert_eq!(define_obj_key("blocks/", &Naming::EpochHash, &r), "blocks/321.f00d");
    assert_eq!(define_obj_key("blocks/", &Naming::EpochSlotHash, &r), "blocks/321.5000.f00d");
    assert_eq!(define_obj_key("", &Naming::EpochBlockHash, &r), "321.77.f00d");
    let mut unknown = record();
    unknown.epoch = None;
    assert_eq!(define_obj_key("p-", &Naming::EpochHash, &unknown), "p-0.f00d");
}

#[test]
fn media_type_of_each_content() {
    assert_eq!(ContentType::Cbor.media_type(), "application/cbor");
    assert_eq!(ContentType::CborHex.media_type(), "text/plain");
    assert_eq!(ContentType::Json.media_type(), "application/json");
}

#[test]
fn content_of_each_kind() {
    let r = record();
    assert_eq!(encode_block(&ContentType::Cbor, &r).unwrap(), Content::Bytes(vec![0x82, 0xa0, 0xff]));
    assert_eq!(encode_block(&ContentType::CborHex, &r).unwrap(), Content::Bytes(b"82a0ff".to_vec()));
    assert_eq!(encode_block(&ContentType::Json, &r).unwrap(), Content::RecordAsJson);
    let mut upper = record();
    upper.cbor_hex = Some("82A0Ff".to_string());
    assert_eq!(encode_block(&ContentType::Cbor, &upper).unwrap(), Content::Bytes(vec![0x82, 0xa0, 0xff]));
}

#[test]
fn content_needs_the_encoding() {
    let mut r = record();
    r.cbor_hex = None;
    assert!(matches!(encode_block(&ContentType::Cbor, &r), Err(EncodeError::MissingCbor)));
    assert!(matches!(encode_block(&ContentType::CborHex, &r), Err(EncodeError::MissingCbor)));
    assert!(matches!(encode_block(&ContentType::Json, &r), Err(EncodeError::MissingCbor)));
    r.cbor_hex = Some("82a".to_string());
    assert!(matches!(encode_block(&ContentType::Cbor, &r), Err(EncodeError::InvalidHex(_))));
    r.cbor_hex = Some("zz".to_string());
    assert!(matches!(encode_block(&ContentType::Cbor, &r), Err(EncodeError::InvalidHex(_))));
    assert_eq!(encode_block(&ContentType::CborHex, &r).unwrap(), Content::Bytes(b"zz".to_vec()));
}

#[test]
fn settings_fall_back_to_defaults() {
    let settings = ClientSettings::new(&Config::default());
    assert_eq!(settings.naming, Naming::Hash);
    assert_eq!(settings.content_type, ContentType::Cbor);
    assert_eq!(settings.sqs_group_id, "oura-sink");
    assert_eq!(settings.s3_prefix, "");
    assert_eq!(settings.s3_max_retries, DEFAULT_MAX_RETRIES);
    assert_eq!(settings.sqs_max_retries, 5);
    assert!(!settings.sqs_fifo);
    let config = Config {
        s3_prefix: Some("p/".to_string()),
        s3_naming: Some(Naming::SlotHash),
        s3_content: Some(ContentType::Json),
        s3_max_retries: Some(2),
        sqs_fifo: Some(true),
        sqs_group_id: Some("g".to_string()),
        sqs_max_retries: Some(9),
        ..Config::default()
    };
    let settings = ClientSettings::new(&config);
    assert_eq!(settings.naming, Naming::SlotHash);
    assert_eq!(settings.content_type, ContentType::Json);
    assert_eq!(settings.sqs_group_id, "g");
    assert_eq!(settings.s3_prefix, "p/");
    assert_eq!(settings.s3_max_retries, 2);
    assert_eq!(settings.sqs_max_retries, 9);
    assert!(settings.sqs_fifo);
    assert_eq!(fifo_ids(&settings, "key"), Some(("g".to_string(), "key".to_string())));
    assert_eq!(fifo_ids(&ClientSettings::new(&Config::default()), "key"), None);
}

#[test]
fn message_and_metadata_of_a_block() {
    let r = record();
    assert_eq!(
        SqsMessage::new("blocks/f00d", &r, Some(-3)),
        SqsMessage {
            s3_key: "blocks/f00d".to_string(),
            block_hash: "f00d".to_string(),
            previous_hash: "beef".to_string(),
            block_number: 77,
            slot: 5000,
            tip: Some(-3),
        }
    );
    let expected: Vec<(String, String)> = vec![
        ("era", "Babbage"),
        ("issuer_vkey", "aabb"),
        ("tx_count", "12"),
        ("slot", "5000"),
        ("hash", "f00d"),
        ("number", "77"),
        ("previous_hash", "beef"),
    ]
    .into_iter()
    .map(|(k, v)| (k.to_string(), v.to_string()))
    .collect();
    assert_eq!(object_metadata(&r), expected);
}

#[test]
fn era_names() {
    let eras = [
        Era::Undefined,
        Era::Unknown,
        Era::Byron,
        Era::Shelley,
        Era::Allegra,
        Era::Mary,
        Era::Alonzo,
        Era::Babbage,
    ];
    for era in eras {
        assert_eq!(era.to_text(), format!("{:?}", era));
    }
}

#[test]
fn line_of_a_block() {
    let l = line(EventData::Block(record()));
    assert_eq!(l.prefix, "BLOCK");
    assert_eq!(l.color, Color::Magenta);
    assert_eq!(l.block_num, Some(77));
    assert_eq!(l.tx_idx, Some(3));
    assert_eq!(
        l.content,
        "{ era: Babbage, slot: 5000, hash: f00d, number: 77, body size: 900, tx_count: 12, issuer vkey: aabb, timestamp: 1600000000 }"
    );
    let end = line(EventData::BlockEnd(record()));
    assert_eq!(end.prefix, "ENDBLK");
    assert_eq!(end.color, Color::DarkMagenta);
    assert_eq!(end.content, "{ slot: 5000, hash: f00d, number: 77 }");
}

#[test]
fn line_of_a_transaction() {
    let mut tx = TransactionRecord::default();
    tx.hash = "abcd".to_string();
    tx.fee = 170_000;
    tx.total_output = 5;
    let l = line(EventData::Transaction(tx.clone()));
    assert_eq!(l.prefix, "TX");
    assert_eq!(l.color, Color::DarkBlue);
    assert_eq!(l.content, "{ total_output: 5, fee: 170000, hash: abcd, ttl: None }");
    tx.ttl = Some(99);
    assert_eq!(
        line(EventData::Transaction(tx.clone())).content,
        format!("{{ total_output: 5, fee: 170000, hash: abcd, ttl: {:?} }}", Some(99u64))
    );
    let end = line(EventData::TransactionEnd(tx));
    assert_eq!(end.prefix, "ENDTX");
    assert_eq!(end.content, "{ hash: abcd }");
}

#[test]
fn line_of_inputs_assets_and_mints() {
    let input = line(EventData::TxInput(TxInputRecord { tx_id: "aa".to_string(), index: 2 }));
    assert_eq!(input.prefix, "STXI");
    assert_eq!(input.content, "{ tx_id: aa, index: 2 }");
    let collateral = line(EventData::Collateral { tx_id: "bb".to_string(), index: 0 });
    assert_eq!(collateral.prefix, "COLLAT");
    assert_eq!(collateral.color, Color::Blue);
    assert_eq!(collateral.content, "{ tx_id: bb, index: 0 }");
    let asset = OutputAssetRecord {
        policy: "pol".to_string(),
        asset: "6162".to_string(),
        asset_ascii: Some("ab".to_string()),
        amount: 9,
    };
    let plain = line(EventData::OutputAsset(asset.clone()));
    assert_eq!(plain.prefix, "ASSET");
    assert_eq!(plain.color, Color::Green);
    assert_eq!(plain.content, "{ policy: pol, asset: ab, amount: 9 }");
    let handle = LogLine::new(&event(EventData::OutputAsset(asset.clone())), None, "pol").unwrap();
    assert_eq!(handle.prefix, "$HNDL");
    assert_eq!(handle.color, Color::DarkGreen);
    assert_eq!(handle.content, "{ ab => addr1xyz }");
    let mut raw = asset;
    raw.asset_ascii = None;
    assert_eq!(line(EventData::OutputAsset(raw)).content, "{ policy: pol, asset: 6162, amount: 9 }");
    let mint = line(EventData::Mint(MintRecord { policy: "p".to_string(), asset: "a".to_string(), quantity: -4 }));
    assert_eq!(mint.prefix, "MINT");
    assert_eq!(mint.content, "{ policy: p, asset: a, quantity: -4 }");
    let rollback = line(EventData::RollBack { block_slot: 8, block_hash: "cc".to_string() });
    assert_eq!(rollback.prefix, "RLLBCK");
    assert_eq!(rollback.color, Color::Red);
    assert_eq!(rollback.content, "{ slot: 8, hash: cc }");
}

#[test]
fn line_of_metadata_shows_the_content() {
    let mut members = serde_json::Map::new();
    members.insert("b".to_string(), serde_json::Value::from(1u64));
    members.insert("a".to_string(), serde_json::Value::from("x\"y"));
    let json = serde_json::Value::Object(members);
    let l = line(EventData::Metadata(MetadataRecord {
        label: "721".to_string(),
        content: MetadatumRendition::MapJson(json.clone()),
    }));
    assert_eq!(l.prefix, "META");
    assert_eq!(l.color, Color::Yellow);
    assert_eq!(l.content, format!("{{ label: 721, content: {} }}", json));
    assert_eq!(l.content, "{ label: 721, content: {\"a\":\"x\\\"y\",\"b\":1} }");
    assert_eq!(MetadatumRendition::IntScalar(-12).to_text(), "-12");
    assert_eq!(MetadatumRendition::TextScalar("t".to_string()).to_text(), "t");
    assert_eq!(MetadatumRendition::BytesHex("0a".to_string()).to_text(), "0a");
    assert_eq!(MetadatumRendition::ArrayJson(serde_json::Value::Array(Vec::new())).to_text(), "[]");
    let script = line(EventData::NativeScript { policy_id: "pp".to_string(), script: json.clone() });
    assert_eq!(script.prefix, "NATIVE");
    assert_eq!(script.content, format!("{{ policy: pp, script: {} }}", json));
}

#[test]
fn line_of_certificates_uses_debug_text() {
    let credential = StakeCredential::AddrKeyhash("ab\"c".to_string());
    let l = line(EventData::StakeRegistration(StakeRegistrationRecord { credential: credential.clone() }));
    assert_eq!(l.prefix, "STAKE+");
    assert_eq!(l.content, format!("{{ credential: {:?} }}", credential));
    let delegation = line(EventData::StakeDelegation(StakeDelegationRecord {
        credential: StakeCredential::Scripthash("dd".to_string()),
        pool_hash: "ee".to_string(),
    }));
    assert_eq!(delegation.prefix, "DELE");
    assert_eq!(delegation.content, "{ credential: Scripthash(\"dd\"), pool: ee }");
    let pool = PoolRegistrationRecord {
        operator: "op".to_string(),
        vrf_keyhash: String::new(),
        pledge: 1,
        cost: 2,
        margin: RationalNumberRecord { numerator: 3, denominator: 4 },
        reward_account: String::new(),
        pool_owners: Vec::new(),
        relays: Vec::new(),
        pool_metadata: Some("https://x".to_string()),
        pool_metadata_hash: None,
    };
    assert_eq!(
        line(EventData::PoolRegistration(pool.clone())).content,
        format!(
            "{{ operator: op, pledge: 1, cost: 2, margin: {{ numerator: 3, denominator: 4 }}, metadata: {:?} }}",
            pool.pool_metadata
        )
    );
    let movement = MoveInstantaneousRewardsCertRecord {
        from_reserves: true,
        from_treasury: false,
        to_stake_credentials: Some(vec![
            (StakeCredential::AddrKeyhash("01".to_string()), -5),
            (StakeCredential::Scripthash("02".to_string()), 7),
        ]),
        to_other_pot: None,
    };
    let l = line(EventData::MoveInstantaneousRewardsCert(movement.clone()));
    assert_eq!(l.prefix, "MOVE");
    assert_eq!(
        l.content,
        format!(
            "{{ reserves: {0}, treasury: {1}, to_credentials: {2:?}, to_other_pot: {3:?} }}",
            movement.from_reserves, movement.from_treasury, movement.to_stake_credentials, movement.to_other_pot
        )
    );
    let mut other = movement;
    other.to_stake_credentials = Some(Vec::new());
    other.to_other_pot = Some(3);
    assert_eq!(
        line(EventData::MoveInstantaneousRewardsCert(other)).content,
        "{ reserves: true, treasury: false, to_credentials: Some([]), to_other_pot: Some(3) }"
    );
}

#[test]
fn newer_certificates_have_no_line() {
    let data = EventData::RegCert(RegCertRecord {
        credential: StakeCredential::AddrKeyhash("01".to_string()),
        coin: 1,
    });
    assert!(LogLine::new(&event(data), None, "handles").is_none());
}

#[test]
fn layout_of_a_line() {
    let mut l = line(EventData::TxInput(TxInputRecord { tx_id: "aa".to_string(), index: 2 }));
    assert_eq!(l.header(), format!("BLOCK:{:0>7} \u{2588} TX:{:0>2}", "77", "3"));
    assert_eq!(l.header(), "BLOCK:0000077 \u{2588} TX:03");
    assert_eq!(l.label(), "\u{2588} STXI  ");
    assert_eq!(l.content, "{ tx_id: aa, index: 2 }");
    assert_eq!(l.body(), Body::Whole);
    assert_eq!(
        l.to_text(&l.content),
        "BLOCK:0000077 \u{2588} TX:03 \u{2588} STXI   { tx_id: aa, index: 2 }\n"
    );
    assert_eq!(l.to_text("{ tx..."), "BLOCK:0000077 \u{2588} TX:03 \u{2588} STXI   { tx...\n");
    l.block_num = None;
    l.tx_idx = None;
    assert_eq!(l.header(), "BLOCK:------- \u{2588} TX:--");
    l.block_num = Some(123_456_789);
    l.tx_idx = Some(100);
    assert_eq!(l.header(), "BLOCK:123456789 \u{2588} TX:100");
    l.prefix = "WITNESS";
    assert_eq!(l.label(), "\u{2588} WITNESS");
}

#[test]
fn body_is_cut_to_the_terminal() {
    let mut l = line(EventData::TxInput(TxInputRecord { tx_id: "aa".to_string(), index: 2 }));
    assert_eq!(l.content.len(), 23);
    l.max_width = Some(45);
    assert_eq!(l.body(), Body::Cut(10));
    l.max_width = Some(35 + 23);
    assert_eq!(l.body(), Body::Whole);
    l.max_width = Some(35 + 22);
    assert_eq!(l.body(), Body::Cut(22));
    l.max_width = Some(35);
    assert_eq!(l.body(), Body::Cut(0));
    l.max_width = None;
    assert_eq!(l.body(), Body::Whole);
    l.max_width = Some(usize::MAX);
    assert_eq!(l.body(), Body::Whole);
}

#[test]
fn body_is_measured_in_bytes() {
    let mut l = line(EventData::TxInput(TxInputRecord { tx_id: "aa".to_string(), index: 2 }));
    l.content = "\u{4f60}\u{597d}\u{5417}\u{4f60}\u{597d}\u{5417}".to_string();
    l.max_width = Some(35 + 17);
    assert_eq!(l.body(), Body::Cut(17));
    l.max_width = Some(35 + 18);
    assert_eq!(l.body(), Body::Whole);
    l.content = "\u{644}\u{627}".to_string();
    l.max_width = Some(37);
    assert_eq!(l.body(), Body::Cut(2));
    l.max_width = Some(39);
    assert_eq!(l.body(), Body::Whole);
    l.content = String::new();
    l.max_width = Some(35);
    assert_eq!(l.body(), Body::Whole);
}

#[test]
fn line_of_scripts_data_and_witnesses() {
    let script = line(EventData::PlutusScript { hash: "h1".to_string(), data: "d1".to_string() });
    assert_eq!((script.prefix, script.color), ("PLUTUS", Color::White));
    assert_eq!(script.content, "{ hash: h1 }");
    let datum = line(EventData::PlutusDatum(PlutusDatumRecord {
        datum_hash: "h2".to_string(),
        plutus_data: serde_json::Value::Null,
    }));
    assert_eq!((datum.prefix, datum.color), ("DATUM", Color::White));
    assert_eq!(datum.content, "{ hash: h2 }");
    let redeemer = line(EventData::PlutusRedeemer(PlutusRedeemerRecord {
        purpose: "spend".to_string(),
        ex_units_mem: 1,
        ex_units_steps: 2,
        input_idx: 7,
        plutus_data: serde_json::Value::Null,
    }));
    assert_eq!((redeemer.prefix, redeemer.color), ("REDEEM", Color::White));
    assert_eq!(redeemer.content, "{ purpose: spend, input: 7 }");
    let plutus = line(EventData::PlutusWitness(PlutusWitnessRecord {
        script_hash: "h3".to_string(),
        script_hex: "00".to_string(),
    }));
    assert_eq!(plutus.prefix, "WITNESS");
    assert_eq!(plutus.content, "{ plutus script: h3 }");
    let native = line(EventData::NativeWitness(NativeWitnessRecord {
        policy_id: "p4".to_string(),
        script_json: serde_json::Value::Null,
    }));
    assert_eq!(native.prefix, "WITNESS");
    assert_eq!(native.content, "{ native policy: p4 }");
    let vkey = line(EventData::VKeyWitness(VKeyWitnessRecord {
        vkey_hex: "k5".to_string(),
        signature_hex: "s5".to_string(),
    }));
    assert_eq!(vkey.prefix, "WITNESS");
    assert_eq!(vkey.content, "{ vkey: k5 }");
    let output = line(EventData::TxOutput(TxOutputRecord {
        address: "addr1q".to_string(),
        amount: 42,
        assets: None,
        datum_hash: None,
        inline_datum: None,
        inlined_script: None,
    }));
    assert_eq!((output.prefix, output.color), ("UTXO", Color::Blue));
    assert_eq!(output.content, "{ to: addr1q, amount: 42 }");
}

#[test]
fn line_of_the_other_certificates_and_assets() {
    let credential = StakeCredential::Scripthash("aa".to_string());
    let gone = line(EventData::StakeDeregistration(StakeDeregistrationRecord { credential }));
    assert_eq!((gone.prefix, gone.color), ("STAKE-", Color::DarkMagenta));
    assert_eq!(gone.content, "{ credential: Scripthash(\"aa\") }");
    let retirement =
        line(EventData::PoolRetirement(PoolRetirementRecord { pool: "pp".to_string(), epoch: 300 }));
    assert_eq!((retirement.prefix, retirement.color), ("POOL-", Color::DarkMagenta));
    assert_eq!(retirement.content, "{ pool: pp, epoch: 300 }");
    let genesis = line(EventData::GenesisKeyDelegation(GenesisKeyDelegationRecord {
        genesis_hash: "g".to_string(),
        genesis_delegate_hash: "d".to_string(),
        vrf_key_hash: "v".to_string(),
    }));
    assert_eq!((genesis.prefix, genesis.color), ("GENESIS", Color::Magenta));
    assert_eq!(genesis.content, "{ genesis_hash: g, genesis_delegate_hash: d, vrf_key_hash: v }");
    let cip25 = CIP25AssetRecord {
        version: "1.0".to_string(),
        policy: "pol".to_string(),
        asset: "ast".to_string(),
        name: Some("Name".to_string()),
        image: None,
        media_type: None,
        description: None,
        raw_json: serde_json::Value::Null,
    };
    let l = line(EventData::CIP25Asset(cip25));
    assert_eq!((l.prefix, l.color), ("CIP25", Color::DarkYellow));
    assert_eq!(l.content, "{ policy: pol, asset: ast, name: Name, image: ? }");
    let cip15 = CIP15AssetRecord {
        voting_key: "vk".to_string(),
        stake_pub: "sp".to_string(),
        reward_address: "ra".to_string(),
        nonce: 1,
        raw_json: serde_json::Value::Null,
    };
    let l = line(EventData::CIP15Asset(cip15));
    assert_eq!((l.prefix, l.color), ("CIP15", Color::DarkYellow));
    assert_eq!(l.content, "{ voting key: vk, stake pub: sp }");
}

#[test]
fn handle_without_address_or_text() {
    let asset = OutputAssetRecord {
        policy: "pol".to_string(),
        asset: "6162".to_string(),
        asset_ascii: None,
        amount: 1,
    };
    let mut source = event(EventData::OutputAsset(asset));
    source.context.output_address = None;
    let l = LogLine::new(&source, Some(80), "pol").unwrap();
    assert_eq!(l.content, "{ 6162 =>  }");
    assert_eq!(l.max_width, Some(80));
}

#[test]
fn records_become_event_data() {
    let input = TxInputRecord { tx_id: "aa".to_string(), index: 1 };
    assert!(matches!(EventData::from(input), EventData::TxInput(_)));
    let data: EventData = record().into();
    assert!(matches!(data, EventData::Block(_)));
    let data: EventData = TransactionRecord::default().into();
    assert!(matches!(data, EventData::Transaction(_)));
    let data: EventData = MintRecord { policy: String::new(), asset: String::new(), quantity: 0 }.into();
    assert!(matches!(data, EventData::Mint(_)));
    let data: EventData =
        MetadataRecord { label: String::new(), content: MetadatumRendition::IntScalar(0) }.into();
    assert!(matches!(data, EventData::Metadata(_)));
}

#[test]
fn only_block_events_are_sent() {
    assert_eq!(block_to_send(&event(EventData::Block(record()))), Some(&record()));
    assert_eq!(block_to_send(&event(EventData::BlockEnd(record()))), None);
    assert_eq!(block_to_send(&event(EventData::Transaction(TransactionRecord::default()))), None);
}

#[test]
fn delivery_of_a_block() {
    let config = Config {
        s3_prefix: Some("blocks/".to_string()),
        s3_naming: Some(Naming::EpochSlotHash),
        s3_content: Some(ContentType::CborHex),
        sqs_fifo: Some(true),
        ..Config::default()
    };
    let settings = ClientSettings::new(&config);
    let delivery = plan_delivery(&settings, &record(), Some(9)).unwrap();
    assert_eq!(delivery.key, "blocks/321.5000.f00d");
    assert_eq!(delivery.content, Content::Bytes(b"82a0ff".to_vec()));
    assert_eq!(delivery.media_type, "text/plain");
    assert_eq!(delivery.metadata, object_metadata(&record()));
    assert_eq!(delivery.message, SqsMessage::new("blocks/321.5000.f00d", &record(), Some(9)));
    assert_eq!(
        delivery.fifo,
        Some(("oura-sink".to_string(), "blocks/321.5000.f00d".to_string()))
    );
    let plain = plan_delivery(&ClientSettings::new(&Config::default()), &record(), None).unwrap();
    assert_eq!(plain.key, "f00d");
    assert_eq!(plain.content, Content::Bytes(vec![0x82, 0xa0, 0xff]));
    assert_eq!(plain.media_type, "application/cbor");
    assert_eq!(plain.fifo, None);
    assert_eq!(plain.message.tip, None);
    let mut bare = record();
    bare.cbor_hex = None;
    assert!(matches!(plan_delivery(&settings, &bare, None), Err(EncodeError::MissingCbor)));
}

#[test]
fn hex_error_is_carried_unchanged() {
    let mut r = record();
    for text in ["82a", "zz", "0g"] {
        r.cbor_hex = Some(text.to_string());
        match encode_block(&ContentType::Cbor, &r) {
            Err(EncodeError::InvalidHex(carried)) => assert_eq!(carried, hex::decode(text).unwrap_err()),
            other => panic!("unexpected outcome {:?}", other),
        }
    }
}
