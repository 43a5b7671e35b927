//! What the client of the object store and queue sink sends for a block:
//! the key and content of the object, its metadata, and the message.
use crate::model::{BlockRecord, BlockRecordView, Event, EventData};
use crate::sinks::aws_s3_sqs::config::{Config, ContentType, Naming};
use crate::text::{decimal, hex_bytes, hex_decode, hex_failure, is_hex, u64_to_string};
use vstd::prelude::*;
use vstd::string::*;

verus! {

/// How often a request is tried where the settings do not say.
pub const DEFAULT_MAX_RETRIES: u32 = 5;

/// The media type of each kind of content.
pub open spec fn content_type_text(content_type: ContentType) -> Seq<char> {
    match content_type {
        ContentType::Cbor => "application/cbor"@,
        ContentType::CborHex => "text/plain"@,
        ContentType::Json => "application/json"@,
    }
}

impl ContentType {
    /// The media type of this kind of content.
    pub fn media_type(&self) -> (text: String)
        ensures
            text@ == content_type_text(*self),
    {
        match self {
            ContentType::Cbor => "application/cbor".to_owned(),
            ContentType::CborHex => "text/plain".to_owned(),
            ContentType::Json => "application/json".to_owned(),
        }
    }
}

/// What a client works with: the settings, with a default in place of
/// each one that is not given.
#[derive(Debug, Clone)]
pub struct ClientSettings {
    pub naming: Naming,
    pub content_type: ContentType,
    pub sqs_group_id: String,
    pub s3_prefix: String,
    pub s3_max_retries: u32,
    pub sqs_max_retries: u32,
    pub sqs_fifo: bool,
}

impl ClientSettings {
    /// The settings of a client: objects are named by hash and hold the
    /// block's encoding, the group is `oura-sink`, the prefix is empty,
    /// requests are tried five times and the queue is no FIFO queue, each
    /// unless the settings say otherwise.
    pub fn new(config: &Config) -> (settings: ClientSettings)
        ensures
            settings.naming == match config.s3_naming {
                Some(naming) => naming,
                None => Naming::Hash,
            },
            settings.content_type == match config.s3_content {
                Some(content) => content,
                None => ContentType::Cbor,
            },
            settings.sqs_group_id@ == match config.sqs_group_id {
                Some(group) => group@,
                None => "oura-sink"@,
            },
            settings.s3_prefix@ == match config.s3_prefix {
                Some(prefix) => prefix@,
                None => Seq::empty(),
            },
            settings.s3_max_retries == match config.s3_max_retries {
                Some(n) => n,
                None => DEFAULT_MAX_RETRIES,
            },
            settings.sqs_max_retries == match config.sqs_max_retries {
                Some(n) => n,
                None => DEFAULT_MAX_RETRIES,
            },
            settings.sqs_fifo == match config.sqs_fifo {
                Some(fifo) => fifo,
                None => false,
            },
    {
        ClientSettings {
            naming: match config.s3_naming {
                Some(naming) => naming,
                None => Naming::Hash,
            },
            content_type: match config.s3_content {
                Some(content) => content,
                None => ContentType::Cbor,
            },
            sqs_group_id: match &config.sqs_group_id {
                Some(group) => group.clone(),
                None => "oura-sink".to_owned(),
            },
            s3_prefix: match &config.s3_prefix {
                Some(prefix) => prefix.clone(),
                None => String::new(),
            },
            s3_max_retries: match config.s3_max_retries {
                Some(n) => n,
                None => DEFAULT_MAX_RETRIES,
            },
            sqs_max_retries: match config.sqs_max_retries {
                Some(n) => n,
                None => DEFAULT_MAX_RETRIES,
            },
            sqs_fifo: match config.sqs_fifo {
                Some(fifo) => fifo,
                None => false,
            },
        }
    }
}

/// The epoch of a block, or zero where it is not known.
pub open spec fn epoch_or_zero(record: BlockRecordView) -> u64 {
    match record.epoch {
        Some(epoch) => epoch,
        None => 0,
    }
}

/// The key of the object of a block. A key by block number alone has no
/// prefix; every other key starts with the prefix and ends with the
/// block's hash, with the numbers that the naming asks for in between,
/// each followed by a dot.
pub open spec fn obj_key(prefix: Seq<char>, policy: Naming, record: BlockRecordView) -> Seq<char> {
    match policy {
        Naming::Hash => prefix + record.hash,
        Naming::SlotHash => prefix + decimal(record.slot as nat) + "."@ + record.hash,
        Naming::BlockHash => prefix + decimal(record.number as nat) + "."@ + record.hash,
        Naming::BlockNumber => decimal(record.number as nat),
        Naming::EpochHash => prefix + decimal(epoch_or_zero(record) as nat) + "."@ + record.hash,
        Naming::EpochSlotHash => prefix + decimal(epoch_or_zero(record) as nat) + "."@ + decimal(
            record.slot as nat,
        ) + "."@ + record.hash,
        Naming::EpochBlockHash => prefix + decimal(epoch_or_zero(record) as nat) + "."@ + decimal(
            record.number as nat,
        ) + "."@ + record.hash,
    }
}

/// Makes the key of the object of a block.
pub fn define_obj_key(prefix: &str, policy: &Naming, record: &BlockRecord) -> (key: String)
    ensures
        key@ == obj_key(prefix@, *policy, record@),
{
    let epoch = match record.epoch {
        Some(epoch) => epoch,
        None => 0,
    };
    match policy {
        Naming::Hash => {
            let mut key = prefix.to_owned();
            key.append(record.hash.as_str());
            key
        },
        Naming::SlotHash => {
            let mut key = prefix.to_owned();
            key.append(u64_to_string(record.slot).as_str());
            key.append(".");
            key.append(record.hash.as_str());
            key
        },
        Naming::BlockHash => {
            let mut key = prefix.to_owned();
            key.append(u64_to_string(record.number).as_str());
            key.append(".");
            key.append(record.hash.as_str());
            key
        },
        Naming::BlockNumber => u64_to_string(record.number),
        Naming::EpochHash => {
            let mut key = prefix.to_owned();
            key.append(u64_to_string(epoch).as_str());
            key.append(".");
            key.append(record.hash.as_str());
            key
        },
        Naming::EpochSlotHash => {
            let mut key = prefix.to_owned();
            key.append(u64_to_string(epoch).as_str());
            key.append(".");
            key.append(u64_to_string(record.slot).as_str());
            key.append(".");
            key.append(record.hash.as_str());
            key
        },
        Naming::EpochBlockHash => {
            let mut key = prefix.to_owned();
            key.append(u64_to_string(epoch).as_str());
            key.append(".");
            key.append(u64_to_string(record.number).as_str());
            key.append(".");
            key.append(record.hash.as_str());
            key
        },
    }
}

/// What is stored for a block.
#[derive(Debug, Clone, PartialEq, Eq)]
pub enum Content {
    /// These bytes.
    Bytes(Vec<u8>),
    /// The record itself as JSON, which the caller writes.
    RecordAsJson,
}

pub enum ContentView {
    Bytes(Seq<u8>),
    RecordAsJson,
}

impl View for Content {
    type V = ContentView;

    open spec fn view(&self) -> ContentView {
        match *self {
            Content::Bytes(bytes) => ContentView::Bytes(bytes@),
            Content::RecordAsJson => ContentView::RecordAsJson,
        }
    }
}

/// Why a block has no content to store.
#[derive(Debug)]
pub enum EncodeError {
    /// The record does not carry the block's encoding.
    MissingCbor,
    /// The encoding that the record carries is no hexadecimal text.
    InvalidHex(hex::FromHexError),
}

/// A reason why a block has no content, as contracts speak of it: its
/// kind, and the decoder's error where it carries one.
pub enum EncodeFailure {
    MissingCbor,
    InvalidHex(hex::FromHexError),
}

impl View for EncodeError {
    type V = EncodeFailure;

    open spec fn view(&self) -> EncodeFailure {
        match *self {
            EncodeError::MissingCbor => EncodeFailure::MissingCbor,
            EncodeError::InvalidHex(e) => EncodeFailure::InvalidHex(e),
        }
    }
}

/// The content of the object of a block: the bytes of the block's
/// encoding, the bytes of the hexadecimal text of that encoding, or the
/// record as JSON. A record without the encoding has no content, whatever
/// is asked for.
pub open spec fn block_content(content_type: ContentType, record: BlockRecordView) -> Result<
    ContentView,
    EncodeFailure,
> {
    match record.cbor_hex {
        None => Err(EncodeFailure::MissingCbor),
        Some(hex) => match content_type {
            ContentType::Cbor => if is_hex(hex) {
                Ok(ContentView::Bytes(hex_bytes(hex)))
            } else {
                Err(EncodeFailure::InvalidHex(hex_failure(hex)))
            },
            ContentType::CborHex => Ok(ContentView::Bytes(vstd::utf8::encode_utf8(hex))),
            ContentType::Json => Ok(ContentView::RecordAsJson),
        },
    }
}

/// Makes the content of the object of a block.
pub fn encode_block(content_type: &ContentType, record: &BlockRecord) -> (content: Result<
    Content,
    EncodeError,
>)
    ensures
        match content {
            Ok(c) => block_content(*content_type, record@) == Ok::<ContentView, EncodeFailure>(c@),
            Err(e) => block_content(*content_type, record@) == Err::<ContentView, EncodeFailure>(
                e@,
            ),
        },
{
    let hex = match &record.cbor_hex {
        Some(x) => x,
        None => {
            return Err(EncodeError::MissingCbor);
        },
    };
    match content_type {
        ContentType::Cbor => match hex_decode(hex.as_str()) {
            Ok(cbor) => Ok(Content::Bytes(cbor)),
            Err(e) => Err(EncodeError::InvalidHex(e)),
        },
        ContentType::CborHex => Ok(Content::Bytes(hex.as_str().as_bytes_vec())),
        ContentType::Json => Ok(Content::RecordAsJson),
    }
}

/// The message that announces a stored block.
#[derive(Debug, Clone, PartialEq, Eq)]
pub struct SqsMessage {
    pub s3_key: String,
    pub block_hash: String,
    pub previous_hash: String,
    pub block_number: u64,
    pub slot: u64,
    pub tip: Option<i64>,
}

pub struct SqsMessageView {
    pub s3_key: Seq<char>,
    pub block_hash: Seq<char>,
    pub previous_hash: Seq<char>,
    pub block_number: u64,
    pub slot: u64,
    pub tip: Option<i64>,
}

impl View for SqsMessage {
    type V = SqsMessageView;

    open spec fn view(&self) -> SqsMessageView {
        SqsMessageView {
            s3_key: self.s3_key@,
            block_hash: self.block_hash@,
            previous_hash: self.previous_hash@,
            block_number: self.block_number,
            slot: self.slot,
            tip: self.tip,
        }
    }
}

impl SqsMessage {
    /// The message for a block stored under `key`, with the tip of the
    /// chain where it is known.
    pub fn new(key: &str, record: &BlockRecord, tip: Option<i64>) -> (message: SqsMessage)
        ensures
            message@ == (SqsMessageView {
                s3_key: key@,
                block_hash: record@.hash,
                previous_hash: record@.previous_hash,
                block_number: record@.number,
                slot: record@.slot,
                tip,
            }),
    {
        SqsMessage {
            s3_key: key.to_owned(),
            block_hash: record.hash.clone(),
            previous_hash: record.previous_hash.clone(),
            block_number: record.number,
            slot: record.slot,
            tip,
        }
    }
}

/// The name and value of each piece of metadata of the object of a block.
pub open spec fn object_metadata_of(record: BlockRecordView) -> Seq<(Seq<char>, Seq<char>)> {
    seq![
        ("era"@, record.era.name()),
        ("issuer_vkey"@, record.issuer_vkey),
        ("tx_count"@, decimal(record.tx_count as nat)),
        ("slot"@, decimal(record.slot as nat)),
        ("hash"@, record.hash),
        ("number"@, decimal(record.number as nat)),
        ("previous_hash"@, record.previous_hash),
    ]
}

/// The views of some pairs of texts.
pub open spec fn pair_views(pairs: Seq<(String, String)>) -> Seq<(Seq<char>, Seq<char>)> {
    Seq::new(pairs.len(), |i: int| (pairs[i].0@, pairs[i].1@))
}

/// The metadata that the object of a block is stored with.
pub fn object_metadata(record: &BlockRecord) -> (metadata: Vec<(String, String)>)
    ensures
        pair_views(metadata@) == object_metadata_of(record@),
{
    let mut metadata: Vec<(String, String)> = Vec::new();
    metadata.push(("era".to_owned(), record.era.to_text()));
    metadata.push(("issuer_vkey".to_owned(), record.issuer_vkey.clone()));
    metadata.push(("tx_count".to_owned(), u64_to_string(record.tx_count as u64)));
    metadata.push(("slot".to_owned(), u64_to_string(record.slot)));
    metadata.push(("hash".to_owned(), record.hash.clone()));
    metadata.push(("number".to_owned(), u64_to_string(record.number)));
    metadata.push(("previous_hash".to_owned(), record.previous_hash.clone()));
    assert(pair_views(metadata@) =~= object_metadata_of(record@));
    metadata
}

/// The group and deduplication key of a message on a FIFO queue; none on
/// another queue.
pub fn fifo_ids(settings: &ClientSettings, key: &str) -> (ids: Option<(String, String)>)
    ensures
        match ids {
            Some(pair) => settings.sqs_fifo && pair.0@ == settings.sqs_group_id@ && pair.1@ == key@,
            None => !settings.sqs_fifo,
        },
{
    if settings.sqs_fifo {
        Some((settings.sqs_group_id.clone(), key.to_owned()))
    } else {
        None
    }
}

/// The block that an event asks the sink to send: the record of a block
/// event, and nothing for an event of another kind.
pub fn block_to_send(event: &Event) -> (record: Option<&BlockRecord>)
    ensures
        match event.data {
            EventData::Block(r) => record == Some(&r),
            _ => record is None,
        },
{
    match &event.data {
        EventData::Block(record) => Some(record),
        _ => None,
    }
}

/// Everything that is sent for one block: the object with its key, content,
/// media type and metadata, and the message with the identifiers that a
/// FIFO queue asks for.
#[derive(Debug)]
pub struct Delivery {
    pub key: String,
    pub content: Content,
    pub media_type: String,
    pub metadata: Vec<(String, String)>,
    pub message: SqsMessage,
    pub fifo: Option<(String, String)>,
}

/// Works out what is sent for a block under the given settings. A block
/// without content is not sent at all.
pub fn plan_delivery(settings: &ClientSettings, record: &BlockRecord, tip: Option<i64>) -> (plan:
    Result<Delivery, EncodeError>)
    ensures
        match plan {
            Ok(delivery) => {
                &&& delivery.key@ == obj_key(settings.s3_prefix@, settings.naming, record@)
                &&& block_content(settings.content_type, record@) == Ok::<
                    ContentView,
                    EncodeFailure,
                >(delivery.content@)
                &&& delivery.media_type@ == content_type_text(settings.content_type)
                &&& pair_views(delivery.metadata@) == object_metadata_of(record@)
                &&& delivery.message@ == (SqsMessageView {
                    s3_key: delivery.key@,
                    block_hash: record@.hash,
                    previous_hash: record@.previous_hash,
                    block_number: record@.number,
                    slot: record@.slot,
                    tip,
                })
                &&& match delivery.fifo {
                    Some(pair) => settings.sqs_fifo && pair.0@ == settings.sqs_group_id@ && pair.1@
                        == delivery.key@,
                    None => !settings.sqs_fifo,
                }
            },
            Err(e) => block_content(settings.content_type, record@) == Err::<
                ContentView,
                EncodeFailure,
            >(e@),
        },
{
    let content = encode_block(&settings.content_type, record)?;
    let key = define_obj_key(settings.s3_prefix.as_str(), &settings.naming, record);
    let message = SqsMessage::new(key.as_str(), record, tip);
    let fifo = fifo_ids(settings, key.as_str());
    Ok(
        Delivery {
            key,
            content,
            media_type: settings.content_type.media_type(),
            metadata: object_metadata(record),
            message,
            fifo,
        },
    )
}

} // verus!
