//! The settings of the object store and queue sink.
use vstd::prelude::*;

verus! {

/// How the key of a block's object is made.
#[derive(Debug, Clone, Copy, PartialEq, Eq, Structural)]
pub enum Naming {
    Hash,
    SlotHash,
    BlockHash,
    BlockNumber,
    EpochHash,
    EpochSlotHash,
    EpochBlockHash,
}

/// What the object of a block holds.
#[derive(Debug, Clone, Copy, PartialEq, Eq, Structural)]
pub enum ContentType {
    Cbor,
    CborHex,
    Json,
}

#[derive(Debug, Clone, Default)]
pub struct Config {
    pub s3_region: String,
    pub s3_bucket: String,
    pub s3_prefix: Option<String>,
    pub s3_naming: Option<Naming>,
    pub s3_content: Option<ContentType>,
    pub s3_max_retries: Option<u32>,
    pub sqs_region: String,
    pub sqs_queue_url: String,
    pub sqs_fifo: Option<bool>,
    pub sqs_group_id: Option<String>,
    pub sqs_max_retries: Option<u32>,
}

} // verus!
