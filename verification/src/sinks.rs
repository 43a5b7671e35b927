//! What the sinks decide before they hand an event to the outside: names,
//! payloads and lines of text.
pub mod aws_s3_sqs;
pub mod terminal;
