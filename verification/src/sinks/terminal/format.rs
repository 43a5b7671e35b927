//! The line of text that the terminal shows for an event.
use crate::model::{
    Event, EventData, MetadatumRendition, StakeCredential,
};
use crate::text::{decimal, i128_to_string, i64_to_string, signed_decimal, u64_to_string};
use vstd::prelude::*;
use vstd::string::*;

verus! {

/// The text that the debug formatting of the standard library gives a
/// string: the string between quotes, with what cannot stand there as it
/// is written as an escape.
pub uninterp spec fn debug_text(text: Seq<char>) -> Seq<char>;

/// The text of a JSON value, written without any space.
pub uninterp spec fn json_text(value: serde_json::Value) -> Seq<char>;

/// The debug formatting of a string by the standard library, `{:?}`: a
/// text that depends on the string alone.
#[verifier::external_body]
fn string_debug(text: &str) -> (debug: String)
    ensures
        debug@ == debug_text(text@),
{
    format!("{:?}", text)
}

/// `serde_json::Value::to_string`: the value as compact JSON text, which
/// depends on the value alone.
#[verifier::external_body]
fn json_to_string(value: &serde_json::Value) -> (text: String)
    ensures
        text@ == json_text(*value),
{
    value.to_string()
}

/// The colour of the label of a line.
#[derive(Debug, Clone, Copy, PartialEq, Eq, Structural)]
pub enum Color {
    Magenta,
    DarkMagenta,
    DarkBlue,
    Blue,
    DarkGreen,
    Green,
    Yellow,
    DarkYellow,
    White,
    Red,
}

/// How much of what a line says the terminal shows.
#[derive(Debug, Clone, Copy, PartialEq, Eq, Structural)]
pub enum Body {
    /// All of it.
    Whole,
    /// As much of its beginning as is no wider than this many columns,
    /// followed by three dots.
    Cut(usize),
}

/// One line of the terminal: a label in its colour, where the event
/// stands, and what it says, cut to the width of the terminal where that
/// is known.
#[derive(Debug, Clone)]
pub struct LogLine {
    pub prefix: &'static str,
    pub color: Color,
    pub tx_idx: Option<usize>,
    pub block_num: Option<u64>,
    pub content: String,
    pub max_width: Option<usize>,
}

/// The debug text of an optional number.
pub open spec fn optional_number_text(value: Option<u64>) -> Seq<char> {
    match value {
        Some(n) => "Some("@ + decimal(n as nat) + ")"@,
        None => "None"@,
    }
}

/// The debug text of an optional string.
pub open spec fn optional_string_text(value: Option<String>) -> Seq<char> {
    match value {
        Some(s) => "Some("@ + debug_text(s@) + ")"@,
        None => "None"@,
    }
}

/// The debug text of a stake credential.
pub open spec fn credential_text(credential: StakeCredential) -> Seq<char> {
    match credential {
        StakeCredential::AddrKeyhash(x) => "AddrKeyhash("@ + debug_text(x@) + ")"@,
        StakeCredential::Scripthash(x) => "Scripthash("@ + debug_text(x@) + ")"@,
    }
}

/// The debug text of one rewarded credential with its amount.
pub open spec fn reward_text(entry: (StakeCredential, i64)) -> Seq<char> {
    "("@ + credential_text(entry.0) + ", "@ + signed_decimal(entry.1 as int) + ")"@
}

/// The debug texts of the first `n` rewards, with a comma and a space
/// between two of them.
pub open spec fn rewards_text(entries: Seq<(StakeCredential, i64)>, n: nat) -> Seq<char>
    decreases n,
{
    if n == 0 || n > entries.len() {
        Seq::empty()
    } else if n == 1 {
        reward_text(entries[0])
    } else {
        rewards_text(entries, (n - 1) as nat) + ", "@ + reward_text(entries[n - 1])
    }
}

/// The debug text of an optional list of rewards.
pub open spec fn optional_rewards_text(value: Option<Vec<(StakeCredential, i64)>>) -> Seq<char> {
    match value {
        Some(entries) => "Some(["@ + rewards_text(entries@, entries.len() as nat) + "])"@,
        None => "None"@,
    }
}

/// The text of the content of a metadata label.
pub open spec fn rendition_text(content: MetadatumRendition) -> Seq<char> {
    match content {
        MetadatumRendition::MapJson(x) => json_text(x),
        MetadatumRendition::ArrayJson(x) => json_text(x),
        MetadatumRendition::IntScalar(x) => signed_decimal(x as int),
        MetadatumRendition::TextScalar(x) => x@,
        MetadatumRendition::BytesHex(x) => x@,
    }
}

/// A text, or another one where the first is absent.
pub open spec fn text_or(first: Option<String>, second: Seq<char>) -> Seq<char> {
    match first {
        Some(s) => s@,
        None => second,
    }
}

/// A number, or zero where it is absent.
pub open spec fn number_or_zero(value: Option<u64>) -> u64 {
    match value {
        Some(n) => n,
        None => 0,
    }
}

/// The label of the line of an event; none for an event that has no line.
pub open spec fn line_prefix(source: Event, adahandle_policy: Seq<char>) -> Option<Seq<char>> {
    match source.data {
        EventData::Block(_) => Some("BLOCK"@),
        EventData::BlockEnd(_) => Some("ENDBLK"@),
        EventData::Transaction(_) => Some("TX"@),
        EventData::TransactionEnd(_) => Some("ENDTX"@),
        EventData::TxInput(_) => Some("STXI"@),
        EventData::TxOutput(_) => Some("UTXO"@),
        EventData::OutputAsset(r) => if r.policy@ == adahandle_policy {
            Some("$HNDL"@)
        } else {
            Some("ASSET"@)
        },
        EventData::Metadata(_) => Some("META"@),
        EventData::Mint(_) => Some("MINT"@),
        EventData::NativeScript { .. } => Some("NATIVE"@),
        EventData::PlutusScript { .. } => Some("PLUTUS"@),
        EventData::PlutusDatum(_) => Some("DATUM"@),
        EventData::PlutusRedeemer(_) => Some("REDEEM"@),
        EventData::PlutusWitness(_) => Some("WITNESS"@),
        EventData::NativeWitness(_) => Some("WITNESS"@),
        EventData::VKeyWitness(_) => Some("WITNESS"@),
        EventData::StakeRegistration(_) => Some("STAKE+"@),
        EventData::StakeDeregistration(_) => Some("STAKE-"@),
        EventData::StakeDelegation(_) => Some("DELE"@),
        EventData::PoolRegistration(_) => Some("POOL+"@),
        EventData::PoolRetirement(_) => Some("POOL-"@),
        EventData::GenesisKeyDelegation(_) => Some("GENESIS"@),
        EventData::MoveInstantaneousRewardsCert(_) => Some("MOVE"@),
        EventData::RollBack { .. } => Some("RLLBCK"@),
        EventData::Collateral { .. } => Some("COLLAT"@),
        EventData::CIP25Asset(_) => Some("CIP25"@),
        EventData::CIP15Asset(_) => Some("CIP15"@),
        _ => None,
    }
}

/// The colour of the line of an event.
pub open spec fn line_color(source: Event, adahandle_policy: Seq<char>) -> Color {
    match source.data {
        EventData::Block(_) => Color::Magenta,
        EventData::BlockEnd(_) => Color::DarkMagenta,
        EventData::Transaction(_) => Color::DarkBlue,
        EventData::TransactionEnd(_) => Color::DarkBlue,
        EventData::TxInput(_) => Color::Blue,
        EventData::TxOutput(_) => Color::Blue,
        EventData::OutputAsset(r) => if r.policy@ == adahandle_policy {
            Color::DarkGreen
        } else {
            Color::Green
        },
        EventData::Metadata(_) => Color::Yellow,
        EventData::Mint(_) => Color::DarkGreen,
        EventData::StakeRegistration(_) => Color::Magenta,
        EventData::StakeDeregistration(_) => Color::DarkMagenta,
        EventData::StakeDelegation(_) => Color::Magenta,
        EventData::PoolRegistration(_) => Color::Magenta,
        EventData::PoolRetirement(_) => Color::DarkMagenta,
        EventData::GenesisKeyDelegation(_) => Color::Magenta,
        EventData::MoveInstantaneousRewardsCert(_) => Color::Magenta,
        EventData::RollBack { .. } => Color::Red,
        EventData::Collateral { .. } => Color::Blue,
        EventData::CIP25Asset(_) => Color::DarkYellow,
        EventData::CIP15Asset(_) => Color::DarkYellow,
        _ => Color::White,
    }
}

/// What the line of an event says. Of an event that has no line, nothing.
pub open spec fn line_content(source: Event, adahandle_policy: Seq<char>) -> Seq<char> {
    match source.data {
        EventData::Block(r) => "{ era: "@ + r.era.name() + ", slot: "@ + decimal(r.slot as nat)
            + ", hash: "@ + r.hash@ + ", number: "@ + decimal(r.number as nat) + ", body size: "@
            + decimal(r.body_size as nat) + ", tx_count: "@ + decimal(r.tx_count as nat)
            + ", issuer vkey: "@ + r.issuer_vkey@ + ", timestamp: "@ + decimal(
            number_or_zero(source.context.timestamp) as nat,
        ) + " }"@,
        EventData::BlockEnd(r) => "{ slot: "@ + decimal(r.slot as nat) + ", hash: "@ + r.hash@
            + ", number: "@ + decimal(r.number as nat) + " }"@,
        EventData::Transaction(r) => "{ total_output: "@ + decimal(r.total_output as nat)
            + ", fee: "@ + decimal(r.fee as nat) + ", hash: "@ + r.hash@ + ", ttl: "@
            + optional_number_text(r.ttl) + " }"@,
        EventData::TransactionEnd(r) => "{ hash: "@ + r.hash@ + " }"@,
        EventData::TxInput(r) => "{ tx_id: "@ + r.tx_id@ + ", index: "@ + decimal(r.index as nat)
            + " }"@,
        EventData::TxOutput(r) => "{ to: "@ + r.address@ + ", amount: "@ + decimal(
            r.amount as nat,
        ) + " }"@,
        EventData::OutputAsset(r) => if r.policy@ == adahandle_policy {
            "{ "@ + text_or(r.asset_ascii, r.asset@) + " => "@ + text_or(
                source.context.output_address,
                Seq::empty(),
            ) + " }"@
        } else {
            "{ policy: "@ + r.policy@ + ", asset: "@ + text_or(r.asset_ascii, r.asset@)
                + ", amount: "@ + decimal(r.amount as nat) + " }"@
        },
        EventData::Metadata(r) => "{ label: "@ + r.label@ + ", content: "@ + rendition_text(
            r.content,
        ) + " }"@,
        EventData::Mint(r) => "{ policy: "@ + r.policy@ + ", asset: "@ + r.asset@
            + ", quantity: "@ + signed_decimal(r.quantity as int) + " }"@,
        EventData::NativeScript { policy_id, script } => "{ policy: "@ + policy_id@
            + ", script: "@ + json_text(script) + " }"@,
        EventData::PlutusScript { hash, .. } => "{ hash: "@ + hash@ + " }"@,
        EventData::PlutusDatum(r) => "{ hash: "@ + r.datum_hash@ + " }"@,
        EventData::PlutusRedeemer(r) => "{ purpose: "@ + r.purpose@ + ", input: "@ + decimal(
            r.input_idx as nat,
        ) + " }"@,
        EventData::PlutusWitness(r) => "{ plutus script: "@ + r.script_hash@ + " }"@,
        EventData::NativeWitness(r) => "{ native policy: "@ + r.policy_id@ + " }"@,
        EventData::VKeyWitness(r) => "{ vkey: "@ + r.vkey_hex@ + " }"@,
        EventData::StakeRegistration(r) => "{ credential: "@ + credential_text(r.credential)
            + " }"@,
        EventData::StakeDeregistration(r) => "{ credential: "@ + credential_text(r.credential)
            + " }"@,
        EventData::StakeDelegation(r) => "{ credential: "@ + credential_text(r.credential)
            + ", pool: "@ + r.pool_hash@ + " }"@,
        EventData::PoolRegistration(r) => "{ operator: "@ + r.operator@ + ", pledge: "@ + decimal(
            r.pledge as nat,
        ) + ", cost: "@ + decimal(r.cost as nat) + ", margin: { numerator: "@ + decimal(
            r.margin.numerator as nat,
        ) + ", denominator: "@ + decimal(r.margin.denominator as nat) + " }, metadata: "@
            + optional_string_text(r.pool_metadata) + " }"@,
        EventData::PoolRetirement(r) => "{ pool: "@ + r.pool@ + ", epoch: "@ + decimal(
            r.epoch as nat,
        ) + " }"@,
        EventData::GenesisKeyDelegation(r) => "{ genesis_hash: "@ + r.genesis_hash@
            + ", genesis_delegate_hash: "@ + r.genesis_delegate_hash@ + ", vrf_key_hash: "@
            + r.vrf_key_hash@ + " }"@,
        EventData::MoveInstantaneousRewardsCert(r) => "{ reserves: "@ + (if r.from_reserves {
            "true"@
        } else {
            "false"@
        }) + ", treasury: "@ + (if r.from_treasury {
            "true"@
        } else {
            "false"@
        }) + ", to_credentials: "@ + optional_rewards_text(r.to_stake_credentials)
            + ", to_other_pot: "@ + optional_number_text(r.to_other_pot) + " }"@,
        EventData::RollBack { block_slot, block_hash } => "{ slot: "@ + decimal(block_slot as nat)
            + ", hash: "@ + block_hash@ + " }"@,
        EventData::Collateral { tx_id, index } => "{ tx_id: "@ + tx_id@ + ", index: "@ + decimal(
            index as nat,
        ) + " }"@,
        EventData::CIP25Asset(r) => "{ policy: "@ + r.policy@ + ", asset: "@ + r.asset@
            + ", name: "@ + text_or(r.name, "?"@) + ", image: "@ + text_or(r.image, "?"@) + " }"@,
        EventData::CIP15Asset(r) => "{ voting key: "@ + r.voting_key@ + ", stake pub: "@
            + r.stake_pub@ + " }"@,
        _ => Seq::empty(),
    }
}

fn optional_number_to_text(value: &Option<u64>) -> (text: String)
    ensures
        text@ == optional_number_text(*value),
{
    match value {
        Some(n) => {
            let mut text = "Some(".to_owned();
            text.append(u64_to_string(*n).as_str());
            text.append(")");
            text
        },
        None => "None".to_owned(),
    }
}

fn optional_string_to_text(value: &Option<String>) -> (text: String)
    ensures
        text@ == optional_string_text(*value),
{
    match value {
        Some(s) => {
            let mut text = "Some(".to_owned();
            text.append(string_debug(s.as_str()).as_str());
            text.append(")");
            text
        },
        None => "None".to_owned(),
    }
}

fn credential_to_text(credential: &StakeCredential) -> (text: String)
    ensures
        text@ == credential_text(*credential),
{
    match credential {
        StakeCredential::AddrKeyhash(x) => {
            let mut text = "AddrKeyhash(".to_owned();
            text.append(string_debug(x.as_str()).as_str());
            text.append(")");
            text
        },
        StakeCredential::Scripthash(x) => {
            let mut text = "Scripthash(".to_owned();
            text.append(string_debug(x.as_str()).as_str());
            text.append(")");
            text
        },
    }
}

fn reward_to_text(entry: &(StakeCredential, i64)) -> (text: String)
    ensures
        text@ == reward_text(*entry),
{
    let mut text = "(".to_owned();
    text.append(credential_to_text(&entry.0).as_str());
    text.append(", ");
    text.append(i64_to_string(entry.1).as_str());
    text.append(")");
    text
}

fn optional_rewards_to_text(value: &Option<Vec<(StakeCredential, i64)>>) -> (text: String)
    ensures
        text@ == optional_rewards_text(*value),
{
    match value {
        Some(entries) => {
            let mut list = String::new();
            let mut i: usize = 0;
            while i < entries.len()
                invariant
                    i <= entries.len(),
                    list@ == rewards_text(entries@, i as nat),
                decreases entries.len() - i,
            {
                if i > 0 {
                    list.append(", ");
                }
                list.append(reward_to_text(&entries[i]).as_str());
                proof {
                    if i == 0 {
                        assert(list@ =~= reward_text(entries@[0]));
                    }
                }
                i += 1;
            }
            let mut text = "Some([".to_owned();
            text.append(list.as_str());
            text.append("])");
            text
        },
        None => "None".to_owned(),
    }
}

impl MetadatumRendition {
    /// The content as text: JSON without spaces, a number in decimal, a
    /// text as it is.
    pub fn to_text(&self) -> (text: String)
        ensures
            text@ == rendition_text(*self),
    {
        match self {
            MetadatumRendition::MapJson(x) => json_to_string(x),
            MetadatumRendition::ArrayJson(x) => json_to_string(x),
            MetadatumRendition::IntScalar(x) => i128_to_string(*x),
            MetadatumRendition::TextScalar(x) => x.clone(),
            MetadatumRendition::BytesHex(x) => x.clone(),
        }
    }
}

fn bool_text(value: bool) -> (text: &'static str)
    ensures
        text@ == (if value {
            "true"@
        } else {
            "false"@
        }),
{
    if value {
        "true"
    } else {
        "false"
    }
}

fn text_of<'a>(first: &'a Option<String>, second: &'a str) -> (text: &'a str)
    ensures
        text@ == text_or(*first, second@),
{
    match first {
        Some(s) => s.as_str(),
        None => second,
    }
}

/// A text that is built piece by piece.
struct Pieces {
    text: String,
}

impl Pieces {
    fn start(first: &str) -> (pieces: Pieces)
        ensures
            pieces.text@ == first@,
    {
        Pieces { text: first.to_owned() }
    }

    fn text(self, piece: &str) -> (pieces: Pieces)
        ensures
            pieces.text@ == self.text@ + piece@,
    {
        let mut text = self.text;
        text.append(piece);
        Pieces { text }
    }

    fn number(self, n: u64) -> (pieces: Pieces)
        ensures
            pieces.text@ == self.text@ + decimal(n as nat),
    {
        let mut text = self.text;
        text.append(u64_to_string(n).as_str());
        Pieces { text }
    }

    fn size(self, n: usize) -> (pieces: Pieces)
        ensures
            pieces.text@ == self.text@ + decimal(n as nat),
    {
        let mut text = self.text;
        text.append(u64_to_string(n as u64).as_str());
        Pieces { text }
    }

    fn signed(self, n: i64) -> (pieces: Pieces)
        ensures
            pieces.text@ == self.text@ + signed_decimal(n as int),
    {
        let mut text = self.text;
        text.append(i64_to_string(n).as_str());
        Pieces { text }
    }

    fn owned(self, piece: String) -> (pieces: Pieces)
        ensures
            pieces.text@ == self.text@ + piece@,
    {
        let mut text = self.text;
        text.append(piece.as_str());
        Pieces { text }
    }

    fn end(self) -> (text: String)
        ensures
            text@ == self.text@ + " }"@,
    {
        let mut text = self.text;
        text.append(" }");
        text
    }
}

impl LogLine {
    fn new_raw(
        source: &Event,
        prefix: &'static str,
        color: Color,
        max_width: Option<usize>,
        content: String,
    ) -> (line: LogLine)
        ensures
            line.prefix@ == prefix@,
            line.color == color,
            line.content@ == content@,
            line.max_width == max_width,
            line.tx_idx == source.context.tx_idx,
            line.block_num == source.context.block_number,
    {
        LogLine {
            prefix,
            color,
            content,
            max_width,
            tx_idx: source.context.tx_idx,
            block_num: source.context.block_number,
        }
    }

    /// The line of an event; none for an event of a kind that the terminal
    /// has no line for. An asset of the policy `adahandle_policy` is shown
    /// as a handle.
    pub fn new(source: &Event, max_width: Option<usize>, adahandle_policy: &str) -> (line: Option<
        LogLine,
    >)
        ensures
            line is Some <==> line_prefix(*source, adahandle_policy@) is Some,
            line is Some ==> {
                &&& Some(line->0.prefix@) == line_prefix(*source, adahandle_policy@)
                &&& line->0.color == line_color(*source, adahandle_policy@)
                &&& line->0.content@ == line_content(*source, adahandle_policy@)
                &&& line->0.max_width == max_width
                &&& line->0.tx_idx == source.context.tx_idx
                &&& line->0.block_num == source.context.block_number
            },
    {
        match &source.data {
            EventData::Block(r) => {
                let timestamp = match source.context.timestamp {
                    Some(t) => t,
                    None => 0,
                };
                let content = Pieces::start("{ era: ").owned(r.era.to_text()).text(
                    ", slot: ",
                ).number(r.slot).text(", hash: ").text(r.hash.as_str()).text(", number: ").number(
                    r.number,
                ).text(", body size: ").size(r.body_size).text(", tx_count: ").size(
                    r.tx_count,
                ).text(", issuer vkey: ").text(r.issuer_vkey.as_str()).text(
                    ", timestamp: ",
                ).number(timestamp).end();
                Some(LogLine::new_raw(source, "BLOCK", Color::Magenta, max_width, content))
            },
            EventData::BlockEnd(r) => {
                let content = Pieces::start("{ slot: ").number(r.slot).text(", hash: ").text(
                    r.hash.as_str(),
                ).text(", number: ").number(r.number).end();
                Some(LogLine::new_raw(source, "ENDBLK", Color::DarkMagenta, max_width, content))
            },
            EventData::Transaction(r) => {
                let content = Pieces::start("{ total_output: ").number(r.total_output).text(
                    ", fee: ",
                ).number(r.fee).text(", hash: ").text(r.hash.as_str()).text(", ttl: ").owned(
                    optional_number_to_text(&r.ttl),
                ).end();
                Some(LogLine::new_raw(source, "TX", Color::DarkBlue, max_width, content))
            },
            EventData::TransactionEnd(r) => {
                let content = Pieces::start("{ hash: ").text(r.hash.as_str()).end();
                Some(LogLine::new_raw(source, "ENDTX", Color::DarkBlue, max_width, content))
            },
            EventData::TxInput(r) => {
                let content = Pieces::start("{ tx_id: ").text(r.tx_id.as_str()).text(
                    ", index: ",
                ).number(r.index).end();
                Some(LogLine::new_raw(source, "STXI", Color::Blue, max_width, content))
            },
            EventData::TxOutput(r) => {
                let content = Pieces::start("{ to: ").text(r.address.as_str()).text(
                    ", amount: ",
                ).number(r.amount).end();
                Some(LogLine::new_raw(source, "UTXO", Color::Blue, max_width, content))
            },
            EventData::OutputAsset(r) => {
                if r.policy == adahandle_policy.to_owned() {
                    let content = Pieces::start("{ ").text(
                        text_of(&r.asset_ascii, r.asset.as_str()),
                    ).text(" => ").text(text_of(&source.context.output_address, "")).end();
                    proof {
                        reveal_strlit("");
                        assert(""@ =~= Seq::<char>::empty());
                    }
                    Some(LogLine::new_raw(source, "$HNDL", Color::DarkGreen, max_width, content))
                } else {
                    let content = Pieces::start("{ policy: ").text(r.policy.as_str()).text(
                        ", asset: ",
                    ).text(text_of(&r.asset_ascii, r.asset.as_str())).text(", amount: ").number(
                        r.amount,
                    ).end();
                    Some(LogLine::new_raw(source, "ASSET", Color::Green, max_width, content))
                }
            },
            EventData::Metadata(r) => {
                let content = Pieces::start("{ label: ").text(r.label.as_str()).text(
                    ", content: ",
                ).owned(r.content.to_text()).end();
                Some(LogLine::new_raw(source, "META", Color::Yellow, max_width, content))
            },
            EventData::Mint(r) => {
                let content = Pieces::start("{ policy: ").text(r.policy.as_str()).text(
                    ", asset: ",
                ).text(r.asset.as_str()).text(", quantity: ").signed(r.quantity).end();
                Some(LogLine::new_raw(source, "MINT", Color::DarkGreen, max_width, content))
            },
            EventData::NativeScript { policy_id, script } => {
                let content = Pieces::start("{ policy: ").text(policy_id.as_str()).text(
                    ", script: ",
                ).owned(json_to_string(script)).end();
                Some(LogLine::new_raw(source, "NATIVE", Color::White, max_width, content))
            },
            EventData::PlutusScript { hash, .. } => {
                let content = Pieces::start("{ hash: ").text(hash.as_str()).end();
                Some(LogLine::new_raw(source, "PLUTUS", Color::White, max_width, content))
            },
            EventData::PlutusDatum(r) => {
                let content = Pieces::start("{ hash: ").text(r.datum_hash.as_str()).end();
                Some(LogLine::new_raw(source, "DATUM", Color::White, max_width, content))
            },
            EventData::PlutusRedeemer(r) => {
                let content = Pieces::start("{ purpose: ").text(r.purpose.as_str()).text(
                    ", input: ",
                ).number(r.input_idx as u64).end();
                Some(LogLine::new_raw(source, "REDEEM", Color::White, max_width, content))
            },
            EventData::PlutusWitness(r) => {
                let content = Pieces::start("{ plutus script: ").text(
                    r.script_hash.as_str(),
                ).end();
                Some(LogLine::new_raw(source, "WITNESS", Color::White, max_width, content))
            },
            EventData::NativeWitness(r) => {
                let content = Pieces::start("{ native policy: ").text(r.policy_id.as_str()).end();
                Some(LogLine::new_raw(source, "WITNESS", Color::White, max_width, content))
            },
            EventData::VKeyWitness(r) => {
                let content = Pieces::start("{ vkey: ").text(r.vkey_hex.as_str()).end();
                Some(LogLine::new_raw(source, "WITNESS", Color::White, max_width, content))
            },
            EventData::StakeRegistration(cert) => {
                let content = Pieces::start("{ credential: ").owned(
                    credential_to_text(&cert.credential),
                ).end();
                Some(LogLine::new_raw(source, "STAKE+", Color::Magenta, max_width, content))
            },
            EventData::StakeDeregistration(cert) => {
                let content = Pieces::start("{ credential: ").owned(
                    credential_to_text(&cert.credential),
                ).end();
                Some(LogLine::new_raw(source, "STAKE-", Color::DarkMagenta, max_width, content))
            },
            EventData::StakeDelegation(cert) => {
                let content = Pieces::start("{ credential: ").owned(
                    credential_to_text(&cert.credential),
                ).text(", pool: ").text(cert.pool_hash.as_str()).end();
                Some(LogLine::new_raw(source, "DELE", Color::Magenta, max_width, content))
            },
            EventData::PoolRegistration(cert) => {
                let content = Pieces::start("{ operator: ").text(cert.operator.as_str()).text(
                    ", pledge: ",
                ).number(cert.pledge).text(", cost: ").number(cert.cost).text(
                    ", margin: { numerator: ",
                ).number(cert.margin.numerator).text(", denominator: ").number(
                    cert.margin.denominator,
                ).text(" }, metadata: ").owned(optional_string_to_text(&cert.pool_metadata)).end();
                Some(LogLine::new_raw(source, "POOL+", Color::Magenta, max_width, content))
            },
            EventData::PoolRetirement(cert) => {
                let content = Pieces::start("{ pool: ").text(cert.pool.as_str()).text(
                    ", epoch: ",
                ).number(cert.epoch).end();
                Some(LogLine::new_raw(source, "POOL-", Color::DarkMagenta, max_width, content))
            },
            EventData::GenesisKeyDelegation(cert) => {
                let content = Pieces::start("{ genesis_hash: ").text(
                    cert.genesis_hash.as_str(),
                ).text(", genesis_delegate_hash: ").text(cert.genesis_delegate_hash.as_str()).text(
                    ", vrf_key_hash: ",
                ).text(cert.vrf_key_hash.as_str()).end();
                Some(LogLine::new_raw(source, "GENESIS", Color::Magenta, max_width, content))
            },
            EventData::MoveInstantaneousRewardsCert(cert) => {
                let content = Pieces::start("{ reserves: ").text(
                    bool_text(cert.from_reserves),
                ).text(", treasury: ").text(bool_text(cert.from_treasury)).text(
                    ", to_credentials: ",
                ).owned(optional_rewards_to_text(&cert.to_stake_credentials)).text(
                    ", to_other_pot: ",
                ).owned(optional_number_to_text(&cert.to_other_pot)).end();
                Some(LogLine::new_raw(source, "MOVE", Color::Magenta, max_width, content))
            },
            EventData::RollBack { block_slot, block_hash } => {
                let content = Pieces::start("{ slot: ").number(*block_slot).text(", hash: ").text(
                    block_hash.as_str(),
                ).end();
                Some(LogLine::new_raw(source, "RLLBCK", Color::Red, max_width, content))
            },
            EventData::Collateral { tx_id, index } => {
                let content = Pieces::start("{ tx_id: ").text(tx_id.as_str()).text(
                    ", index: ",
                ).number(*index).end();
                Some(LogLine::new_raw(source, "COLLAT", Color::Blue, max_width, content))
            },
            EventData::CIP25Asset(r) => {
                let content = Pieces::start("{ policy: ").text(r.policy.as_str()).text(
                    ", asset: ",
                ).text(r.asset.as_str()).text(", name: ").text(text_of(&r.name, "?")).text(
                    ", image: ",
                ).text(text_of(&r.image, "?")).end();
                Some(LogLine::new_raw(source, "CIP25", Color::DarkYellow, max_width, content))
            },
            EventData::CIP15Asset(r) => {
                let content = Pieces::start("{ voting key: ").text(r.voting_key.as_str()).text(
                    ", stake pub: ",
                ).text(r.stake_pub.as_str()).end();
                Some(LogLine::new_raw(source, "CIP15", Color::DarkYellow, max_width, content))
            },
            _ => None,
        }
    }
}

/// A character, `n` times.
pub open spec fn repeated(fill: char, n: nat) -> Seq<char>
    decreases n,
{
    if n == 0 {
        Seq::empty()
    } else {
        repeated(fill, (n - 1) as nat).push(fill)
    }
}

/// A text with as many fill characters before it as it lacks to the width.
pub open spec fn pad_start(text: Seq<char>, fill: char, width: nat) -> Seq<char> {
    if text.len() >= width {
        text
    } else {
        repeated(fill, (width - text.len()) as nat) + text
    }
}

/// A text with as many fill characters after it as it lacks to the width.
pub open spec fn pad_end(text: Seq<char>, fill: char, width: nat) -> Seq<char> {
    if text.len() >= width {
        text
    } else {
        text + repeated(fill, (width - text.len()) as nat)
    }
}

/// Where a line stands: the number of the block in at least seven digits
/// and the index of the transaction in at least two, or dashes where they
/// are not known.
pub open spec fn header_text(block_num: Option<u64>, tx_idx: Option<usize>) -> Seq<char> {
    "BLOCK:"@ + pad_start(
        match block_num {
            Some(n) => decimal(n as nat),
            None => "-------"@,
        },
        '0',
        7,
    ) + " \u{2588} TX:"@ + pad_start(
        match tx_idx {
            Some(n) => decimal(n as nat),
            None => "--"@,
        },
        '0',
        2,
    )
}

/// The label of a line, at least six characters wide.
pub open spec fn label_text(prefix: Seq<char>) -> Seq<char> {
    "\u{2588} "@ + pad_end(prefix, ' ', 6)
}

/// The length of a text in bytes of its UTF-8 encoding.
pub open spec fn byte_len(text: Seq<char>) -> usize {
    vstd::utf8::encode_utf8(text).len() as usize
}

/// How much of what a line says is shown: all of it where the width of
/// the terminal is not known, or where what it says is no longer in bytes
/// than the width that is left after the 35 columns before it; else its
/// beginning, cut to that width. A terminal of less than 35 columns
/// leaves no width to speak of.
pub open spec fn body_of(content: Seq<char>, max_width: Option<usize>) -> Body
    recommends
        max_width matches Some(x) ==> x >= 35,
{
    match max_width {
        Some(x) if x - 35 < byte_len(content) => Body::Cut((x - 35) as usize),
        _ => Body::Whole,
    }
}

fn repeat_text(fill: &str, count: usize) -> (text: String)
    requires
        fill@.len() == 1,
    ensures
        text@ == repeated(fill@[0], count as nat),
{
    let mut text = String::new();
    let mut i: usize = 0;
    while i < count
        invariant
            i <= count,
            fill@.len() == 1,
            text@ == repeated(fill@[0], i as nat),
        decreases count - i,
    {
        let ghost before = text@;
        text.append(fill);
        assert(text@ =~= before.push(fill@[0]));
        i += 1;
    }
    text
}

fn pad_start_zero(text: String, width: usize) -> (padded: String)
    ensures
        padded@ == pad_start(text@, '0', width as nat),
{
    let len = text.as_str().unicode_len();
    if len >= width {
        text
    } else {
        proof {
            reveal_strlit("0");
        }
        let mut padded = repeat_text("0", width - len);
        padded.append(text.as_str());
        padded
    }
}

fn pad_end_space(text: &str, width: usize) -> (padded: String)
    ensures
        padded@ == pad_end(text@, ' ', width as nat),
{
    let len = text.unicode_len();
    if len >= width {
        text.to_owned()
    } else {
        proof {
            reveal_strlit(" ");
        }
        let mut padded = text.to_owned();
        padded.append(repeat_text(" ", width - len).as_str());
        padded
    }
}

impl LogLine {
    /// Where the line stands.
    pub fn header(&self) -> (text: String)
        ensures
            text@ == header_text(self.block_num, self.tx_idx),
    {
        let block = match self.block_num {
            Some(n) => u64_to_string(n),
            None => "-------".to_owned(),
        };
        let tx = match self.tx_idx {
            Some(n) => u64_to_string(n as u64),
            None => "--".to_owned(),
        };
        let mut text = "BLOCK:".to_owned();
        text.append(pad_start_zero(block, 7).as_str());
        text.append(" \u{2588} TX:");
        text.append(pad_start_zero(tx, 2).as_str());
        text
    }

    /// The label of the line.
    pub fn label(&self) -> (text: String)
        ensures
            text@ == label_text(self.prefix@),
    {
        let mut text = "\u{2588} ".to_owned();
        text.append(pad_end_space(self.prefix, 6).as_str());
        text
    }

    /// How much of what the line says is shown. The width of the terminal
    /// is either not known or leaves room for the 35 columns before it.
    pub fn body(&self) -> (shown: Body)
        requires
            self.max_width matches Some(x) ==> x >= 35,
        ensures
            shown == body_of(self.content@, self.max_width),
    {
        match self.max_width {
            Some(x) => {
                let width: usize = x - 35;
                if width < self.content.as_str().len() {
                    Body::Cut(width)
                } else {
                    Body::Whole
                }
            },
            None => Body::Whole,
        }
    }

    /// The whole line without colours, around what it shows of what it
    /// says: where it stands, its label and what is shown, with a space
    /// between two of them and a line feed at the end.
    pub fn to_text(&self, shown: &str) -> (text: String)
        ensures
            text@ == header_text(self.block_num, self.tx_idx) + " "@ + label_text(self.prefix@)
                + " "@ + shown@ + "\n"@,
    {
        let mut text = self.header();
        text.append(" ");
        text.append(self.label().as_str());
        text.append(" ");
        text.append(shown);
        text.append("\n");
        text
    }
}

} // verus!
