//! Certificates: the record of each kind, and what a certificate is made of.
use crate::decoded;
use crate::mapper::EventWriter;
use crate::model::{
    AnchorRecord, AnchorRecordView, AuthCommitteeHotCertRecord, AuthCommitteeHotCertRecordView,
    CertificateRecord, CertificateRecordView, DRep, DRepView, EventData, EventDataView,
    GenesisKeyDelegationRecord, GenesisKeyDelegationRecordView,
    MoveInstantaneousRewardsCertRecord, MoveInstantaneousRewardsCertRecordView,
    PoolRegistrationRecord, PoolRegistrationRecordView, PoolRetirementRecord,
    PoolRetirementRecordView, RationalNumberRecord, RegCertRecord, RegCertRecordView,
    RegDRepCertRecord, RegDRepCertRecordView, ResignCommitteeColdCertRecord,
    ResignCommitteeColdCertRecordView, StakeCredential, StakeCredentialView,
    StakeDelegationRecord, StakeDelegationRecordView, StakeDeregistrationRecord,
    StakeDeregistrationRecordView, StakeRegDelegCertRecord, StakeRegDelegCertRecordView,
    StakeRegistrationRecord, StakeRegistrationRecordView, StakeVoteDelegCertRecord,
    StakeVoteDelegCertRecordView, StakeVoteRegDelegCertRecord, StakeVoteRegDelegCertRecordView,
    UnRegCertRecord, UnRegCertRecordView, UnRegDRepCertRecord, UnRegDRepCertRecordView,
    UpdateDRepCertRecord, UpdateDRepCertRecordView, VoteDelegCertRecord,
    VoteDelegCertRecordView, VoteRegDelegCertRecord, VoteRegDelegCertRecordView,
};
use crate::text::{
    decimal, hex_bytes, hex_string, lemma_hex_round_trip, u64_to_string, ToHex,
};
use crate::views::{opt_view, views};
use vstd::prelude::*;
use vstd::string::*;

verus! {

/// The hexadecimal text of each byte string.
pub open spec fn hex_strings(items: Seq<Vec<u8>>) -> Seq<Seq<char>> {
    Seq::new(items.len(), |i: int| hex_string(items[i]@))
}

/// Renders each byte string in hexadecimal, in order.
pub fn hex_all(items: &Vec<Vec<u8>>) -> (texts: Vec<String>)
    ensures
        views(texts@) == hex_strings(items@),
{
    let mut texts: Vec<String> = Vec::new();
    let mut i: usize = 0;
    while i < items.len()
        invariant
            i <= items.len(),
            texts.len() == i,
            forall|j: int| 0 <= j < i ==> texts@[j]@ == hex_string(items@[j]@),
        decreases items.len() - i,
    {
        texts.push(items[i].to_hex());
        i += 1;
    }
    assert(views(texts@) =~= hex_strings(items@));
    texts
}

/// The record of a credential: the same kind, the hash in hexadecimal.
pub open spec fn stake_credential_record(credential: decoded::StakeCredential) -> StakeCredentialView {
    match credential {
        decoded::StakeCredential::AddrKeyhash(x) => StakeCredentialView::AddrKeyhash(hex_string(x@)),
        decoded::StakeCredential::Scripthash(x) => StakeCredentialView::Scripthash(hex_string(x@)),
    }
}

impl StakeCredential {
    /// The record of a decoded credential.
    pub fn from(other: &decoded::StakeCredential) -> (record: StakeCredential)
        ensures
            record@ == stake_credential_record(*other),
    {
        match other {
            decoded::StakeCredential::AddrKeyhash(x) => StakeCredential::AddrKeyhash(x.to_hex()),
            decoded::StakeCredential::Scripthash(x) => StakeCredential::Scripthash(x.to_hex()),
        }
    }
}

/// The record of a credential keeps the credential: it has the kind of the
/// credential it was made from, and its text reads back as that
/// credential's hash.
pub proof fn lemma_stake_credential_round_trip(credential: decoded::StakeCredential)
    ensures
        match credential {
            decoded::StakeCredential::AddrKeyhash(hash) => {
                &&& stake_credential_record(credential) is AddrKeyhash
                &&& hex_bytes(stake_credential_record(credential)->AddrKeyhash_0) == hash@
            },
            decoded::StakeCredential::Scripthash(hash) => {
                &&& stake_credential_record(credential) is Scripthash
                &&& hex_bytes(stake_credential_record(credential)->Scripthash_0) == hash@
            },
        },
{
    match credential {
        decoded::StakeCredential::AddrKeyhash(hash) => lemma_hex_round_trip(hash@),
        decoded::StakeCredential::Scripthash(hash) => lemma_hex_round_trip(hash@),
    }
}

/// The record of a delegate representative.
pub open spec fn drep_record(drep: decoded::DRep) -> DRepView {
    match drep {
        decoded::DRep::Key(x) => DRepView::KeyHash(hex_string(x@)),
        decoded::DRep::Script(x) => DRepView::ScriptHash(hex_string(x@)),
        decoded::DRep::Abstain => DRepView::Abstain,
        decoded::DRep::NoConfidence => DRepView::NoConfidence,
    }
}

impl DRep {
    /// The record of a decoded delegate representative.
    pub fn from(other: &decoded::DRep) -> (record: DRep)
        ensures
            record@ == drep_record(*other),
    {
        match other {
            decoded::DRep::Key(x) => DRep::KeyHash(x.to_hex()),
            decoded::DRep::Script(x) => DRep::ScriptHash(x.to_hex()),
            decoded::DRep::Abstain => DRep::Abstain,
            decoded::DRep::NoConfidence => DRep::NoConfidence,
        }
    }
}

/// The record of an anchor: its address as it is, its hash in hexadecimal.
pub open spec fn anchor_record(anchor: decoded::Anchor) -> AnchorRecordView {
    AnchorRecordView { url: anchor.url@, data_hash: hex_string(anchor.data_hash@) }
}

impl AnchorRecord {
    /// The record of a decoded anchor.
    pub fn from(other: &decoded::Anchor) -> (record: AnchorRecord)
        ensures
            record@ == anchor_record(*other),
    {
        AnchorRecord { url: other.url.clone(), data_hash: other.data_hash.to_hex() }
    }
}

/// The record of an anchor that may be absent.
pub open spec fn option_anchor_record(anchor: Option<decoded::Anchor>) -> Option<AnchorRecordView> {
    match anchor {
        Some(a) => Some(anchor_record(a)),
        None => None,
    }
}

/// The record of an anchor that may be absent.
pub fn to_option_anchor_record(anchor: &Option<decoded::Anchor>) -> (record: Option<AnchorRecord>)
    ensures
        opt_view(record) == option_anchor_record(*anchor),
{
    match anchor {
        Some(anchor) => Some(AnchorRecord::from(anchor)),
        None => None,
    }
}

/// The dotted text of the first four bytes of an address.
pub open spec fn ip_text(bytes: Seq<u8>) -> Seq<char> {
    decimal(bytes[0] as nat) + seq!['.'] + decimal(bytes[1] as nat) + seq!['.'] + decimal(
        bytes[2] as nat,
    ) + seq!['.'] + decimal(bytes[3] as nat)
}

/// Renders the first four bytes as a dotted address such as `10.0.0.1`.
pub fn ip_string_from_bytes(bytes: &[u8]) -> (text: String)
    requires
        bytes.len() >= 4,
    ensures
        text@ == ip_text(bytes@),
{
    proof {
        reveal_strlit(".");
    }
    let mut text = u64_to_string(bytes[0] as u64);
    text.append(".");
    text.append(u64_to_string(bytes[1] as u64).as_str());
    text.append(".");
    text.append(u64_to_string(bytes[2] as u64).as_str());
    text.append(".");
    text.append(u64_to_string(bytes[3] as u64).as_str());
    assert(text@ =~= ip_text(bytes@));
    text
}

/// A host's text, followed by a colon and the port where there is one.
pub open spec fn with_port(host: Seq<char>, port: Option<u32>) -> Seq<char> {
    match port {
        Some(p) => host + seq![':'] + decimal(p as nat),
        None => host,
    }
}

/// The text of a relay. Of a relay by address, the IPv4 address where there
/// is one, else the first four bytes of the IPv6 address, else nothing.
pub open spec fn relay_text(relay: decoded::Relay) -> Seq<char> {
    match relay {
        decoded::Relay::SingleHostAddr(port, ipv4, ipv6) => {
            let ip = match (ipv6, ipv4) {
                (None, None) => Seq::<char>::empty(),
                (_, Some(x)) => ip_text(x@),
                (Some(x), None) => ip_text(x@),
            };
            with_port(ip, port)
        },
        decoded::Relay::SingleHostName(port, host) => with_port(host@, port),
        decoded::Relay::MultiHostName(host) => host@,
    }
}

fn host_with_port(host: String, port: &Option<u32>) -> (text: String)
    ensures
        text@ == with_port(host@, *port),
{
    match port {
        Some(port) => {
            proof {
                reveal_strlit(":");
            }
            let mut text = host;
            text.append(":");
            text.append(u64_to_string(*port as u64).as_str());
            assert(text@ =~= host@ + seq![':'] + decimal(*port as nat));
            text
        },
        None => host,
    }
}

/// Renders a relay as text.
pub fn relay_to_string(relay: &decoded::Relay) -> (text: String)
    ensures
        text@ == relay_text(*relay),
{
    match relay {
        decoded::Relay::SingleHostAddr(port, ipv4, ipv6) => {
            let ip = match ipv4 {
                Some(x) => ip_string_from_bytes(x.as_slice()),
                None => match ipv6 {
                    Some(x) => ip_string_from_bytes(x.as_slice()),
                    None => String::new(),
                },
            };
            host_with_port(ip, port)
        },
        decoded::Relay::SingleHostName(port, host) => host_with_port(host.clone(), port),
        decoded::Relay::MultiHostName(host) => host.clone(),
    }
}

/// The text of each relay.
pub open spec fn relay_texts(relays: Seq<decoded::Relay>) -> Seq<Seq<char>> {
    Seq::new(relays.len(), |i: int| relay_text(relays[i]))
}

fn relays_to_strings(relays: &Vec<decoded::Relay>) -> (texts: Vec<String>)
    ensures
        views(texts@) == relay_texts(relays@),
{
    let mut texts: Vec<String> = Vec::new();
    let mut i: usize = 0;
    while i < relays.len()
        invariant
            i <= relays.len(),
            texts.len() == i,
            forall|j: int| 0 <= j < i ==> texts@[j]@ == relay_text(relays@[j]),
        decreases relays.len() - i,
    {
        texts.push(relay_to_string(&relays[i]));
        i += 1;
    }
    assert(views(texts@) =~= relay_texts(relays@));
    texts
}

/// The record of each rewarded credential, with its amount.
pub open spec fn reward_records(entries: Seq<(decoded::StakeCredential, i64)>) -> Seq<
    (StakeCredentialView, i64),
> {
    Seq::new(entries.len(), |i: int| (stake_credential_record(entries[i].0), entries[i].1))
}

fn to_reward_records(entries: &Vec<(decoded::StakeCredential, i64)>) -> (records: Vec<
    (StakeCredential, i64),
>)
    ensures
        crate::model::reward_views(records@) == reward_records(entries@),
{
    let mut records: Vec<(StakeCredential, i64)> = Vec::new();
    let mut i: usize = 0;
    while i < entries.len()
        invariant
            i <= entries.len(),
            records.len() == i,
            forall|j: int|
                0 <= j < i ==> records@[j].0@ == stake_credential_record(entries@[j].0)
                    && records@[j].1 == entries@[j].1,
        decreases entries.len() - i,
    {
        records.push((StakeCredential::from(&entries[i].0), entries[i].1));
        i += 1;
    }
    assert(crate::model::reward_views(records@) =~= reward_records(entries@));
    records
}

/// The record of a movement of instantaneous rewards: exactly one source
/// is marked, and exactly one target is present.
pub open spec fn move_rewards_record(
    movement: decoded::MoveInstantaneousReward,
) -> MoveInstantaneousRewardsCertRecordView {
    MoveInstantaneousRewardsCertRecordView {
        from_reserves: movement.source is Reserves,
        from_treasury: movement.source is Treasury,
        to_stake_credentials: match movement.target {
            decoded::InstantaneousRewardTarget::StakeCredentials(creds) => Some(
                reward_records(creds@),
            ),
            decoded::InstantaneousRewardTarget::OtherAccountingPot(_) => None,
        },
        to_other_pot: match movement.target {
            decoded::InstantaneousRewardTarget::OtherAccountingPot(x) => Some(x),
            decoded::InstantaneousRewardTarget::StakeCredentials(_) => None,
        },
    }
}

/// The record of a certificate, kind by kind: hashes in hexadecimal,
/// amounts and epochs as they are.
pub open spec fn certificate_record(certificate: decoded::Certificate) -> CertificateRecordView {
    match certificate {
        decoded::Certificate::StakeRegistration(credential) => {
            CertificateRecordView::StakeRegistration(
                StakeRegistrationRecordView { credential: stake_credential_record(credential) },
            )
        },
        decoded::Certificate::StakeDeregistration(credential) => {
            CertificateRecordView::StakeDeregistration(
                StakeDeregistrationRecordView { credential: stake_credential_record(credential) },
            )
        },
        decoded::Certificate::StakeDelegation(credential, pool) => {
            CertificateRecordView::StakeDelegation(
                StakeDelegationRecordView {
                    credential: stake_credential_record(credential),
                    pool_hash: hex_string(pool@),
                },
            )
        },
        decoded::Certificate::PoolRegistration {
            operator,
            vrf_keyhash,
            pledge,
            cost,
            margin,
            reward_account,
            pool_owners,
            relays,
            pool_metadata,
        } => CertificateRecordView::PoolRegistration(
            PoolRegistrationRecordView {
                operator: hex_string(operator@),
                vrf_keyhash: hex_string(vrf_keyhash@),
                pledge,
                cost,
                margin: RationalNumberRecord {
                    numerator: margin.numerator,
                    denominator: margin.denominator,
                },
                reward_account: hex_string(reward_account@),
                pool_owners: hex_strings(pool_owners@),
                relays: relay_texts(relays@),
                pool_metadata: match pool_metadata {
                    Some(m) => Some(m.url@),
                    None => None,
                },
                pool_metadata_hash: match pool_metadata {
                    Some(m) => Some(hex_string(m.hash@)),
                    None => None,
                },
            },
        ),
        decoded::Certificate::PoolRetirement(pool, epoch) => CertificateRecordView::PoolRetirement(
            PoolRetirementRecordView { pool: hex_string(pool@), epoch },
        ),
        decoded::Certificate::GenesisKeyDelegation(
            genesis_hash,
            genesis_delegate_hash,
            vrf_key_hash,
        ) => CertificateRecordView::GenesisKeyDelegation(
            GenesisKeyDelegationRecordView {
                genesis_hash: hex_string(genesis_hash@),
                genesis_delegate_hash: hex_string(genesis_delegate_hash@),
                vrf_key_hash: hex_string(vrf_key_hash@),
            },
        ),
        decoded::Certificate::MoveInstantaneousRewardsCert(movement) => {
            CertificateRecordView::MoveInstantaneousRewardsCert(move_rewards_record(movement))
        },
        decoded::Certificate::Reg(credential, coin) => CertificateRecordView::RegCert(
            RegCertRecordView { credential: stake_credential_record(credential), coin },
        ),
        decoded::Certificate::UnReg(credential, coin) => CertificateRecordView::UnRegCert(
            UnRegCertRecordView { credential: stake_credential_record(credential), coin },
        ),
        decoded::Certificate::VoteDeleg(credential, drep) => CertificateRecordView::VoteDeleg(
            VoteDelegCertRecordView {
                credential: stake_credential_record(credential),
                drep: drep_record(drep),
            },
        ),
        decoded::Certificate::StakeVoteDeleg(credential, pool, drep) => {
            CertificateRecordView::StakeVoteDeleg(
                StakeVoteDelegCertRecordView {
                    credential: stake_credential_record(credential),
                    pool_keyhash: hex_string(pool@),
                    drep: drep_record(drep),
                },
            )
        },
        decoded::Certificate::StakeRegDeleg(credential, pool, coin) => {
            CertificateRecordView::StakeRegDeleg(
                StakeRegDelegCertRecordView {
                    credential: stake_credential_record(credential),
                    pool_keyhash: hex_string(pool@),
                    coin,
                },
            )
        },
        decoded::Certificate::VoteRegDeleg(credential, drep, coin) => {
            CertificateRecordView::VoteRegDeleg(
                VoteRegDelegCertRecordView {
                    credential: stake_credential_record(credential),
                    drep: drep_record(drep),
                    coin,
                },
            )
        },
        decoded::Certificate::StakeVoteRegDeleg(credential, pool, drep, coin) => {
            CertificateRecordView::StakeVoteRegDeleg(
                StakeVoteRegDelegCertRecordView {
                    credential: stake_credential_record(credential),
                    pool_keyhash: hex_string(pool@),
                    drep: drep_record(drep),
                    coin,
                },
            )
        },
        decoded::Certificate::AuthCommitteeHot(cold, hot) => CertificateRecordView::AuthCommitteeHot(
            AuthCommitteeHotCertRecordView {
                committee_cold_credential: stake_credential_record(cold),
                committee_hot_credential: stake_credential_record(hot),
            },
        ),
        decoded::Certificate::ResignCommitteeCold(cold, anchor) => {
            CertificateRecordView::ResignCommitteeCold(
                ResignCommitteeColdCertRecordView {
                    committee_cold_credential: stake_credential_record(cold),
                    anchor: option_anchor_record(anchor),
                },
            )
        },
        decoded::Certificate::RegDRepCert(credential, coin, anchor) => {
            CertificateRecordView::RegDRepCert(
                RegDRepCertRecordView {
                    credential: stake_credential_record(credential),
                    coin,
                    anchor: option_anchor_record(anchor),
                },
            )
        },
        decoded::Certificate::UnRegDRepCert(credential, coin) => {
            CertificateRecordView::UnRegDRepCert(
                UnRegDRepCertRecordView { credential: stake_credential_record(credential), coin },
            )
        },
        decoded::Certificate::UpdateDRepCert(credential, anchor) => {
            CertificateRecordView::UpdateDRepCert(
                UpdateDRepCertRecordView {
                    credential: stake_credential_record(credential),
                    anchor: option_anchor_record(anchor),
                },
            )
        },
    }
}

/// The event of a certificate record: the event of the same kind, about the
/// same record.
pub open spec fn certificate_event_of(record: CertificateRecordView) -> EventDataView {
    match record {
        CertificateRecordView::StakeRegistration(x) => EventDataView::StakeRegistration(x),
        CertificateRecordView::StakeDeregistration(x) => EventDataView::StakeDeregistration(x),
        CertificateRecordView::StakeDelegation(x) => EventDataView::StakeDelegation(x),
        CertificateRecordView::PoolRegistration(x) => EventDataView::PoolRegistration(x),
        CertificateRecordView::PoolRetirement(x) => EventDataView::PoolRetirement(x),
        CertificateRecordView::GenesisKeyDelegation(x) => EventDataView::GenesisKeyDelegation(x),
        CertificateRecordView::MoveInstantaneousRewardsCert(x) => {
            EventDataView::MoveInstantaneousRewardsCert(x)
        },
        CertificateRecordView::RegCert(x) => EventDataView::RegCert(x),
        CertificateRecordView::UnRegCert(x) => EventDataView::UnRegCert(x),
        CertificateRecordView::VoteDeleg(x) => EventDataView::VoteDeleg(x),
        CertificateRecordView::StakeVoteDeleg(x) => EventDataView::StakeVoteDeleg(x),
        CertificateRecordView::StakeRegDeleg(x) => EventDataView::StakeRegDeleg(x),
        CertificateRecordView::VoteRegDeleg(x) => EventDataView::VoteRegDeleg(x),
        CertificateRecordView::StakeVoteRegDeleg(x) => EventDataView::StakeVoteRegDeleg(x),
        CertificateRecordView::AuthCommitteeHot(x) => EventDataView::AuthCommitteeHot(x),
        CertificateRecordView::ResignCommitteeCold(x) => EventDataView::ResignCommitteeCold(x),
        CertificateRecordView::RegDRepCert(x) => EventDataView::RegDRepCert(x),
        CertificateRecordView::UnRegDRepCert(x) => EventDataView::UnRegDRepCert(x),
        CertificateRecordView::UpdateDRepCert(x) => EventDataView::UpdateDRepCert(x),
    }
}

/// The event of a certificate.
#[verifier::opaque]
pub open spec fn certificate_event(certificate: decoded::Certificate) -> EventDataView {
    certificate_event_of(certificate_record(certificate))
}

impl EventWriter {
    pub fn to_rational_number_record(&self, rational: &decoded::RationalNumber) -> (record:
        RationalNumberRecord)
        ensures
            record == (RationalNumberRecord {
                numerator: rational.numerator,
                denominator: rational.denominator,
            }),
    {
        RationalNumberRecord { numerator: rational.numerator, denominator: rational.denominator }
    }

    /// Converts one certificate into the record of its kind.
    pub fn to_certificate_record(&self, certificate: &decoded::Certificate) -> (record:
        CertificateRecord)
        ensures
            record@ == certificate_record(*certificate),
    {
        match certificate {
            decoded::Certificate::StakeRegistration(credential) => {
                CertificateRecord::StakeRegistration(
                    StakeRegistrationRecord { credential: StakeCredential::from(credential) },
                )
            },
            decoded::Certificate::StakeDeregistration(credential) => {
                CertificateRecord::StakeDeregistration(
                    StakeDeregistrationRecord { credential: StakeCredential::from(credential) },
                )
            },
            decoded::Certificate::StakeDelegation(credential, pool) => {
                CertificateRecord::StakeDelegation(
                    StakeDelegationRecord {
                        credential: StakeCredential::from(credential),
                        pool_hash: pool.to_hex(),
                    },
                )
            },
            decoded::Certificate::PoolRegistration {
                operator,
                vrf_keyhash,
                pledge,
                cost,
                margin,
                reward_account,
                pool_owners,
                relays,
                pool_metadata,
            } => CertificateRecord::PoolRegistration(
                PoolRegistrationRecord {
                    operator: operator.to_hex(),
                    vrf_keyhash: vrf_keyhash.to_hex(),
                    pledge: *pledge,
                    cost: *cost,
                    margin: self.to_rational_number_record(margin),
                    reward_account: reward_account.to_hex(),
                    pool_owners: hex_all(pool_owners),
                    relays: relays_to_strings(relays),
                    pool_metadata: match pool_metadata {
                        Some(m) => Some(m.url.clone()),
                        None => None,
                    },
                    pool_metadata_hash: match pool_metadata {
                        Some(m) => Some(m.hash.to_hex()),
                        None => None,
                    },
                },
            ),
            decoded::Certificate::PoolRetirement(pool, epoch) => CertificateRecord::PoolRetirement(
                PoolRetirementRecord { pool: pool.to_hex(), epoch: *epoch },
            ),
            decoded::Certificate::MoveInstantaneousRewardsCert(movement) => {
                CertificateRecord::MoveInstantaneousRewardsCert(
                    MoveInstantaneousRewardsCertRecord {
                        from_reserves: match movement.source {
                            decoded::InstantaneousRewardSource::Reserves => true,
                            decoded::InstantaneousRewardSource::Treasury => false,
                        },
                        from_treasury: match movement.source {
                            decoded::InstantaneousRewardSource::Reserves => false,
                            decoded::InstantaneousRewardSource::Treasury => true,
                        },
                        to_stake_credentials: match &movement.target {
                            decoded::InstantaneousRewardTarget::StakeCredentials(creds) => Some(
                                to_reward_records(creds),
                            ),
                            decoded::InstantaneousRewardTarget::OtherAccountingPot(_) => None,
                        },
                        to_other_pot: match &movement.target {
                            decoded::InstantaneousRewardTarget::OtherAccountingPot(x) => Some(*x),
                            decoded::InstantaneousRewardTarget::StakeCredentials(_) => None,
                        },
                    },
                )
            },
            decoded::Certificate::GenesisKeyDelegation(
                genesis_hash,
                genesis_delegate_hash,
                vrf_key_hash,
            ) => CertificateRecord::GenesisKeyDelegation(
                GenesisKeyDelegationRecord {
                    genesis_hash: genesis_hash.to_hex(),
                    genesis_delegate_hash: genesis_delegate_hash.to_hex(),
                    vrf_key_hash: vrf_key_hash.to_hex(),
                },
            ),
            decoded::Certificate::Reg(credential, coin) => CertificateRecord::RegCert(
                RegCertRecord { credential: StakeCredential::from(credential), coin: *coin },
            ),
            decoded::Certificate::UnReg(credential, coin) => CertificateRecord::UnRegCert(
                UnRegCertRecord { credential: StakeCredential::from(credential), coin: *coin },
            ),
            decoded::Certificate::VoteDeleg(credential, drep) => CertificateRecord::VoteDeleg(
                VoteDelegCertRecord {
                    credential: StakeCredential::from(credential),
                    drep: DRep::from(drep),
                },
            ),
            decoded::Certificate::StakeVoteDeleg(credential, pool, drep) => {
                CertificateRecord::StakeVoteDeleg(
                    StakeVoteDelegCertRecord {
                        credential: StakeCredential::from(credential),
                        pool_keyhash: pool.to_hex(),
                        drep: DRep::from(drep),
                    },
                )
            },
            decoded::Certificate::StakeRegDeleg(credential, pool, coin) => {
                CertificateRecord::StakeRegDeleg(
                    StakeRegDelegCertRecord {
                        credential: StakeCredential::from(credential),
                        pool_keyhash: pool.to_hex(),
                        coin: *coin,
                    },
                )
            },
            decoded::Certificate::VoteRegDeleg(credential, drep, coin) => {
                CertificateRecord::VoteRegDeleg(
                    VoteRegDelegCertRecord {
                        credential: StakeCredential::from(credential),
                        drep: DRep::from(drep),
                        coin: *coin,
                    },
                )
            },
            decoded::Certificate::StakeVoteRegDeleg(credential, pool, drep, coin) => {
                CertificateRecord::StakeVoteRegDeleg(
                    StakeVoteRegDelegCertRecord {
                        credential: StakeCredential::from(credential),
                        pool_keyhash: pool.to_hex(),
                        drep: DRep::from(drep),
                        coin: *coin,
                    },
                )
            },
            decoded::Certificate::AuthCommitteeHot(cold, hot) => {
                CertificateRecord::AuthCommitteeHot(
                    AuthCommitteeHotCertRecord {
                        committee_cold_credential: StakeCredential::from(cold),
                        committee_hot_credential: StakeCredential::from(hot),
                    },
                )
            },
            decoded::Certificate::ResignCommitteeCold(cold, anchor) => {
                CertificateRecord::ResignCommitteeCold(
                    ResignCommitteeColdCertRecord {
                        committee_cold_credential: StakeCredential::from(cold),
                        anchor: to_option_anchor_record(anchor),
                    },
                )
            },
            decoded::Certificate::RegDRepCert(drep, coin, anchor) => {
                CertificateRecord::RegDRepCert(
                    RegDRepCertRecord {
                        credential: StakeCredential::from(drep),
                        coin: *coin,
                        anchor: to_option_anchor_record(anchor),
                    },
                )
            },
            decoded::Certificate::UnRegDRepCert(drep, coin) => CertificateRecord::UnRegDRepCert(
                UnRegDRepCertRecord { credential: StakeCredential::from(drep), coin: *coin },
            ),
            decoded::Certificate::UpdateDRepCert(credential, anchor) => {
                CertificateRecord::UpdateDRepCert(
                    UpdateDRepCertRecord {
                        credential: StakeCredential::from(credential),
                        anchor: to_option_anchor_record(anchor),
                    },
                )
            },
        }
    }

    /// Converts one certificate into the event of its kind.
    pub fn to_certificate_event(&self, certificate: &decoded::Certificate) -> (data: EventData)
        ensures
            data@ == certificate_event(*certificate),
    {
        reveal(certificate_event);
        let certificate_record = self.to_certificate_record(certificate);
        match certificate_record {
            CertificateRecord::StakeRegistration(cert_record) => {
                EventData::StakeRegistration(cert_record)
            },
            CertificateRecord::StakeDeregistration(cert_record) => {
                EventData::StakeDeregistration(cert_record)
            },
            CertificateRecord::StakeDelegation(cert_record) => {
                EventData::StakeDelegation(cert_record)
            },
            CertificateRecord::PoolRegistration(cert_record) => {
                EventData::PoolRegistration(cert_record)
            },
            CertificateRecord::PoolRetirement(cert_record) => EventData::PoolRetirement(cert_record),
            CertificateRecord::MoveInstantaneousRewardsCert(cert_record) => {
                EventData::MoveInstantaneousRewardsCert(cert_record)
            },
            CertificateRecord::GenesisKeyDelegation(cert_record) => {
                EventData::GenesisKeyDelegation(cert_record)
            },
            CertificateRecord::RegCert(cert_record) => EventData::RegCert(cert_record),
            CertificateRecord::UnRegCert(cert_record) => EventData::UnRegCert(cert_record),
            CertificateRecord::VoteDeleg(cert_record) => EventData::VoteDeleg(cert_record),
            CertificateRecord::StakeVoteDeleg(cert_record) => EventData::StakeVoteDeleg(cert_record),
            CertificateRecord::StakeRegDeleg(cert_record) => EventData::StakeRegDeleg(cert_record),
            CertificateRecord::VoteRegDeleg(cert_record) => EventData::VoteRegDeleg(cert_record),
            CertificateRecord::StakeVoteRegDeleg(cert_record) => {
                EventData::StakeVoteRegDeleg(cert_record)
            },
            CertificateRecord::AuthCommitteeHot(cert_record) => {
                EventData::AuthCommitteeHot(cert_record)
            },
            CertificateRecord::ResignCommitteeCold(cert_record) => {
                EventData::ResignCommitteeCold(cert_record)
            },
            CertificateRecord::RegDRepCert(cert_record) => EventData::RegDRepCert(cert_record),
            CertificateRecord::UnRegDRepCert(cert_record) => EventData::UnRegDRepCert(cert_record),
            CertificateRecord::UpdateDRepCert(cert_record) => EventData::UpdateDRepCert(cert_record),
        }
    }
}

} // verus!
