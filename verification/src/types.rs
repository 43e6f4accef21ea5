//! The vocabulary of the cluster: identities, limits, capabilities, requests and the errors a
//! client is given.

use vstd::prelude::*;

use crate::text;
use crate::time::Duration;

verus! {

/// A node's number.
#[derive(Clone, Copy, PartialEq, Eq, Structural, Debug, PartialOrd, Ord, Hash)]
pub struct NodeId(pub u64);

/// A cluster's id: sixteen bytes, held as one number, the first byte the most significant.
#[derive(Clone, Copy, PartialEq, Eq, Structural, Debug, Hash)]
pub struct ClusterId(pub u128);

/// How often a cluster has been recovered. An identity is the pair of a cluster and an epoch.
#[derive(Clone, Copy, PartialEq, Eq, Structural, Debug, Hash)]
pub struct RecoveryEpoch(pub u64);

/// Who a node is.
#[derive(Clone, Copy, PartialEq, Eq, Structural, Debug, Hash)]
pub struct ClusterIdentity {
    /// The cluster.
    pub cluster_id: ClusterId,
    /// Its recovery epoch.
    pub recovery_epoch: RecoveryEpoch,
    /// The node within it.
    pub node_id: NodeId,
}

/// A store or a plan is bound to another identity than the node.
#[derive(Clone, Copy, PartialEq, Eq, Structural, Debug)]
pub struct IdentityMismatch {
    /// What the store, or this node, is bound to.
    pub stored: ClusterIdentity,
    /// What was asked for.
    pub configured: ClusterIdentity,
}

/// The value of `bytes`, the first byte the most significant.
pub open spec fn big_endian(bytes: Seq<u8>) -> nat
    decreases bytes.len(),
{
    if bytes.len() == 0 {
        0
    } else {
        big_endian(bytes.drop_last()) * 256 + bytes.last() as nat
    }
}

/// The last `width` hexadecimal digits of `n`, with leading zeros.
pub open spec fn hex_digits(n: nat, width: nat) -> Seq<char>
    decreases width,
{
    if width == 0 {
        Seq::empty()
    } else {
        hex_digits(n / 16, (width - 1) as nat).push(text::digit(n % 16))
    }
}

proof fn big_endian_bound(bytes: Seq<u8>)
    requires
        bytes.len() <= 16,
    ensures
        big_endian(bytes) < crate::number::two_to(8 * bytes.len()),
    decreases bytes.len(),
{
    if bytes.len() > 0 {
        big_endian_bound(bytes.drop_last());
        eight_more((8 * (bytes.len() - 1)) as nat);
    }
}

/// The hexadecimal digits of a big-endian number are the hexadecimal text of its bytes.
pub proof fn digits_of_bytes(bytes: Seq<u8>)
    ensures
        hex_digits(big_endian(bytes), 2 * bytes.len()) == text::hex(bytes),
    decreases bytes.len(),
{
    if bytes.len() > 0 {
        digits_of_bytes(bytes.drop_last());
        let n = big_endian(bytes);
        let last = bytes.last() as nat;
        assert(n % 16 == last % 16);
        assert((n / 16) % 16 == last / 16);
        assert(n / 16 / 16 == big_endian(bytes.drop_last()));
        reveal_with_fuel(hex_digits, 3);
    }
}

fn push_hex_digits(out: &mut String, n: u128, width: u8)
    ensures
        final(out)@ == old(out)@ + hex_digits(n as nat, width as nat),
    decreases width,
{
    if width > 0 {
        push_hex_digits(out, n / 16, width - 1);
        text::push_digit(out, (n % 16) as u8);
        assert(old(out)@ + hex_digits(n as nat, width as nat) =~= (old(out)@ + hex_digits(
            n as nat / 16,
            (width - 1) as nat,
        )).push(text::digit(n as nat % 16)));
    } else {
        assert(old(out)@ + hex_digits(n as nat, width as nat) =~= old(out)@);
    }
}

impl ClusterId {
    /// The text of a cluster id: 32 lowercase hexadecimal digits.
    pub open spec fn text(&self) -> Seq<char> {
        hex_digits(self.0 as nat, 32)
    }

    /// The id with the given bytes.
    pub fn from_bytes(bytes: [u8; 16]) -> (id: ClusterId)
        ensures
            id.0 == big_endian(bytes@),
            id.text() == text::hex(bytes@),
    {
        let mut n: u128 = 0;
        let mut i: usize = 0;
        while i < 16
            invariant
                i <= 16,
                bytes@.len() == 16,
                n == big_endian(bytes@.take(i as int)),
            decreases 16 - i,
        {
            assert(bytes@.take(i + 1).drop_last() =~= bytes@.take(i as int));
            proof {
                big_endian_bound(bytes@.take(i + 1));
                number_bound((8 * (i + 1)) as nat);
            }
            n = n * 256 + bytes[i] as u128;
            i = i + 1;
        }
        assert(bytes@.take(16) =~= bytes@);
        proof {
            digits_of_bytes(bytes@);
        }
        ClusterId(n)
    }

    /// The id's text.
    pub fn describe(&self) -> (r: String)
        ensures
            r@ == self.text(),
    {
        let mut out = String::new();
        push_hex_digits(&mut out, self.0, 32);
        assert(out@ =~= self.text());
        out
    }
}

proof fn eight_more(n: nat)
    ensures
        crate::number::two_to(n + 8) == 256 * crate::number::two_to(n),
{
    reveal_with_fuel(crate::number::two_to, 9);
}

proof fn number_bound(n: nat)
    requires
        n <= 128,
    ensures
        crate::number::two_to(n) <= 0x1_0000_0000_0000_0000_0000_0000_0000_0000,
        crate::number::two_to(128) == 0x1_0000_0000_0000_0000_0000_0000_0000_0000,
{
    assert(crate::number::two_to(0) == 1);
    eight_more(0);
    eight_more(8);
    eight_more(16);
    eight_more(24);
    eight_more(32);
    eight_more(40);
    eight_more(48);
    eight_more(56);
    eight_more(64);
    eight_more(72);
    eight_more(80);
    eight_more(88);
    eight_more(96);
    eight_more(104);
    eight_more(112);
    eight_more(120);
    crate::number::two_to_grows(n, 128);
}

impl ClusterIdentity {
    /// The text of an identity.
    pub open spec fn text(&self) -> Seq<char> {
        "cluster "@ + self.cluster_id.text() + " epoch "@ + text::decimal(
            self.recovery_epoch.0 as nat,
        ) + " node "@ + text::decimal(self.node_id.0 as nat)
    }

    /// Append the identity's text.
    pub fn push_to(&self, out: &mut String)
        ensures
            final(out)@ == old(out)@ + self.text(),
    {
        text::push_text(out, "cluster ");
        push_hex_digits(out, self.cluster_id.0, 32);
        text::push_text(out, " epoch ");
        text::push_decimal(out, self.recovery_epoch.0 as u128);
        text::push_text(out, " node ");
        text::push_decimal(out, self.node_id.0 as u128);
        assert(out@ =~= old(out)@ + self.text());
    }
}

impl IdentityMismatch {
    /// The text of a mismatch: both identities.
    pub open spec fn text(&self) -> Seq<char> {
        "identity mismatch: bound to "@ + self.stored.text() + ", configured as "@
            + self.configured.text()
    }

    /// The mismatch as text.
    pub fn describe(&self) -> (r: String)
        ensures
            r@ == self.text(),
    {
        let mut out = "identity mismatch: bound to ".to_owned();
        self.stored.push_to(&mut out);
        text::push_text(&mut out, ", configured as ");
        self.configured.push_to(&mut out);
        out
    }
}

/// Where a client should retry: a committed member and its committed client endpoint.
#[derive(PartialEq, Eq, Debug)]
pub struct LeaderHint {
    /// The leader.
    pub node_id: NodeId,
    /// Its client endpoint.
    pub endpoint: String,
}

/// What a [`LeaderHint`] says.
pub struct LeaderHintModel {
    pub node_id: NodeId,
    pub endpoint: Seq<char>,
}

impl View for LeaderHint {
    type V = LeaderHintModel;

    open spec fn view(&self) -> LeaderHintModel {
        LeaderHintModel { node_id: self.node_id, endpoint: self.endpoint@ }
    }
}

impl Clone for LeaderHint {
    fn clone(&self) -> (r: Self)
        ensures
            r == *self,
    {
        LeaderHint { node_id: self.node_id, endpoint: self.endpoint.clone() }
    }
}

/// What an optional hint says.
pub open spec fn hint_model(hint: Option<LeaderHint>) -> Option<LeaderHintModel> {
    match hint {
        Some(h) => Some(h@),
        None => None,
    }
}

/// A copy of an optional hint.
pub fn clone_hint(hint: &Option<LeaderHint>) -> (r: Option<LeaderHint>)
    ensures
        r == *hint,
{
    match hint {
        Some(h) => Some(h.clone()),
        None => None,
    }
}

/// Whether two optional hints say the same.
pub fn same_hint(a: &Option<LeaderHint>, b: &Option<LeaderHint>) -> (r: bool)
    ensures
        r == (hint_model(*a) == hint_model(*b)),
{
    match (a, b) {
        (Some(x), Some(y)) => x.node_id == y.node_id && x.endpoint == y.endpoint,
        (None, None) => true,
        _ => false,
    }
}

/// Why a continuation of a paginated walk was refused.
#[derive(Clone, Copy, PartialEq, Eq, Structural, Debug, Hash)]
pub enum PageTokenExpiredReason {
    /// The token does not open under this node's key.
    Invalid,
    /// The walk took longer than a pin lives.
    Expired,
    /// The pin was dropped to make room.
    Evicted,
    /// The policy changed since the token was issued.
    PolicyVersion,
    /// Another node issued the token, or this one before it was restarted.
    Node,
}

impl PageTokenExpiredReason {
    /// The name of a reason.
    pub open spec fn name(self) -> Seq<char> {
        match self {
            PageTokenExpiredReason::Invalid => "invalid"@,
            PageTokenExpiredReason::Expired => "expired"@,
            PageTokenExpiredReason::Evicted => "evicted"@,
            PageTokenExpiredReason::PolicyVersion => "policy_version"@,
            PageTokenExpiredReason::Node => "node"@,
        }
    }

    /// The log and metric spelling of this reason.
    pub fn as_str(self) -> (r: &'static str)
        ensures
            r@ == self.name(),
    {
        match self {
            PageTokenExpiredReason::Invalid => "invalid",
            PageTokenExpiredReason::Expired => "expired",
            PageTokenExpiredReason::Evicted => "evicted",
            PageTokenExpiredReason::PolicyVersion => "policy_version",
            PageTokenExpiredReason::Node => "node",
        }
    }
}

/// The class of status an error is reported under.
#[derive(Clone, Copy, PartialEq, Eq, Structural, Debug, Hash)]
pub enum StatusClass {
    /// Ask elsewhere or later.
    Unavailable,
    /// The request is wrong.
    InvalidArgument,
    /// This node failed.
    Internal,
    /// The caller may not.
    PermissionDenied,
    /// A limit was reached.
    ResourceExhausted,
    /// The position asked for is gone.
    OutOfRange,
    /// The outcome is unknown.
    DeadlineExceeded,
    /// The caller's view is out of date.
    FailedPrecondition,
}

/// What a client is told when a request does not succeed.
#[derive(PartialEq, Eq, Debug)]
#[allow(inconsistent_fields)]
pub enum ConfigError {
    /// This node is not the leader.
    NotLeader {
        /// Where to retry, when the leader's committed endpoint is known.
        hint: Option<LeaderHint>,
    },
    /// The request is wrong; sending it again cannot help.
    InvalidArgument { detail: String },
    /// The request was refused before it entered the log; sending it again is safe.
    Unavailable { reason: String },
    /// This node's store or state machine failed.
    FatalStorage { detail: String },
    /// The caller may not do this.
    PermissionDenied { detail: String },
    /// A limit was reached.
    ResourceExhausted {
        detail: String,
        /// Whether the caller can go on from where it was.
        resumable: bool,
    },
    /// The revision asked for has been compacted away.
    RevisionCompacted { minimum_available_revision: u64 },
    /// A mutation was submitted and its outcome is not known.
    DeadlineExceededUnknownOutcome,
    /// A page token is no longer good; the walk starts over.
    PageTokenExpired { reason: PageTokenExpiredReason },
    /// The grants that cover a watch changed; it starts over under the new ones.
    PolicyChanged,
}

/// What a [`ConfigError`] says.
#[allow(inconsistent_fields)]
pub enum ConfigErrorModel {
    NotLeader { hint: Option<LeaderHintModel> },
    InvalidArgument { detail: Seq<char> },
    Unavailable { reason: Seq<char> },
    FatalStorage { detail: Seq<char> },
    PermissionDenied { detail: Seq<char> },
    ResourceExhausted { detail: Seq<char>, resumable: bool },
    RevisionCompacted { minimum_available_revision: u64 },
    DeadlineExceededUnknownOutcome,
    PageTokenExpired { reason: PageTokenExpiredReason },
    PolicyChanged,
}

impl View for ConfigError {
    type V = ConfigErrorModel;

    open spec fn view(&self) -> ConfigErrorModel {
        match self {
            ConfigError::NotLeader { hint } => ConfigErrorModel::NotLeader {
                hint: hint_model(*hint),
            },
            ConfigError::InvalidArgument { detail } => ConfigErrorModel::InvalidArgument {
                detail: detail@,
            },
            ConfigError::Unavailable { reason } => ConfigErrorModel::Unavailable {
                reason: reason@,
            },
            ConfigError::FatalStorage { detail } => ConfigErrorModel::FatalStorage {
                detail: detail@,
            },
            ConfigError::PermissionDenied { detail } => ConfigErrorModel::PermissionDenied {
                detail: detail@,
            },
            ConfigError::ResourceExhausted { detail, resumable } =>
                ConfigErrorModel::ResourceExhausted { detail: detail@, resumable: *resumable },
            ConfigError::RevisionCompacted { minimum_available_revision } =>
                ConfigErrorModel::RevisionCompacted {
                minimum_available_revision: *minimum_available_revision,
            },
            ConfigError::DeadlineExceededUnknownOutcome =>
                ConfigErrorModel::DeadlineExceededUnknownOutcome,
            ConfigError::PageTokenExpired { reason } => ConfigErrorModel::PageTokenExpired {
                reason: *reason,
            },
            ConfigError::PolicyChanged => ConfigErrorModel::PolicyChanged,
        }
    }
}

impl ConfigErrorModel {
    /// An unavailable node, for the given reason.
    pub open spec fn unavailable(reason: Seq<char>) -> ConfigErrorModel {
        ConfigErrorModel::Unavailable { reason }
    }

    /// Whether sending the same request again cannot apply it twice: it never entered the log.
    pub open spec fn safe_to_resubmit(self) -> bool {
        self is Unavailable || self is NotLeader
    }

    /// The status class of an error.
    pub open spec fn class(self) -> StatusClass {
        match self {
            ConfigErrorModel::NotLeader { .. } => StatusClass::FailedPrecondition,
            ConfigErrorModel::InvalidArgument { .. } => StatusClass::InvalidArgument,
            ConfigErrorModel::Unavailable { .. } => StatusClass::Unavailable,
            ConfigErrorModel::FatalStorage { .. } => StatusClass::Internal,
            ConfigErrorModel::PermissionDenied { .. } => StatusClass::PermissionDenied,
            ConfigErrorModel::ResourceExhausted { .. } => StatusClass::ResourceExhausted,
            ConfigErrorModel::RevisionCompacted { .. } => StatusClass::OutOfRange,
            ConfigErrorModel::DeadlineExceededUnknownOutcome => StatusClass::DeadlineExceeded,
            ConfigErrorModel::PageTokenExpired { .. } => StatusClass::FailedPrecondition,
            ConfigErrorModel::PolicyChanged => StatusClass::FailedPrecondition,
        }
    }

    /// The text of an error.
    pub open spec fn text(self) -> Seq<char> {
        match self {
            ConfigErrorModel::NotLeader { hint } => "not leader"@ + hint_text(hint),
            ConfigErrorModel::InvalidArgument { detail } => "invalid argument: "@ + detail,
            ConfigErrorModel::Unavailable { reason } => "unavailable: "@ + reason,
            ConfigErrorModel::FatalStorage { detail } => "fatal storage error: "@ + detail,
            ConfigErrorModel::PermissionDenied { detail } => "permission denied: "@ + detail,
            ConfigErrorModel::ResourceExhausted { detail, .. } => "resource exhausted: "@ + detail,
            ConfigErrorModel::RevisionCompacted { minimum_available_revision } =>
                "revision compacted; the oldest available is "@ + text::decimal(
                minimum_available_revision as nat,
            ),
            ConfigErrorModel::DeadlineExceededUnknownOutcome =>
                "deadline exceeded; the outcome is unknown"@,
            ConfigErrorModel::PageTokenExpired { reason } => "page token expired: "@
                + reason.name(),
            ConfigErrorModel::PolicyChanged => "policy_changed"@,
        }
    }
}

/// How a hint is added to a refusal's text.
pub open spec fn hint_text(hint: Option<LeaderHintModel>) -> Seq<char> {
    match hint {
        Some(h) => " (try node "@ + text::decimal(h.node_id.0 as nat) + " at "@ + h.endpoint
            + ")"@,
        None => Seq::empty(),
    }
}

/// Append what a hint adds to a refusal's text.
pub fn push_hint(out: &mut String, hint: &Option<LeaderHint>)
    ensures
        final(out)@ == old(out)@ + hint_text(hint_model(*hint)),
{
    if let Some(h) = hint {
        text::push_text(out, " (try node ");
        text::push_decimal(out, h.node_id.0 as u128);
        text::push_text(out, " at ");
        text::push_text(out, h.endpoint.as_str());
        text::push_text(out, ")");
    }
    assert(out@ =~= old(out)@ + hint_text(hint_model(*hint)));
}

impl Clone for ConfigError {
    fn clone(&self) -> (r: Self)
        ensures
            r == *self,
    {
        match self {
            ConfigError::NotLeader { hint } => ConfigError::NotLeader { hint: clone_hint(hint) },
            ConfigError::InvalidArgument { detail } => ConfigError::InvalidArgument {
                detail: detail.clone(),
            },
            ConfigError::Unavailable { reason } => ConfigError::Unavailable {
                reason: reason.clone(),
            },
            ConfigError::FatalStorage { detail } => ConfigError::FatalStorage {
                detail: detail.clone(),
            },
            ConfigError::PermissionDenied { detail } => ConfigError::PermissionDenied {
                detail: detail.clone(),
            },
            ConfigError::ResourceExhausted { detail, resumable } => ConfigError::ResourceExhausted {
                detail: detail.clone(),
                resumable: *resumable,
            },
            ConfigError::RevisionCompacted { minimum_available_revision } =>
                ConfigError::RevisionCompacted {
                minimum_available_revision: *minimum_available_revision,
            },
            ConfigError::DeadlineExceededUnknownOutcome =>
                ConfigError::DeadlineExceededUnknownOutcome,
            ConfigError::PageTokenExpired { reason } => ConfigError::PageTokenExpired {
                reason: *reason,
            },
            ConfigError::PolicyChanged => ConfigError::PolicyChanged,
        }
    }
}

impl ConfigError {
    /// Unavailable, for the given reason.
    pub fn unavailable(reason: &str) -> (e: ConfigError)
        ensures
            e@ == ConfigErrorModel::unavailable(reason@),
    {
        ConfigError::Unavailable { reason: reason.to_owned() }
    }

    /// Whether sending the same request again cannot apply it twice.
    pub fn is_safe_to_resubmit(&self) -> (r: bool)
        ensures
            r == self@.safe_to_resubmit(),
    {
        match self {
            ConfigError::Unavailable { .. } => true,
            ConfigError::NotLeader { .. } => true,
            _ => false,
        }
    }

    /// The class of status this error is reported under.
    pub fn kind(&self) -> (r: StatusClass)
        ensures
            r == self@.class(),
    {
        match self {
            ConfigError::NotLeader { .. } => StatusClass::FailedPrecondition,
            ConfigError::InvalidArgument { .. } => StatusClass::InvalidArgument,
            ConfigError::Unavailable { .. } => StatusClass::Unavailable,
            ConfigError::FatalStorage { .. } => StatusClass::Internal,
            ConfigError::PermissionDenied { .. } => StatusClass::PermissionDenied,
            ConfigError::ResourceExhausted { .. } => StatusClass::ResourceExhausted,
            ConfigError::RevisionCompacted { .. } => StatusClass::OutOfRange,
            ConfigError::DeadlineExceededUnknownOutcome => StatusClass::DeadlineExceeded,
            ConfigError::PageTokenExpired { .. } => StatusClass::FailedPrecondition,
            ConfigError::PolicyChanged => StatusClass::FailedPrecondition,
        }
    }

    /// The error as text.
    pub fn describe(&self) -> (r: String)
        ensures
            r@ == self@.text(),
    {
        match self {
            ConfigError::NotLeader { hint } => {
                let mut out = "not leader".to_owned();
                push_hint(&mut out, hint);
                out
            },
            ConfigError::InvalidArgument { detail } => text::two(
                "invalid argument: ",
                detail.as_str(),
            ),
            ConfigError::Unavailable { reason } => text::two("unavailable: ", reason.as_str()),
            ConfigError::FatalStorage { detail } => text::two(
                "fatal storage error: ",
                detail.as_str(),
            ),
            ConfigError::PermissionDenied { detail } => text::two(
                "permission denied: ",
                detail.as_str(),
            ),
            ConfigError::ResourceExhausted { detail, .. } => text::two(
                "resource exhausted: ",
                detail.as_str(),
            ),
            ConfigError::RevisionCompacted { minimum_available_revision } => {
                let mut out = "revision compacted; the oldest available is ".to_owned();
                text::push_decimal(&mut out, *minimum_available_revision as u128);
                out
            },
            ConfigError::DeadlineExceededUnknownOutcome =>
                "deadline exceeded; the outcome is unknown".to_owned(),
            ConfigError::PageTokenExpired { reason } => text::two(
                "page token expired: ",
                reason.as_str(),
            ),
            ConfigError::PolicyChanged => "policy_changed".to_owned(),
        }
    }
}

/// A caller, as the transport established it.
#[derive(PartialEq, Eq, Debug)]
pub struct Principal {
    /// Its name.
    pub name: String,
}

/// What a caller asks to do with a key or a prefix.
#[derive(Clone, Copy, PartialEq, Eq, Structural, Debug, Hash)]
pub enum Action {
    /// Read it.
    Read,
    /// Change it.
    Write,
}

/// Caps on the bounded deduplication index.
#[derive(Clone, Copy, PartialEq, Eq, Structural, Debug)]
pub struct DedupLimits {
    /// Whether outcomes are retained at all.
    pub enabled: bool,
    /// How many requests of one client a resubmission survives.
    pub window_requests: u32,
}

/// Caps that every voter applies alike.
#[derive(Clone, Copy, PartialEq, Eq, Structural, Debug)]
pub struct Limits {
    /// The longest key, in bytes.
    pub max_key_bytes: usize,
    /// Deduplication.
    pub dedup: DedupLimits,
}

/// Caps on watch streams.
#[derive(Clone, Copy, PartialEq, Eq, Structural, Debug)]
pub struct WatchLimits {
    /// Streams a node serves at once.
    pub max_streams_per_node: u32,
    /// Streams one principal holds at once.
    pub max_streams_per_principal: u32,
    /// Events one stream's queue holds.
    pub queue_events: u32,
    /// Bytes one stream's queue holds.
    pub queue_bytes: u64,
    /// Batches the shared live buffer holds.
    pub live_buffer_batches: u32,
}

/// When a leader compacts its journal. A zero ceiling means none.
#[derive(Clone, Copy, PartialEq, Eq, Structural, Debug)]
pub struct WatchRetention {
    /// Most revisions retained.
    pub max_revisions: u64,
    /// Most bytes retained.
    pub max_bytes: u64,
    /// Greatest age retained.
    pub max_age: Duration,
    /// How often the policy is evaluated.
    pub check_interval: Duration,
}

/// A request to watch a prefix.
#[derive(PartialEq, Eq, Debug)]
pub struct WatchRequest {
    /// What keys must begin with.
    pub prefix: Vec<u8>,
    /// The revision after which events are wanted.
    pub start_after_revision: u64,
    /// How often progress is wanted.
    pub progress_interval: Option<Duration>,
}

/// What happened to a key.
#[derive(PartialEq, Eq, Debug)]
pub enum MutationEventKind {
    /// It was given a value.
    Put { value: Vec<u8> },
    /// It was removed.
    Delete,
}

/// One change of one key.
#[derive(PartialEq, Eq, Debug)]
pub struct MutationEvent {
    /// The revision the change made.
    pub revision: u64,
    /// The key.
    pub key: Vec<u8>,
    /// The change.
    pub kind: MutationEventKind,
}

/// What a watch delivers.
#[derive(PartialEq, Eq, Debug)]
pub enum WatchItem {
    /// A change.
    Event(MutationEvent),
    /// Every matching change up to this revision was delivered.
    Progress { revision: u64 },
}

/// A key and its value, as a list returns them.
#[derive(PartialEq, Eq, Debug)]
pub struct Record {
    /// The key.
    pub key: Vec<u8>,
    /// The value.
    pub value: Vec<u8>,
    /// What the record weighs against a page's byte cap.
    pub cost: u64,
}

/// A request to list a prefix, its caps already clamped to the node's own.
#[derive(PartialEq, Eq, Debug)]
pub struct ListRequest {
    /// What keys must begin with.
    pub prefix: Vec<u8>,
    /// Most records in the answer.
    pub max_items: u32,
    /// Most bytes in the answer.
    pub max_bytes: u64,
}

/// An answer to a list.
#[derive(PartialEq, Eq, Debug)]
pub struct ListResponse {
    /// The records.
    pub records: Vec<Record>,
    /// The revision they were read at.
    pub read_revision: u64,
    /// Whether there are more than fit.
    pub truncated: bool,
}

/// One page of a walk; `T` is the cursor of the next one.
#[derive(PartialEq, Eq, Debug)]
pub struct ListPage<T> {
    /// The records.
    pub items: Vec<Record>,
    /// The revision every page of the walk is read at.
    pub revision: u64,
    /// Whether there is another page.
    pub truncated: bool,
    /// Where the next page begins.
    pub next_page_token: Option<T>,
}

/// What a node guarantees of paginated lists.
#[derive(Clone, Copy, PartialEq, Eq, Structural, Debug)]
pub enum Pagination {
    /// There are none.
    Unsupported,
    /// A walk reads one revision, as long as its pin lives.
    RevisionPinned {
        /// Pins held at once.
        max_pinned: u32,
        /// How long a pin lives, in milliseconds.
        ttl_ms: u64,
    },
}

/// The reason given for a feature that the cluster does not support yet.
pub const UNAVAILABLE_FEATURE_NOT_ACTIVATED: &'static str = "feature_not_activated";

/// What a refusal says, and what a success holds.
pub open spec fn answer<T>(r: Result<T, ConfigError>) -> Result<T, ConfigErrorModel> {
    match r {
        Ok(v) => Ok(v),
        Err(e) => Err(e@),
    }
}

/// An error is seen as what it is, with everything it carries.
pub proof fn an_error_is_seen_as_it_is(e: ConfigError)
    ensures
        match e {
            ConfigError::NotLeader { hint } => e@ == (ConfigErrorModel::NotLeader {
                hint: match hint {
                    Some(h) => Some(LeaderHintModel { node_id: h.node_id, endpoint: h.endpoint@ }),
                    None => None,
                },
            }),
            ConfigError::InvalidArgument { detail } => e@ == (ConfigErrorModel::InvalidArgument {
                detail: detail@,
            }),
            ConfigError::Unavailable { reason } => e@ == (ConfigErrorModel::Unavailable {
                reason: reason@,
            }),
            ConfigError::FatalStorage { detail } => e@ == (ConfigErrorModel::FatalStorage {
                detail: detail@,
            }),
            ConfigError::PermissionDenied { detail } => e@ == (ConfigErrorModel::PermissionDenied {
                detail: detail@,
            }),
            ConfigError::ResourceExhausted { detail, resumable } => e@ == (
            ConfigErrorModel::ResourceExhausted { detail: detail@, resumable }),
            ConfigError::RevisionCompacted { minimum_available_revision } => e@ == (
            ConfigErrorModel::RevisionCompacted { minimum_available_revision }),
            ConfigError::DeadlineExceededUnknownOutcome => e@
                is DeadlineExceededUnknownOutcome,
            ConfigError::PageTokenExpired { reason } => e@ == (ConfigErrorModel::PageTokenExpired {
                reason,
            }),
            ConfigError::PolicyChanged => e@ is PolicyChanged,
        },
{
}

/// A mutation may be sent again exactly after an error that says it never entered the log: one from
/// a node that does not lead, and one that says the node was unavailable. In particular not after
/// one whose outcome is unknown.
pub proof fn only_what_never_ran_is_safe_to_send_again(e: ConfigErrorModel)
    ensures
        e.safe_to_resubmit() <==> e is NotLeader || e is Unavailable,
        e.safe_to_resubmit() ==> e.class() == StatusClass::FailedPrecondition || e.class()
            == StatusClass::Unavailable,
        e is DeadlineExceededUnknownOutcome ==> !e.safe_to_resubmit() && e.class()
            == StatusClass::DeadlineExceeded,
{
}

/// Classes tell a caller what to do: errors of one class are of one kind, but for the three that
/// depend on a state the caller has to look at again.
pub proof fn classes_tell_errors_apart(e: ConfigErrorModel)
    ensures
        e.class() == StatusClass::FailedPrecondition <==> e is NotLeader || e is PageTokenExpired
            || e is PolicyChanged,
        e.class() == StatusClass::InvalidArgument <==> e is InvalidArgument,
        e.class() == StatusClass::Unavailable <==> e is Unavailable,
        e.class() == StatusClass::Internal <==> e is FatalStorage,
        e.class() == StatusClass::PermissionDenied <==> e is PermissionDenied,
        e.class() == StatusClass::ResourceExhausted <==> e is ResourceExhausted,
        e.class() == StatusClass::OutOfRange <==> e is RevisionCompacted,
        e.class() == StatusClass::DeadlineExceeded <==> e is DeadlineExceededUnknownOutcome,
{
}

/// Reasons for which a token does not open have different names.
pub proof fn token_reasons_are_told_apart(a: PageTokenExpiredReason, b: PageTokenExpiredReason)
    ensures
        a.name() == b.name() ==> a == b,
{
    reveal_strlit("invalid");
    reveal_strlit("expired");
    reveal_strlit("evicted");
    reveal_strlit("policy_version");
    reveal_strlit("node");
    assert(a.name().len() == b.name().len() && a.name()[0] == b.name()[0] && a.name()[1]
        == b.name()[1] ==> a == b);
}

proof fn hexadecimal_digits_read_back(n: nat, width: nat)
    requires
        width <= 32,
    ensures
        hex_digits(n, width).len() == width,
        text::number_read(hex_digits(n, width), 16) == n % crate::number::two_to(4 * width),
    decreases width,
{
    crate::number::two_to_grows(0, 4 * width);
    if width > 0 {
        let w = (width - 1) as nat;
        let p = crate::number::two_to(4 * w);
        crate::number::two_to_grows(0, 4 * w);
        hexadecimal_digits_read_back(n / 16, w);
        assert(crate::number::two_to(4 * width) == 16 * p) by {
            reveal_with_fuel(crate::number::two_to, 5);
        }
        let s = hex_digits(n / 16, w);
        assert(s.push(text::digit(n % 16)).drop_last() =~= s);
        text::hexadecimal_reads_back(seq![(n % 16) as u8], 0);
        assert(text::digit_value(text::digit(n % 16)) == n % 16);
        vstd::arithmetic::div_mod::lemma_mod_breakdown(n as int, 16, p as int);
        assert(n as int % (16 * p as int) == 16 * ((n as int / 16) % (p as int)) + n as int % 16);
    }
}

/// A cluster's id is written with thirty-two hexadecimal digits, which read back as the id: clusters
/// with different ids are never written alike.
pub proof fn a_cluster_id_reads_back(a: ClusterId, b: ClusterId)
    ensures
        a.text().len() == 32,
        text::number_read(a.text(), 16) == a.0,
        a.text() == b.text() ==> a == b,
{
    hexadecimal_digits_read_back(a.0 as nat, 32);
    hexadecimal_digits_read_back(b.0 as nat, 32);
    number_bound(128);
    vstd::arithmetic::div_mod::lemma_small_mod(a.0 as nat, crate::number::two_to(128));
    vstd::arithmetic::div_mod::lemma_small_mod(b.0 as nat, crate::number::two_to(128));
}

} // verus!
