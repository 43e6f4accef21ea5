//! The embedded client: a handle on a node of the same process.
//!
//! Embedded says where the code runs and not which rules apply. The principal is bound when the
//! handle is made and is never taken from a request.

use vstd::prelude::*;

use crate::capabilities::Capabilities;
use crate::capabilities::Dedup;
use crate::clock;
use crate::metrics;
use crate::types::ConfigError;
use crate::types::ConfigErrorModel;
use crate::types::ListPage;
use crate::types::ListResponse;
use crate::types::Pagination;
use crate::types::Principal;
use crate::types::UNAVAILABLE_FEATURE_NOT_ACTIVATED;

verus! {

/// The identity of one mutation of one client.
#[derive(Clone, Copy, PartialEq, Eq, Debug)]
pub struct DedupKey {
    /// The client's namespace.
    pub client_id: [u8; 16],
    /// The mutation within it.
    pub request_id: u64,
}

/// One client process's namespace and its sequence of ids.
///
/// The sequence begins at the milliseconds since the epoch, shifted by twenty bits: a process
/// that restarts without having remembered anything begins above every id it gave out before.
pub struct DedupSession {
    client_id: [u8; 16],
    next: u64,
}

/// The first id of a session that begins at `unix_ms`.
pub open spec fn first_id(unix_ms: u64) -> u64 {
    ((unix_ms as nat * 0x10_0000) % 0x1_0000_0000_0000_0000) as u64
}

impl DedupSession {
    /// The client's namespace.
    pub closed spec fn namespace(&self) -> [u8; 16] {
        self.client_id
    }

    /// The id that the next mutation gets.
    pub closed spec fn next_id(&self) -> u64 {
        self.next
    }

    /// A session that begins at `unix_ms`.
    pub fn starting_at(client_id: [u8; 16], unix_ms: u64) -> (s: Self)
        ensures
            s.namespace() == client_id,
            s.next_id() == first_id(unix_ms),
    {
        let next: u64 = ((unix_ms as u128 * 0x10_0000) % 0x1_0000_0000_0000_0000) as u64;
        DedupSession { client_id, next }
    }

    /// A session that begins now.
    pub fn new(client_id: [u8; 16]) -> (s: Self)
        ensures
            s.namespace() == client_id,
            exists|unix_ms: u64| s.next_id() == #[trigger] first_id(unix_ms),
    {
        let unix_ms: u64 = clock::unix_ms();
        Self::starting_at(client_id, unix_ms)
    }

    /// The identity of the next mutation.
    pub fn mint(&mut self) -> (k: DedupKey)
        ensures
            k.client_id == old(self).namespace(),
            k.request_id == old(self).next_id(),
            final(self).namespace() == old(self).namespace(),
            final(self).next_id() == metrics::counted(old(self).next_id(), 1),
    {
        let request_id: u64 = self.next;
        self.next = metrics::count_up(self.next, 1);
        DedupKey { client_id: self.client_id, request_id }
    }
}

/// The ids of a session increase from one mutation to the next, until the numbers run out.
pub proof fn ids_increase(next: u64)
    requires
        next < u64::MAX,
    ensures
        metrics::counted(next, 1) == next + 1,
{
}

/// A session that begins later begins above every id of an earlier one, as long as that one
/// gave out fewer than about a million ids for each millisecond in between, and the clock has not
/// passed the year 2527.
pub proof fn a_restart_begins_above(earlier_ms: u64, later_ms: u64, minted: nat)
    requires
        earlier_ms <= later_ms < 0x1000_0000_0000,
        minted <= (later_ms - earlier_ms) * 0x10_0000,
    ensures
        first_id(earlier_ms) + minted <= first_id(later_ms),
{
}

/// One mutation on its way to the node: the key it is sent under, and how often it was sent.
pub struct Submission {
    key: Option<DedupKey>,
    sent: u64,
}

impl Submission {
    /// The key it is sent under.
    pub closed spec fn sent_under(&self) -> Option<DedupKey> {
        self.key
    }

    /// How often it was sent.
    pub closed spec fn times_sent(&self) -> u64 {
        self.sent
    }

    /// The key it is sent under.
    pub fn key(&self) -> (r: Option<DedupKey>)
        ensures
            r == self.sent_under(),
    {
        self.key
    }

    /// How often it was sent.
    pub fn sent(&self) -> (r: u64)
        ensures
            r == self.times_sent(),
    {
        self.sent
    }
}

/// What follows the answer to a mutation.
#[derive(PartialEq, Eq, Debug)]
pub enum SubmissionStep<T> {
    /// Send the same mutation again, under the same key.
    SendAgain { key: Option<DedupKey> },
    /// This is what the caller gets.
    Answer(Result<T, ConfigError>),
}

/// A handle on a node, bound to a principal. `N` is the node and `P` its paginator.
pub struct DirectClient<N, P> {
    node: N,
    principal: Principal,
    dedup: Option<DedupSession>,
    paginator: Option<P>,
}

impl<N, P> DirectClient<N, P> {
    /// The node this client talks to.
    pub closed spec fn of_node(&self) -> N {
        self.node
    }

    /// The principal every call is authorized as.
    pub closed spec fn acts_as(&self) -> Principal {
        self.principal
    }

    /// The session that mutations are stamped from.
    pub closed spec fn session(&self) -> Option<DedupSession> {
        self.dedup
    }

    /// The pagination path.
    pub closed spec fn pages(&self) -> Option<P> {
        self.paginator
    }

    /// Whether `key` is what a mutation that came with `given` is sent under, and `after` this
    /// handle afterwards: a key it came with is kept; else it gets the next of the session, if
    /// there is one.
    pub open spec fn stamped(
        &self,
        given: Option<DedupKey>,
        key: Option<DedupKey>,
        after: DirectClient<N, P>,
    ) -> bool {
        &&& after.of_node() == self.of_node()
        &&& after.acts_as() == self.acts_as()
        &&& after.pages() == self.pages()
        &&& match (given, self.session()) {
            (None, Some(session)) => {
                &&& key matches Some(k)
                &&& k.client_id == session.namespace()
                &&& k.request_id == session.next_id()
                &&& after.session() matches Some(s)
                &&& s.namespace() == session.namespace()
                &&& s.next_id() == metrics::counted(session.next_id(), 1)
            },
            _ => key == given && after.session() == self.session(),
        }
    }

    /// Whether a mutation that was sent `sent` times is sent once more, after it was answered
    /// `outcome`.
    pub open spec fn sends_again<T>(
        &self,
        sent: u64,
        outcome: Result<T, ConfigError>,
        capability: Dedup,
    ) -> bool {
        &&& sent == 1
        &&& self.session() is Some
        &&& capability is Bounded
        &&& outcome matches Err(e)
        &&& e is DeadlineExceededUnknownOutcome
    }

    /// Whether `step` is what follows the answer `outcome` to the submission `before`, which is
    /// then `after`.
    pub open spec fn answers<T>(
        &self,
        before: Submission,
        outcome: Result<T, ConfigError>,
        capability: Dedup,
        step: SubmissionStep<T>,
        after: Submission,
    ) -> bool {
        &&& after.sent_under() == before.sent_under()
        &&& if self.sends_again(before.times_sent(), outcome, capability) {
            &&& step == (SubmissionStep::<T>::SendAgain { key: before.sent_under() })
            &&& after.times_sent() == 2
        } else {
            &&& step == SubmissionStep::Answer(outcome)
            &&& after.times_sent() == before.times_sent()
        }
    }

    /// Bind `principal` to `node`, without deduplication: a resubmission applies again.
    pub fn new(node: N, principal: Principal) -> (c: Self)
        ensures
            c.of_node() == node,
            c.acts_as() == principal,
            c.session() is None,
            c.pages() is None,
    {
        DirectClient { node, principal, dedup: None, paginator: None }
    }

    /// The node this client talks to.
    pub fn node(&self) -> (n: &N)
        ensures
            *n == self.of_node(),
    {
        &self.node
    }

    /// The principal every call from this handle is authorized as.
    pub fn principal(&self) -> (p: &Principal)
        ensures
            *p == self.acts_as(),
    {
        &self.principal
    }

    /// This handle with deduplication under `client_id`: mutations are stamped, and one whose
    /// outcome is unknown is sent once more under the same id.
    pub fn with_dedup(self, client_id: [u8; 16]) -> (c: Self)
        ensures
            c.of_node() == self.of_node(),
            c.acts_as() == self.acts_as(),
            c.pages() == self.pages(),
            c.session() matches Some(s) && s.namespace() == client_id && exists|unix_ms: u64|
                s.next_id() == #[trigger] first_id(unix_ms),
    {
        DirectClient { dedup: Some(DedupSession::new(client_id)), ..self }
    }

    /// This handle with revision-pinned pagination.
    pub fn with_pagination(self, paginator: P) -> (c: Self)
        ensures
            c.of_node() == self.of_node(),
            c.acts_as() == self.acts_as(),
            c.session() == self.session(),
            c.pages() == Some(paginator),
    {
        DirectClient { paginator: Some(paginator), ..self }
    }

    /// The pagination path, if this handle has one.
    pub fn paginator(&self) -> (r: Option<&P>)
        ensures
            match r {
                Some(p) => self.pages() == Some(*p),
                None => self.pages() is None,
            },
    {
        self.paginator.as_ref()
    }

    /// The namespace this handle stamps its mutations with, if any.
    pub fn dedup_client_id(&self) -> (r: Option<[u8; 16]>)
        ensures
            r == (match self.session() {
                Some(s) => Some(s.namespace()),
                None => None,
            }),
    {
        match &self.dedup {
            Some(s) => Some(s.client_id),
            None => None,
        }
    }

    /// Whether sending an unknown outcome once more is safe against a node with the given
    /// capability: it cannot apply twice, because the node recognizes the id.
    pub fn dedup_active(&self, capability: Dedup) -> (r: bool)
        ensures
            r == (self.session() is Some && capability is Bounded),
    {
        self.dedup.is_some() && match capability {
            Dedup::Bounded { .. } => true,
            Dedup::Unsupported => false,
        }
    }

    /// The identity a mutation is sent under: its own if it has one, else the next of the
    /// session.
    pub fn stamp(&mut self, given: Option<DedupKey>) -> (r: Option<DedupKey>)
        ensures
            old(self).stamped(given, r, *final(self)),
    {
        if given.is_some() {
            return given;
        }
        match self.dedup.take() {
            Some(session) => {
                let mut session = session;
                let key = session.mint();
                self.dedup = Some(session);
                Some(key)
            },
            None => None,
        }
    }

    /// Whether a mutation is sent once more: only after the first time, when its outcome is
    /// unknown and doing so is safe. A second unknown outcome is for the caller to reason about.
    pub fn resubmits<T>(
        &self,
        sent: u64,
        outcome: &Result<T, ConfigError>,
        capability: Dedup,
    ) -> (r: bool)
        ensures
            r == self.sends_again(sent, *outcome, capability),
    {
        match outcome {
            Err(ConfigError::DeadlineExceededUnknownOutcome) => sent == 1 && self.dedup_active(
                capability,
            ),
            _ => false,
        }
    }

    /// Begin to submit a mutation that came with the key `given`: it is stamped, and sent for the
    /// first time.
    pub fn submit(&mut self, given: Option<DedupKey>) -> (s: Submission)
        ensures
            old(self).stamped(given, s.sent_under(), *final(self)),
            s.times_sent() == 1,
    {
        let key = self.stamp(given);
        Submission { key, sent: 1 }
    }

    /// What follows the answer to a mutation: it is sent once more under the same key, or the
    /// caller gets the answer as it came.
    pub fn answered<T>(
        &self,
        submission: &mut Submission,
        outcome: Result<T, ConfigError>,
        capability: Dedup,
    ) -> (step: SubmissionStep<T>)
        ensures
            self.answers(*old(submission), outcome, capability, step, *final(submission)),
    {
        if self.resubmits(submission.sent, &outcome, capability) {
            submission.sent = 2;
            SubmissionStep::SendAgain { key: submission.key }
        } else {
            SubmissionStep::Answer(outcome)
        }
    }

    /// A page without a paginator: a cursor is refused before anything is read, as it cannot be
    /// honoured; a first page is a plain list.
    pub fn list_page(&self, has_token: bool) -> (r: Result<(), ConfigError>)
        requires
            self.pages() is None,
        ensures
            crate::types::answer(r) == (if has_token {
                Err(ConfigErrorModel::unavailable(UNAVAILABLE_FEATURE_NOT_ACTIVATED@))
            } else {
                Ok(())
            }),
    {
        if has_token {
            return Err(ConfigError::unavailable(UNAVAILABLE_FEATURE_NOT_ACTIVATED));
        }
        Ok(())
    }

    /// What this handle can do: what the node can, with the pagination this handle has.
    pub fn capabilities(&self, node: Capabilities, pagination: Pagination) -> (c: Capabilities)
        ensures
            c == (if self.pages() is Some {
                Capabilities { pagination, ..node }
            } else {
                node
            }),
    {
        if self.paginator.is_some() {
            Capabilities { pagination, ..node }
        } else {
            node
        }
    }
}

/// A mutation is sent at most once more, and every time under one key. The key it came with is
/// kept; one that came without gets a fresh one if the handle has deduplication. Where the handle
/// has it, the node recognizes ids and the first outcome is unknown, the mutation is sent exactly
/// once more and the second answer is the caller's, whatever it is. In every other case the first
/// answer is the caller's, unchanged. The handle may have stamped other mutations in between.
pub proof fn a_mutation_is_sent_at_most_once_more<N, P, T>(
    client: DirectClient<N, P>,
    given: Option<DedupKey>,
    stamped: DirectClient<N, P>,
    submission: Submission,
    first_client: DirectClient<N, P>,
    first: Result<T, ConfigError>,
    capability: Dedup,
    first_step: SubmissionStep<T>,
    resubmission: Submission,
    second_client: DirectClient<N, P>,
    second: Result<T, ConfigError>,
    later_capability: Dedup,
    second_step: SubmissionStep<T>,
    done: Submission,
)
    requires
        client.stamped(given, submission.sent_under(), stamped),
        submission.times_sent() == 1,
        first_client.session() is Some <==> stamped.session() is Some,
        first_client.answers(submission, first, capability, first_step, resubmission),
        second_client.answers(resubmission, second, later_capability, second_step, done),
    ensures
        given is Some ==> submission.sent_under() == given,
        given is None ==> submission.sent_under() == (match client.session() {
            Some(s) => Some(
                DedupKey { client_id: s.namespace(), request_id: s.next_id() },
            ),
            None => None,
        }),
        ({
            let again = client.session() is Some && capability is Bounded && (first matches Err(e)
                && e is DeadlineExceededUnknownOutcome);
            if again {
                &&& first_step == (SubmissionStep::<T>::SendAgain { key: submission.sent_under() })
                &&& second_step == SubmissionStep::Answer(second)
                &&& done.times_sent() == 2
            } else {
                &&& first_step == SubmissionStep::Answer(first)
                &&& resubmission.times_sent() == 1
            }
        }),
        done.sent_under() == submission.sent_under(),
{
}

/// A plain list as the only page of a walk that cannot go on.
pub fn unpinned_page<T>(response: ListResponse) -> (p: ListPage<T>)
    ensures
        p.items == response.records,
        p.revision == response.read_revision,
        p.truncated == response.truncated,
        p.next_page_token is None,
{
    ListPage {
        items: response.records,
        revision: response.read_revision,
        truncated: response.truncated,
        next_page_token: None,
    }
}

/// A session's first id is the time it began at with room for a million ids behind every
/// millisecond, until the clock passes the year 2527.
pub proof fn ids_begin_at_the_clock(unix_ms: u64)
    requires
        unix_ms < 0x1000_0000_0000,
    ensures
        first_id(unix_ms) == unix_ms * 1_048_576,
{
}

/// Every mutation that a handle stamps gets an identity of its own: two that come without a key get
/// successive ids in the handle's namespace, until the numbers run out, and one that comes with a
/// key uses up none. Stamping changes nothing else of the handle.
pub proof fn mutations_have_identities_of_their_own<N, P>(
    client: DirectClient<N, P>,
    given: Option<DedupKey>,
    key: Option<DedupKey>,
    after: DirectClient<N, P>,
    next: Option<DedupKey>,
    later: DirectClient<N, P>,
)
    requires
        client.stamped(given, key, after),
        after.stamped(None, next, later),
        client.session() matches Some(s) ==> s.next_id() < u64::MAX - 1,
    ensures
        after.of_node() == client.of_node(),
        after.acts_as() == client.acts_as(),
        after.pages() == client.pages(),
        after.session() is Some <==> client.session() is Some,
        given is Some ==> key == given && after.session() == client.session(),
        given is None && client.session() is None ==> key is None && next is None,
        given is None && client.session() is Some ==> {
            &&& key is Some && next is Some
            &&& key->Some_0.client_id == client.session()->Some_0.namespace()
            &&& next->Some_0.client_id == key->Some_0.client_id
            &&& key->Some_0.request_id == client.session()->Some_0.next_id()
            &&& next->Some_0.request_id == key->Some_0.request_id + 1
        },
{
}

} // verus!
