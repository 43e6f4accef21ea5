//! What a node observes of its Raft core and its store: plain values, read at one moment.

use std::collections::BTreeMap;
use std::collections::BTreeSet;
use vstd::prelude::*;

use crate::config::RaftNode;
use crate::metrics::LogIdView;
use crate::metrics::MembershipView;
use crate::metrics::NodeRole;
use crate::storage::Durability;
use crate::storage::JournalStats;
use crate::types::NodeId;

verus! {

/// A membership as Raft holds it.
pub struct Membership {
    /// The voters of all its configurations.
    pub voters: BTreeSet<u64>,
    /// Every member with its addresses, voter or not.
    pub nodes: BTreeMap<u64, RaftNode>,
    /// The entry that made it, if it ever was made.
    pub log_id: Option<LogIdView>,
    /// Configurations: one, or two while a change is in flight.
    pub joint_config_len: usize,
}

/// What the Raft core says of itself.
pub struct RaftView {
    /// Its role.
    pub role: NodeRole,
    /// Its term.
    pub current_term: u64,
    /// The leader it believes in.
    pub current_leader: Option<NodeId>,
    /// The last index in its log.
    pub last_log_index: Option<u64>,
    /// The last entry it applied.
    pub last_applied: Option<LogIdView>,
    /// Why it stopped running, if it did.
    pub fatal: Option<String>,
    /// For a leader, milliseconds since a quorum last acknowledged it.
    pub millis_since_quorum_ack: Option<u64>,
    /// Its effective membership: appended, not necessarily committed.
    pub effective: Membership,
    /// For a leader, the last index each peer acknowledged.
    pub replication: Option<BTreeMap<u64, Option<u64>>>,
}

/// What the store says of itself and of applied state.
pub struct StoreView {
    /// What survives a restart.
    pub durability: Durability,
    /// Whether it never accepted a vote, an entry or an apply.
    pub fresh: bool,
    /// Whether it can no longer answer for its own state.
    pub poisoned: bool,
    /// Entries in the log.
    pub raft_log_len: u64,
    /// Commands applied.
    pub applied_commands: u64,
    /// The public revision.
    pub cluster_revision: u64,
    /// Committed membership: what was applied, and an applied entry is committed.
    pub membership: MembershipView,
    /// Nodes that were retired for good.
    pub retired: BTreeSet<u64>,
    /// The newest generation of commands in applied state.
    pub max_applied_command_schema: u16,
    /// The compaction watermark, when it could be read.
    pub compact_revision: Option<u64>,
    /// The shape of the journal, when it could be read.
    pub journal: Option<JournalStats>,
    /// The digest of applied state.
    pub state_hash: [u8; 32],
    /// The digest of the journal above the watermark, when it could be read.
    pub journal_hash: Option<[u8; 32]>,
}

/// Whether `view` says what `m` says: the same voters and log id, and the two addresses of every
/// member.
pub open spec fn shows(view: MembershipView, m: Membership) -> bool {
    &&& view.voters@ == m.voters@
    &&& view.endpoints@.dom() == m.nodes@.dom()
    &&& view.client_endpoints@.dom() == m.nodes@.dom()
    &&& forall|k: u64| #[trigger]
        m.nodes@.contains_key(k) ==> view.endpoints@[k]@ == m.nodes@[k].peer@
            && view.client_endpoints@[k]@ == m.nodes@[k].client@
    &&& view.membership_log_id == (match m.log_id {
        Some(l) => Some((l.term, l.index)),
        None => None,
    })
}

/// A copy of a set.
pub fn clone_set(s: &BTreeSet<u64>) -> (r: BTreeSet<u64>)
    ensures
        r@ == s@,
{
    let listed = crate::listing::list_set(s);
    let mut out: BTreeSet<u64> = BTreeSet::new();
    let mut i: usize = 0;
    while i < listed.len()
        invariant
            i <= listed@.len(),
            crate::listing::lists_set(listed@, s@),
            forall|k: u64| #[trigger]
                out@.contains(k) <==> exists|j: int| 0 <= j < i && #[trigger] listed@[j] == k,
        decreases listed@.len() - i,
    {
        let ghost before = out@;
        out.insert(listed[i]);
        proof {
            let k0 = listed@[i as int];
            assert(out@ == before.insert(k0));
            assert forall|k: u64| #[trigger] out@.contains(k) <==> exists|j: int|
                0 <= j < i + 1 && #[trigger] listed@[j] == k by {
                if k == k0 {
                    assert(listed@[i as int] == k);
                }
                if k != k0 && before.contains(k) {
                    let j = choose|j: int| 0 <= j < i && #[trigger] listed@[j] == k;
                    assert(listed@[j] == k);
                }
            }
        }
        i = i + 1;
    }
    assert forall|k: u64| out@.contains(k) <==> s@.contains(k) by {
        if s@.contains(k) {
            assert(listed@.contains(k));
            let j = choose|j: int| 0 <= j < listed@.len() && listed@[j] == k;
            assert(listed@[j] == k);
        }
    }
    assert(out@ =~= s@);
    out
}

/// A copy of a membership view.
pub fn clone_membership(m: &MembershipView) -> (r: MembershipView)
    ensures
        r.voters@ == m.voters@,
        r.endpoints@ == m.endpoints@,
        r.client_endpoints@ == m.client_endpoints@,
        r.membership_log_id == m.membership_log_id,
{
    MembershipView {
        voters: clone_set(&m.voters),
        endpoints: crate::listing::clone_texts(&m.endpoints),
        client_endpoints: crate::listing::clone_texts(&m.client_endpoints),
        membership_log_id: m.membership_log_id,
    }
}

/// Flatten a membership into the view the rest of the library works with.
pub fn membership_view(m: &Membership) -> (r: MembershipView)
    ensures
        shows(r, *m),
{
    let entries = crate::listing::list(&m.nodes);
    let ghost s = crate::listing::listed(m.nodes@);
    let mut endpoints: BTreeMap<u64, String> = BTreeMap::new();
    let mut client_endpoints: BTreeMap<u64, String> = BTreeMap::new();
    let mut i: usize = 0;
    while i < entries.len()
        invariant
            i <= entries@.len(),
            crate::listing::lists(s, m.nodes@),
            entries@.len() == s.len(),
            forall|j: int|
                0 <= j < entries@.len() ==> (#[trigger] entries@[j]).0 == s[j].0 && *entries@[j].1
                    == s[j].1,
            client_endpoints@.dom() == endpoints@.dom(),
            forall|k: u64| #[trigger]
                endpoints@.contains_key(k) <==> exists|j: int| 0 <= j < i && (#[trigger] s[j]).0
                    == k,
            forall|k: u64| #[trigger]
                endpoints@.contains_key(k) ==> endpoints@[k]@ == m.nodes@[k].peer@
                    && client_endpoints@[k]@ == m.nodes@[k].client@,
        decreases entries@.len() - i,
    {
        let ghost before = endpoints@;
        let ghost clients_before = client_endpoints@;
        endpoints.insert(entries[i].0, entries[i].1.peer.clone());
        client_endpoints.insert(entries[i].0, entries[i].1.client.clone());
        proof {
            let k0 = entries@[i as int].0;
            assert(s[i as int].0 == k0);
            assert(m.nodes@[k0] == s[i as int].1);
            assert(client_endpoints@.dom() =~= clients_before.dom().insert(k0));
            assert(endpoints@.dom() =~= before.dom().insert(k0));
            assert forall|k: u64| #[trigger] endpoints@.contains_key(k) <==> exists|j: int|
                0 <= j < i + 1 && (#[trigger] s[j]).0 == k by {
                if k == k0 {
                    assert(s[i as int].0 == k);
                }
                if k != k0 && before.contains_key(k) {
                    let j = choose|j: int| 0 <= j < i && (#[trigger] s[j]).0 == k;
                    assert(s[j].0 == k);
                }
            }
            assert forall|k: u64| #[trigger] endpoints@.contains_key(k) implies endpoints@[k]@
                == m.nodes@[k].peer@ && client_endpoints@[k]@ == m.nodes@[k].client@ by {
                if k != k0 {
                    assert(before.contains_key(k));
                }
            }
        }
        i = i + 1;
    }
    assert forall|k: u64| endpoints@.contains_key(k) <==> m.nodes@.contains_key(k) by {
        if m.nodes@.contains_key(k) {
            let j = choose|j: int| 0 <= j < s.len() && (#[trigger] s[j]).0 == k;
            assert(s[j].0 == k);
        }
    }
    assert(endpoints@.dom() =~= m.nodes@.dom());
    MembershipView {
        voters: clone_set(&m.voters),
        endpoints,
        client_endpoints,
        membership_log_id: match m.log_id {
            Some(l) => Some((l.term, l.index)),
            None => None,
        },
    }
}

/// The nodes of a set, in ascending order.
pub fn node_ids(s: &BTreeSet<u64>) -> (r: Vec<NodeId>)
    ensures
        crate::listing::lists_set(r@.map_values(|n: NodeId| n.0), s@),
{
    let listed = crate::listing::list_set(s);
    let mut out: Vec<NodeId> = Vec::new();
    let mut i: usize = 0;
    while i < listed.len()
        invariant
            i <= listed@.len(),
            out@.map_values(|n: NodeId| n.0) == listed@.take(i as int),
        decreases listed@.len() - i,
    {
        let ghost before = out@;
        out.push(NodeId(listed[i]));
        assert(out@.map_values(|n: NodeId| n.0) =~= before.map_values(|n: NodeId| n.0).push(
            listed@[i as int],
        ));
        assert(listed@.take(i + 1) =~= listed@.take(i as int).push(listed@[i as int]));
        i = i + 1;
    }
    assert(listed@.take(listed@.len() as int) =~= listed@);
    out
}

/// A digest as 64 lowercase hexadecimal digits.
pub fn hex32(bytes: &[u8; 32]) -> (r: String)
    ensures
        r@ == crate::text::hex(bytes@),
        r@.len() == 64,
{
    proof {
        crate::text::hex_is_twice_as_long(bytes@);
    }
    crate::text::hex_text(vstd::array::array_as_slice(bytes))
}

/// A membership is shown with its voters, the addresses of every member for peers and for clients,
/// and the entry it is from.
pub proof fn a_membership_is_shown_whole(view: MembershipView, m: Membership, node: u64)
    requires
        shows(view, m),
    ensures
        view.voters@.contains(node) <==> m.voters@.contains(node),
        view.endpoints@.contains_key(node) <==> m.nodes@.contains_key(node),
        view.client_endpoints@.contains_key(node) <==> m.nodes@.contains_key(node),
        m.nodes@.contains_key(node) ==> view.endpoints@[node]@ == m.nodes@[node].peer@
            && view.client_endpoints@[node]@ == m.nodes@[node].client@,
        view.membership_log_id is Some <==> m.log_id is Some,
        m.log_id matches Some(l) ==> view.membership_log_id == Some((l.term, l.index)),
{
    assert(view.endpoints@.contains_key(node) <==> view.endpoints@.dom().contains(node));
    assert(view.client_endpoints@.contains_key(node) <==> view.client_endpoints@.dom().contains(
        node,
    ));
    assert(m.nodes@.contains_key(node) <==> m.nodes@.dom().contains(node));
}

} // verus!
