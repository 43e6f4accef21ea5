//! What a node does beside serving clients: retention on the leader, and the receiving side of
//! the peer plane.

use vstd::prelude::*;

use crate::metrics::AuthnRejectReason;
use crate::metrics::NodeRole;
use crate::node::observed::StoreView;
use crate::node::report;
use crate::node::schema::CommandGate;
use crate::node::AuthnCounts;
use crate::node::ConfigNode;
use crate::node::MAX_RETENTION_SAMPLES;
use crate::retention;
use crate::retention::RetentionReason;
use crate::transport::PeerEnvelopeMeta;
use crate::transport::PeerReject;
use crate::transport::PeerRejectModel;
use crate::types::NodeId;

verus! {

/// A compaction that retention proposes.
#[derive(Clone, Copy, PartialEq, Eq, Structural, Debug)]
pub struct Compaction {
    /// The watermark to move to.
    pub up_to_revision: u64,
    /// Below which revision deduplication records are dropped, if any are.
    pub dedup_trim_below: Option<u64>,
    /// Which ceiling asked for it.
    pub reason: RetentionReason,
}

/// The command that moves the watermark.
#[derive(Clone, Copy, PartialEq, Eq, Structural, Debug)]
pub struct CompactCommand {
    /// The watermark to move to.
    pub up_to_revision: u64,
    /// Below which revision deduplication records are dropped, if any are.
    pub dedup_trim_below: Option<u64>,
}

/// The command of a compaction that an operator asked for. It never trims deduplication records:
/// its revision has no floor of age, and a client with a mutation in flight relies on them.
pub fn operator_compaction(up_to_revision: u64) -> (c: CompactCommand)
    ensures
        c == (CompactCommand { up_to_revision, dedup_trim_below: None }),
{
    CompactCommand { up_to_revision, dedup_trim_below: None }
}

impl Compaction {
    /// The command of a compaction that retention proposes.
    pub fn command(&self) -> (c: CompactCommand)
        ensures
            c == (CompactCommand {
                up_to_revision: self.up_to_revision,
                dedup_trim_below: self.dedup_trim_below,
            }),
    {
        CompactCommand {
            up_to_revision: self.up_to_revision,
            dedup_trim_below: self.dedup_trim_below,
        }
    }
}

/// What came of one look at the retention policy.
#[derive(PartialEq, Eq, Debug)]
pub enum RetentionStep {
    /// Nothing is to be proposed.
    Idle,
    /// This compaction is to be proposed, if the schema gate lets it pass.
    Propose(Compaction),
}

/// The receipts after the applied revision was seen: one more if it is news, and the oldest
/// dropped when there are too many.
pub open spec fn noted(receipts: Seq<(u64, u64)>, applied: u64, now_ms: u64) -> Seq<(u64, u64)> {
    if receipts.len() > 0 && receipts.last().0 >= applied {
        receipts
    } else if receipts.len() < MAX_RETENTION_SAMPLES {
        receipts.push((applied, now_ms))
    } else {
        receipts.push((applied, now_ms)).drop_first()
    }
}

/// The oldest revision that is within the age limit, by the receipts: the one after the newest
/// that was received at `cutoff` or before. Zero when nothing is that old.
pub open spec fn oldest_within(receipts: Seq<(u64, u64)>, cutoff: u64) -> u64
    decreases receipts.len(),
{
    if receipts.len() == 0 {
        0
    } else if receipts.last().1 <= cutoff {
        retention::plus(receipts.last().0, 1)
    } else {
        oldest_within(receipts.drop_last(), cutoff)
    }
}

/// The envelope's fault, if it has one: another cluster, another epoch, another destination, a
/// retired sender, or a node that was stopped. In this order, and before the payload is looked
/// at: a peer of another cluster must not be able to move this node's term.
pub open spec fn envelope_fault(
    node: ConfigNode,
    meta: PeerEnvelopeMeta,
    sender_retired: bool,
) -> Option<PeerRejectModel> {
    let me = node.cfg.identity;
    if meta.cluster_id != me.cluster_id {
        Some(PeerRejectModel::WrongCluster { expected: me.cluster_id, got: meta.cluster_id })
    } else if meta.recovery_epoch != me.recovery_epoch {
        Some(
            PeerRejectModel::WrongEpoch {
                expected: me.recovery_epoch,
                got: meta.recovery_epoch,
            },
        )
    } else if meta.to != me.node_id {
        Some(PeerRejectModel::WrongDestination { expected: me.node_id, got: meta.to })
    } else if sender_retired {
        Some(PeerRejectModel::Retired { node_id: meta.from })
    } else if node.stopped {
        Some(PeerRejectModel::NotRunning)
    } else {
        None
    }
}

impl ConfigNode {
    /// Milliseconds of the age limit.
    pub open spec fn max_age_ms(&self) -> u64 {
        ((self.cfg.watch_retention.max_age.nanos as nat / 1_000_000) % 0x1_0000_0000_0000_0000)
            as u64
    }

    /// Whether this node evaluates retention: it runs, and believes that it leads.
    pub open spec fn retains(&self, leader: Option<NodeId>) -> bool {
        !self.stopped && leader == Some(self.cfg.identity.node_id)
    }

    /// What retention asks for, given the receipts as they are after this look.
    pub open spec fn retention_step(
        &self,
        receipts: Seq<(u64, u64)>,
        store: StoreView,
        now_ms: u64,
    ) -> Option<Compaction> {
        match store.journal {
            None => None,
            Some(_) => match retention::target(
                report::journal_shape(store.journal),
                self.cfg.watch_retention,
                report::or_zero(store.compact_revision),
                oldest_within(receipts, retention::minus(now_ms, self.max_age_ms())),
            ) {
                None => None,
                Some((up_to, reason)) => Some(
                    Compaction {
                        up_to_revision: up_to,
                        dedup_trim_below: if self.cfg.limits.dedup.enabled && up_to > 0 {
                            Some(retention::plus(up_to, 1))
                        } else {
                            None
                        },
                        reason,
                    },
                ),
            },
        }
    }

    fn note_receipt(&mut self, applied: u64, now_ms: u64)
        requires
            old(self).wf(),
        ensures
            final(self).wf(),
            final(self).receipts@ == noted(old(self).receipts@, applied, now_ms),
            *final(self) == (ConfigNode { receipts: final(self).receipts, ..*old(self) }),
    {
        let n: usize = self.receipts.len();
        let news: bool = n == 0 || self.receipts[n - 1].0 < applied;
        if news {
            self.receipts.push((applied, now_ms));
            if self.receipts.len() > MAX_RETENTION_SAMPLES {
                let ghost full = self.receipts@;
                self.receipts.remove(0);
                assert(self.receipts@ =~= full.drop_first());
            }
        }
    }

    fn oldest_within_age(&self, cutoff: u64) -> (r: u64)
        ensures
            r == oldest_within(self.receipts@, cutoff),
    {
        let mut i: usize = self.receipts.len();
        assert(self.receipts@.take(i as int) =~= self.receipts@);
        while i > 0
            invariant
                i <= self.receipts@.len(),
                oldest_within(self.receipts@, cutoff) == oldest_within(
                    self.receipts@.take(i as int),
                    cutoff,
                ),
            decreases i,
        {
            let (rev, ms) = self.receipts[i - 1];
            assert(self.receipts@.take(i as int).last() == (rev, ms));
            if ms <= cutoff {
                return rev.saturating_add(1);
            }
            assert(self.receipts@.take(i as int).drop_last() =~= self.receipts@.take(i - 1));
            i = i - 1;
        }
        0
    }

    /// One look at the leader's retention policy. A node that does not lead keeps no receipts: a
    /// new leader knows no age of what it did not see arrive.
    ///
    /// The deduplication records that go are those whose revision's history goes with them, never
    /// more: a record dropped ahead of its history would let a resubmission apply twice.
    pub fn evaluate_retention(
        &mut self,
        leader: Option<NodeId>,
        store: &StoreView,
        now_ms: u64,
    ) -> (r: RetentionStep)
        requires
            old(self).wf(),
        ensures
            final(self).wf(),
            final(self).receipts@ == (if old(self).stopped {
                old(self).receipts@
            } else if !old(self).retains(leader) {
                Seq::empty()
            } else {
                noted(old(self).receipts@, store.cluster_revision, now_ms)
            }),
            *final(self) == (ConfigNode { receipts: final(self).receipts, ..*old(self) }),
            match r {
                RetentionStep::Idle => !old(self).retains(leader) || old(self).retention_step(
                    final(self).receipts@,
                    *store,
                    now_ms,
                ) is None,
                RetentionStep::Propose(c) => old(self).retains(leader) && old(
                    self,
                ).retention_step(final(self).receipts@, *store, now_ms) == Some(c),
            },
    {
        if self.stopped {
            return RetentionStep::Idle;
        }
        let leads: bool = match leader {
            Some(id) => id == self.cfg.identity.node_id,
            None => false,
        };
        if !leads {
            self.receipts.clear();
            assert(self.receipts@ =~= Seq::empty());
            return RetentionStep::Idle;
        }
        self.note_receipt(store.cluster_revision, now_ms);
        let age: u64 = (self.cfg.watch_retention.max_age.as_millis() % 0x1_0000_0000_0000_0000)
            as u64;
        let cutoff: u64 = now_ms.saturating_sub(age);
        let oldest: u64 = self.oldest_within_age(cutoff);
        if store.journal.is_none() {
            return RetentionStep::Idle;
        }
        let view = Self::journal_view(store.journal);
        match retention::retention_target(
            view,
            &self.cfg.watch_retention,
            Self::compact_revision(store),
            oldest,
        ) {
            None => RetentionStep::Idle,
            Some((up_to, reason)) => {
                let dedup_trim_below: Option<u64> = if self.cfg.limits.dedup.enabled && up_to > 0 {
                    Some(up_to.saturating_add(1))
                } else {
                    None
                };
                RetentionStep::Propose(
                    Compaction { up_to_revision: up_to, dedup_trim_below, reason },
                )
            },
        }
    }

    /// Whether the schema gate lets retention propose. While it does not, history simply grows.
    pub fn retention_gate(&mut self, gate: Option<CommandGate>, role: NodeRole, store: &StoreView) -> (r:
        bool)
        requires
            old(self).wf(),
        ensures
            final(self).wf(),
            r == old(self).gate_passes(gate, role, *store),
            old(self).gated(gate, role, *store, *final(self)),
    {
        self.schema_gate(gate, role, store).is_ok()
    }

    /// Judge a peer's envelope. What passes is handed to the Raft core; a retired sender is
    /// counted, on whichever node it dials.
    pub fn handle(&mut self, meta: &PeerEnvelopeMeta, sender_retired: bool) -> (r: Result<
        (),
        PeerReject,
    >)
        ensures
            match r {
                Ok(_) => envelope_fault(*old(self), *meta, sender_retired) is None,
                Err(e) => envelope_fault(*old(self), *meta, sender_retired) == Some(e@),
            },
            *final(self) == (ConfigNode {
                authn_rejected_peer: if envelope_fault(*old(self), *meta, sender_retired) matches Some(
                    PeerRejectModel::Retired { .. },
                ) {
                    old(self).authn_rejected_peer.after(AuthnRejectReason::IdentityRetired)
                } else {
                    old(self).authn_rejected_peer
                },
                ..*old(self)
            }),
    {
        let me = self.cfg.identity;
        if meta.cluster_id != me.cluster_id {
            return Err(
                PeerReject::WrongCluster { expected: me.cluster_id, got: meta.cluster_id },
            );
        }
        if meta.recovery_epoch != me.recovery_epoch {
            return Err(
                PeerReject::WrongEpoch { expected: me.recovery_epoch, got: meta.recovery_epoch },
            );
        }
        if meta.to != me.node_id {
            return Err(PeerReject::WrongDestination { expected: me.node_id, got: meta.to });
        }
        if sender_retired {
            self.authn_rejected_peer.count(AuthnRejectReason::IdentityRetired);
            return Err(PeerReject::Retired { node_id: meta.from });
        }
        if self.stopped {
            return Err(PeerReject::NotRunning);
        }
        Ok(())
    }

    /// What a peer is answered when the Raft core was handed its request.
    pub fn handled<R>(answer: Result<R, String>) -> (r: Result<R, PeerReject>)
        ensures
            match answer {
                Ok(v) => r is Ok && r->Ok_0 == v,
                Err(e) => r matches Err(x) && x@ == PeerRejectModel::Raft(e@),
            },
    {
        match answer {
            Ok(v) => Ok(v),
            Err(e) => Err(PeerReject::Raft(e)),
        }
    }
}

/// Nothing of another cluster or epoch, addressed to another node, or sent by a retired one ever
/// reaches the Raft core.
pub proof fn only_kin_reach_the_core(
    node: ConfigNode,
    meta: PeerEnvelopeMeta,
    sender_retired: bool,
)
    ensures
        envelope_fault(node, meta, sender_retired) is None <==> {
            &&& meta.cluster_id == node.cfg.identity.cluster_id
            &&& meta.recovery_epoch == node.cfg.identity.recovery_epoch
            &&& meta.to == node.cfg.identity.node_id
            &&& !sender_retired
            &&& !node.stopped
        },
        envelope_fault(node, meta, sender_retired) matches Some(fault) ==> match fault {
            PeerRejectModel::WrongCluster { expected, got } => expected
                == node.cfg.identity.cluster_id && got == meta.cluster_id && expected != got,
            PeerRejectModel::WrongEpoch { expected, got } => expected
                == node.cfg.identity.recovery_epoch && got == meta.recovery_epoch && expected
                != got,
            PeerRejectModel::WrongDestination { expected, got } => expected
                == node.cfg.identity.node_id && got == meta.to && expected != got,
            PeerRejectModel::Retired { node_id } => sender_retired && node_id == meta.from,
            PeerRejectModel::NotRunning => node.stopped && !sender_retired,
            _ => false,
        },
{
}

/// Receipts stay few and in order, however often the policy is looked at.
pub proof fn receipts_stay_bounded(receipts: Seq<(u64, u64)>, applied: u64, now_ms: u64)
    requires
        receipts.len() <= MAX_RETENTION_SAMPLES,
        forall|i: int, j: int|
            0 <= i < j < receipts.len() ==> (#[trigger] receipts[i]).0 < (#[trigger] receipts[j]).0,
    ensures
        noted(receipts, applied, now_ms).len() <= MAX_RETENTION_SAMPLES,
        forall|i: int, j: int|
            0 <= i < j < noted(receipts, applied, now_ms).len() ==> (#[trigger] noted(
                receipts,
                applied,
                now_ms,
            )[i]).0 < (#[trigger] noted(receipts, applied, now_ms)[j]).0,
{
}

/// Deduplication records are dropped exactly as far as history is, and not at all when
/// deduplication is off: a record outlives its revision's history, never the other way round.
pub proof fn trimming_never_outruns_compaction(
    node: ConfigNode,
    receipts: Seq<(u64, u64)>,
    store: StoreView,
    now_ms: u64,
)
    requires
        node.retention_step(receipts, store, now_ms) is Some,
    ensures
        ({
            let c = node.retention_step(receipts, store, now_ms)->Some_0;
            &&& c.up_to_revision > report::or_zero(store.compact_revision)
            &&& c.up_to_revision <= report::journal_shape(store.journal).newest_revision
            &&& c.dedup_trim_below is Some <==> node.cfg.limits.dedup.enabled
            &&& c.dedup_trim_below matches Some(t) ==> t - 1 <= c.up_to_revision
        }),
{
}

proof fn nothing_old_enough(receipts: Seq<(u64, u64)>, cutoff: u64)
    requires
        forall|i: int| 0 <= i < receipts.len() ==> (#[trigger] receipts[i]).1 > cutoff,
    ensures
        oldest_within(receipts, cutoff) == 0,
    decreases receipts.len(),
{
    if receipts.len() > 0 {
        assert(receipts.last() == receipts[receipts.len() - 1]);
        nothing_old_enough(receipts.drop_last(), cutoff);
    }
}

/// A new leader proposes no compaction by age of history that it did not see arrive: with no
/// receipt as old as the limit, only the ceilings on revisions and bytes can ask for one.
pub proof fn a_new_leader_knows_no_age(
    node: ConfigNode,
    receipts: Seq<(u64, u64)>,
    store: StoreView,
    now_ms: u64,
)
    requires
        forall|i: int|
            0 <= i < receipts.len() ==> (#[trigger] receipts[i]).1 > retention::minus(
                now_ms,
                node.max_age_ms(),
            ),
    ensures
        node.retention_step(receipts, store, now_ms) matches Some(c) ==> !(c.reason is Age),
{
    nothing_old_enough(receipts, retention::minus(now_ms, node.max_age_ms()));
}

proof fn the_newest_old_receipt(receipts: Seq<(u64, u64)>, cutoff: u64)
    ensures
        oldest_within(receipts, cutoff) != 0 ==> exists|k: int|
            0 <= k < receipts.len() && (#[trigger] receipts[k]).1 <= cutoff && oldest_within(
                receipts,
                cutoff,
            ) == retention::plus(receipts[k].0, 1) && forall|j: int|
                k < j < receipts.len() ==> (#[trigger] receipts[j]).1 > cutoff,
        oldest_within(receipts, cutoff) == 0 ==> forall|k: int|
            0 <= k < receipts.len() ==> (#[trigger] receipts[k]).1 > cutoff,
    decreases receipts.len(),
{
    if receipts.len() > 0 {
        let n = receipts.len() - 1;
        let init = receipts.drop_last();
        assert(receipts.last() == receipts[n]);
        if receipts[n].1 > cutoff {
            the_newest_old_receipt(init, cutoff);
            assert forall|k: int| 0 <= k < n implies #[trigger] receipts[k] == init[k] by {}
            if oldest_within(receipts, cutoff) != 0 {
                let k = choose|k: int|
                    0 <= k < init.len() && (#[trigger] init[k]).1 <= cutoff && oldest_within(
                        init,
                        cutoff,
                    ) == retention::plus(init[k].0, 1) && forall|j: int|
                        k < j < init.len() ==> (#[trigger] init[j]).1 > cutoff;
                assert(receipts[k] == init[k]);
                assert forall|j: int| k < j < receipts.len() implies (#[trigger] receipts[j]).1
                    > cutoff by {
                    if j < n {
                        assert(receipts[j] == init[j]);
                    }
                }
            }
        }
    }
}

/// The oldest revision within the age limit lies beyond every revision that was received at the
/// cutoff or before, and directly behind one of them: of what is old enough, all is passed, and
/// nothing that is not. It is zero exactly when nothing is old enough.
pub proof fn age_covers_all_that_is_old(receipts: Seq<(u64, u64)>, cutoff: u64)
    requires
        forall|i: int, j: int|
            0 <= i < j < receipts.len() ==> (#[trigger] receipts[i]).0 < (#[trigger] receipts[j]).0,
    ensures
        forall|i: int|
            0 <= i < receipts.len() && (#[trigger] receipts[i]).1 <= cutoff && receipts[i].0
                < u64::MAX ==> receipts[i].0 < oldest_within(receipts, cutoff),
        oldest_within(receipts, cutoff) != 0 ==> exists|k: int|
            0 <= k < receipts.len() && (#[trigger] receipts[k]).1 <= cutoff && (oldest_within(
                receipts,
                cutoff,
            ) == receipts[k].0 + 1 || (receipts[k].0 == u64::MAX && oldest_within(receipts, cutoff)
                == u64::MAX)),
        oldest_within(receipts, cutoff) == 0 <==> forall|i: int|
            0 <= i < receipts.len() ==> (#[trigger] receipts[i]).1 > cutoff,
{
    the_newest_old_receipt(receipts, cutoff);
    if oldest_within(receipts, cutoff) != 0 {
        let k = choose|k: int|
            0 <= k < receipts.len() && (#[trigger] receipts[k]).1 <= cutoff && oldest_within(
                receipts,
                cutoff,
            ) == retention::plus(receipts[k].0, 1) && forall|j: int|
                k < j < receipts.len() ==> (#[trigger] receipts[j]).1 > cutoff;
        assert(!(receipts[k].1 > cutoff));
        assert forall|i: int|
            0 <= i < receipts.len() && (#[trigger] receipts[i]).1 <= cutoff && receipts[i].0
                < u64::MAX implies receipts[i].0 < oldest_within(receipts, cutoff) by {
            assert(i <= k);
            if i < k {
                assert(receipts[i].0 < receipts[k].0);
            }
        }
    }
}

/// Expired history goes: where a revision was received as long ago as the age limit or longer, is
/// still in the journal and not compacted, the leader proposes a compaction that reaches it.
pub proof fn expired_history_is_compacted(
    node: ConfigNode,
    receipts: Seq<(u64, u64)>,
    store: StoreView,
    now_ms: u64,
    i: int,
)
    requires
        forall|i: int, j: int|
            0 <= i < j < receipts.len() ==> (#[trigger] receipts[i]).0 < (#[trigger] receipts[j]).0,
        0 <= i < receipts.len(),
        node.cfg.watch_retention.max_age.nanos != 0,
        node.cfg.watch_retention.max_age.nanos as nat / 1_000_000 <= u64::MAX,
        receipts[i].1 + node.cfg.watch_retention.max_age.nanos as nat / 1_000_000 <= now_ms,
        store.journal matches Some(journal) && (journal.oldest_revision matches Some(oldest)
            && oldest <= receipts[i].0) && (journal.newest_revision matches Some(newest)
            && receipts[i].0 <= newest),
        store.compact_revision matches Some(compacted) ==> compacted < receipts[i].0,
        0 < receipts[i].0 < u64::MAX,
    ensures
        node.retention_step(receipts, store, now_ms) matches Some(c) && receipts[i].0
            <= c.up_to_revision && (store.journal->0.newest_revision matches Some(newest)
            && c.up_to_revision <= newest),
{
    let cutoff = retention::minus(now_ms, node.max_age_ms());
    age_covers_all_that_is_old(receipts, cutoff);
    retention::every_ceiling_is_heard(
        report::journal_shape(store.journal),
        node.cfg.watch_retention,
        report::or_zero(store.compact_revision),
        oldest_within(receipts, cutoff),
        receipts[i].0,
    );
}

/// Age takes no history that is within its limit: what it proposes to compact reaches no further
/// than some revision that was received as long ago as the limit or longer.
pub proof fn age_takes_only_what_expired(
    node: ConfigNode,
    receipts: Seq<(u64, u64)>,
    store: StoreView,
    now_ms: u64,
)
    requires
        node.cfg.watch_retention.max_age.nanos as nat / 1_000_000 <= now_ms,
        node.retention_step(receipts, store, now_ms) is Some,
        node.retention_step(receipts, store, now_ms)->Some_0.reason is Age,
    ensures
        exists|k: int|
            0 <= k < receipts.len() && (#[trigger] receipts[k]).1
                + node.cfg.watch_retention.max_age.nanos as nat / 1_000_000 <= now_ms
                && node.retention_step(receipts, store, now_ms)->Some_0.up_to_revision
                <= receipts[k].0,
{
    let cutoff = retention::minus(now_ms, node.max_age_ms());
    the_newest_old_receipt(receipts, cutoff);
    retention::no_ceiling_takes_more_than_it_asks(
        report::journal_shape(store.journal),
        node.cfg.watch_retention,
        report::or_zero(store.compact_revision),
        oldest_within(receipts, cutoff),
    );
}

/// Only a running leader keeps receipts and proposes, and one without a journal proposes nothing.
/// What it proposes is judged by the journal as it is: the ceilings on revisions and bytes take no
/// more than they ask for.
pub proof fn retention_is_the_leaders(
    node: ConfigNode,
    leader: Option<NodeId>,
    receipts: Seq<(u64, u64)>,
    store: StoreView,
    now_ms: u64,
)
    ensures
        node.retains(leader) <==> !node.stopped && leader == Some(node.cfg.identity.node_id),
        store.journal is None ==> node.retention_step(receipts, store, now_ms) is None,
        node.retention_step(receipts, store, now_ms) matches Some(c) ==> {
            let newest = match store.journal->0.newest_revision {
                Some(n) => n,
                None => 0,
            };
            &&& c.up_to_revision <= newest
            &&& store.compact_revision matches Some(compacted) ==> compacted < c.up_to_revision
            &&& c.reason is Revisions ==> 0 < node.cfg.watch_retention.max_revisions
                < store.journal->0.count && c.up_to_revision
                + node.cfg.watch_retention.max_revisions <= newest
            &&& c.reason is Bytes ==> 0 < node.cfg.watch_retention.max_bytes
                < store.journal->0.bytes && store.journal->0.count > 0
            &&& c.reason is Age ==> node.cfg.watch_retention.max_age.nanos != 0
            &&& c.dedup_trim_below matches Some(t) ==> node.cfg.limits.dedup.enabled && (t
                == c.up_to_revision + 1 || (t == u64::MAX && c.up_to_revision == u64::MAX))
            &&& c.dedup_trim_below is None ==> !node.cfg.limits.dedup.enabled
        },
{
    if node.retention_step(receipts, store, now_ms) is Some {
        retention::no_ceiling_takes_more_than_it_asks(
            report::journal_shape(store.journal),
            node.cfg.watch_retention,
            report::or_zero(store.compact_revision),
            oldest_within(receipts, retention::minus(now_ms, node.max_age_ms())),
        );
    }
}

/// Looking at the applied revision notes it once, with the time it was first seen: news is put
/// behind what is there, of which at most the oldest is dropped, and what is no news changes
/// nothing.
pub proof fn receipts_keep_the_first_sight(
    receipts: Seq<(u64, u64)>,
    applied: u64,
    now_ms: u64,
    later_ms: u64,
)
    requires
        receipts.len() <= 1024,
    ensures
        ({
            let after = noted(receipts, applied, now_ms);
            let news = receipts.len() == 0 || receipts[receipts.len() - 1].0 < applied;
            &&& !news ==> after == receipts
            &&& news ==> after.len() > 0 && after[after.len() - 1] == (applied, now_ms)
            &&& news ==> after.len() == (if receipts.len() < 1024 {
                receipts.len() + 1
            } else {
                1024
            })
            &&& news ==> forall|i: int|
                0 <= i < after.len() - 1 ==> #[trigger] after[i] == receipts[i + receipts.len()
                    - after.len() + 1]
            &&& noted(after, applied, later_ms) == after
        }),
{
}

} // verus!
