//! The schema gate: no command is proposed that a committed voter is known not to decode.
//!
//! Once an entry is committed, a voter that cannot decode it can neither skip it nor read it. So
//! the schema gate stands before the proposal, never at apply.

use std::collections::BTreeSet;
use vstd::prelude::*;

use crate::listing;
use crate::metrics::NodeRole;
use crate::node::observed::StoreView;
use crate::node::ConfigNode;
use crate::transport;
use crate::transport::SchemaTriple;
use crate::types;
use crate::types::ConfigError;
use crate::types::ConfigErrorModel;
use crate::types::NodeId;
use crate::types::UNAVAILABLE_FEATURE_NOT_ACTIVATED;

verus! {

/// What a command needs of every voter.
#[derive(Clone, Copy, Debug)]
pub struct CommandGate {
    /// The feature the command belongs to.
    pub feature: &'static str,
    /// The generation of commands it is written in.
    pub command_schema: u16,
}

/// A refusal by the schema gate that is worth a line: the first at its minimum.
#[derive(Clone, Copy, PartialEq, Eq, Debug)]
pub struct FeatureGated {
    /// The feature that was refused.
    pub feature: &'static str,
    /// The generation of commands the cluster can carry.
    pub cluster_min_schema: u16,
    /// The generation this node writes.
    pub schema: u16,
}

/// Whether `s` is the lowest schema of the voters: one of them has it, and none has a lower one.
pub open spec fn is_minimum(
    s: SchemaTriple,
    seen: Map<u64, SchemaTriple>,
    voters: Set<u64>,
) -> bool {
    &&& exists|v: u64| #[trigger] voters.contains(v) && transport::schema_of(seen, v) == s
    &&& forall|v: u64| #[trigger] voters.contains(v) ==> s.at_most(transport::schema_of(seen, v))
}

/// Whether some voter has answered that it does not decode this generation of commands. A voter
/// that was never heard from says nothing.
pub open spec fn reported_below(
    seen: Map<u64, SchemaTriple>,
    voters: Set<u64>,
    command_schema: u16,
) -> bool {
    exists|v: u64| #[trigger]
        voters.contains(v) && seen.contains_key(v) && seen[v].command_schema < command_schema
}

/// Whether every voter decodes this generation of commands, one that was never heard from
/// counting as the first.
pub open spec fn all_decode(
    seen: Map<u64, SchemaTriple>,
    voters: Set<u64>,
    command_schema: u16,
) -> bool {
    forall|v: u64| #[trigger]
        voters.contains(v) ==> transport::schema_of(seen, v).command_schema >= command_schema
}

/// Whether this generation of commands is active: applied state already carries it and no voter
/// contradicts, or every voter decodes it.
pub open spec fn is_active(
    seen: Map<u64, SchemaTriple>,
    voters: Set<u64>,
    max_applied: u16,
    command_schema: u16,
) -> bool {
    ||| max_applied >= command_schema && !reported_below(seen, voters, command_schema)
    ||| all_decode(seen, voters, command_schema)
}

/// Two lowest schemas are the same one.
pub proof fn minimum_is_unique(
    a: SchemaTriple,
    b: SchemaTriple,
    seen: Map<u64, SchemaTriple>,
    voters: Set<u64>,
)
    requires
        is_minimum(a, seen, voters),
        is_minimum(b, seen, voters),
    ensures
        a == b,
{
    let u = choose|v: u64| #[trigger] voters.contains(v) && transport::schema_of(seen, v) == a;
    let w = choose|v: u64| #[trigger] voters.contains(v) && transport::schema_of(seen, v) == b;
    assert(b.at_most(transport::schema_of(seen, u)));
    assert(a.at_most(transport::schema_of(seen, w)));
}

proof fn minimum_decides(
    s: SchemaTriple,
    seen: Map<u64, SchemaTriple>,
    voters: Set<u64>,
    command_schema: u16,
)
    requires
        is_minimum(s, seen, voters),
    ensures
        s.command_schema >= command_schema <==> all_decode(seen, voters, command_schema),
{
    let u = choose|v: u64| #[trigger] voters.contains(v) && transport::schema_of(seen, v) == s;
    assert(voters.contains(u));
    if s.command_schema >= command_schema {
        assert forall|v: u64| #[trigger] voters.contains(v) implies transport::schema_of(
            seen,
            v,
        ).command_schema >= command_schema by {
            assert(s.at_most(transport::schema_of(seen, v)));
        }
    }
}

impl ConfigNode {
    /// Whether a command may be proposed.
    pub open spec fn gate_passes(
        &self,
        gate: Option<CommandGate>,
        role: NodeRole,
        store: StoreView,
    ) -> bool {
        match gate {
            None => true,
            Some(g) => {
                ||| !(role is Leader)
                ||| !store.membership.formed()
                ||| is_active(
                    self.peer_schemas@,
                    store.membership.voters@,
                    store.max_applied_command_schema,
                    g.command_schema,
                )
            },
        }
    }

    /// Whether `after` is this node after the schema gate judged a command: unchanged when it
    /// passed, and otherwise with the minimum noted at which its feature was refused. Where that
    /// is not the minimum of its last refusal, it is news.
    pub open spec fn gated(
        &self,
        gate: Option<CommandGate>,
        role: NodeRole,
        store: StoreView,
        after: ConfigNode,
    ) -> bool {
        &&& after == (ConfigNode {
            gate_logged_at: after.gate_logged_at,
            gate_news: after.gate_news,
            ..*self
        })
        &&& if self.gate_passes(gate, role, store) {
            after == *self
        } else {
            exists|min: SchemaTriple| #[trigger]
                is_minimum(min, self.peer_schemas@, store.membership.voters@)
                    && after.gate_logged_at@ == self.gate_logged_at@.insert(
                    gate->Some_0.feature@,
                    min.command_schema,
                ) && after.gate_news@ == (if self.is_gate_news(
                    gate->Some_0.feature@,
                    min.command_schema,
                ) {
                    self.gate_news@.push(
                        FeatureGated {
                            feature: gate->Some_0.feature,
                            cluster_min_schema: min.command_schema,
                            schema: self.cfg.schema.command_schema,
                        },
                    )
                } else {
                    self.gate_news@
                })
        }
    }

    /// Whether a refusal of `feature` at the minimum `min` tells an operator something new.
    pub open spec fn is_gate_news(&self, feature: Seq<char>, min: u16) -> bool {
        !(self.gate_logged_at@.contains_key(feature) && self.gate_logged_at@[feature] == min)
    }

    /// The lowest schema any committed voter is known to have, or `None` off the leader: only a
    /// leader calls every voter. Learners do not hold a feature back.
    pub fn cluster_min_schema(&self, role: NodeRole, voters: &BTreeSet<u64>) -> (r: Option<
        SchemaTriple,
    >)
        ensures
            match r {
                Some(s) => role is Leader && is_minimum(s, self.peer_schemas@, voters@),
                None => !(role is Leader) || voters@ == Set::<u64>::empty(),
            },
    {
        if role != NodeRole::Leader {
            return None;
        }
        let listed = listing::list_set(voters);
        let ghost seen = self.peer_schemas@;
        let mut lowest: Option<SchemaTriple> = None;
        let mut i: usize = 0;
        while i < listed.len()
            invariant
                i <= listed@.len(),
                seen == self.peer_schemas@,
                match lowest {
                    Some(s) => {
                        &&& exists|j: int|
                            0 <= j < i && transport::schema_of(seen, #[trigger] listed@[j]) == s
                        &&& forall|j: int|
                            0 <= j < i ==> s.at_most(
                                transport::schema_of(seen, #[trigger] listed@[j]),
                            )
                    },
                    None => i == 0,
                },
            decreases listed@.len() - i,
        {
            let s = self.peer_schemas.get(NodeId(listed[i]));
            let ghost before = lowest;
            lowest = match lowest {
                None => Some(s),
                Some(low) => if low.is_at_most(s) {
                    Some(low)
                } else {
                    Some(s)
                },
            };
            proof {
                let now = lowest->Some_0;
                assert(transport::schema_of(seen, listed@[i as int]) == s);
                if before is Some && now != s {
                    let j = choose|j: int|
                        0 <= j < i && transport::schema_of(seen, #[trigger] listed@[j])
                            == before->Some_0;
                    assert(transport::schema_of(seen, listed@[j]) == now);
                }
            }
            i = i + 1;
        }
        proof {
            match lowest {
                Some(s) => {
                    let j = choose|j: int|
                        0 <= j < listed@.len() && transport::schema_of(seen, #[trigger] listed@[j])
                            == s;
                    assert(voters@.contains(listed@[j]));
                    assert forall|v: u64| #[trigger] voters@.contains(v) implies s.at_most(
                        transport::schema_of(seen, v),
                    ) by {
                        assert(listed@.contains(v));
                        let k = choose|k: int| 0 <= k < listed@.len() && listed@[k] == v;
                        assert(s.at_most(transport::schema_of(seen, listed@[k])));
                    }
                },
                None => {
                    assert forall|v: u64| !voters@.contains(v) by {
                        if voters@.contains(v) {
                            assert(listed@.contains(v));
                        }
                    }
                    assert(voters@ =~= Set::<u64>::empty());
                },
            }
        }
        lowest
    }

    /// Whether some voter has answered that it does not decode `command_schema`.
    pub fn a_voter_reports_below(&self, voters: &BTreeSet<u64>, command_schema: u16) -> (r: bool)
        ensures
            r == reported_below(self.peer_schemas@, voters@, command_schema),
    {
        let listed = listing::list_set(voters);
        let mut i: usize = 0;
        while i < listed.len()
            invariant
                i <= listed@.len(),
                listing::lists_set(listed@, voters@),
                forall|j: int|
                    0 <= j < i ==> !(self.peer_schemas@.contains_key(#[trigger] listed@[j])
                        && self.peer_schemas@[listed@[j]].command_schema < command_schema),
            decreases listed@.len() - i,
        {
            if let Some(s) = self.peer_schemas.observed(NodeId(listed[i])) {
                if s.command_schema < command_schema {
                    assert(voters@.contains(listed@[i as int]));
                    return true;
                }
            }
            i = i + 1;
        }
        assert forall|v: u64| #[trigger] voters@.contains(v) implies !(
        self.peer_schemas@.contains_key(v) && self.peer_schemas@[v].command_schema
            < command_schema) by {
            assert(listed@.contains(v));
            let k = choose|k: int| 0 <= k < listed@.len() && listed@[k] == v;
            assert(listed@[k] == v);
        }
        false
    }

    /// Note that a feature was refused at a minimum; whether that is worth a line. A second
    /// refusal at the same minimum tells an operator nothing new.
    pub fn note_feature_gated(&mut self, feature: &str, min: SchemaTriple) -> (news: bool)
        requires
            old(self).wf(),
        ensures
            final(self).wf(),
            news == old(self).is_gate_news(feature@, min.command_schema),
            final(self).gate_logged_at@ == old(self).gate_logged_at@.insert(
                feature@,
                min.command_schema,
            ),
            *final(self) == (ConfigNode {
                gate_logged_at: final(self).gate_logged_at,
                ..*old(self)
            }),
    {
        let news: bool = match self.gate_logged_at.get(feature) {
            Some(at) => *at != min.command_schema,
            None => true,
        };
        self.gate_logged_at.insert(feature.to_owned(), min.command_schema);
        news
    }

    /// Refuse a command that the committed voters cannot carry yet.
    ///
    /// Off the leader there is no minimum to judge against, and the proposal is about to be
    /// refused with a leader hint, which is more useful.
    pub fn schema_gate(&mut self, gate: Option<CommandGate>, role: NodeRole, store: &StoreView) -> (r:
        Result<(), ConfigError>)
        requires
            old(self).wf(),
        ensures
            final(self).wf(),
            types::answer(r) == (if old(self).gate_passes(gate, role, *store) {
                Ok(())
            } else {
                Err(ConfigErrorModel::unavailable(UNAVAILABLE_FEATURE_NOT_ACTIVATED@))
            }),
            old(self).gated(gate, role, *store, *final(self)),
    {
        let g = match gate {
            Some(g) => g,
            None => {
                return Ok(());
            },
        };
        if store.max_applied_command_schema >= g.command_schema && !self.a_voter_reports_below(
            &store.membership.voters,
            g.command_schema,
        ) {
            return Ok(());
        }
        let min = match self.cluster_min_schema(role, &store.membership.voters) {
            Some(min) => min,
            None => {
                return Ok(());
            },
        };
        proof {
            minimum_decides(
                min,
                self.peer_schemas@,
                store.membership.voters@,
                g.command_schema,
            );
            let v = choose|v: u64| #[trigger]
                store.membership.voters@.contains(v) && transport::schema_of(
                    self.peer_schemas@,
                    v,
                ) == min;
            assert(store.membership.voters@.contains(v));
        }
        if min.command_schema >= g.command_schema {
            return Ok(());
        }
        if self.note_feature_gated(g.feature, min) {
            self.gate_news.push(
                FeatureGated {
                    feature: g.feature,
                    cluster_min_schema: min.command_schema,
                    schema: self.cfg.schema.command_schema,
                },
            );
        }
        Err(ConfigError::unavailable(UNAVAILABLE_FEATURE_NOT_ACTIVATED))
    }

    /// Hand out the refusals that are worth a line, each once.
    pub fn take_gate_news(&mut self) -> (news: Vec<FeatureGated>)
        ensures
            news@ == old(self).gate_news@,
            final(self).gate_news@ == Seq::<FeatureGated>::empty(),
            *final(self) == (ConfigNode { gate_news: final(self).gate_news, ..*old(self) }),
    {
        let mut out: Vec<FeatureGated> = Vec::new();
        out.append(&mut self.gate_news);
        out
    }

    /// Whether the activation of this build's own generation of commands is to be announced: it
    /// is active, and that was not announced before.
    pub open spec fn announces(&self, role: NodeRole, store: StoreView) -> bool {
        &&& !self.schema_activated
        &&& role is Leader
        &&& store.membership.formed()
        &&& is_active(
            self.peer_schemas@,
            store.membership.voters@,
            store.max_applied_command_schema,
            SchemaTriple::newest().command_schema,
        )
    }

    /// Whether this build's own generation of commands has just become active. Announced once in
    /// a process's life, by the same rule that the schema gate goes by.
    pub fn sample_schema_activation(&mut self, role: NodeRole, store: &StoreView) -> (announce:
        bool)
        ensures
            announce == old(self).announces(role, *store),
            *final(self) == (ConfigNode {
                schema_activated: old(self).schema_activated || announce,
                ..*old(self)
            }),
    {
        let current: u16 = SchemaTriple::current().command_schema;
        let min = match self.cluster_min_schema(role, &store.membership.voters) {
            Some(min) => min,
            None => {
                return false;
            },
        };
        proof {
            minimum_decides(min, self.peer_schemas@, store.membership.voters@, current);
            let v = choose|v: u64| #[trigger]
                store.membership.voters@.contains(v) && transport::schema_of(
                    self.peer_schemas@,
                    v,
                ) == min;
            assert(store.membership.voters@.contains(v));
        }
        if min.command_schema < current && (store.max_applied_command_schema < current
            || self.a_voter_reports_below(&store.membership.voters, current)) {
            return false;
        }
        if self.schema_activated {
            return false;
        }
        self.schema_activated = true;
        true
    }
}

/// A refusal is news once: the next one of the same feature, while the voters say the same, adds
/// nothing to what is handed out.
pub proof fn a_refusal_is_news_once(
    before: ConfigNode,
    first: ConfigNode,
    second: ConfigNode,
    gate: CommandGate,
    role: NodeRole,
    store: StoreView,
)
    requires
        !before.gate_passes(Some(gate), role, store),
        before.gated(Some(gate), role, store, first),
        first.gated(Some(gate), role, store, second),
    ensures
        second.gate_news@ == first.gate_news@,
        before.gate_news@.len() <= first.gate_news@.len() <= before.gate_news@.len() + 1,
{
    assert(first.gate_passes(Some(gate), role, store) == before.gate_passes(
        Some(gate),
        role,
        store,
    ));
}

/// The schema gate never lets a leader propose what a voter has said it cannot decode.
pub proof fn the_gate_heeds_every_voter(
    node: ConfigNode,
    gate: CommandGate,
    store: StoreView,
    voter: u64,
)
    requires
        store.membership.voters@.contains(voter),
        node.peer_schemas@.contains_key(voter),
        node.peer_schemas@[voter].command_schema < gate.command_schema,
    ensures
        !node.gate_passes(Some(gate), NodeRole::Leader, store),
{
    assert(store.membership.formed());
    assert(reported_below(
        node.peer_schemas@,
        store.membership.voters@,
        gate.command_schema,
    ));
    assert(transport::schema_of(node.peer_schemas@, voter).command_schema < gate.command_schema);
}

/// Before a generation of commands is in applied state, a leader proposes it only when every
/// voter has answered that it decodes it: silence counts as the first generation.
pub proof fn activation_needs_every_voter(
    node: ConfigNode,
    gate: CommandGate,
    store: StoreView,
    voter: u64,
)
    requires
        store.membership.voters@.contains(voter),
        store.max_applied_command_schema < gate.command_schema,
        gate.command_schema > transport::COMMAND_SCHEMA_V1,
        node.gate_passes(Some(gate), NodeRole::Leader, store),
    ensures
        node.peer_schemas@.contains_key(voter),
        node.peer_schemas@[voter].command_schema >= gate.command_schema,
{
    assert(store.membership.formed());
    assert(transport::schema_of(node.peer_schemas@, voter).command_schema
        >= gate.command_schema);
}

/// Once a generation of commands is in applied state, a voter that cannot be reached does not
/// stop writes: only one that says it cannot decode it does.
pub proof fn a_silent_voter_blocks_nothing(
    node: ConfigNode,
    gate: CommandGate,
    role: NodeRole,
    store: StoreView,
)
    requires
        store.max_applied_command_schema >= gate.command_schema,
        forall|v: u64| #[trigger]
            store.membership.voters@.contains(v) && node.peer_schemas@.contains_key(v)
                ==> node.peer_schemas@[v].command_schema >= gate.command_schema,
    ensures
        node.gate_passes(Some(gate), role, store),
{
}

/// Activation is announced once: after it was, nothing that is observed announces it again.
pub proof fn activation_is_announced_once(node: ConfigNode, role: NodeRole, store: StoreView)
    requires
        node.schema_activated,
    ensures
        !node.announces(role, store),
{
}

/// What is announced as active is what the schema gate lets through at the same moment.
pub proof fn activation_opens_the_gate(
    node: ConfigNode,
    role: NodeRole,
    store: StoreView,
    gate: CommandGate,
)
    requires
        node.announces(role, store),
        gate.command_schema <= SchemaTriple::newest().command_schema,
    ensures
        node.gate_passes(Some(gate), role, store),
{
    let seen = node.peer_schemas@;
    let voters = store.membership.voters@;
    let newest = SchemaTriple::newest().command_schema;
    if all_decode(seen, voters, newest) {
        assert forall|v: u64| #[trigger] voters.contains(v) implies transport::schema_of(
            seen,
            v,
        ).command_schema >= gate.command_schema by {
            assert(transport::schema_of(seen, v).command_schema >= newest);
        }
    } else if reported_below(seen, voters, gate.command_schema) {
        let v = choose|v: u64| #[trigger]
            voters.contains(v) && seen.contains_key(v) && seen[v].command_schema
                < gate.command_schema;
        assert(voters.contains(v) && seen[v].command_schema < newest);
    }
}

/// The lowest schema is one that some voter has, never a blend of several.
pub proof fn the_minimum_is_real(
    s: SchemaTriple,
    seen: Map<u64, SchemaTriple>,
    voters: Set<u64>,
)
    requires
        is_minimum(s, seen, voters),
    ensures
        exists|v: u64| #[trigger]
            voters.contains(v) && (if seen.contains_key(v) {
                seen[v] == s
            } else {
                s == SchemaTriple::oldest()
            }),
{
    let u = choose|v: u64| #[trigger] voters.contains(v) && transport::schema_of(seen, v) == s;
    assert(voters.contains(u));
}

/// A gated command passes exactly off the leader, before the cluster is formed, and on a leader
/// whose voters all decode it, as far as they have said. What a voter has not said counts against
/// the command, unless a command of that schema was applied here before: then the voters carried
/// it once, and only one that says otherwise stands in the way. A command without a gate passes.
pub proof fn a_gated_command_passes_exactly_when_it_may(
    node: ConfigNode,
    gate: CommandGate,
    role: NodeRole,
    store: StoreView,
)
    ensures
        node.gate_passes(None, role, store),
        node.gate_passes(Some(gate), role, store) <==> {
            ||| !(role is Leader)
            ||| store.membership.voters@ == Set::<u64>::empty()
            ||| gate.command_schema <= store.max_applied_command_schema && forall|v: u64|
                store.membership.voters@.contains(v) && node.peer_schemas@.contains_key(v)
                    ==> gate.command_schema <= (#[trigger] node.peer_schemas@[v]).command_schema
            ||| forall|v: u64| #[trigger]
                store.membership.voters@.contains(v) ==> gate.command_schema <= (
                if node.peer_schemas@.contains_key(v) {
                    node.peer_schemas@[v].command_schema
                } else {
                    1
                })
        },
{
    let seen = node.peer_schemas@;
    let voters = store.membership.voters@;
    let need = gate.command_schema;
    if !reported_below(seen, voters, need) {
        assert forall|v: u64| voters.contains(v) && seen.contains_key(v) implies need <= (
        #[trigger] seen[v]).command_schema by {
            assert(voters.contains(v));
        }
    }
    if forall|v: u64|
        voters.contains(v) && seen.contains_key(v) ==> need <= (#[trigger] seen[v]).command_schema {
        assert(!reported_below(seen, voters, need)) by {
            if reported_below(seen, voters, need) {
                let v = choose|v: u64| #[trigger]
                    voters.contains(v) && seen.contains_key(v) && seen[v].command_schema < need;
                assert(need <= seen[v].command_schema);
            }
        }
    }
}

/// A newer schema is announced exactly once, by a leader of a formed cluster, and only when a
/// command of that schema would pass: what the voters said and what was applied allow it.
pub proof fn activation_is_announced_when_it_holds(
    node: ConfigNode,
    role: NodeRole,
    store: StoreView,
    gate: CommandGate,
)
    requires
        gate.command_schema == 2,
    ensures
        node.announces(role, store) <==> {
            &&& !node.schema_activated
            &&& role is Leader
            &&& store.membership.voters@ != Set::<u64>::empty()
            &&& node.gate_passes(Some(gate), role, store)
        },
{
}

/// A refusal at the schema gate is noted with the least schema a voter decodes, and is news exactly
/// when that is not what was noted last.
pub proof fn a_gate_refusal_is_noted(
    node: ConfigNode,
    gate: CommandGate,
    role: NodeRole,
    store: StoreView,
    after: ConfigNode,
)
    requires
        node.gated(Some(gate), role, store, after),
        !node.gate_passes(Some(gate), role, store),
    ensures
        after.gate_logged_at@.contains_key(gate.feature@),
        ({
            let least = after.gate_logged_at@[gate.feature@];
            &&& exists|v: u64| #[trigger]
                store.membership.voters@.contains(v) && (if node.peer_schemas@.contains_key(v) {
                    node.peer_schemas@[v].command_schema == least
                } else {
                    least == 1
                })
            &&& forall|v: u64| #[trigger]
                store.membership.voters@.contains(v) && node.peer_schemas@.contains_key(v) ==> least
                    <= node.peer_schemas@[v].command_schema
            &&& (if node.gate_logged_at@.contains_key(gate.feature@)
                && node.gate_logged_at@[gate.feature@] == least {
                after.gate_news@ == node.gate_news@
            } else {
                after.gate_news@ == node.gate_news@.push(
                    FeatureGated {
                        feature: gate.feature,
                        cluster_min_schema: least,
                        schema: node.cfg.schema.command_schema,
                    },
                )
            })
        }),
{
    let min = choose|min: SchemaTriple| #[trigger]
        is_minimum(min, node.peer_schemas@, store.membership.voters@)
            && after.gate_logged_at@ == node.gate_logged_at@.insert(
            gate.feature@,
            min.command_schema,
        ) && after.gate_news@ == (if node.is_gate_news(gate.feature@, min.command_schema) {
            node.gate_news@.push(
                FeatureGated {
                    feature: gate.feature,
                    cluster_min_schema: min.command_schema,
                    schema: node.cfg.schema.command_schema,
                },
            )
        } else {
            node.gate_news@
        });
    let v = choose|v: u64| #[trigger]
        store.membership.voters@.contains(v) && transport::schema_of(node.peer_schemas@, v) == min;
    assert(store.membership.voters@.contains(v));
    assert forall|v: u64| #[trigger]
        store.membership.voters@.contains(v) && node.peer_schemas@.contains_key(v) implies
        min.command_schema <= node.peer_schemas@[v].command_schema by {
        assert(min.at_most(transport::schema_of(node.peer_schemas@, v)));
    }
}

} // verus!
