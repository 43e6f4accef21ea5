# config_engine

The decisions of one node of a replicated configuration service, verified with Verus.

A node keeps three rules, and the library proves them:

1. **No implicit formation.** A node that is never handed a plan stays idle.
2. **No stale reads.** Every read passes a linearizable barrier first.
3. **Gossip decides nothing.** Observations are held against committed membership, and what is
   accepted says nothing that membership did not say before.

## Layout

- `src/`: the library. Every function takes what was observed (of the Raft core, the store, the
  clock, the policy, a peer) as plain values and answers with plain values.
  - `node` and its modules: starting, forming, serving, membership, the schema gate, retention;
  - `watch`, `admission`, `delivery`, `handoff`: watch streams, from admission to the last event;
  - `pagination`: revision-pinned lists and their tokens;
  - `metrics`, `render`, `exposition`, `number`, `headers`: what a scrape shows;
  - `transport`, `network`, `netfault`, `testing`: the peer plane and a faulty network;
  - `config`, `error`, `admin`, `hint`, `direct`, `capabilities`, `types`, `storage`: the rest of
    what a node is made of;
  - `text`, `textmap`, `listing`, `bytes`, `time`, `clock`: what they stand on.
- `app/`: the running half. Tasks, channels, timers and the Raft core, around those decisions.
- `tests/`: the library from outside.

## What is trusted

Text that the standard library formats, SHA-256, the Raft core's validation of its timers and the
text of its errors, which characters are white space, and the clock. Each stands in a small
function whose comment says what is believed of it.
