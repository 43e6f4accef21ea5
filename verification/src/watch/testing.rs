//! Deterministic interleaving points inside watch registration.

use vstd::prelude::*;

use crate::metrics;

verus! {

/// The release points a registration can be parked at.
///
/// They are crossed in this order, exactly once each, per registration. `BeforeHighWater` and
/// `AfterRegister` are inside the journal gate; the other two are outside it.
#[derive(Clone, Copy, PartialEq, Eq, Structural, Debug, PartialOrd, Ord, Hash)]
pub enum GateHook {
    /// Inside the journal gate, after the subscription exists and before the high-water mark is
    /// read.
    BeforeHighWater,
    /// Inside the journal gate, after the high-water mark was captured.
    AfterRegister,
    /// Outside the journal gate, before the first journal page is read.
    BeforeReplay,
    /// Outside the journal gate, before buffered live items are drained.
    BeforeLiveDrain,
}

/// Proof that a hook was armed.
#[derive(Debug)]
pub struct GatePass {
    hook: GateHook,
}

impl GatePass {
    /// The hook that was armed.
    pub closed spec fn hook(&self) -> GateHook {
        self.hook
    }
}

/// One release point.
#[derive(Clone, Copy, PartialEq, Eq, Structural, Debug)]
pub struct HookSlot {
    /// Whether an arrival parks here.
    pub armed: bool,
    /// Arrivals that parked.
    pub arrived: u64,
    /// Arrivals as of when the hook was armed. An arrival that beats its waiter is not missed,
    /// because the waiter measures from here.
    pub armed_at: u64,
    /// Arrivals in all, parked or not.
    pub crossed: u64,
}

impl Default for HookSlot {
    fn default() -> (s: Self)
        ensures
            s.untouched(),
    {
        HookSlot { armed: false, arrived: 0, armed_at: 0, crossed: 0 }
    }
}

impl HookSlot {
    /// Nothing parks here, and nothing has come by.
    pub open spec fn untouched(&self) -> bool {
        &&& !self.armed
        &&& self.arrived == 0
        &&& self.armed_at == 0
        &&& self.crossed == 0
    }

    /// Park the next arrival.
    pub fn arm(&mut self)
        ensures
            *final(self) == (HookSlot { armed: true, armed_at: old(self).arrived, ..*old(self) }),
    {
        self.armed = true;
        self.armed_at = self.arrived;
    }

    /// Let parked arrivals through.
    pub fn release(&mut self)
        ensures
            *final(self) == (HookSlot { armed: false, ..*old(self) }),
    {
        self.armed = false;
    }

    /// Record an arrival; whether it must park.
    pub fn enter(&mut self) -> (park: bool)
        ensures
            park == old(self).armed,
            *final(self) == (HookSlot {
                crossed: metrics::counted(old(self).crossed, 1),
                arrived: if old(self).armed {
                    metrics::counted(old(self).arrived, 1)
                } else {
                    old(self).arrived
                },
                ..*old(self)
            }),
    {
        self.crossed = metrics::count_up(self.crossed, 1);
        if !self.armed {
            return false;
        }
        self.arrived = metrics::count_up(self.arrived, 1);
        true
    }

    /// Whether something parked here since the hook was armed.
    pub fn has_arrived(&self) -> (r: bool)
        ensures
            r == (self.arrived > self.armed_at),
    {
        self.arrived > self.armed_at
    }
}

/// The release points of a registration.
#[derive(Clone, Copy, PartialEq, Eq, Structural, Debug)]
pub struct Hooks {
    pub before_high_water: HookSlot,
    pub after_register: HookSlot,
    pub before_replay: HookSlot,
    pub before_live_drain: HookSlot,
}

impl Default for Hooks {
    fn default() -> (h: Self)
        ensures
            forall|hook: GateHook| (#[trigger] h.at(hook)).untouched(),
    {
        let s = HookSlot::default();
        Hooks { before_high_water: s, after_register: s, before_replay: s, before_live_drain: s }
    }
}

impl Hooks {
    /// The slot of a hook.
    pub open spec fn at(&self, hook: GateHook) -> HookSlot {
        match hook {
            GateHook::BeforeHighWater => self.before_high_water,
            GateHook::AfterRegister => self.after_register,
            GateHook::BeforeReplay => self.before_replay,
            GateHook::BeforeLiveDrain => self.before_live_drain,
        }
    }

    /// The slot of a hook.
    pub fn slot(&self, hook: GateHook) -> (s: HookSlot)
        ensures
            s == self.at(hook),
    {
        match hook {
            GateHook::BeforeHighWater => self.before_high_water,
            GateHook::AfterRegister => self.after_register,
            GateHook::BeforeReplay => self.before_replay,
            GateHook::BeforeLiveDrain => self.before_live_drain,
        }
    }

    /// Put a slot in place of a hook's.
    pub fn put(&mut self, hook: GateHook, slot: HookSlot)
        ensures
            final(self).at(hook) == slot,
            forall|other: GateHook| other != hook ==> #[trigger] final(self).at(other) == old(
                self,
            ).at(other),
    {
        match hook {
            GateHook::BeforeHighWater => {
                self.before_high_water = slot;
            },
            GateHook::AfterRegister => {
                self.after_register = slot;
            },
            GateHook::BeforeReplay => {
                self.before_replay = slot;
            },
            GateHook::BeforeLiveDrain => {
                self.before_live_drain = slot;
            },
        }
    }

    /// Arm `hook`: the next arrival parks there until it is released.
    pub fn pause(&mut self, hook: GateHook) -> (pass: GatePass)
        ensures
            pass.hook() == hook,
            final(self).at(hook) == (HookSlot {
                armed: true,
                armed_at: old(self).at(hook).arrived,
                ..old(self).at(hook)
            }),
            forall|other: GateHook| other != hook ==> #[trigger] final(self).at(other) == old(
                self,
            ).at(other),
    {
        let mut slot = self.slot(hook);
        slot.arm();
        self.put(hook, slot);
        GatePass { hook }
    }

    /// Let the parked task through.
    pub fn release(&mut self, pass: GatePass)
        ensures
            final(self).at(pass.hook()) == (HookSlot { armed: false, ..old(self).at(pass.hook()) }),
            forall|other: GateHook|
                other != pass.hook() ==> #[trigger] final(self).at(other) == old(self).at(other),
    {
        let mut slot = self.slot(pass.hook);
        slot.release();
        self.put(pass.hook, slot);
    }

    /// Cross a hook; whether the caller must park.
    pub fn enter(&mut self, hook: GateHook) -> (park: bool)
        ensures
            park == old(self).at(hook).armed,
            final(self).at(hook).crossed == metrics::counted(old(self).at(hook).crossed, 1),
            final(self).at(hook).armed == old(self).at(hook).armed,
            final(self).at(hook).armed_at == old(self).at(hook).armed_at,
            final(self).at(hook).arrived == (if park {
                metrics::counted(old(self).at(hook).arrived, 1)
            } else {
                old(self).at(hook).arrived
            }),
            forall|other: GateHook| other != hook ==> #[trigger] final(self).at(other) == old(
                self,
            ).at(other),
    {
        let mut slot = self.slot(hook);
        let park: bool = slot.enter();
        self.put(hook, slot);
        park
    }

    /// How many times `hook` has been crossed, parked or not.
    pub fn count(&self, hook: GateHook) -> (n: u64)
        ensures
            n == self.at(hook).crossed,
    {
        self.slot(hook).crossed
    }
}

/// Nothing parks at a hook that nobody touched, and nothing has come by it.
pub proof fn an_untouched_hook_parks_nothing(slot: HookSlot)
    requires
        slot.untouched(),
    ensures
        !slot.armed,
        slot.arrived == 0 && slot.armed_at == 0 && slot.crossed == 0,
{
}

/// Every hook has a slot of its own.
pub proof fn hooks_have_slots_of_their_own(hooks: Hooks)
    ensures
        hooks.at(GateHook::BeforeHighWater) == hooks.before_high_water,
        hooks.at(GateHook::AfterRegister) == hooks.after_register,
        hooks.at(GateHook::BeforeReplay) == hooks.before_replay,
        hooks.at(GateHook::BeforeLiveDrain) == hooks.before_live_drain,
{
}

} // verus!
