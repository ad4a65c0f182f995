//! The reentrant pause count of a device. Every pause guard that stands
//! counts one. The device is paused natively when the first guard is made
//! and resumed when the last one goes, so that it is paused exactly while a
//! guard stands.

use vstd::prelude::*;

verus! {

/// One thing that happens to the guards of a device.
pub enum GuardEvent {
    /// A guard is asked for. `native_ok` says whether the native pause call
    /// succeeds, should this request need one.
    Construct { native_ok: bool },
    /// A guard that stands is dropped.
    Drop,
}

/// The guards that stand on a device, and whether the device is paused
/// natively.
pub struct PauseState {
    /// Number of guards made and not yet dropped.
    pub guards: nat,
    /// Whether the native device is paused.
    pub paused: bool,
}

/// The number of guards after one more was counted.
pub open spec fn spec_acquired(guards: nat) -> nat {
    guards + 1
}

/// Whether counting a guard on top of `guards` calls for the native pause.
pub open spec fn spec_needs_pause(guards: nat) -> bool {
    guards == 0
}

/// The number of guards after one was taken off.
pub open spec fn spec_released(guards: nat) -> nat
    recommends
        guards >= 1,
{
    (guards - 1) as nat
}

/// Whether taking a guard off `guards` calls for the native resume.
pub open spec fn spec_needs_resume(guards: nat) -> bool {
    guards == 1
}

/// The state after one event. A request counts its guard first. Where that
/// calls for the native pause and the pause fails, the guard is taken off
/// again and none is made. A drop takes its guard off and resumes the
/// device where that was the last.
pub open spec fn spec_step(s: PauseState, e: GuardEvent) -> PauseState {
    match e {
        GuardEvent::Construct { native_ok } => {
            if spec_needs_pause(s.guards) {
                if native_ok {
                    PauseState { guards: spec_acquired(s.guards), paused: true }
                } else {
                    PauseState {
                        guards: spec_released(spec_acquired(s.guards)),
                        paused: s.paused,
                    }
                }
            } else {
                PauseState { guards: spec_acquired(s.guards), paused: s.paused }
            }
        },
        GuardEvent::Drop => {
            if spec_needs_resume(s.guards) {
                PauseState { guards: spec_released(s.guards), paused: false }
            } else {
                PauseState { guards: spec_released(s.guards), paused: s.paused }
            }
        },
    }
}

/// The state after a run of events on a device that starts with no guard
/// and not paused.
pub open spec fn spec_run(events: Seq<GuardEvent>) -> PauseState
    decreases events.len(),
{
    if events.len() == 0 {
        PauseState { guards: 0, paused: false }
    } else {
        spec_step(spec_run(events.drop_last()), events.last())
    }
}

/// Whether a run only drops guards that stand.
pub open spec fn spec_well_formed(events: Seq<GuardEvent>) -> bool
    decreases events.len(),
{
    if events.len() == 0 {
        true
    } else {
        spec_well_formed(events.drop_last()) && (events.last() is Drop ==> spec_run(
            events.drop_last(),
        ).guards >= 1)
    }
}

/// One event keeps the device paused exactly while a guard stands.
pub proof fn lemma_step_keeps_paused_iff_guarded(s: PauseState, e: GuardEvent)
    requires
        s.paused <==> s.guards >= 1,
        e is Drop ==> s.guards >= 1,
    ensures
        spec_step(s, e).paused <==> spec_step(s, e).guards >= 1,
{
}

/// After every run that only drops guards that stand, the device is paused
/// exactly if at least one guard stands.
pub proof fn lemma_paused_iff_guarded(events: Seq<GuardEvent>)
    requires
        spec_well_formed(events),
    ensures
        spec_run(events).paused <==> spec_run(events).guards >= 1,
    decreases events.len(),
{
    if events.len() > 0 {
        lemma_paused_iff_guarded(events.drop_last());
        lemma_step_keeps_paused_iff_guarded(spec_run(events.drop_last()), events.last());
    }
}

/// The count of the guards that stand on one device, and what is known of
/// the native pause. The first guard is counted before the native pause is
/// called; until the outcome of that call is confirmed the pause is
/// pending, and the guard is not yet made.
#[derive(Clone, Copy, Debug)]
pub struct PauseCount {
    guards: usize,
    paused: bool,
    pending: bool,
}

impl PauseCount {
    #[verifier::type_invariant]
    spec fn well_formed(self) -> bool {
        &&& self.pending ==> self.guards == 1 && !self.paused
        &&& !self.pending ==> (self.paused <==> self.guards >= 1)
    }

    /// Number of guards counted, the one of a pending pause among them.
    pub closed spec fn count(&self) -> nat {
        self.guards as nat
    }

    /// Whether the device is paused natively.
    pub closed spec fn paused(&self) -> bool {
        self.paused
    }

    /// Whether the outcome of a native pause call is awaited.
    pub closed spec fn pending(&self) -> bool {
        self.pending
    }

    /// The guards that are made and stand, and whether the device is
    /// paused. The guard of a pending pause is not made yet.
    pub open spec fn state(&self) -> PauseState {
        PauseState {
            guards: if self.pending() {
                0
            } else {
                self.count()
            },
            paused: self.paused(),
        }
    }

    /// Whether `other` holds the same count and the same knowledge.
    pub open spec fn same(&self, other: &PauseCount) -> bool {
        self.count() == other.count() && self.paused() == other.paused() && self.pending()
            == other.pending()
    }

    /// The count of a device on which no guard stands.
    pub fn new() -> (c: PauseCount)
        ensures
            c.count() == 0,
            !c.paused(),
            !c.pending(),
    {
        PauseCount { guards: 0, paused: false, pending: false }
    }

    /// Number of guards counted.
    pub fn guards(&self) -> (n: usize)
        ensures
            n == self.count(),
    {
        self.guards
    }

    /// Whether the outcome of a native pause call is awaited.
    pub fn is_pending(&self) -> (p: bool)
        ensures
            p == self.pending(),
            p ==> self.count() == 1 && !self.paused(),
    {
        proof {
            use_type_invariant(self);
        }
        self.pending
    }

    /// Whether the device is paused natively. While no pause is pending,
    /// that is so exactly if at least one guard stands.
    pub fn is_paused(&self) -> (p: bool)
        ensures
            p == self.paused(),
            !self.pending() ==> (p <==> self.count() >= 1),
            self.pending() ==> !p,
    {
        proof {
            use_type_invariant(self);
        }
        self.paused
    }

    /// Counts one more guard. The result says whether the device must now
    /// be paused natively, which is so exactly if no guard stood before:
    /// the pause is then pending until `confirm`. Where guards stand, the
    /// new one is made at once. `None`, with nothing changed, while a pause
    /// is pending and where the count has reached the machine's limit.
    pub fn acquire(&mut self) -> (r: Option<bool>)
        ensures
            r is None <==> old(self).pending() || old(self).count() >= usize::MAX,
            r is None ==> final(self).same(old(self)),
            r is Some ==> r->0 == spec_needs_pause(old(self).count()),
            r is Some ==> final(self).count() == spec_acquired(old(self).count()),
            r == Some(true) ==> final(self).pending(),
            r == Some(true) ==> final(self).state() == old(self).state(),
            r == Some(false) ==> !final(self).pending(),
            r == Some(false) ==> final(self).state() == spec_step(
                old(self).state(),
                GuardEvent::Construct { native_ok: true },
            ),
    {
        proof {
            use_type_invariant(&*self);
        }
        if self.pending || self.guards == usize::MAX {
            return None;
        }
        if self.guards == 0 {
            *self = PauseCount { guards: 1, paused: false, pending: true };
            Some(true)
        } else {
            *self = PauseCount { guards: self.guards + 1, paused: true, pending: false };
            Some(false)
        }
    }

    /// Takes in the outcome of the native pause call that was pending. On
    /// success the guard is made and the device is paused. On failure the
    /// guard is taken off the count again: none is made, and no pause is
    /// left behind. Where no pause was pending, nothing changes.
    pub fn confirm(&mut self, native_ok: bool)
        ensures
            !old(self).pending() ==> final(self).same(old(self)),
            old(self).pending() ==> !final(self).pending(),
            old(self).pending() ==> final(self).state() == spec_step(
                old(self).state(),
                GuardEvent::Construct { native_ok },
            ),
            old(self).pending() && native_ok ==> final(self).count() == old(self).count(),
            old(self).pending() && !native_ok ==> final(self).count() == spec_released(
                old(self).count(),
            ),
    {
        proof {
            use_type_invariant(&*self);
        }
        if self.pending {
            if native_ok {
                *self = PauseCount { guards: 1, paused: true, pending: false };
            } else {
                *self = PauseCount { guards: 0, paused: false, pending: false };
            }
        }
    }

    /// Takes one guard off the count. The result says whether the device
    /// must now be resumed natively, which is so exactly if that was the
    /// last guard. `None`, with nothing changed, where no guard stands and
    /// while a pause is pending.
    pub fn release(&mut self) -> (r: Option<bool>)
        ensures
            r is None <==> old(self).pending() || old(self).count() == 0,
            r is None ==> final(self).same(old(self)),
            r is Some ==> r->0 == spec_needs_resume(old(self).count()),
            r is Some ==> final(self).count() == spec_released(old(self).count()),
            r is Some ==> !final(self).pending(),
            r is Some ==> final(self).state() == spec_step(old(self).state(), GuardEvent::Drop),
    {
        proof {
            use_type_invariant(&*self);
        }
        if self.pending || self.guards == 0 {
            return None;
        }
        let last = self.guards == 1;
        *self = PauseCount { guards: self.guards - 1, paused: !last, pending: false };
        Some(last)
    }
}

} // verus!
