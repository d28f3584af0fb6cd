//! The admission gate: a counting semaphore with a fixed ceiling.
//!
//! It bounds how many translation calls are in flight at once. A call asks
//! for admission with [`AdmissionGate::try_admit`]; admission is granted
//! exactly when limiting is off or the current count is below the ceiling.
//! A granted slot is given back with [`AdmissionGate::release`].
//! Waiters have no queue and no ordering guarantee: whichever waiter's next
//! attempt finds room is admitted, so admission is not first-in-first-out and
//! a particular waiter can in principle be overtaken indefinitely. That is a
//! known limitation of the scheme, kept here deliberately.

use vstd::prelude::*;

verus! {

/// A counting semaphore with a fixed ceiling, or a no-op pass-through.
///
/// When `limited` is set, `count` is the number of calls currently admitted
/// and never exceeds `ceiling`. When it is not set, every caller is admitted
/// and the count stays at zero: admission and release do nothing.
pub struct AdmissionGate {
    /// Whether concurrency is bounded at all.
    pub limited: bool,
    /// The largest number of calls that may be admitted at once.
    /// Meaningful only when `limited` is set.
    pub ceiling: u32,
    /// How many calls are currently admitted.
    pub count: u32,
}

impl AdmissionGate {
    /// The invariant: the count never exceeds the ceiling, the ceiling is
    /// positive, and an unlimited gate keeps its count at zero.
    pub open spec fn wf(self) -> bool {
        &&& self.limited ==> self.ceiling >= 1 && self.count <= self.ceiling
        &&& !self.limited ==> self.count == 0
    }

    /// Whether a request for admission would be granted right now.
    pub open spec fn spec_admitted(self) -> bool {
        !self.limited || self.count < self.ceiling
    }

    /// The state after one admission attempt: the count grows by one when
    /// there is room, and nothing changes otherwise.
    pub open spec fn spec_admit(self) -> AdmissionGate {
        if self.limited && self.count < self.ceiling {
            AdmissionGate {
                limited: self.limited,
                ceiling: self.ceiling,
                count: (self.count + 1) as u32,
            }
        } else {
            self
        }
    }

    /// The state after one release: a limited gate's count shrinks by one,
    /// an unlimited gate is untouched.
    pub open spec fn spec_release(self) -> AdmissionGate {
        if self.limited && self.count > 0 {
            AdmissionGate {
                limited: self.limited,
                ceiling: self.ceiling,
                count: (self.count - 1) as u32,
            }
        } else {
            self
        }
    }

    /// A gate that bounds concurrency to `ceiling` calls at once.
    pub fn with_ceiling(ceiling: u32) -> (g: AdmissionGate)
        requires
            ceiling >= 1,
        ensures
            g.wf(),
            g.limited,
            g.ceiling == ceiling,
            g.count == 0,
    {
        AdmissionGate { limited: true, ceiling, count: 0 }
    }

    /// A gate with limiting disabled: every caller is admitted at once.
    pub fn unlimited() -> (g: AdmissionGate)
        ensures
            g.wf(),
            !g.limited,
            g.count == 0,
    {
        AdmissionGate { limited: false, ceiling: 0, count: 0 }
    }

    /// One admission attempt. Grants a slot exactly when limiting is off
    /// or the count is below the ceiling; a denied attempt changes
    /// nothing, so the caller may simply try again later.
    pub fn try_admit(&mut self) -> (admitted: bool)
        requires
            old(self).wf(),
        ensures
            final(self).wf(),
            admitted == old(self).spec_admitted(),
            *final(self) == old(self).spec_admit(),
    {
        if self.limited {
            if self.count < self.ceiling {
                self.count = self.count + 1;
                true
            } else {
                false
            }
        } else {
            true
        }
    }

    /// Give back one admitted slot. Must be called exactly once per granted
    /// admission; on an unlimited gate it does nothing.
    pub fn release(&mut self)
        requires
            old(self).wf(),
            old(self).limited ==> old(self).count >= 1,
        ensures
            final(self).wf(),
            *final(self) == old(self).spec_release(),
    {
        if self.limited {
            self.count = self.count - 1;
        }
    }

    /// How many calls are currently admitted.
    pub fn in_flight(&self) -> (n: u32)
        ensures
            n == self.count,
    {
        self.count
    }
}

/// One event in an admission history: an admission attempt or a release.
pub enum GateOp {
    Admit,
    Release,
}

/// The state reached by replaying a history of admission attempts and
/// releases, oldest first, starting from `g`.
pub open spec fn run_history(g: AdmissionGate, ops: Seq<GateOp>) -> AdmissionGate
    decreases ops.len(),
{
    if ops.len() == 0 {
        g
    } else {
        let prev = run_history(g, ops.drop_last());
        match ops.last() {
            GateOp::Admit => prev.spec_admit(),
            GateOp::Release => prev.spec_release(),
        }
    }
}

/// The admission counter stays within bounds over every history: starting
/// from a well-formed gate, any sequence of admission attempts and
/// releases leaves it well-formed — on a limited gate the count never
/// exceeds the ceiling, and being unsigned it never goes negative — and
/// never changes its mode or ceiling.
pub proof fn lemma_counter_bounded(g: AdmissionGate, ops: Seq<GateOp>)
    requires
        g.wf(),
    ensures
        run_history(g, ops).wf(),
        run_history(g, ops).limited == g.limited,
        run_history(g, ops).ceiling == g.ceiling,
        g.limited ==> run_history(g, ops).count <= g.ceiling,
    decreases ops.len(),
{
    if ops.len() > 0 {
        lemma_counter_bounded(g, ops.drop_last());
    }
}

/// Liveness of admission: whenever fewer calls are admitted than the
/// ceiling allows, the very next admission attempt is granted.
pub proof fn lemma_admitted_below_ceiling(g: AdmissionGate)
    requires
        g.wf(),
        g.count < g.ceiling || !g.limited,
    ensures
        g.spec_admitted(),
{
}

/// Release symmetry: a granted admission followed by its one matching
/// release restores the prior state exactly, whatever happened in between
/// to the guarded call.
pub proof fn lemma_admit_then_release(g: AdmissionGate)
    requires
        g.wf(),
        g.spec_admitted(),
    ensures
        g.spec_admit().spec_release() == g,
{
}

/// No throttling without a limit: on an unlimited gate, every admission
/// attempt in every history is granted, however many calls are already in
/// flight.
pub proof fn lemma_unlimited_never_throttles(g: AdmissionGate, ops: Seq<GateOp>)
    requires
        !g.limited,
    ensures
        !run_history(g, ops).limited,
        run_history(g, ops).spec_admitted(),
    decreases ops.len(),
{
    if ops.len() > 0 {
        lemma_unlimited_never_throttles(g, ops.drop_last());
    }
}

} // verus!
