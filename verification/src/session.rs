//! The per-call state machine: acquire a slot, fly, release exactly once.
//!
//! Each translation call moves through the phases `Acquiring` (polling the
//! gate for a slot), `InFlight` (the remote call is out), and `Done`. The
//! unverified transport drives the machine: it polls [`CallSession::poll_admission`]
//! until a slot is granted — yielding between attempts — then performs the
//! one outbound call and hands whatever came of it to
//! [`CallSession::complete`], which gives the slot back and interprets the
//! outcome. The phases make the ordering unskippable: a call cannot fly
//! before it is admitted, and it releases its slot exactly once, whether the
//! remote call succeeded, was rejected, or never came back at all.

use vstd::prelude::*;

use crate::gate::AdmissionGate;
use crate::response::ApiResponse;
use crate::response::TranslateError;

verus! {

/// Where a call stands between being made and being answered.
#[derive(Debug, Clone, Copy, PartialEq, Eq)]
pub enum CallPhase {
    /// Waiting for the admission gate to grant a slot.
    Acquiring,
    /// Admitted; the remote call is out.
    InFlight,
    /// Finished; the slot has been given back.
    Done,
}

/// What became of the one outbound network call.
#[derive(Debug, Clone, PartialEq, Eq)]
pub enum FetchOutcome {
    /// The service answered with a well-formed body.
    Response(ApiResponse),
    /// The call failed below the application: connection failure, a
    /// transport-level rejection, or a malformed body. The payload
    /// describes the failure.
    Transport(String),
}

/// The caller's result for a given outcome of the outbound call: a
/// well-formed answer is interpreted by its status code, and a transport
/// failure is propagated verbatim.
pub open spec fn spec_call_result(outcome: FetchOutcome) -> Result<String, TranslateError> {
    match outcome {
        FetchOutcome::Response(resp) => resp.spec_interpretation(),
        FetchOutcome::Transport(text) => Result::Err(TranslateError::Transport(text)),
    }
}

/// One translation call's passage through the admission gate.
pub struct CallSession {
    /// The phase the call is in.
    pub phase: CallPhase,
}

impl CallSession {
    /// A fresh call, about to ask the admission gate for a slot.
    pub fn begin() -> (s: CallSession)
        ensures
            s.phase == CallPhase::Acquiring,
    {
        CallSession { phase: CallPhase::Acquiring }
    }

    /// One admission attempt for this call. Granted exactly when the
    /// admission gate has room; a denied attempt changes nothing, and the
    /// driver is expected to yield before trying again. Once granted, the
    /// call is in flight.
    pub fn poll_admission(&mut self, gate: &mut AdmissionGate) -> (admitted: bool)
        requires
            old(self).phase == CallPhase::Acquiring,
            old(gate).wf(),
        ensures
            final(gate).wf(),
            admitted == old(gate).spec_admitted(),
            *final(gate) == old(gate).spec_admit(),
            admitted ==> final(self).phase == CallPhase::InFlight,
            !admitted ==> final(self).phase == CallPhase::Acquiring,
    {
        let admitted = gate.try_admit();
        if admitted {
            self.phase = CallPhase::InFlight;
        }
        admitted
    }

    /// Finish an in-flight call: give the slot back and interpret the
    /// outcome. The slot is released whatever the outcome was — success,
    /// remote rejection, or transport failure — so the admission count is
    /// restored no matter how the call went.
    pub fn complete(&mut self, gate: &mut AdmissionGate, outcome: FetchOutcome) -> (r: Result<
        String,
        TranslateError,
    >)
        requires
            old(self).phase == CallPhase::InFlight,
            old(gate).wf(),
            old(gate).limited ==> old(gate).count >= 1,
        ensures
            final(self).phase == CallPhase::Done,
            final(gate).wf(),
            *final(gate) == old(gate).spec_release(),
            r == spec_call_result(outcome),
    {
        gate.release();
        self.phase = CallPhase::Done;
        match outcome {
            FetchOutcome::Response(resp) => resp.into_result(),
            FetchOutcome::Transport(text) => Err(TranslateError::Transport(text)),
        }
    }

    /// The phase the call is in.
    pub fn phase(&self) -> (p: CallPhase)
        ensures
            p == self.phase,
    {
        self.phase
    }
}

} // verus!
