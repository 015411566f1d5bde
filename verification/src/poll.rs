//! The poll loop's state and its transition rules.
//!
//! The loop owns one piece of state across cycles: the previous seat
//! snapshot, absent while priming. The driving loop around this module
//! performs the external work (fetching text, sending messages, sleeping)
//! and feeds the outcomes in; every decision — when to diff, what becomes
//! the next baseline, what a failure resets — is taken here.

use vstd::prelude::*;

use crate::diff::{diff, spec_diff, Transition};
use crate::fetch::DataFault;
use crate::snapshot::SeatSnapshot;

verus! {

/// Why a poll cycle failed.
#[derive(PartialEq, Eq, Clone, Debug)]
pub enum PollError {
    /// A data-source invocation failed at the transport level; the payload
    /// carries the underlying error's description.
    ExternalCall(String),
    /// A payload was fetched but failed a shape check.
    DataFormat(DataFault),
    /// The messaging channel failed to deliver a notification.
    Send(String),
}

/// The poll loop's state: priming (no baseline yet), or steady with the
/// previous cycle's seat snapshot as the baseline.
pub enum PollState {
    Priming,
    Steady { prev: SeatSnapshot },
}

impl PollState {
    pub open spec fn wf(&self) -> bool {
        match self {
            PollState::Priming => true,
            PollState::Steady { prev } => prev.wf(),
        }
    }

    /// Commits a successfully fetched seat snapshot as the new baseline and
    /// reports the qualifying transitions. The first snapshot after priming
    /// never produces a transition, whatever it contains; in the steady
    /// state the transitions are exactly the diff against the old baseline.
    /// The baseline is replaced wholesale either way.
    pub fn on_snapshot(self, seats: SeatSnapshot) -> (r: (PollState, Vec<Transition>))
        requires
            self.wf(),
            seats.wf(),
        ensures
            r.0 == (PollState::Steady { prev: seats }),
            r.0.wf(),
            match self {
                PollState::Priming => r.1@ == Seq::<Transition>::empty(),
                PollState::Steady { prev } => r.1@ == spec_diff(prev@, seats.entries@),
            },
    {
        match self {
            PollState::Priming => (PollState::Steady { prev: seats }, Vec::new()),
            PollState::Steady { prev } => {
                let transitions = diff(&prev, &seats);
                (PollState::Steady { prev: seats }, transitions)
            },
        }
    }

    /// A fetch failure aborts the cycle without committing anything: the
    /// loop restarts from priming, discarding whatever was fetched, and the
    /// failed cycle contributes no baseline.
    pub fn on_fetch_error(self) -> (r: PollState)
        ensures
            r == PollState::Priming,
    {
        PollState::Priming
    }
}

} // verus!
