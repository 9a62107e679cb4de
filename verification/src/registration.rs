//! The process-wide record of the dynamic message's number.
//!
//! The number is asked for once, on the first bootstrap message, and written
//! once, when the platform has answered. A [`Registration`] goes through its
//! phases in one direction only, so that the request cannot be made twice and
//! a number, once written, is never replaced.
use crate::message::WM_NULL;
use vstd::prelude::*;

verus! {

/// How far the registration of the dynamic message has come.
#[derive(Debug, Clone, Copy, PartialEq, Eq, Structural)]
pub enum Phase {
    /// No bootstrap message has been seen.
    Unregistered,
    /// The registration has been asked for; the platform's answer is awaited.
    Pending,
    /// The platform assigned this number to the name.
    Armed(u32),
    /// The platform declined; the dynamic message is never recognised.
    Degraded,
}

impl Phase {
    /// A recorded number is never the empty message, which the platform returns
    /// for a failed registration.
    pub open spec fn wf(self) -> bool {
        self matches Phase::Armed(id) ==> id != WM_NULL
    }

    /// The number under which the dynamic message arrives, once it is known.
    pub open spec fn dynamic_id(self) -> Option<u32> {
        match self {
            Phase::Armed(id) => Some(id),
            _ => None,
        }
    }

    /// The phase after the registration has been asked for: only an untouched
    /// registration moves.
    pub open spec fn claimed(self) -> Phase {
        match self {
            Phase::Unregistered => Phase::Pending,
            _ => self,
        }
    }

    /// The phase after the platform answered with `id`: only a pending
    /// registration moves, to `Degraded` on the answer zero and to `Armed(id)`
    /// on any other.
    pub open spec fn recorded(self, id: u32) -> Phase {
        match self {
            Phase::Pending => if id == WM_NULL {
                Phase::Degraded
            } else {
                Phase::Armed(id)
            },
            _ => self,
        }
    }

    /// How many of the two one-way moves lie behind this phase.
    pub open spec fn progress(self) -> nat {
        match self {
            Phase::Unregistered => 0,
            Phase::Pending => 1,
            Phase::Armed(_) => 2,
            Phase::Degraded => 2,
        }
    }
}

/// The one-time cell that holds the dynamic message's number for the process.
#[derive(Debug)]
pub struct Registration {
    phase: Phase,
}

impl View for Registration {
    type V = Phase;

    closed spec fn view(&self) -> Phase {
        self.phase
    }
}

impl Registration {
    #[verifier::type_invariant]
    spec fn inv(self) -> bool {
        self.phase.wf()
    }

    /// A registration that nothing has touched yet.
    pub fn new() -> (registration: Self)
        ensures
            registration@ == Phase::Unregistered,
        no_unwind
    {
        Registration { phase: Phase::Unregistered }
    }

    /// The current phase.
    pub fn phase(&self) -> (phase: Phase)
        ensures
            phase == self@,
            phase.wf(),
        no_unwind
    {
        proof {
            use_type_invariant(self);
        }
        self.phase
    }

    /// The number of the dynamic message, if the platform has assigned one.
    pub fn dynamic_id(&self) -> (id: Option<u32>)
        ensures
            id == self@.dynamic_id(),
            id != Some(WM_NULL),
        no_unwind
    {
        proof {
            use_type_invariant(self);
        }
        match self.phase {
            Phase::Armed(id) => Some(id),
            _ => None,
        }
    }

    /// Whether `msg` is the dynamic message.
    pub fn matches(&self, msg: u32) -> (hit: bool)
        ensures
            hit == (self@ == Phase::Armed(msg)),
        no_unwind
    {
        match self.phase {
            Phase::Armed(id) => id == msg,
            _ => false,
        }
    }

    /// Claims the right to register: granted to the first caller only.
    pub(crate) fn claim(&mut self) -> (granted: bool)
        ensures
            granted == (old(self)@ is Unregistered),
            final(self)@ == old(self)@.claimed(),
        no_unwind
    {
        proof {
            use_type_invariant(&*self);
        }
        match self.phase {
            Phase::Unregistered => {
                self.phase = Phase::Pending;
                true
            },
            _ => false,
        }
    }

    /// Records the platform's answer to the registration. The answer is stored
    /// if the registration was pending, and dropped otherwise; the result says
    /// which.
    pub fn record(&mut self, id: u32) -> (stored: bool)
        ensures
            stored == (old(self)@ is Pending),
            final(self)@ == old(self)@.recorded(id),
        no_unwind
    {
        proof {
            use_type_invariant(&*self);
        }
        match self.phase {
            Phase::Pending => {
                self.phase = if id == WM_NULL {
                    Phase::Degraded
                } else {
                    Phase::Armed(id)
                };
                true
            },
            _ => false,
        }
    }
}

/// Neither move of a registration leads back: the phase never loses progress,
/// a well-formed phase stays well formed, and a number, once recorded, stays.
pub proof fn registration_is_one_way(phase: Phase, id: u32)
    requires
        phase.wf(),
    ensures
        phase.claimed().wf(),
        phase.recorded(id).wf(),
        phase.progress() <= phase.claimed().progress() <= phase.progress() + 1,
        phase.progress() <= phase.recorded(id).progress() <= phase.progress() + 1,
        phase is Armed ==> phase.claimed() == phase && phase.recorded(id) == phase,
        phase is Degraded ==> phase.claimed() == phase && phase.recorded(id) == phase,
        !(phase.claimed() is Unregistered),
        !(phase.recorded(id) is Unregistered) || phase is Unregistered,
{
}

} // verus!
