use vstd::prelude::*;

verus! {

/// What one execution attempt produced. Exactly one variant comes out of
/// every run; each carries the bytes handed back to the host.
pub enum Outcome {
    /// The program ran to completion; its return bytes follow.
    Success(Vec<u8>),
    /// The program reverted on purpose; its revert bytes follow.
    Revert(Vec<u8>),
    /// The program or the engine failed; a formatted diagnostic follows.
    Failure(Vec<u8>),
    /// The program exceeded the configured call-stack depth.
    OutOfStack,
    /// The program exhausted its funded ink.
    OutOfInk,
}

/// The status tag of an outcome: the closed enumeration of status bytes the
/// host branches on. A value outside this enumeration is fatal to the host.
#[derive(Clone, Copy, PartialEq, Eq, Structural, Debug)]
pub enum OutcomeKind {
    Success,
    Revert,
    Failure,
    OutOfStack,
    OutOfInk,
}

/// The status byte each kind is encoded as on the shared region.
pub open spec fn spec_kind_code(k: OutcomeKind) -> u8 {
    match k {
        OutcomeKind::Success => 0,
        OutcomeKind::Revert => 1,
        OutcomeKind::Failure => 2,
        OutcomeKind::OutOfStack => 3,
        OutcomeKind::OutOfInk => 4,
    }
}

impl OutcomeKind {
    /// The status byte written onto the shared region for this kind.
    pub fn code(&self) -> (c: u8)
        ensures
            c == spec_kind_code(*self),
    {
        match self {
            OutcomeKind::Success => 0,
            OutcomeKind::Revert => 1,
            OutcomeKind::Failure => 2,
            OutcomeKind::OutOfStack => 3,
            OutcomeKind::OutOfInk => 4,
        }
    }
}

impl Outcome {
    /// The status tag of this outcome.
    pub open spec fn spec_kind(&self) -> OutcomeKind {
        match self {
            Outcome::Success(_) => OutcomeKind::Success,
            Outcome::Revert(_) => OutcomeKind::Revert,
            Outcome::Failure(_) => OutcomeKind::Failure,
            Outcome::OutOfStack => OutcomeKind::OutOfStack,
            Outcome::OutOfInk => OutcomeKind::OutOfInk,
        }
    }

    /// The bytes this outcome carries back to the host; resource exhaustion
    /// carries none.
    pub open spec fn spec_data(&self) -> Seq<u8> {
        match self {
            Outcome::Success(d) => d@,
            Outcome::Revert(d) => d@,
            Outcome::Failure(d) => d@,
            Outcome::OutOfStack => Seq::<u8>::empty(),
            Outcome::OutOfInk => Seq::<u8>::empty(),
        }
    }

    /// Splits the outcome into its status tag and its result bytes.
    pub fn into_data(self) -> (r: (OutcomeKind, Vec<u8>))
        ensures
            r.0 == self.spec_kind(),
            r.1@ == self.spec_data(),
    {
        match self {
            Outcome::Success(d) => (OutcomeKind::Success, d),
            Outcome::Revert(d) => (OutcomeKind::Revert, d),
            Outcome::Failure(d) => (OutcomeKind::Failure, d),
            Outcome::OutOfStack => (OutcomeKind::OutOfStack, Vec::new()),
            Outcome::OutOfInk => (OutcomeKind::OutOfInk, Vec::new()),
        }
    }
}

} // verus!
