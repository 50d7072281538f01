//! ACPI sleep states.
use vstd::prelude::*;

verus! {

/// An ACPI sleep state.
#[derive(Debug, Clone, Copy, PartialEq, Eq, Structural)]
pub enum SleepState {
    S0,
    S1,
    S2,
    S3,
    S4,
    S5,
}

/// The number of a sleep state: `n` for `Sn`.
pub open spec fn sleep_state_code(s: SleepState) -> u8 {
    match s {
        SleepState::S0 => 0,
        SleepState::S1 => 1,
        SleepState::S2 => 2,
        SleepState::S3 => 3,
        SleepState::S4 => 4,
        SleepState::S5 => 5,
    }
}

impl SleepState {
    /// The number of this sleep state, as uACPI takes it.
    pub fn code(&self) -> (r: u8)
        ensures
            r == sleep_state_code(*self),
    {
        match self {
            SleepState::S0 => 0,
            SleepState::S1 => 1,
            SleepState::S2 => 2,
            SleepState::S3 => 3,
            SleepState::S4 => 4,
            SleepState::S5 => 5,
        }
    }
}

/// The code of sleep state Sn is n.
pub proof fn lemma_sleep_state_code_values(s: SleepState)
    ensures
        (s == SleepState::S0) == (sleep_state_code(s) == 0),
        (s == SleepState::S1) == (sleep_state_code(s) == 1),
        (s == SleepState::S2) == (sleep_state_code(s) == 2),
        (s == SleepState::S3) == (sleep_state_code(s) == 3),
        (s == SleepState::S4) == (sleep_state_code(s) == 4),
        (s == SleepState::S5) == (sleep_state_code(s) == 5),
{
}

} // verus!
