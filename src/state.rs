use vstd::prelude::*;

verus! {

/// The single discrete label that governs which movement and animation
/// behaviour is active on a tick.
#[derive(Clone, Copy, Debug, PartialEq, Eq, Structural)]
pub enum LocomotionState {
    Idle,
    Moving,
    Jumping,
    Falling,
    GroundDashing,
    AirDashing,
    GroundAttacking,
    AirAttacking,
}

impl LocomotionState {
    /// Dashing and attacking states run to completion: the guarded setter
    /// may not overwrite them.
    pub open spec fn locked(self) -> bool {
        match self {
            LocomotionState::GroundDashing
            | LocomotionState::AirDashing
            | LocomotionState::GroundAttacking
            | LocomotionState::AirAttacking => true,
            _ => false,
        }
    }

    pub open spec fn attacking(self) -> bool {
        self == LocomotionState::GroundAttacking || self == LocomotionState::AirAttacking
    }

    pub fn is_attacking(&self) -> (r: bool)
        ensures
            r == self.attacking(),
    {
        match self {
            LocomotionState::GroundAttacking | LocomotionState::AirAttacking => true,
            _ => false,
        }
    }

    pub fn is_locked(&self) -> (r: bool)
        ensures
            r == self.locked(),
    {
        match self {
            LocomotionState::GroundDashing
            | LocomotionState::AirDashing
            | LocomotionState::GroundAttacking
            | LocomotionState::AirAttacking => true,
            _ => false,
        }
    }
}

} // verus!
