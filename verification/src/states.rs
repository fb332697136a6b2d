//! The phases of a session and the steps between them.

use vstd::prelude::*;

verus! {

/// The phase a session is in.
#[derive(Debug, Copy, Clone, PartialEq, Eq, Hash, Structural)]
pub enum ServerState {
    Init,
    Lobby,
    WaitLoading,
    Shopping,
    Battle,
    ShowResult,
}

/// The stage of a battle.
#[derive(Debug, Copy, Clone, PartialEq, Eq, Hash, Structural)]
pub enum BattleState {
    /// No battle is on.
    Idle,
    /// Players are in place and wait for the start.
    Prepare,
    /// Players fight.
    Battle,
}

/// Why a phase could not be changed.
#[derive(Debug, Copy, Clone, PartialEq, Eq, Structural)]
pub enum StateError {
    /// The session is in that phase already.
    AlreadyInState,
    /// No step leads from the current phase to that one.
    InvalidTransition,
}

impl ServerState {
    /// Whether a session may step from this phase to `next`: the phases
    /// follow one another from `Init` to `ShowResult`, and a battle that
    /// was not the last leads back to `Shopping`.
    pub open spec fn leads_to(self, next: ServerState) -> bool {
        match (self, next) {
            (ServerState::Init, ServerState::Lobby) => true,
            (ServerState::Lobby, ServerState::WaitLoading) => true,
            (ServerState::WaitLoading, ServerState::Shopping) => true,
            (ServerState::Shopping, ServerState::Battle) => true,
            (ServerState::Battle, ServerState::Shopping) => true,
            (ServerState::Battle, ServerState::ShowResult) => true,
            _ => false,
        }
    }

    /// What a step from this phase to `next` gives.
    pub open spec fn step(self, next: ServerState) -> Result<(), StateError> {
        if self == next {
            Err(StateError::AlreadyInState)
        } else if self.leads_to(next) {
            Ok(())
        } else {
            Err(StateError::InvalidTransition)
        }
    }

    /// Checks a step from this phase to `next`.
    pub fn check_step(&self, next: ServerState) -> (checked: Result<(), StateError>)
        ensures
            checked == self.step(next),
    {
        if *self == next {
            return Err(StateError::AlreadyInState);
        }
        let allowed = match (*self, next) {
            (ServerState::Init, ServerState::Lobby) => true,
            (ServerState::Lobby, ServerState::WaitLoading) => true,
            (ServerState::WaitLoading, ServerState::Shopping) => true,
            (ServerState::Shopping, ServerState::Battle) => true,
            (ServerState::Battle, ServerState::Shopping) => true,
            (ServerState::Battle, ServerState::ShowResult) => true,
            _ => false,
        };
        if allowed {
            Ok(())
        } else {
            Err(StateError::InvalidTransition)
        }
    }

    /// The name of the phase as it is shown.
    pub fn name(&self) -> (name: &'static str)
        ensures
            name@ == match *self {
                ServerState::Init => "Init"@,
                ServerState::Lobby => "Lobby"@,
                ServerState::WaitLoading => "Wait Loading"@,
                ServerState::Shopping => "Shopping"@,
                ServerState::Battle => "Battle"@,
                ServerState::ShowResult => "Show Result"@,
            },
    {
        match self {
            ServerState::Init => "Init",
            ServerState::Lobby => "Lobby",
            ServerState::WaitLoading => "Wait Loading",
            ServerState::Shopping => "Shopping",
            ServerState::Battle => "Battle",
            ServerState::ShowResult => "Show Result",
        }
    }
}

} // verus!
