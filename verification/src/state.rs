//! The state of a session, which decides whether a tick moves anything.

use vstd::prelude::*;

verus! {

/// Where a session stands. Quad and cars move only while it is `InGame`.
#[derive(Clone, Copy, Debug, PartialEq, Eq, Structural, Hash)]
pub enum AppState {
    MainMenu,
    InGame,
    Paused,
    GameOver,
}

impl AppState {
    /// The state after the pause key: `InGame` and `Paused` change places,
    /// the other states stay.
    pub open spec fn toggled(self) -> AppState {
        match self {
            AppState::InGame => AppState::Paused,
            AppState::Paused => AppState::InGame,
            AppState::MainMenu => AppState::MainMenu,
            AppState::GameOver => AppState::GameOver,
        }
    }

    /// The state after a tick in which the pause key went down (`pause`) or
    /// did not.
    pub open spec fn after_keys(self, pause: bool) -> AppState {
        if pause {
            self.toggled()
        } else {
            self
        }
    }

    /// The state after the check for a car over the quad, which found one
    /// (`hit`) or none: a hit ends the game.
    pub open spec fn after_check(self, hit: bool) -> AppState {
        if hit {
            AppState::GameOver
        } else {
            self
        }
    }

    /// Whether a tick in this state moves the quad and the cars.
    pub open spec fn runs(self) -> bool {
        self == AppState::InGame
    }

    /// Flips between `InGame` and `Paused`; any other state is returned as it
    /// is.
    pub fn toggle_pause(self) -> (next: AppState)
        ensures
            next == self.toggled(),
    {
        match self {
            AppState::InGame => AppState::Paused,
            AppState::Paused => AppState::InGame,
            AppState::MainMenu => AppState::MainMenu,
            AppState::GameOver => AppState::GameOver,
        }
    }

    /// Whether a tick in this state moves the quad and the cars.
    pub fn is_running(self) -> (running: bool)
        ensures
            running == self.runs(),
    {
        match self {
            AppState::InGame => true,
            _ => false,
        }
    }
}

impl Default for AppState {
    /// A session starts in the game.
    fn default() -> (state: AppState)
        ensures
            state == AppState::InGame,
    {
        AppState::InGame
    }
}

/// Pressing the pause key twice gives back the state one started from.
pub proof fn toggling_twice_restores(state: AppState)
    ensures
        state.toggled().toggled() == state,
{
}

/// The pause key never ends a game and never revives one.
pub proof fn toggling_keeps_game_over(state: AppState)
    ensures
        state.toggled() == AppState::GameOver <==> state == AppState::GameOver,
{
}

} // verus!
