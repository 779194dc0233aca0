//! The kinds of match a player can start.

use vstd::prelude::*;

verus! {

/// Which kind of opponent a game is played against.
#[derive(Clone, Copy, Debug, PartialEq, Eq, Structural)]
pub enum GameMode {
    /// Versus the computer opponent.
    Ai,
    /// Versus a friend on the same computer.
    Local,
    /// Online matchmaking.
    Online,
}

impl Default for GameMode {
    fn default() -> (r: Self)
        ensures
            r == GameMode::Ai,
    {
        GameMode::Ai
    }
}

impl TryFrom<i8> for GameMode {
    type Error = ();

    /// The menu numbering of the game modes: 1 versus the computer, 2
    /// local, 3 online; anything else is rejected.
    fn try_from(value: i8) -> (r: Result<Self, ()>) {
        match value {
            1 => Ok(Self::Ai),
            2 => Ok(Self::Local),
            3 => Ok(Self::Online),
            _ => Err(()),
        }
    }
}

impl vstd::std_specs::convert::TryFromSpecImpl<i8> for GameMode {
    open spec fn obeys_try_from_spec() -> bool {
        true
    }

    open spec fn try_from_spec(value: i8) -> Result<Self, ()> {
        match value {
            1 => Ok(GameMode::Ai),
            2 => Ok(GameMode::Local),
            3 => Ok(GameMode::Online),
            _ => Err(()),
        }
    }
}

} // verus!
