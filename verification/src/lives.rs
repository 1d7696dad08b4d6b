//! The life counter.

use vstd::prelude::*;

verus! {

/// Lives at the start of a game.
pub const INITIAL_LIVES: u32 = 3;

/// Lives left. Zero is final: the game is over.
#[derive(Clone, Copy, Debug, PartialEq, Eq, Structural)]
pub struct Lives(pub u32);

impl Lives {
    /// The counter after `n` crafts were lost: one life less for each, and
    /// never below zero.
    pub open spec fn after_losses(self, n: nat) -> Lives {
        if self.0 >= n {
            Lives((self.0 - n) as u32)
        } else {
            Lives(0)
        }
    }

    /// No life is left.
    pub open spec fn game_over(self) -> bool {
        self.0 == 0
    }

    /// The counter of a new game.
    pub fn new() -> (lives: Lives)
        ensures
            lives == Lives(INITIAL_LIVES),
    {
        Lives(INITIAL_LIVES)
    }

    /// Takes one life, if any is left.
    pub fn remove_life(&mut self)
        ensures
            *final(self) == old(self).after_losses(1),
    {
        if self.0 > 0 {
            self.0 = self.0 - 1;
        }
    }

    /// Lives left.
    pub fn count(&self) -> (n: u32)
        ensures
            n == self.0,
    {
        self.0
    }

    /// Whether no life is left.
    pub fn is_game_over(&self) -> (over: bool)
        ensures
            over == self.game_over(),
    {
        self.0 == 0
    }
}

} // verus!
