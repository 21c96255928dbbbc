//! Two-press confirmation of the exit chord.
//!
//! A single key that ends the program is a hazard where most keys go on to
//! the shell, so the chord has to be pressed twice in a row.

use vstd::prelude::*;

verus! {

/// The state of the quit confirmation: whether one quit chord is pending,
/// and whether the exit has been confirmed.
#[derive(Clone, Copy, Debug, PartialEq, Eq, Structural)]
pub struct QuitGate {
    pub pending: bool,
    pub exit: bool,
}

impl QuitGate {
    /// The state after the quit chord: the first press is kept pending, a
    /// press while one is pending sets the exit flag.
    pub open spec fn spec_press_quit(self) -> QuitGate {
        if self.pending {
            QuitGate { pending: true, exit: true }
        } else {
            QuitGate { pending: true, exit: self.exit }
        }
    }

    /// The state after any other key: a pending press is forgotten.
    pub open spec fn spec_press_other(self) -> QuitGate {
        QuitGate { pending: false, exit: self.exit }
    }

    /// A gate with nothing pending and the exit flag clear.
    pub fn new() -> (gate: Self)
        ensures
            !gate.pending,
            !gate.exit,
    {
        QuitGate { pending: false, exit: false }
    }

    /// The quit chord was pressed.
    pub fn press_quit(&mut self)
        ensures
            *final(self) == old(self).spec_press_quit(),
    {
        if self.pending {
            self.exit = true;
        } else {
            self.pending = true;
        }
    }

    /// Another key was pressed.
    pub fn press_other(&mut self)
        ensures
            *final(self) == old(self).spec_press_other(),
    {
        self.pending = false;
    }

    /// The number of quit chords that wait for their confirmation: 0 or 1.
    pub fn count(&self) -> (count: u8)
        ensures
            count == if self.pending { 1u8 } else { 0u8 },
    {
        if self.pending {
            1
        } else {
            0
        }
    }

    /// Whether the exit has been confirmed.
    pub fn should_exit(&self) -> (exit: bool)
        ensures
            exit == self.exit,
    {
        self.exit
    }
}

/// Two quit chords in a row set the exit flag, whatever was pending before.
pub proof fn lemma_two_presses_exit(gate: QuitGate)
    ensures
        gate.spec_press_quit().spec_press_quit().exit,
{
}

/// A quit chord, another key and a quit chord leave the exit flag as it
/// was: the key in between takes the first press back.
pub proof fn lemma_other_key_resets(gate: QuitGate)
    ensures
        gate.spec_press_quit().spec_press_other().spec_press_quit().exit == (gate.exit || gate.pending),
        !gate.spec_press_quit().spec_press_other().pending,
        !gate.pending && !gate.exit ==> !gate.spec_press_quit().spec_press_other().spec_press_quit().exit,
{
}

} // verus!
