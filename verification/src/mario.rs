//! A player whose form changes with the power-ups collected.

use vstd::prelude::*;

verus! {

/// The forms of the player.
#[derive(Debug, Clone, Copy, PartialEq, Eq, Structural)]
pub enum State {
    Mario,
    SuperMario,
    FireMario,
    CapeMario,
}

/// The power-ups.
#[derive(Debug, Clone, Copy, PartialEq, Eq, Structural)]
pub enum Transition {
    Feather,
    Flower,
    Mushroom,
}

/// The form that `power` gives to a player in form `state`: a flower and a
/// feather always give their own form; a mushroom makes the small player
/// grow and leaves every other form as it is.
pub open spec fn next_state(state: State, power: Transition) -> State {
    match power {
        Transition::Flower => State::FireMario,
        Transition::Feather => State::CapeMario,
        Transition::Mushroom => if state == State::Mario {
            State::SuperMario
        } else {
            state
        },
    }
}

/// A player.
#[derive(Debug)]
pub struct Player {
    state: State,
}

impl View for Player {
    type V = State;

    closed spec fn view(&self) -> State {
        self.state
    }
}

impl Player {
    /// A small player.
    pub fn new() -> (player: Self)
        ensures
            player@ == State::Mario,
    {
        Self { state: State::Mario }
    }

    /// The player's form.
    pub fn state(&self) -> (state: State)
        ensures
            state == self@,
    {
        self.state
    }

    /// Collects a power-up.
    pub fn collect(&mut self, power: Transition)
        ensures
            final(self)@ == next_state(old(self)@, power),
    {
        match (self.state, power) {
            (State::Mario, Transition::Mushroom) => self.state = State::SuperMario,
            (_, Transition::Flower) => self.state = State::FireMario,
            (_, Transition::Feather) => self.state = State::CapeMario,
            (_, Transition::Mushroom) => {},
        }
    }
}

} // verus!
