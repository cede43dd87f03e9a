//! The screens of the program around the board, for the loop that draws them.

use vstd::prelude::*;

verus! {

/// The screens that the program can show.
#[derive(Clone, Copy, Debug, PartialEq, Eq, Structural)]
pub enum Stages {
    ChessGame,
}

/// One screen: the frame loop lets it react to input, draws it, and asks
/// whether another screen is to take over.
pub trait GameStage {
    fn draw(&self);

    fn logic(&mut self);

    fn set_new_stage(&mut self) -> Option<Stages>;
}

} // verus!
