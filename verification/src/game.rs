use vstd::prelude::*;

use crate::input::{press, InputView, Key};

verus! {

/// What a frame does with the game world.
#[derive(Clone, Copy, Debug, PartialEq, Eq, Structural)]
pub enum FrameAction {
    /// The game is over and restart was pressed: reset the world.
    Restart,
    /// The game is over: the world stands still.
    Hold,
    /// The game runs: step the world forward.
    Advance,
}

/// A finished game waits for a restart press; a running game advances.
pub open spec fn action_for_frame(game_over: bool, restart_pressed: bool) -> FrameAction {
    if game_over {
        if restart_pressed {
            FrameAction::Restart
        } else {
            FrameAction::Hold
        }
    } else {
        FrameAction::Advance
    }
}

/// Decides what this frame does with the world, from whether the game is over
/// and whether restart was pressed in this frame.
pub fn frame_action(game_over: bool, restart_pressed: bool) -> (r: FrameAction)
    ensures
        r == action_for_frame(game_over, restart_pressed),
{
    if game_over {
        if restart_pressed {
            FrameAction::Restart
        } else {
            FrameAction::Hold
        }
    } else {
        FrameAction::Advance
    }
}

/// The restart key only ever restarts a finished game, and only on a fresh
/// press: a press of R while the game is over restarts it when R was up
/// before; with R kept down from an earlier frame, the game stays over
/// however often the keyboard repeats the key; a running game just advances.
pub proof fn lemma_restart_needs_fresh_press(v: InputView, game_over: bool)
    ensures
        game_over && !v.restart.held
            ==> action_for_frame(game_over, v.after_event(press(Key::KeyR)).restart.pressed)
            == FrameAction::Restart,
        game_over && v.restart.held
            ==> action_for_frame(game_over, v.frame_ended().after_event(press(Key::KeyR)).restart.pressed)
            == FrameAction::Hold,
        !game_over ==> action_for_frame(game_over, v.restart.pressed) == FrameAction::Advance,
{
}

} // verus!
