use froginity::game::{frame_action, FrameAction};
use froginity::input::{ElementState, InputHandler, Key, KeyEvent};

#[test]
fn running_game_advances() {
    assert_eq!(frame_action(false, false), FrameAction::Advance);
    assert_eq!(frame_action(false, true), FrameAction::Advance);
}

#[test]
fn finished_game_holds_until_restart() {
    assert_eq!(frame_action(true, false), FrameAction::Hold);
    assert_eq!(frame_action(true, true), FrameAction::Restart);
}

#[test]
fn holding_r_does_not_restart_twice() {
    let mut h = InputHandler::new();
    let r_down = KeyEvent { physical_key: Key::KeyR, state: ElementState::Pressed };
    h.handle_key_event(r_down);
    assert_eq!(frame_action(true, h.restart_pressed), FrameAction::Restart);
    h.end_frame();
    // The game is over again while R is still down and repeating.
    h.handle_key_event(r_down);
    assert_eq!(frame_action(true, h.restart_pressed), FrameAction::Hold);
}
