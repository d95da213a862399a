use vstd::prelude::*;

verus! {

/// The keys that the game distinguishes.
#[derive(Clone, Copy, Debug, PartialEq, Eq, Structural)]
pub enum Key {
    Space,
    ArrowUp,
    KeyW,
    KeyR,
    /// Any other key.
    Other,
}

/// Whether a key went down or up.
#[derive(Clone, Copy, Debug, PartialEq, Eq, Structural)]
pub enum ElementState {
    Pressed,
    Released,
}

/// One keyboard event: which key and in which direction.
#[derive(Clone, Copy, Debug, PartialEq, Eq, Structural)]
pub struct KeyEvent {
    pub physical_key: Key,
    pub state: ElementState,
}

/// What a game action sees of its button: a press seen this frame, and
/// whether the button is down now.
pub struct ButtonState {
    pub pressed: bool,
    pub held: bool,
}

/// The abstract state of the input handler: one button per game action.
pub struct InputView {
    pub jump: ButtonState,
    pub restart: ButtonState,
}

/// The game action a key is bound to.
pub enum Action {
    Jump,
    Restart,
    Unbound,
}

/// Space, the up arrow and W jump; R restarts; other keys do nothing.
pub open spec fn action_of(key: Key) -> Action {
    match key {
        Key::Space | Key::ArrowUp | Key::KeyW => Action::Jump,
        Key::KeyR => Action::Restart,
        Key::Other => Action::Unbound,
    }
}

/// A button after an event for it: a press registers only on the transition
/// from up to down, and stays registered until the frame ends.
pub open spec fn button_after(b: ButtonState, down: bool) -> ButtonState {
    ButtonState { pressed: b.pressed || (down && !b.held), held: down }
}

impl InputView {
    /// The state after one keyboard event.
    pub open spec fn after_event(self, event: KeyEvent) -> InputView {
        let down = event.state == ElementState::Pressed;
        match action_of(event.physical_key) {
            Action::Jump => InputView { jump: button_after(self.jump, down), ..self },
            Action::Restart => InputView { restart: button_after(self.restart, down), ..self },
            Action::Unbound => self,
        }
    }

    /// The state after the end of a frame: presses are consumed, held keys stay held.
    pub open spec fn frame_ended(self) -> InputView {
        InputView {
            jump: ButtonState { pressed: false, held: self.jump.held },
            restart: ButtonState { pressed: false, held: self.restart.held },
        }
    }

    /// Nothing pressed and nothing held.
    pub open spec fn idle() -> InputView {
        InputView {
            jump: ButtonState { pressed: false, held: false },
            restart: ButtonState { pressed: false, held: false },
        }
    }
}

/// The event `key` going down.
pub open spec fn press(key: Key) -> KeyEvent {
    KeyEvent { physical_key: key, state: ElementState::Pressed }
}

/// The event `key` going up.
pub open spec fn release(key: Key) -> KeyEvent {
    KeyEvent { physical_key: key, state: ElementState::Released }
}

/// A repeated event changes nothing: a key that the keyboard repeats while it
/// is held down registers one press, not one per repeat.
pub proof fn lemma_repeated_event_changes_nothing(v: InputView, e: KeyEvent)
    ensures
        v.after_event(e).after_event(e) == v.after_event(e),
{
}

/// A tap that starts and ends within one frame is still seen by that frame.
pub proof fn lemma_tap_within_frame_is_seen(v: InputView, key: Key)
    ensures
        action_of(key) == Action::Jump && !v.jump.held
            ==> v.after_event(press(key)).after_event(release(key)).jump.pressed,
        action_of(key) == Action::Restart && !v.restart.held
            ==> v.after_event(press(key)).after_event(release(key)).restart.pressed,
{
}

/// A key held across the end of a frame does not register again in the next
/// frame: each press is seen in exactly one frame.
pub proof fn lemma_held_key_is_seen_once(v: InputView, key: Key)
    ensures
        action_of(key) == Action::Jump && v.jump.held
            ==> !v.frame_ended().after_event(press(key)).jump.pressed,
        action_of(key) == Action::Restart && v.restart.held
            ==> !v.frame_ended().after_event(press(key)).restart.pressed,
{
}

/// Releasing and pressing again is a new press.
pub proof fn lemma_release_then_press_is_seen(v: InputView, key: Key)
    ensures
        action_of(key) == Action::Jump
            ==> v.after_event(release(key)).after_event(press(key)).jump.pressed,
        action_of(key) == Action::Restart
            ==> v.after_event(release(key)).after_event(press(key)).restart.pressed,
{
}

/// Jump keys leave the restart button alone, the restart key leaves the jump
/// button alone, and unbound keys change nothing.
pub proof fn lemma_buttons_are_independent(v: InputView, e: KeyEvent)
    ensures
        action_of(e.physical_key) != Action::Restart ==> v.after_event(e).restart == v.restart,
        action_of(e.physical_key) != Action::Jump ==> v.after_event(e).jump == v.jump,
        action_of(e.physical_key) == Action::Unbound ==> v.after_event(e) == v,
{
}

/// The end of a frame consumes every press and keeps every held key held.
pub proof fn lemma_frame_end_consumes_presses(v: InputView)
    ensures
        !v.frame_ended().jump.pressed,
        !v.frame_ended().restart.pressed,
        v.frame_ended().jump.held == v.jump.held,
        v.frame_ended().restart.held == v.restart.held,
        v.frame_ended().frame_ended() == v.frame_ended(),
{
}

/// Turns key events into per-frame game actions.
pub struct InputHandler {
    pub jump_pressed: bool,
    pub jump_held: bool,
    pub restart_pressed: bool,
    pub restart_held: bool,
}

impl View for InputHandler {
    type V = InputView;

    open spec fn view(&self) -> InputView {
        InputView {
            jump: ButtonState { pressed: self.jump_pressed, held: self.jump_held },
            restart: ButtonState { pressed: self.restart_pressed, held: self.restart_held },
        }
    }
}

impl InputHandler {
    pub fn new() -> (r: Self)
        ensures
            r@ == InputView::idle(),
    {
        Self { jump_pressed: false, jump_held: false, restart_pressed: false, restart_held: false }
    }

    pub fn handle_key_event(&mut self, event: KeyEvent)
        ensures
            final(self)@ == old(self)@.after_event(event),
    {
        let pressed = match event.state {
            ElementState::Pressed => true,
            ElementState::Released => false,
        };
        match event.physical_key {
            Key::Space | Key::ArrowUp | Key::KeyW => {
                if pressed && !self.jump_held {
                    self.jump_pressed = true;
                }
                self.jump_held = pressed;
            },
            Key::KeyR => {
                if pressed && !self.restart_held {
                    self.restart_pressed = true;
                }
                self.restart_held = pressed;
            },
            Key::Other => {},
        }
    }

    pub fn end_frame(&mut self)
        ensures
            final(self)@ == old(self)@.frame_ended(),
    {
        self.jump_pressed = false;
        self.restart_pressed = false;
    }
}

} // verus!
