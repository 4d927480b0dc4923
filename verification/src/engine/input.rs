use std::collections::HashSet;
use vstd::prelude::*;

verus! {

/// Whether a key or mouse button went down or came up.
#[derive(Debug, Clone, Copy, PartialEq, Eq, Structural)]
pub enum ElementState {
    Pressed,
    Released,
}

/// What is known of one kind of input (keys, or mouse buttons) during a frame:
/// the codes held down, those that went down this frame, and those that came up
/// this frame.
#[verifier::ext_equal]
pub ghost struct TrackerState {
    pub pressed: Set<u32>,
    pub just_pressed: Set<u32>,
    pub released: Set<u32>,
}

impl TrackerState {
    /// Nothing held, nothing happened.
    pub open spec fn empty() -> TrackerState {
        TrackerState { pressed: Set::empty(), just_pressed: Set::empty(), released: Set::empty() }
    }

    /// The state after one event for `code`.
    ///
    /// A press of a code that is not held marks it held and just pressed; a press
    /// of a held code changes nothing. A release of a held code marks it released
    /// and no longer held; a release of a code that is not held changes nothing.
    pub open spec fn step(self, code: u32, state: ElementState) -> TrackerState {
        match state {
            ElementState::Pressed => if self.pressed.contains(code) {
                self
            } else {
                TrackerState {
                    pressed: self.pressed.insert(code),
                    just_pressed: self.just_pressed.insert(code),
                    released: self.released,
                }
            },
            ElementState::Released => if self.pressed.contains(code) {
                TrackerState {
                    pressed: self.pressed.remove(code),
                    just_pressed: self.just_pressed,
                    released: self.released.insert(code),
                }
            } else {
                self
            },
        }
    }

    /// The state at the start of the next frame: held codes stay held, the
    /// per-frame events are forgotten.
    pub open spec fn end_frame(self) -> TrackerState {
        TrackerState { pressed: self.pressed, just_pressed: Set::empty(), released: Set::empty() }
    }
}

/// After a press the code is held; after a release it is not.
pub proof fn lemma_step_holds(s: TrackerState, code: u32)
    ensures
        s.step(code, ElementState::Pressed).pressed.contains(code),
        !s.step(code, ElementState::Released).pressed.contains(code),
{
}

/// A second press of a held code within a frame changes nothing: pressing is idempotent.
pub proof fn lemma_press_idempotent(s: TrackerState, code: u32)
    ensures
        s.step(code, ElementState::Pressed).step(code, ElementState::Pressed) == s.step(
            code,
            ElementState::Pressed,
        ),
{
}

/// Releasing is idempotent too.
pub proof fn lemma_release_idempotent(s: TrackerState, code: u32)
    ensures
        s.step(code, ElementState::Released).step(code, ElementState::Released) == s.step(
            code,
            ElementState::Released,
        ),
{
}

/// Pressing and then releasing a code that was not held leaves the held set as it
/// was, and the frame reports both the press and the release.
pub proof fn lemma_release_undoes_press(s: TrackerState, code: u32)
    requires
        !s.pressed.contains(code),
    ensures
        ({
            let t = s.step(code, ElementState::Pressed).step(code, ElementState::Released);
            &&& t.pressed == s.pressed
            &&& t.just_pressed.contains(code)
            &&& t.released.contains(code)
        }),
{
    let t = s.step(code, ElementState::Pressed).step(code, ElementState::Released);
    assert(t.pressed =~= s.pressed);
}

/// An event for one code leaves what is known of every other code unchanged.
pub proof fn lemma_step_other_codes(s: TrackerState, code: u32, other: u32, state: ElementState)
    requires
        code != other,
    ensures
        s.step(code, state).pressed.contains(other) == s.pressed.contains(other),
        s.step(code, state).just_pressed.contains(other) == s.just_pressed.contains(other),
        s.step(code, state).released.contains(other) == s.released.contains(other),
{
}

/// The end of a frame keeps every held code held and forgets the frame's events;
/// ending a frame twice is the same as ending it once.
pub proof fn lemma_end_frame(s: TrackerState)
    ensures
        s.end_frame().pressed == s.pressed,
        s.end_frame().just_pressed.is_empty(),
        s.end_frame().released.is_empty(),
        s.end_frame().end_frame() == s.end_frame(),
{
}

/// What each event does to each code, stated code by code: afterwards a code is
/// held exactly when it is the event's code and the event is a press, or it is
/// another code that was held; it went down this frame exactly when it already had,
/// or the event is a press of it while it was not held; it came up this frame
/// exactly when it already had, or the event is a release of it while it was held.
pub proof fn lemma_step_per_code(s: TrackerState, code: u32, state: ElementState, c: u32)
    ensures
        s.step(code, state).pressed.contains(c) == if c == code {
            state == ElementState::Pressed
        } else {
            s.pressed.contains(c)
        },
        s.step(code, state).just_pressed.contains(c) == (s.just_pressed.contains(c) || (state
            == ElementState::Pressed && c == code && !s.pressed.contains(code))),
        s.step(code, state).released.contains(c) == (s.released.contains(c) || (state
            == ElementState::Released && c == code && s.pressed.contains(code))),
{
}

/// A release is never a new press, and a press is never a release: a release
/// leaves the codes that went down this frame as they were, and a press leaves
/// the codes that came up this frame as they were.
pub proof fn lemma_release_is_not_a_press(s: TrackerState, code: u32)
    ensures
        s.step(code, ElementState::Released).just_pressed == s.just_pressed,
        s.step(code, ElementState::Pressed).released == s.released,
{
}

/// Within a frame the codes that went down and came up only grow.
pub proof fn lemma_frame_events_grow(s: TrackerState, code: u32, state: ElementState)
    ensures
        s.just_pressed.subset_of(s.step(code, state).just_pressed),
        s.released.subset_of(s.step(code, state).released),
{
}

/// The abstract state of an [`Input`]: keys and mouse buttons.
#[verifier::ext_equal]
pub ghost struct InputView {
    pub keys: TrackerState,
    pub buttons: TrackerState,
}

/// Keyboard and mouse-button state of a window.
///
/// Keys are identified by a number per physical key, mouse buttons by a number
/// (left 0, right 1, middle 2, back 3, forward 4, other buttons 5 and up).
pub struct Input {
    // keyboard
    just_pressed_keys: HashSet<u32>,
    pressed_keys: HashSet<u32>,
    released_keys: HashSet<u32>,
    // mouse
    just_pressed_buttons: HashSet<u32>,
    pressed_buttons: HashSet<u32>,
    released_buttons: HashSet<u32>,
}

impl View for Input {
    type V = InputView;

    closed spec fn view(&self) -> InputView {
        InputView {
            keys: TrackerState {
                pressed: self.pressed_keys@,
                just_pressed: self.just_pressed_keys@,
                released: self.released_keys@,
            },
            buttons: TrackerState {
                pressed: self.pressed_buttons@,
                just_pressed: self.just_pressed_buttons@,
                released: self.released_buttons@,
            },
        }
    }
}

/// Applies one event to the three sets of a tracker.
fn track(
    pressed: &mut HashSet<u32>,
    just_pressed: &mut HashSet<u32>,
    released: &mut HashSet<u32>,
    code: u32,
    state: ElementState,
)
    ensures
        (TrackerState {
            pressed: final(pressed)@,
            just_pressed: final(just_pressed)@,
            released: final(released)@,
        }) == (TrackerState {
            pressed: old(pressed)@,
            just_pressed: old(just_pressed)@,
            released: old(released)@,
        }).step(code, state),
{
    match state {
        ElementState::Pressed => {
            if pressed.insert(code) {
                just_pressed.insert(code);
            }
        },
        ElementState::Released => {
            if pressed.remove(&code) {
                released.insert(code);
            }
        },
    }
}

impl Input {
    /// No key or button held, no event seen.
    pub fn new() -> (input: Self)
        ensures
            input@ == (InputView { keys: TrackerState::empty(), buttons: TrackerState::empty() }),
    {
        Input {
            just_pressed_keys: HashSet::new(),
            pressed_keys: HashSet::new(),
            released_keys: HashSet::new(),
            just_pressed_buttons: HashSet::new(),
            pressed_buttons: HashSet::new(),
            released_buttons: HashSet::new(),
        }
    }

    /// Records a key going down or up.
    pub fn handle_key_event(&mut self, key_code: u32, state: ElementState)
        ensures
            final(self)@ == (InputView {
                keys: old(self)@.keys.step(key_code, state),
                buttons: old(self)@.buttons,
            }),
    {
        track(
            &mut self.pressed_keys,
            &mut self.just_pressed_keys,
            &mut self.released_keys,
            key_code,
            state,
        );
    }

    /// Records a mouse button going down or up.
    pub fn handle_mouse_input_event(&mut self, button: u32, state: ElementState)
        ensures
            final(self)@ == (InputView {
                keys: old(self)@.keys,
                buttons: old(self)@.buttons.step(button, state),
            }),
    {
        track(
            &mut self.pressed_buttons,
            &mut self.just_pressed_buttons,
            &mut self.released_buttons,
            button,
            state,
        );
    }

    /// Forgets this frame's presses and releases; held keys and buttons stay held.
    pub fn clear_frame_states(&mut self)
        ensures
            final(self)@ == (InputView {
                keys: old(self)@.keys.end_frame(),
                buttons: old(self)@.buttons.end_frame(),
            }),
    {
        self.just_pressed_keys.clear();
        self.released_keys.clear();
        self.just_pressed_buttons.clear();
        self.released_buttons.clear();
    }

    /// Whether the key went down this frame.
    pub fn is_key_down(&self, key_code: u32) -> (r: bool)
        ensures
            r == self@.keys.just_pressed.contains(key_code),
    {
        self.just_pressed_keys.contains(&key_code)
    }

    /// Whether the key is held.
    pub fn is_key_pressed(&self, key_code: u32) -> (r: bool)
        ensures
            r == self@.keys.pressed.contains(key_code),
    {
        self.pressed_keys.contains(&key_code)
    }

    /// Whether the key came up this frame.
    pub fn is_key_up(&self, key_code: u32) -> (r: bool)
        ensures
            r == self@.keys.released.contains(key_code),
    {
        self.released_keys.contains(&key_code)
    }

    /// Whether the mouse button went down this frame.
    pub fn is_button_down(&self, button: u32) -> (r: bool)
        ensures
            r == self@.buttons.just_pressed.contains(button),
    {
        self.just_pressed_buttons.contains(&button)
    }

    /// Whether the mouse button is held.
    pub fn is_button_pressed(&self, button: u32) -> (r: bool)
        ensures
            r == self@.buttons.pressed.contains(button),
    {
        self.pressed_buttons.contains(&button)
    }

    /// Whether the mouse button came up this frame.
    pub fn is_button_up(&self, button: u32) -> (r: bool)
        ensures
            r == self@.buttons.released.contains(button),
    {
        self.released_buttons.contains(&button)
    }
}

} // verus!
