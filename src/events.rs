use vstd::prelude::*;

verus! {

/// A control button of the game.
#[derive(Debug, Copy, Clone, PartialEq, Eq, Structural)]
pub enum Button {
    Left,
    Right,
}

#[derive(Debug, Copy, Clone, PartialEq, Eq, Structural)]
pub enum ButtonState {
    Pressed,
    Released,
}

/// What the game loop is told about the window and the controls.
#[derive(Debug, Copy, Clone, PartialEq, Eq, Structural)]
pub enum Event {
    Button { button: Button, state: ButtonState },
    CloseWindow,
    GoFullscreen,
    ExitFullscreen,
    WindowResized(u32, u32),
}

/// A direction key's meaning: towards the left or towards the right.
#[derive(Debug, Copy, Clone, PartialEq, Eq, Structural)]
pub enum DirectionButton {
    Left,
    Right,
}

impl DirectionButton {
    /// The number of the direction: 0 for left, 1 for right.
    pub open spec fn spec_index(self) -> int {
        match self {
            DirectionButton::Left => 0,
            DirectionButton::Right => 1,
        }
    }

    pub fn index(self) -> (r: usize)
        ensures
            r == self.spec_index(),
    {
        match self {
            DirectionButton::Left => 0,
            DirectionButton::Right => 1,
        }
    }

    /// The opposite direction.
    pub open spec fn spec_opposite(self) -> DirectionButton {
        match self {
            DirectionButton::Left => DirectionButton::Right,
            DirectionButton::Right => DirectionButton::Left,
        }
    }
}

/// The button of a direction.
pub open spec fn button_of(dir: DirectionButton) -> Button {
    match dir {
        DirectionButton::Left => Button::Left,
        DirectionButton::Right => Button::Right,
    }
}

pub fn get_button_from_direction(dir: DirectionButton) -> (r: Button)
    ensures
        r == button_of(dir),
{
    match dir {
        DirectionButton::Left => Button::Left,
        DirectionButton::Right => Button::Right,
    }
}

/// The direction numbered `num`: 0 is left, 1 is right.
pub fn get_direction_from_integer(num: u8) -> (r: DirectionButton)
    requires
        num < 2,
    ensures
        r.spec_index() == num,
{
    if num == 0 {
        DirectionButton::Left
    } else {
        DirectionButton::Right
    }
}

/// The keys that the controls read.
#[derive(Debug, Copy, Clone, PartialEq, Eq, Structural)]
pub enum Key {
    Left,
    Right,
    A,
    D,
    Escape,
    LAlt,
    RAlt,
    Return,
    Other,
}

/// The direction that a key stands for, if any: the left arrow and `A` for
/// left, the right arrow and `D` for right.
pub open spec fn direction_of(key: Option<Key>) -> Option<DirectionButton> {
    match key {
        Some(Key::Left) | Some(Key::A) => Some(DirectionButton::Left),
        Some(Key::Right) | Some(Key::D) => Some(DirectionButton::Right),
        _ => None,
    }
}

pub fn is_left_keycode(key: &Option<Key>) -> (r: bool)
    ensures
        r == (direction_of(*key) == Some(DirectionButton::Left)),
{
    *key == Some(Key::Left) || *key == Some(Key::A)
}

pub fn is_right_keycode(key: &Option<Key>) -> (r: bool)
    ensures
        r == (direction_of(*key) == Some(DirectionButton::Right)),
{
    *key == Some(Key::Right) || *key == Some(Key::D)
}

pub fn get_direction_button(key: &Option<Key>) -> (r: Option<DirectionButton>)
    ensures
        r == direction_of(*key),
{
    if is_left_keycode(key) {
        Some(DirectionButton::Left)
    } else if is_right_keycode(key) {
        Some(DirectionButton::Right)
    } else {
        None
    }
}

/// What the window reports, as far as the controls read it.
#[derive(Debug, Copy, Clone, PartialEq, Eq, Structural)]
pub enum WindowInput {
    CloseRequested,
    Keyboard { key: Option<Key>, pressed: bool },
    Resized(u32, u32),
    Other,
}

/// The state that turns window input into game events: whether an Alt key is
/// held, whether the window is fullscreen, and which direction buttons are
/// held.
#[derive(Debug, Copy, Clone)]
pub struct InputTracker {
    pub(crate) alt_held: bool,
    pub(crate) is_fullscreen: bool,
    pub(crate) direction_state: [bool; 2],
}

pub struct TrackerView {
    pub alt_held: bool,
    pub is_fullscreen: bool,
    pub left_held: bool,
    pub right_held: bool,
}

impl TrackerView {
    /// Whether the direction's button is held.
    pub open spec fn held(self, dir: DirectionButton) -> bool {
        match dir {
            DirectionButton::Left => self.left_held,
            DirectionButton::Right => self.right_held,
        }
    }

    /// This state with the direction's button held or not.
    pub open spec fn with_held(self, dir: DirectionButton, held: bool) -> TrackerView {
        match dir {
            DirectionButton::Left => TrackerView { left_held: held, ..self },
            DirectionButton::Right => TrackerView { right_held: held, ..self },
        }
    }
}

/// The event that a direction button changed state.
pub open spec fn button_event(dir: DirectionButton, state: ButtonState) -> Event {
    Event::Button { button: button_of(dir), state }
}

/// The events of a direction key going down or up. Going down releases the
/// opposite button if it is held, then presses this one unless it is held
/// already: the two directions are never held together. Going up releases the
/// button if it is held.
pub open spec fn control_events(v: TrackerView, dir: DirectionButton, pressed: bool) -> Seq<Event> {
    if pressed {
        let release = if v.held(dir.spec_opposite()) {
            seq![button_event(dir.spec_opposite(), ButtonState::Released)]
        } else {
            Seq::empty()
        };
        let press = if !v.held(dir) {
            seq![button_event(dir, ButtonState::Pressed)]
        } else {
            Seq::empty()
        };
        release + press
    } else if v.held(dir) {
        seq![button_event(dir, ButtonState::Released)]
    } else {
        Seq::empty()
    }
}

/// The state after a direction key goes down or up.
pub open spec fn control_next(v: TrackerView, dir: DirectionButton, pressed: bool) -> TrackerView {
    if pressed {
        v.with_held(dir.spec_opposite(), false).with_held(dir, true)
    } else {
        v.with_held(dir, false)
    }
}

/// An Alt key, whose state the tracker follows.
pub open spec fn is_alt(key: Option<Key>) -> bool {
    key == Some(Key::LAlt) || key == Some(Key::RAlt)
}

/// The events of one window input: a close request or the Escape key closes
/// the window; Alt keys are followed; Return pressed while Alt is held toggles
/// fullscreen; a resize is passed on; direction keys drive the buttons; all
/// else is ignored.
pub open spec fn input_events(v: TrackerView, input: WindowInput) -> Seq<Event> {
    match input {
        WindowInput::CloseRequested => seq![Event::CloseWindow],
        WindowInput::Keyboard { key, pressed } => if key == Some(Key::Escape) {
            seq![Event::CloseWindow]
        } else if is_alt(key) {
            Seq::empty()
        } else if key == Some(Key::Return) && pressed {
            if !v.alt_held {
                Seq::empty()
            } else if v.is_fullscreen {
                seq![Event::ExitFullscreen]
            } else {
                seq![Event::GoFullscreen]
            }
        } else {
            match direction_of(key) {
                Some(dir) => control_events(v, dir, pressed),
                None => Seq::empty(),
            }
        },
        WindowInput::Resized(w, h) => seq![Event::WindowResized(w, h)],
        WindowInput::Other => Seq::empty(),
    }
}

/// The state after one window input.
pub open spec fn input_next(v: TrackerView, input: WindowInput) -> TrackerView {
    match input {
        WindowInput::Keyboard { key, pressed } => if key == Some(Key::Escape) {
            v
        } else if is_alt(key) {
            TrackerView { alt_held: pressed, ..v }
        } else if key == Some(Key::Return) && pressed {
            if v.alt_held {
                TrackerView { is_fullscreen: !v.is_fullscreen, ..v }
            } else {
                v
            }
        } else {
            match direction_of(key) {
                Some(dir) => control_next(v, dir, pressed),
                None => v,
            }
        },
        _ => v,
    }
}

impl View for InputTracker {
    type V = TrackerView;

    open(crate) spec fn view(&self) -> TrackerView {
        TrackerView {
            alt_held: self.alt_held,
            is_fullscreen: self.is_fullscreen,
            left_held: self.direction_state[0],
            right_held: self.direction_state[1],
        }
    }
}

impl InputTracker {
    /// A windowed tracker with no key held.
    pub fn new() -> (r: Self)
        ensures
            r@ == (TrackerView {
                alt_held: false,
                is_fullscreen: false,
                left_held: false,
                right_held: false,
            }),
    {
        Self { alt_held: false, is_fullscreen: false, direction_state: [false, false] }
    }

    /// The events of a direction key going down (`state`) or up.
    pub fn handle_control(&mut self, button: DirectionButton, state: bool) -> (r: Vec<Event>)
        ensures
            r@ == control_events(old(self)@, button, state),
            final(self)@ == control_next(old(self)@, button, state),
    {
        let mut events: Vec<Event> = Vec::new();
        let this = button.index();
        let other = 1 - this;
        if state {
            if self.direction_state[other] {
                events.push(
                    Event::Button {
                        button: get_button_from_direction(get_direction_from_integer(other as u8)),
                        state: ButtonState::Released,
                    },
                );
                self.direction_state[other] = false;
            }
            if !self.direction_state[this] {
                events.push(
                    Event::Button {
                        button: get_button_from_direction(button),
                        state: ButtonState::Pressed,
                    },
                );
                self.direction_state[this] = true;
            }
        } else {
            if self.direction_state[this] {
                events.push(
                    Event::Button {
                        button: get_button_from_direction(button),
                        state: ButtonState::Released,
                    },
                );
                self.direction_state[this] = false;
            }
        }
        assert(events@ =~= control_events(old(self)@, button, state));
        assert(self@ == control_next(old(self)@, button, state));
        events
    }

    /// The events of one window input.
    pub fn handle_input(&mut self, input: WindowInput) -> (r: Vec<Event>)
        ensures
            r@ == input_events(old(self)@, input),
            final(self)@ == input_next(old(self)@, input),
    {
        match input {
            WindowInput::CloseRequested => {
                let r = vec![Event::CloseWindow];
                assert(r@ =~= input_events(old(self)@, input));
                r
            },
            WindowInput::Keyboard { key, pressed } => {
                if key == Some(Key::Escape) {
                    let r = vec![Event::CloseWindow];
                    assert(r@ =~= input_events(old(self)@, input));
                    r
                } else if key == Some(Key::LAlt) || key == Some(Key::RAlt) {
                    self.alt_held = pressed;
                    let r = Vec::new();
                    assert(r@ =~= input_events(old(self)@, input));
                    r
                } else if key == Some(Key::Return) && pressed {
                    let mut r = Vec::new();
                    if self.alt_held {
                        if self.is_fullscreen {
                            r.push(Event::ExitFullscreen);
                        } else {
                            r.push(Event::GoFullscreen);
                        }
                        self.is_fullscreen = !self.is_fullscreen;
                    }
                    assert(r@ =~= input_events(old(self)@, input));
                    r
                } else {
                    match get_direction_button(&key) {
                        Some(dir) => self.handle_control(dir, pressed),
                        None => {
                            let r = Vec::new();
                            assert(r@ =~= input_events(old(self)@, input));
                            r
                        },
                    }
                }
            },
            WindowInput::Resized(w, h) => {
                let r = vec![Event::WindowResized(w, h)];
                assert(r@ =~= input_events(old(self)@, input));
                r
            },
            WindowInput::Other => {
                let r = Vec::new();
                assert(r@ =~= input_events(old(self)@, input));
                r
            },
        }
    }
}

} // verus!
