use vstd::prelude::*;

verus! {

/// Number of key codes tracked (the largest windowing key code, 348, plus one).
pub const KEY_COUNT: usize = 349;

/// Number of mouse buttons tracked.
pub const MOUSE_BUTTON_COUNT: usize = 8;

/// `states` with entry `code` set to `value`; codes outside the table change nothing.
pub open spec fn spec_set_state(states: Seq<bool>, code: int, value: bool) -> Seq<bool> {
    if 0 <= code < states.len() {
        states.update(code, value)
    } else {
        states
    }
}

fn set_state(states: &mut Vec<bool>, code: i32, value: bool)
    ensures
        final(states)@ == spec_set_state(old(states)@, code as int, value),
{
    if code >= 0 && (code as usize) < states.len() {
        states.set(code as usize, value);
    }
}

fn state_of(states: &Vec<bool>, code: i32) -> (r: bool)
    ensures
        r == (0 <= code < states@.len() && states@[code as int]),
{
    code >= 0 && (code as usize) < states.len() && states[code as usize]
}

fn all_released(n: usize) -> (r: Vec<bool>)
    ensures
        r@ == Seq::new(n as nat, |i: int| false),
{
    let mut v: Vec<bool> = Vec::new();
    let mut i: usize = 0;
    while i < n
        invariant
            i <= n,
            v@ == Seq::new(i as nat, |j: int| false),
        decreases n - i,
    {
        v.push(false);
        i = i + 1;
        assert(v@ =~= Seq::new(i as nat, |j: int| false));
    }
    v
}

/// Which keys are held down, by key code.
#[derive(Clone, Debug)]
pub struct KeyInputStateCollection {
    pressed: Vec<bool>,
}

impl View for KeyInputStateCollection {
    type V = Seq<bool>;

    closed spec fn view(&self) -> Seq<bool> {
        self.pressed@
    }
}

impl KeyInputStateCollection {
    pub open spec fn wf(&self) -> bool {
        self@.len() == KEY_COUNT
    }

    /// Releases every key.
    pub fn reset(&mut self)
        ensures
            final(self)@ == Seq::new(KEY_COUNT as nat, |i: int| false),
    {
        self.pressed = all_released(KEY_COUNT);
    }

    /// Marks `key` as held; unknown key codes are ignored.
    pub fn push(&mut self, key: i32)
        ensures
            final(self)@ == spec_set_state(old(self)@, key as int, true),
    {
        set_state(&mut self.pressed, key, true);
    }

    /// Marks `key` as released; unknown key codes are ignored.
    pub fn pop(&mut self, key: i32)
        ensures
            final(self)@ == spec_set_state(old(self)@, key as int, false),
    {
        set_state(&mut self.pressed, key, false);
    }

    /// Whether `key` is held; an unknown key code never is.
    pub fn is_key_pressed(&self, key: i32) -> (r: bool)
        ensures
            r == (0 <= key < self@.len() && self@[key as int]),
    {
        state_of(&self.pressed, key)
    }
}

impl Default for KeyInputStateCollection {
    fn default() -> (r: Self)
        ensures
            r@ == Seq::new(KEY_COUNT as nat, |i: int| false),
            r.wf(),
    {
        KeyInputStateCollection { pressed: all_released(KEY_COUNT) }
    }
}

/// Which mouse buttons are held down, by button number.
#[derive(Clone, Debug)]
pub struct MouseInputStateCollection {
    pressed: Vec<bool>,
}

impl View for MouseInputStateCollection {
    type V = Seq<bool>;

    closed spec fn view(&self) -> Seq<bool> {
        self.pressed@
    }
}

impl MouseInputStateCollection {
    pub open spec fn wf(&self) -> bool {
        self@.len() == MOUSE_BUTTON_COUNT
    }

    /// Releases every button.
    pub fn reset(&mut self)
        ensures
            final(self)@ == Seq::new(MOUSE_BUTTON_COUNT as nat, |i: int| false),
    {
        self.pressed = all_released(MOUSE_BUTTON_COUNT);
    }

    /// Marks `button` as held; unknown buttons are ignored.
    pub fn push(&mut self, button: i32)
        ensures
            final(self)@ == spec_set_state(old(self)@, button as int, true),
    {
        set_state(&mut self.pressed, button, true);
    }

    /// Marks `button` as released; unknown buttons are ignored.
    pub fn pop(&mut self, button: i32)
        ensures
            final(self)@ == spec_set_state(old(self)@, button as int, false),
    {
        set_state(&mut self.pressed, button, false);
    }

    /// Whether `button` is held; an unknown button never is.
    pub fn is_key_pressed(&self, button: i32) -> (r: bool)
        ensures
            r == (0 <= button < self@.len() && self@[button as int]),
    {
        state_of(&self.pressed, button)
    }
}

impl Default for MouseInputStateCollection {
    fn default() -> (r: Self)
        ensures
            r@ == Seq::new(MOUSE_BUTTON_COUNT as nat, |i: int| false),
            r.wf(),
    {
        MouseInputStateCollection { pressed: all_released(MOUSE_BUTTON_COUNT) }
    }
}

/// What happened to a key or button.
#[derive(Clone, Copy, Debug, PartialEq, Eq, Structural)]
pub enum Action {
    Press,
    Release,
    Repeat,
}

/// A window input event, as far as held-key tracking reads it.
#[derive(Clone, Copy, Debug, PartialEq, Eq, Structural)]
pub enum InputEvent {
    Key { code: i32, action: Action },
    MouseButton { button: i32, action: Action },
    /// Any event that does not change which keys or buttons are held.
    Other,
}

pub open spec fn spec_keys_after(keys: Seq<bool>, e: InputEvent) -> Seq<bool> {
    match e {
        InputEvent::Key { code, action } => match action {
            Action::Press => spec_set_state(keys, code as int, true),
            Action::Release => spec_set_state(keys, code as int, false),
            Action::Repeat => keys,
        },
        _ => keys,
    }
}

pub open spec fn spec_buttons_after(buttons: Seq<bool>, e: InputEvent) -> Seq<bool> {
    match e {
        InputEvent::MouseButton { button, action } => match action {
            Action::Press => spec_set_state(buttons, button as int, true),
            Action::Release => spec_set_state(buttons, button as int, false),
            Action::Repeat => buttons,
        },
        _ => buttons,
    }
}

/// Applies one event: a press holds the key or button, a release lets it go, anything
/// else is ignored.
pub fn apply_event(
    keys: &mut KeyInputStateCollection,
    buttons: &mut MouseInputStateCollection,
    event: InputEvent,
)
    ensures
        final(keys)@ == spec_keys_after(old(keys)@, event),
        final(buttons)@ == spec_buttons_after(old(buttons)@, event),
{
    match event {
        InputEvent::Key { code, action } => match action {
            Action::Press => keys.push(code),
            Action::Release => keys.pop(code),
            Action::Repeat => {},
        },
        InputEvent::MouseButton { button, action } => match action {
            Action::Press => buttons.push(button),
            Action::Release => buttons.pop(button),
            Action::Repeat => {},
        },
        InputEvent::Other => {},
    }
}

pub open spec fn spec_keys_after_all(keys: Seq<bool>, events: Seq<InputEvent>) -> Seq<bool>
    decreases events.len(),
{
    if events.len() == 0 {
        keys
    } else {
        spec_keys_after(spec_keys_after_all(keys, events.drop_last()), events.last())
    }
}

pub open spec fn spec_buttons_after_all(buttons: Seq<bool>, events: Seq<InputEvent>) -> Seq<bool>
    decreases events.len(),
{
    if events.len() == 0 {
        buttons
    } else {
        spec_buttons_after(spec_buttons_after_all(buttons, events.drop_last()), events.last())
    }
}

/// Drains one tick's events in order.
pub fn apply_events(
    keys: &mut KeyInputStateCollection,
    buttons: &mut MouseInputStateCollection,
    events: &Vec<InputEvent>,
)
    ensures
        final(keys)@ == spec_keys_after_all(old(keys)@, events@),
        final(buttons)@ == spec_buttons_after_all(old(buttons)@, events@),
{
    let ghost k0 = keys@;
    let ghost b0 = buttons@;
    let mut i: usize = 0;
    while i < events.len()
        invariant
            i <= events.len(),
            keys@ == spec_keys_after_all(k0, events@.subrange(0, i as int)),
            buttons@ == spec_buttons_after_all(b0, events@.subrange(0, i as int)),
        decreases events.len() - i,
    {
        apply_event(keys, buttons, events[i]);
        proof {
            let s = events@.subrange(0, i as int + 1);
            assert(s.drop_last() =~= events@.subrange(0, i as int));
        }
        i = i + 1;
    }
    assert(events@.subrange(0, events.len() as int) =~= events@);
}

} // verus!
