//! What the user does with mouse and keyboard.
use std::collections::HashSet;
use vstd::prelude::*;

verus! {

/// Whether a button or a key went down or up.
#[derive(Clone, Copy, Debug, PartialEq, Eq, Structural)]
pub enum ElementState {
    Pressed,
    Released,
}

/// The mouse buttons that are told apart.
#[derive(Clone, Copy, Debug, PartialEq, Eq, Structural)]
pub enum PointerButton {
    Left,
    Right,
    Other,
}

/// A key by its place on the keyboard. Keys that nothing is bound to carry a number of their own.
#[derive(Clone, Copy, Debug, PartialEq, Eq, Structural)]
pub enum KeyCode {
    KeyW,
    KeyA,
    KeyS,
    KeyD,
    Space,
    Other(u32),
}

impl KeyCode {
    /// A number that no other key has.
    pub open spec fn number(self) -> u64 {
        match self {
            KeyCode::KeyW => 0,
            KeyCode::KeyA => 1,
            KeyCode::KeyS => 2,
            KeyCode::KeyD => 3,
            KeyCode::Space => 4,
            KeyCode::Other(n) => (n + 5) as u64,
        }
    }

    fn id(self) -> (r: u64)
        ensures
            r == self.number(),
    {
        match self {
            KeyCode::KeyW => 0,
            KeyCode::KeyA => 1,
            KeyCode::KeyS => 2,
            KeyCode::KeyD => 3,
            KeyCode::Space => 4,
            KeyCode::Other(n) => n as u64 + 5,
        }
    }
}

/// A key going down or up.
#[derive(Debug)]
pub struct KeyEvent {
    /// Whether the key was down already and the event only repeats it.
    pub repeat: bool,
    pub state: ElementState,
    /// What the key types, if it types text.
    pub character: Option<String>,
    /// Which key it is, if it is a known one.
    pub physical_key: Option<KeyCode>,
}

/// What to do with the window.
#[derive(Clone, Copy, Debug, PartialEq, Eq, Structural)]
pub enum FullscreenAction {
    Keep,
    /// Leave full screen.
    Leave,
    /// Fill the primary monitor without a border.
    EnterBorderless,
}

/// Movement that a device reports, in double-precision numbers held as their bits.
#[derive(Clone, Copy, Debug, PartialEq, Eq, Structural)]
pub enum DeviceEvent {
    Motion { axis: u32, value: u64 },
    Other,
}

/// Which coordinate of the mouse movement a value is added to.
#[derive(Clone, Copy, Debug, PartialEq, Eq, Structural)]
pub enum MouseMotion {
    X(u64),
    Y(u64),
    Ignored,
}

/// A key of which changes are noticed.
#[derive(Clone, Copy, Debug, PartialEq, Eq, Structural)]
pub struct Key {
    /// Whether the key was pressed down this specific frame
    pub pressed: bool,
    /// Whether the key was released this specific frame
    pub released: bool,
    /// Whether the key is currently held down
    pub down: bool,
}

impl Default for Key {
    fn default() -> (r: Self)
        ensures
            r == (Key { pressed: false, released: false, down: false }),
    {
        Key { pressed: false, released: false, down: false }
    }
}

/// A mouse button of which changes are noticed.
#[derive(Clone, Copy, Debug, PartialEq, Eq, Structural)]
pub struct MouseButton {
    /// Whether the button was clicked this specific frame
    pub clicked: bool,
    /// Whether the button was released this specific frame
    pub released: bool,
    /// Whether the button is currently held down
    pub down: bool,
}

impl Default for MouseButton {
    fn default() -> (r: Self)
        ensures
            r == (MouseButton { clicked: false, released: false, down: false }),
    {
        MouseButton { clicked: false, released: false, down: false }
    }
}

impl MouseButton {
    /// The button after it went down or up.
    pub open spec fn after(self, state: ElementState) -> MouseButton {
        match state {
            ElementState::Pressed => MouseButton { clicked: true, down: true, ..self },
            ElementState::Released => MouseButton { released: true, down: false, ..self },
        }
    }

    /// The button at the start of the next frame.
    pub open spec fn next_frame(self) -> MouseButton {
        MouseButton { clicked: false, released: false, down: self.down }
    }

    fn turn(&mut self, state: ElementState)
        ensures
            *final(self) == old(self).after(state),
    {
        if state == ElementState::Pressed {
            self.clicked = true;
            self.down = true;
        } else {
            self.released = true;
            self.down = false;
        }
    }
}

/// The mouse.
#[derive(Clone, Copy, Debug, PartialEq, Eq, Structural)]
pub struct Mouse {
    /// How far the wheel was turned this frame, as the bits of a double-precision number.
    pub scroll_delta: u64,
    pub left: MouseButton,
    pub right: MouseButton,
}

impl Default for Mouse {
    fn default() -> (r: Self)
        ensures
            r == untouched_mouse(),
    {
        Mouse { scroll_delta: 0, left: MouseButton::default(), right: MouseButton::default() }
    }
}

impl Mouse {
    /// The mouse after one of its buttons went down or up.
    pub open spec fn after(self, state: ElementState, button: PointerButton) -> Mouse {
        match button {
            PointerButton::Left => Mouse { left: self.left.after(state), ..self },
            PointerButton::Right => Mouse { right: self.right.after(state), ..self },
            PointerButton::Other => self,
        }
    }
}

/// A mouse that nobody has touched.
pub open spec fn untouched_mouse() -> Mouse {
    Mouse {
        scroll_delta: 0,
        left: MouseButton { clicked: false, released: false, down: false },
        right: MouseButton { clicked: false, released: false, down: false },
    }
}

/// The state of mouse and keyboard.
#[derive(Debug)]
pub struct Input {
    pub mouse: Mouse,
    /// How far the wheel has been turned, as the bits of a double-precision number.
    pub scroll: u64,
    /// The numbers of the keys that are held down.
    pub pressed_keys: HashSet<u64>,
    /// The numbers of the keys that were pressed down this frame.
    pub fresh_keys: HashSet<u64>,
    /// The numbers of the keys that were released this frame.
    pub released_keys: HashSet<u64>,
}

impl Default for Input {
    fn default() -> (r: Self)
        ensures
            r.mouse == untouched_mouse(),
            r.scroll == 0,
            r.pressed() == Set::<KeyCode>::empty(),
            r.fresh() == Set::<KeyCode>::empty(),
            r.released() == Set::<KeyCode>::empty(),
    {
        let r = Input {
            mouse: Mouse::default(),
            scroll: 0,
            pressed_keys: HashSet::new(),
            fresh_keys: HashSet::new(),
            released_keys: HashSet::new(),
        };
        assert(r.pressed() =~= Set::<KeyCode>::empty());
        assert(r.fresh() =~= Set::<KeyCode>::empty());
        assert(r.released() =~= Set::<KeyCode>::empty());
        r
    }
}

impl Input {
    /// The keys that are held down.
    pub open spec fn pressed(&self) -> Set<KeyCode> {
        Set::new(|code: KeyCode| self.pressed_keys@.contains(code.number()))
    }

    /// The keys that were pressed down this frame.
    pub open spec fn fresh(&self) -> Set<KeyCode> {
        Set::new(|code: KeyCode| self.fresh_keys@.contains(code.number()))
    }

    /// The keys that were released this frame.
    pub open spec fn released(&self) -> Set<KeyCode> {
        Set::new(|code: KeyCode| self.released_keys@.contains(code.number()))
    }

    /// What a key asks of the window: the key that types an f toggles full screen when it goes
    /// down.
    pub open spec fn fullscreen_action(event: KeyEvent, fullscreen: bool) -> FullscreenAction {
        if !event.repeat && event.state == ElementState::Pressed && event.character is Some
            && event.character->0@ == "f"@ {
            if fullscreen {
                FullscreenAction::Leave
            } else {
                FullscreenAction::EnterBorderless
            }
        } else {
            FullscreenAction::Keep
        }
    }

    /// The keys that are held down after a key went down or up.
    pub open spec fn pressed_after(pressed: Set<KeyCode>, event: KeyEvent) -> Set<KeyCode> {
        if event.repeat {
            pressed
        } else {
            match (event.physical_key, event.state) {
                (Some(code), ElementState::Pressed) => pressed.insert(code),
                (Some(code), ElementState::Released) => pressed.remove(code),
                (None, _) => pressed,
            }
        }
    }

    /// The keys that went one way this frame, after a key went down or up.
    pub open spec fn moved_after(
        moved: Set<KeyCode>,
        event: KeyEvent,
        way: ElementState,
    ) -> Set<KeyCode> {
        match event.physical_key {
            Some(code) => if event.state == way && !event.repeat {
                moved.insert(code)
            } else {
                moved
            },
            None => moved,
        }
    }

    /// Notices a mouse button.
    pub fn handle_mouse(&mut self, state: &ElementState, button: &PointerButton)
        ensures
            final(self).mouse == old(self).mouse.after(*state, *button),
            final(self).scroll == old(self).scroll,
            final(self).pressed() == old(self).pressed(),
            final(self).fresh() == old(self).fresh(),
            final(self).released() == old(self).released(),
    {
        match button {
            PointerButton::Left => self.mouse.left.turn(*state),
            PointerButton::Right => self.mouse.right.turn(*state),
            PointerButton::Other => {},
        }
        assert(self.pressed() =~= old(self).pressed());
    }

    /// Notices a key, and tells what to do with the window, which may fill the screen now.
    pub fn handle_keyboard(&mut self, event: &KeyEvent, fullscreen: bool) -> (r: FullscreenAction)
        ensures
            r == Self::fullscreen_action(*event, fullscreen),
            final(self).pressed() == Self::pressed_after(old(self).pressed(), *event),
            final(self).fresh() == Self::moved_after(
                old(self).fresh(),
                *event,
                ElementState::Pressed,
            ),
            final(self).released() == Self::moved_after(
                old(self).released(),
                *event,
                ElementState::Released,
            ),
            final(self).mouse == old(self).mouse,
            final(self).scroll == old(self).scroll,
    {
        if event.repeat {
            return FullscreenAction::Keep;
        }
        let mut action = FullscreenAction::Keep;
        if let Some(key) = &event.character {
            if event.state == ElementState::Pressed {
                let toggle: String = "f".to_owned();
                if *key == toggle {
                    action = if fullscreen {
                        FullscreenAction::Leave
                    } else {
                        FullscreenAction::EnterBorderless
                    };
                }
            }
        }
        if let Some(code) = event.physical_key {
            if event.state == ElementState::Pressed {
                self.pressed_keys.insert(code.id());
                self.fresh_keys.insert(code.id());
            } else {
                self.pressed_keys.remove(&code.id());
                self.released_keys.insert(code.id());
            }
        }
        assert(self.pressed() =~= Self::pressed_after(old(self).pressed(), *event));
        assert(self.fresh() =~= Self::moved_after(
            old(self).fresh(),
            *event,
            ElementState::Pressed,
        ));
        assert(self.released() =~= Self::moved_after(
            old(self).released(),
            *event,
            ElementState::Released,
        ));
        action
    }

    /// Tells which coordinate of the mouse movement a device report adds to, and what: the first
    /// axis is horizontal, the second vertical.
    pub fn handle_device_input(&self, event: &DeviceEvent) -> (r: MouseMotion)
        ensures
            r == match *event {
                DeviceEvent::Motion { axis, value } => if axis == 0 {
                    MouseMotion::X(value)
                } else if axis == 1 {
                    MouseMotion::Y(value)
                } else {
                    MouseMotion::Ignored
                },
                DeviceEvent::Other => MouseMotion::Ignored,
            },
    {
        match event {
            DeviceEvent::Motion { axis, value } => {
                if *axis == 0 {
                    MouseMotion::X(*value)
                } else if *axis == 1 {
                    MouseMotion::Y(*value)
                } else {
                    MouseMotion::Ignored
                }
            },
            DeviceEvent::Other => MouseMotion::Ignored,
        }
    }

    /// Whether a key is held down.
    pub fn key_down(&self, code: KeyCode) -> (r: bool)
        ensures
            r == self.pressed().contains(code),
    {
        self.pressed_keys.contains(&code.id())
    }

    /// Whether a key was pressed down this frame.
    pub fn key_pressed(&self, code: KeyCode) -> (r: bool)
        ensures
            r == self.fresh().contains(code),
    {
        self.fresh_keys.contains(&code.id())
    }

    /// What is known of a key.
    pub fn key(&self, code: KeyCode) -> (r: Key)
        ensures
            r.pressed == self.fresh().contains(code),
            r.released == self.released().contains(code),
            r.down == self.pressed().contains(code),
    {
        Key {
            pressed: self.key_pressed(code),
            released: self.released_keys.contains(&code.id()),
            down: self.key_down(code),
        }
    }

    /// Ends the frame: what happened in it is forgotten, what is held down stays.
    pub fn update(&mut self)
        ensures
            final(self).mouse == (Mouse {
                scroll_delta: 0,
                left: old(self).mouse.left.next_frame(),
                right: old(self).mouse.right.next_frame(),
            }),
            final(self).scroll == old(self).scroll,
            final(self).pressed() == old(self).pressed(),
            final(self).fresh() == Set::<KeyCode>::empty(),
            final(self).released() == Set::<KeyCode>::empty(),
    {
        self.fresh_keys.clear();
        self.released_keys.clear();
        self.mouse.left.clicked = false;
        self.mouse.left.released = false;
        self.mouse.right.clicked = false;
        self.mouse.right.released = false;
        self.mouse.scroll_delta = 0;
        assert(self.pressed() =~= old(self).pressed());
        assert(self.fresh() =~= Set::<KeyCode>::empty());
        assert(self.released() =~= Set::<KeyCode>::empty());
    }
}

/// A button that went down is held until it goes up, however many frames pass in between; going
/// down shows as a click and going up as a release in their own frames only.
pub proof fn law_button_is_held_until_released(button: MouseButton)
    ensures
        button.after(ElementState::Pressed).down,
        button.after(ElementState::Pressed).clicked,
        button.after(ElementState::Pressed).next_frame().down,
        !button.after(ElementState::Pressed).next_frame().clicked,
        button.next_frame().next_frame() == button.next_frame(),
        button.next_frame().down == button.down,
        !button.after(ElementState::Released).down,
        button.after(ElementState::Released).released,
        !button.after(ElementState::Released).next_frame().released,
{
}

/// A key that goes down is held, a key that goes up is not, and no other key is touched; events
/// that repeat change nothing.
pub proof fn law_keys_follow_events(pressed: Set<KeyCode>, event: KeyEvent, code: KeyCode, other: KeyCode)
    requires
        event.physical_key == Some(code),
        other != code,
    ensures
        event.repeat ==> Input::pressed_after(pressed, event) == pressed,
        !event.repeat ==> Input::pressed_after(pressed, event).contains(code) == (event.state
            == ElementState::Pressed),
        Input::pressed_after(pressed, event).contains(other) == pressed.contains(other),
{
}

/// A key that goes down counts as pressed in that frame, and one that goes up as released, whatever
/// happens to it before the frame ends. An event that repeats, one that is about another key and one
/// that goes the other way make no difference.
pub proof fn law_key_counts_in_its_frame(
    moved: Set<KeyCode>,
    event: KeyEvent,
    way: ElementState,
    code: KeyCode,
)
    ensures
        Input::moved_after(moved, event, way).contains(code) == (moved.contains(code) || (
        !event.repeat && event.state == way && event.physical_key == Some(code))),
{
}

/// Pressing the full-screen key twice returns the window to where it was.
pub proof fn law_fullscreen_toggles(event: KeyEvent)
    requires
        Input::fullscreen_action(event, true) != FullscreenAction::Keep,
    ensures
        Input::fullscreen_action(event, true) == FullscreenAction::Leave,
        Input::fullscreen_action(event, false) == FullscreenAction::EnterBorderless,
{
}


/// The buttons of the mouse are told apart: each changes by its own events alone, and nothing but the
/// end of a frame takes back that one was clicked or released.
pub proof fn law_buttons_are_told_apart(mouse: Mouse, state: ElementState)
    ensures
        mouse.after(state, PointerButton::Left).right == mouse.right,
        mouse.after(state, PointerButton::Right).left == mouse.left,
        mouse.after(state, PointerButton::Other) == mouse,
        mouse.after(state, PointerButton::Left).left.down == (state == ElementState::Pressed),
        mouse.after(state, PointerButton::Right).right.down == (state == ElementState::Pressed),
        mouse.after(state, PointerButton::Left).left.clicked == (mouse.left.clicked || state
            == ElementState::Pressed),
        mouse.after(state, PointerButton::Right).right.clicked == (mouse.right.clicked || state
            == ElementState::Pressed),
        mouse.after(state, PointerButton::Left).left.released == (mouse.left.released || state
            == ElementState::Released),
        mouse.after(state, PointerButton::Right).right.released == (mouse.right.released || state
            == ElementState::Released),
        forall|button: PointerButton|
            (#[trigger] mouse.after(state, button)).scroll_delta == mouse.scroll_delta,
        !untouched_mouse().left.down && !untouched_mouse().left.clicked
            && !untouched_mouse().left.released,
        untouched_mouse().right == untouched_mouse().left,
        untouched_mouse().scroll_delta == 0,
{
}

/// The window is asked to change just when a key goes down, not merely repeating, that types an f:
/// to leave full screen if it fills the screen, and to fill it if it does not.
pub proof fn law_letter_f_changes_window(event: KeyEvent, fullscreen: bool)
    ensures
        Input::fullscreen_action(event, fullscreen) != FullscreenAction::Keep <==> {
            &&& event.state == ElementState::Pressed
            &&& !event.repeat
            &&& event.character matches Some(text) && text@ == "f"@
        },
        Input::fullscreen_action(event, fullscreen) == FullscreenAction::Leave ==> fullscreen,
        Input::fullscreen_action(event, fullscreen) == FullscreenAction::EnterBorderless
            ==> !fullscreen,
{
}

/// An event without a known key moves none, and a key that merely repeats was down already and
/// stays as it was, for good and for the frame.
pub proof fn law_unknown_and_repeated_keys_do_nothing(
    keys: Set<KeyCode>,
    event: KeyEvent,
    way: ElementState,
)
    requires
        event.physical_key is None || event.repeat,
    ensures
        Input::pressed_after(keys, event) == keys,
        Input::moved_after(keys, event, way) == keys,
{
}

} // verus!
