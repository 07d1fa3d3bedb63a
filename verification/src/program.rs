//! The program around the renderer: where events go.
use crate::input::{
    DeviceEvent, ElementState, FullscreenAction, Input, KeyEvent, MouseMotion, PointerButton,
};
use vstd::prelude::*;

verus! {

/// The width of the window at the start, in logical pixels.
pub const WINDOW_WIDTH: u32 = 1920;

/// The height of the window at the start, in logical pixels.
pub const WINDOW_HEIGHT: u32 = 1080;

/// What a window reports.
#[derive(Debug)]
pub enum WindowEvent {
    CloseRequested,
    RedrawRequested,
    MouseInput { state: ElementState, button: PointerButton },
    KeyboardInput(KeyEvent),
    Resized,
    Other,
}

/// What the user interface keeps for itself.
#[derive(Clone, Copy, Debug, PartialEq, Eq, Structural)]
pub struct UiCapture {
    pub want_capture_mouse: bool,
    pub want_capture_keyboard: bool,
}

/// Where an event of the window goes first.
#[derive(Clone, Copy, Debug, PartialEq, Eq, Structural)]
pub enum WindowRoute {
    /// Nowhere: there is nothing running yet.
    Ignore,
    /// The program ends.
    Exit,
    /// A frame is drawn, and another one asked for.
    DrawFrame,
    /// On to the input, after the user interface has seen it.
    UiAndInput,
    /// On to the input, past the user interface.
    InputOnly,
}

/// What an event leaves to be done.
#[derive(Clone, Copy, Debug, PartialEq, Eq, Structural)]
pub enum WindowOutcome {
    Nothing,
    Fullscreen(FullscreenAction),
    /// The screen resources have to be made anew.
    Recreate,
}

/// Where an event of a device goes.
#[derive(Clone, Copy, Debug, PartialEq, Eq, Structural)]
pub enum DeviceRoute {
    /// Nowhere: there is nothing running yet.
    Ignore,
    /// To the user interface, and then to the mouse movement.
    UiAndMotion(MouseMotion),
}

/// Whether the event is a key that the input takes: one that the user interface leaves to it, and
/// that does not merely repeat.
pub open spec fn takes_key(event: WindowEvent, capture: UiCapture) -> bool {
    match event {
        WindowEvent::KeyboardInput(key) => !capture.want_capture_keyboard && !key.repeat,
        _ => false,
    }
}

/// The program.
#[derive(Debug)]
pub struct Program {
    /// Whether the application is running.
    pub running: bool,
}

impl Program {
    /// The program before anything runs.
    pub fn new() -> (r: Self)
        ensures
            !r.running,
    {
        Program { running: false }
    }

    /// The program may go on: tells whether the window and the application are to be created,
    /// which happens once.
    pub fn resumed(&mut self) -> (r: bool)
        ensures
            r == !old(self).running,
            final(self).running,
    {
        if self.running {
            return false;
        }
        self.running = true;
        true
    }

    /// Tells where an event of the window goes. The user interface sees no events while the
    /// cursor is locked.
    pub fn window_event(&self, event: &WindowEvent, cursor_locked: bool) -> (r: WindowRoute)
        ensures
            r == if !self.running {
                WindowRoute::Ignore
            } else {
                match *event {
                    WindowEvent::CloseRequested => WindowRoute::Exit,
                    WindowEvent::RedrawRequested => WindowRoute::DrawFrame,
                    _ => if cursor_locked {
                        WindowRoute::InputOnly
                    } else {
                        WindowRoute::UiAndInput
                    },
                }
            },
    {
        if !self.running {
            return WindowRoute::Ignore;
        }
        match event {
            WindowEvent::CloseRequested => WindowRoute::Exit,
            WindowEvent::RedrawRequested => WindowRoute::DrawFrame,
            _ => {
                if cursor_locked {
                    WindowRoute::InputOnly
                } else {
                    WindowRoute::UiAndInput
                }
            },
        }
    }

    /// Passes an event on to the input, unless the user interface keeps it.
    pub fn handle_input(
        &self,
        input: &mut Input,
        event: &WindowEvent,
        capture: UiCapture,
        fullscreen: bool,
    ) -> (r: WindowOutcome)
        ensures
            r == match *event {
                WindowEvent::KeyboardInput(key) => if takes_key(*event, capture) {
                    WindowOutcome::Fullscreen(Input::fullscreen_action(key, fullscreen))
                } else {
                    WindowOutcome::Nothing
                },
                WindowEvent::Resized => WindowOutcome::Recreate,
                _ => WindowOutcome::Nothing,
            },
            final(input).mouse == match *event {
                WindowEvent::MouseInput { state, button } => if capture.want_capture_mouse {
                    old(input).mouse
                } else {
                    old(input).mouse.after(state, button)
                },
                _ => old(input).mouse,
            },
            final(input).pressed() == match *event {
                WindowEvent::KeyboardInput(key) => if takes_key(*event, capture) {
                    Input::pressed_after(old(input).pressed(), key)
                } else {
                    old(input).pressed()
                },
                _ => old(input).pressed(),
            },
            final(input).fresh() == match *event {
                WindowEvent::KeyboardInput(key) => if takes_key(*event, capture) {
                    Input::moved_after(old(input).fresh(), key, ElementState::Pressed)
                } else {
                    old(input).fresh()
                },
                _ => old(input).fresh(),
            },
            final(input).released() == match *event {
                WindowEvent::KeyboardInput(key) => if takes_key(*event, capture) {
                    Input::moved_after(old(input).released(), key, ElementState::Released)
                } else {
                    old(input).released()
                },
                _ => old(input).released(),
            },
            final(input).scroll == old(input).scroll,
    {
        match event {
            WindowEvent::MouseInput { state, button } => {
                if !capture.want_capture_mouse {
                    input.handle_mouse(state, button);
                }
                WindowOutcome::Nothing
            },
            WindowEvent::KeyboardInput(key) => {
                if !capture.want_capture_keyboard && !key.repeat {
                    WindowOutcome::Fullscreen(input.handle_keyboard(key, fullscreen))
                } else {
                    WindowOutcome::Nothing
                }
            },
            WindowEvent::Resized => WindowOutcome::Recreate,
            _ => WindowOutcome::Nothing,
        }
    }

    /// Tells where an event of a device goes.
    pub fn device_event(&self, input: &Input, event: &DeviceEvent) -> (r: DeviceRoute)
        ensures
            r == if !self.running {
                DeviceRoute::Ignore
            } else {
                DeviceRoute::UiAndMotion(
                    match *event {
                        DeviceEvent::Motion { axis, value } => if axis == 0 {
                            MouseMotion::X(value)
                        } else if axis == 1 {
                            MouseMotion::Y(value)
                        } else {
                            MouseMotion::Ignored
                        },
                        DeviceEvent::Other => MouseMotion::Ignored,
                    },
                )
            },
    {
        if !self.running {
            return DeviceRoute::Ignore;
        }
        DeviceRoute::UiAndMotion(input.handle_device_input(event))
    }
}


/// A key reaches the input just when the user interface leaves the keyboard alone and the key does
/// not merely repeat; nothing else that a window reports counts as one.
pub proof fn law_input_takes_keys(event: WindowEvent, capture: UiCapture)
    ensures
        takes_key(event, capture) <==> {
            &&& event matches WindowEvent::KeyboardInput(key) && !key.repeat
            &&& !capture.want_capture_keyboard
        },
{
}

} // verus!
