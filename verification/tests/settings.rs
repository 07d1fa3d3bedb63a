use vkdemo::camera::{aspect_terms, cascade_ranges, move_axes, view_corners, CascadeRange};
use vkdemo::config::{debug_view_names, Config, DebugView};
use vkdemo::input::{
    DeviceEvent, ElementState, FullscreenAction, Input, Key, KeyCode, KeyEvent, MouseMotion,
    PointerButton,
};

fn key(code: KeyCode, state: ElementState) -> KeyEvent {
    KeyEvent { repeat: false, state, character: None, physical_key: Some(code) }
}

#[test]
fn default_settings() {
    let config = Config::default();
    assert_eq!(f32::from_bits(config.render_scale), 0.5);
    assert_eq!(config.debug_view, DebugView::Composite);
    assert_eq!(f32::from_bits(config.sun_azimuth), 45.0);
    assert_eq!(f32::from_bits(config.sun_altitude), 80.0);
    assert_eq!(f32::from_bits(config.cascade_lambda), 0.7);
    assert_eq!(config.ao_slices, 4);
    assert_eq!(config.ao_samples, 8);
    assert_eq!(f32::from_bits(config.ao_radius), 0.35);
    assert_eq!(f32::from_bits(config.ao_falloff_range), 0.615);
    assert_eq!(f32::from_bits(config.ao_sample_distribution_power), 2.0);
    assert_eq!(f32::from_bits(config.ao_thin_occluder_compensation), 0.9);
    assert_eq!(f32::from_bits(config.ao_final_value_power), 2.2);
}

#[test]
fn views_are_picked_by_number() {
    let names = debug_view_names();
    assert_eq!(names.len(), 9);
    assert_eq!(names[0], "Composite");
    assert_eq!(names[7], "Ambient Occlusion");
    assert_eq!(names[8], "Shadow");
    let mut config = Config::default();
    for (i, name) in names.iter().enumerate() {
        config.pick_debug_view(i);
        assert_eq!(config.debug_view.index() as usize, i);
        assert_eq!(config.debug_view.name(), *name);
    }
    assert_eq!(DebugView::from_index(3), Some(DebugView::Normal));
    assert_eq!(DebugView::from_index(9), None);
}

#[test]
fn click_shows_for_one_frame_and_hold_goes_on() {
    let mut input = Input::default();
    input.handle_mouse(&ElementState::Pressed, &PointerButton::Left);
    assert!(input.mouse.left.clicked && input.mouse.left.down);
    assert!(!input.mouse.right.down);
    input.update();
    assert!(!input.mouse.left.clicked && input.mouse.left.down);
    input.handle_mouse(&ElementState::Released, &PointerButton::Left);
    assert!(input.mouse.left.released && !input.mouse.left.down);
    input.update();
    assert!(!input.mouse.left.released);
    input.handle_mouse(&ElementState::Pressed, &PointerButton::Right);
    assert!(input.mouse.right.clicked);
    input.handle_mouse(&ElementState::Pressed, &PointerButton::Other);
    assert!(!input.mouse.left.down);
}

#[test]
fn keys_are_held_until_released() {
    let mut input = Input::default();
    assert!(!input.key_down(KeyCode::KeyW));
    input.handle_keyboard(&key(KeyCode::KeyW, ElementState::Pressed), false);
    input.handle_keyboard(&key(KeyCode::Other(0), ElementState::Pressed), false);
    input.update();
    assert!(input.key_down(KeyCode::KeyW) && input.key_down(KeyCode::Other(0)));
    assert!(!input.key_down(KeyCode::KeyA) && !input.key_down(KeyCode::Other(1)));
    input.handle_keyboard(&key(KeyCode::KeyW, ElementState::Released), false);
    assert!(!input.key_down(KeyCode::KeyW) && input.key_down(KeyCode::Other(0)));
}

#[test]
fn repeated_key_changes_nothing() {
    let mut input = Input::default();
    let mut event = key(KeyCode::KeyS, ElementState::Pressed);
    event.repeat = true;
    event.character = Some("f".to_string());
    assert_eq!(input.handle_keyboard(&event, false), FullscreenAction::Keep);
    assert!(!input.key_down(KeyCode::KeyS));
}

#[test]
fn letter_f_toggles_full_screen() {
    let mut input = Input::default();
    let mut event = KeyEvent {
        repeat: false,
        state: ElementState::Pressed,
        character: Some("f".to_string()),
        physical_key: None,
    };
    assert_eq!(input.handle_keyboard(&event, false), FullscreenAction::EnterBorderless);
    assert_eq!(input.handle_keyboard(&event, true), FullscreenAction::Leave);
    event.character = Some("F".to_string());
    assert_eq!(input.handle_keyboard(&event, true), FullscreenAction::Keep);
    event.character = Some("f".to_string());
    event.state = ElementState::Released;
    assert_eq!(input.handle_keyboard(&event, true), FullscreenAction::Keep);
}

#[test]
fn mouse_moves_along_two_axes() {
    let input = Input::default();
    let motion = |axis, value| input.handle_device_input(&DeviceEvent::Motion { axis, value });
    assert_eq!(motion(0, 5), MouseMotion::X(5));
    assert_eq!(motion(1, 6), MouseMotion::Y(6));
    assert_eq!(motion(2, 7), MouseMotion::Ignored);
    assert_eq!(input.handle_device_input(&DeviceEvent::Other), MouseMotion::Ignored);
    assert_eq!(Key::default(), Key { pressed: false, released: false, down: false });
}

#[test]
fn keys_steer_while_the_cursor_is_locked() {
    let mut input = Input::default();
    assert_eq!(move_axes(&input, true), [0, 0]);
    input.handle_keyboard(&key(KeyCode::KeyA, ElementState::Pressed), false);
    input.handle_keyboard(&key(KeyCode::KeyW, ElementState::Pressed), false);
    assert_eq!(move_axes(&input, true), [-1, 1]);
    assert_eq!(move_axes(&input, false), [0, 0]);
    input.handle_keyboard(&key(KeyCode::KeyD, ElementState::Pressed), false);
    assert_eq!(move_axes(&input, true), [0, 1]);
}

#[test]
fn aspect_never_divides_by_nothing() {
    assert_eq!(aspect_terms([1920, 1080]), (1920, 1080));
    assert_eq!(aspect_terms([1920, 0]), (1920, 1));
}

#[test]
fn cascades_lie_between_splits() {
    let ranges = cascade_ranges(&vec![1, 2, 3, 4, 5]);
    assert_eq!(ranges.len(), 4);
    assert_eq!(ranges[0], CascadeRange { near: 1, far: 2 });
    assert_eq!(ranges[3], CascadeRange { near: 4, far: 5 });
}

#[test]
fn corners_of_the_view() {
    let corners = view_corners();
    let as_numbers = |i: usize| corners[i].map(f32::from_bits);
    assert_eq!(as_numbers(0), [-1.0, 1.0, 0.0]);
    assert_eq!(as_numbers(3), [1.0, -1.0, 0.0]);
    assert_eq!(as_numbers(4), [-1.0, 1.0, 1.0]);
    assert_eq!(as_numbers(7), [1.0, -1.0, 1.0]);
}
