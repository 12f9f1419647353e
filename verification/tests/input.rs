use nablo::event::{Event, Key, MouseButton, Touch, TouchPhase};
use nablo::input::InputState;
use nablo::math::Vec2;
use nablo::Instant;

fn now() -> Instant {
    Instant { nanos: 0 }
}

fn state(events: Vec<Event>) -> InputState {
    let mut input = InputState::new();
    for event in &events {
        input.apply(event, now());
    }
    input
}

#[test]
fn keys_as_text() {
    assert_eq!(Key::A.to_string(false), "a");
    assert_eq!(Key::A.to_string(true), "A");
    assert_eq!(Key::Z.to_string(true), "Z");
    assert_eq!(Key::Num1.to_string(false), "1");
    assert_eq!(Key::Num1.to_string(true), "!");
    assert_eq!(Key::Num0.to_string(true), ")");
    assert_eq!(Key::Num9.to_string(true), "(");
    assert_eq!(Key::NumPad7.to_string(false), "7");
    assert_eq!(Key::NumPad7.to_string(true), "");
    assert_eq!(Key::Space.to_string(false), " ");
    assert_eq!(Key::Space.to_string(true), " ");
    assert_eq!(Key::Backslash.to_string(false), "\\");
    assert_eq!(Key::Backslash.to_string(true), "|");
    assert_eq!(Key::Quote.to_string(false), "'");
    assert_eq!(Key::Quote.to_string(true), "\"");
    assert_eq!(Key::Backquote.to_string(true), "~");
    assert_eq!(Key::Period.to_string(true), ">");
    assert_eq!(Key::Comma.to_string(true), "<");
    assert_eq!(Key::Minus.to_string(true), "_");
    assert_eq!(Key::Equal.to_string(true), "+");
    assert_eq!(Key::Slash.to_string(true), "?");
    assert_eq!(Key::Semicolon.to_string(true), ":");
    assert_eq!(Key::BracketLeft.to_string(true), "{");
    assert_eq!(Key::BracketRight.to_string(false), "]");
    assert_eq!(Key::Enter.to_string(false), "");
    assert_eq!(Key::F12.to_string(true), "");
    assert_eq!(Key::Unknown(3).to_string(false), "");
    assert_eq!(Key::ShiftLeft.to_string(true), "");
    assert_eq!(Key::A.symbol(false), Some('a'));
    assert_eq!(Key::Tab.symbol(false), None);
}

#[test]
fn typing_builds_the_text_of_the_frame() {
    let input = state(vec![
        Event::KeyPressed(Key::H),
        Event::KeyPressed(Key::ShiftLeft),
        Event::KeyPressed(Key::I),
        Event::KeyRelease(Key::ShiftLeft),
        Event::KeyPressed(Key::Num1),
    ]);
    assert_eq!(input.input_text(), "hI1");
    assert!(input.is_key_pressing(Key::H));
    assert!(!input.is_key_pressing(Key::ShiftLeft));
    assert!(input.is_key_released(Key::ShiftLeft));
    assert!(input.is_key_repeat(Key::I));
    assert!(!input.is_key_released(Key::H));
}

#[test]
fn control_and_input_method_keep_keys_from_typing() {
    let input = state(vec![Event::KeyPressed(Key::ControlLeft), Event::KeyPressed(Key::C)]);
    assert_eq!(input.input_text(), "");
    let input = state(vec![Event::KeyPressed(Key::AltRight), Event::KeyPressed(Key::C)]);
    assert_eq!(input.input_text(), "");
    let input = state(vec![Event::KeyPressed(Key::Tab)]);
    assert_eq!(input.input_text(), "");
    let input = state(vec![Event::ImeEnable, Event::KeyPressed(Key::C)]);
    assert_eq!(input.input_text(), "");
    let input = state(vec![Event::ImeEnable, Event::ImeDisable, Event::KeyPressed(Key::C)]);
    assert_eq!(input.input_text(), "c");
    let input = state(vec![Event::KeyPressed(Key::C), Event::TextInput("pasted".to_string())]);
    assert_eq!(input.input_text(), "pasted");
    let input = state(vec![Event::KeyPressed(Key::ControlRight), Event::KeyPressed(Key::C)]);
    assert_eq!(input.input_text(), "c");
}

#[test]
fn held_key_is_down_once_but_repeats() {
    let mut input = state(vec![Event::KeyPressed(Key::A), Event::KeyPressed(Key::A)]);
    assert_eq!(input.input_text(), "aa");
    input.clear();
    assert!(input.is_key_pressing(Key::A));
    assert!(!input.is_key_repeat(Key::A));
    assert_eq!(input.input_text(), "");
    input.apply(&Event::KeyRelease(Key::A), now());
    assert!(!input.is_key_pressing(Key::A));
}

#[test]
fn mouse_buttons_press_hold_release() {
    let mut input = state(vec![Event::MouseClick(MouseButton::Left), Event::MouseClick(MouseButton::Other(9))]);
    assert!(input.is_mouse_pressed(MouseButton::Left));
    assert!(input.is_mouse_pressed_unconsumed(MouseButton::Left));
    assert!(!input.is_mouse_pressed(MouseButton::Right));
    assert!(input.is_any_mouse_pressed());
    assert!(input.is_any_mouse_pressed_unconsumed());
    assert!(input.is_any_mouse_pressed_undragged());
    assert!(input.is_mouse_pressing(MouseButton::Other(9)));
    assert!(input.is_mouse_pressing_unconsumed(MouseButton::Left));
    assert!(input.is_any_mouse_pressing());
    assert!(input.is_any_mouse_pressing_unconsumed());
    assert!(!input.is_any_mouse_released());
    assert_eq!(input.pressed_mouse(), vec![MouseButton::Left, MouseButton::Other(9)]);
    assert_eq!(input.pressing_mouse(), vec![MouseButton::Left, MouseButton::Other(9)]);
    assert!(input.released_mouse().is_empty());

    input.consume_mouse_press(MouseButton::Left);
    assert!(!input.is_mouse_pressed_unconsumed(MouseButton::Left));
    assert!(input.is_mouse_pressed(MouseButton::Left));
    assert!(input.is_any_mouse_pressed_unconsumed());
    input.consume_all_mouse_press();
    assert!(!input.is_any_mouse_pressed_unconsumed());
    assert!(input.is_any_mouse_pressed_undragged());
    input.claim_all_drag();
    assert!(!input.is_any_mouse_pressed_undragged());
    input.consume_mouse_pressing(MouseButton::Left);
    assert!(!input.is_mouse_pressing_unconsumed(MouseButton::Left));
    assert!(input.is_mouse_pressing(MouseButton::Left));
    assert!(input.is_any_mouse_pressing_unconsumed());
    input.consume_all_mouse_pressing();
    assert!(!input.is_any_mouse_pressing_unconsumed());

    input.clear();
    assert!(!input.is_any_mouse_pressed());
    assert!(input.is_mouse_pressing(MouseButton::Left));
    input.apply(&Event::MouseRelease(MouseButton::Left), now());
    assert!(!input.is_mouse_pressing(MouseButton::Left));
    assert!(input.is_mouse_pressing(MouseButton::Other(9)));
    assert!(input.is_mouse_released(MouseButton::Left));
    assert!(input.is_mouse_released_unconsumed(MouseButton::Left));
    assert!(input.is_any_mouse_released());
    assert!(input.is_any_mouse_released_unconsumed());
    assert_eq!(input.released_mouse(), vec![MouseButton::Left]);
    input.consume_mouse_release(MouseButton::Right);
    assert!(input.is_any_mouse_released_unconsumed());
    input.consume_mouse_release(MouseButton::Left);
    assert!(!input.is_any_mouse_released_unconsumed());
    assert!(input.is_mouse_released(MouseButton::Left));
    assert!(!input.is_mouse_released_unconsumed(MouseButton::Left));
    input.apply(&Event::MouseRelease(MouseButton::Other(9)), now());
    input.consume_all_mouse_release();
    assert!(!input.is_any_mouse_released_unconsumed());
    input.apply(&Event::MouseClick(MouseButton::Left), now());
    assert!(!input.is_mouse_released(MouseButton::Left));
    assert!(input.is_mouse_released(MouseButton::Other(9)));
    input.clear();
    assert!(!input.is_any_mouse_released());
}

#[test]
fn cursor_and_wheel() {
    let mut input = state(vec![Event::CursorEntered]);
    assert_eq!(input.cursor_position(), Some(Vec2::new(0, 0)));
    input.apply(&Event::CursorMoved(Vec2::new(3, 4)), now());
    input.apply(&Event::Scroll(Vec2::new(0, -16)), now());
    input.apply(&Event::Resized(Vec2::new(1, 1)), now());
    input.apply(&Event::NotSupported, now());
    assert_eq!(input.cursor_position(), Some(Vec2::new(3, 4)));
    assert_eq!(input.scroll(), Vec2::new(0, -16));
    assert_eq!(input.pointers(), vec![Vec2::new(3, 4)]);
    input.clear();
    assert_eq!(input.scroll(), Vec2::new(0, 0));
    assert_eq!(input.cursor_position(), Some(Vec2::new(3, 4)));
    input.apply(&Event::CursorLeft, now());
    assert_eq!(input.cursor_position(), None);
    assert!(input.pointers().is_empty());
}

#[test]
fn touches_by_id_and_phase() {
    let a = Touch::new(1, Vec2::new(1, 1), TouchPhase::Start);
    let b = Touch::new(2, Vec2::new(2, 2), TouchPhase::Start);
    let mut input = state(vec![Event::TouchStart(a), Event::TouchStart(b), Event::CursorMoved(Vec2::new(9, 9))]);
    assert_eq!(input.touches(), vec![a, b]);
    assert_eq!(input.touch_position(), vec![Vec2::new(1, 1), Vec2::new(2, 2)]);
    assert_eq!(input.pointers(), vec![Vec2::new(1, 1), Vec2::new(2, 2), Vec2::new(9, 9)]);
    assert!(input.is_any_touch_pressed());
    assert!(input.is_any_touch_pressed_unconsumed());
    assert!(!input.is_any_touch_pressing());
    assert!(!input.is_any_touch_released());
    assert_eq!(input.pressed_touches(), vec![a, b]);
    input.consume_all_pressed_touch();
    assert!(input.is_any_touch_pressed());
    assert!(!input.is_any_touch_pressed_unconsumed());
    assert!(input.pressed_touches_unconsumed().is_empty());

    input.clear();
    let a_held = Touch::new(1, Vec2::new(1, 1), TouchPhase::Hold);
    let b_held = Touch::new(2, Vec2::new(2, 2), TouchPhase::Hold);
    assert_eq!(input.pressing_touches(), vec![a_held, b_held]);
    assert!(input.is_any_touch_pressing_unconsumed());
    assert!(!input.is_any_touch_pressed());
    let a_moved = Touch::new(1, Vec2::new(5, 5), TouchPhase::Hold);
    input.apply(&Event::TouchMove(a_moved), now());
    assert_eq!(input.touches(), vec![a_moved, b_held]);
    input.consume_all_pressing_touch();
    assert!(!input.is_any_touch_pressing_unconsumed());
    assert_eq!(input.pressing_touches_unconsumed(), vec![]);
    assert!(input.is_any_touch_pressing());

    let b_end = Touch::new(2, Vec2::new(2, 3), TouchPhase::End);
    input.apply(&Event::TouchEnd(b_end), now());
    assert!(input.is_any_touch_released());
    assert!(input.is_any_touch_released_unconsumed());
    assert_eq!(input.released_touches(), vec![b_end]);
    assert_eq!(input.released_touches_unconsumed(), vec![b_end]);
    input.consume_all_released_touch();
    assert!(!input.is_any_touch_released_unconsumed());
    assert_eq!(input.released_touches(), vec![b_end]);
    input.clear();
    assert_eq!(input.touches(), vec![a_moved]);
    input.apply(&Event::TouchCancel(Touch::new(1, Vec2::new(5, 5), TouchPhase::End)), now());
    input.clear();
    assert!(input.touches().is_empty());
}

#[test]
fn copy_of_the_snapshot_is_independent() {
    let mut input = state(vec![Event::MouseClick(MouseButton::Left), Event::KeyPressed(Key::A)]);
    let copy = input.clone();
    input.consume_all_mouse_press();
    input.clear();
    assert!(copy.is_any_mouse_pressed_unconsumed());
    assert_eq!(copy.input_text(), "a");
}
