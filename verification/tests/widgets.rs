use nablo::container::state::{ContainerState, Select, SingleTextInputTemp};
use nablo::event::{Event, Key, MouseButton, OutputEvent};
use nablo::input::InputState;
use nablo::math::{Area, Vec2};
use nablo::ui::Ui;
use nablo::widgets::button::{Button, Canvas, Label, SelectableValue};
use nablo::widgets::single_input::{edit, pointer_at, Edit, SingleTextInput};
use nablo::widgets::{ButtonStyle, Status, Widget};
use nablo::Instant;

fn at(ms: i64) -> Instant {
    Instant { nanos: ms * 1_000_000 }
}

fn s(text: &str) -> String {
    text.to_string()
}

fn keys(events: Vec<Event>) -> InputState {
    let mut input = InputState::new();
    for event in &events {
        input.apply(event, at(0));
    }
    input
}

fn line(text: &str, pointer: usize, select: Option<(usize, usize, bool)>) -> Edit {
    Edit {
        text: s(text),
        pointer,
        select: select.map(|(begin, end, is_backwards)| Select { begin, end, is_backwards }),
    }
}

fn state(pointer: usize, select: Option<(usize, usize, bool)>) -> SingleTextInputTemp {
    SingleTextInputTemp {
        is_focused: true,
        earlier_change: None,
        latest_change: None,
        pointer,
        select: select.map(|(begin, end, is_backwards)| Select { begin, end, is_backwards }),
    }
}

#[test]
fn button_takes_room_for_words_icon_and_padding() {
    let mut ui = Ui::new_at(at(0));
    let mut button = Button::new(s("ok")).text_size(Vec2::new(30, 12)).icon(Vec2::new(16, 20));
    assert!(button.has_icon());
    let res = button.ui(&mut ui, None);
    assert_eq!(res.area, Area::new(Vec2::new(16, 16), Vec2::new(16 + 30 + 16 + 32, 16 + 20 + 16)));
    assert!(res.metadata.click_info.is_some());
    assert!(res.metadata.drag_info.is_none());
    let mut button = Button::empty().set_padding(2).status(Status::Error).style(ButtonStyle::Lined);
    assert!(!button.has_icon());
    assert_eq!(button.status, Status::Error);
    assert_eq!(button.style, ButtonStyle::Lined);
    let res = button.ui(&mut ui, None);
    assert_eq!(res.area.width_and_height(), Vec2::new(4, 2));
    let res = button.ui(&mut ui, Some(Area::new(Vec2::new(1, 1), Vec2::new(9, 9))));
    assert_eq!(res.area, Area::new(Vec2::new(1, 1), Vec2::new(9, 9)));
    assert_eq!(ui.button(s("go")).response.id, "----0");
}

#[test]
fn label_is_a_single_line() {
    let mut ui = Ui::new_at(at(0));
    let mut label = Label::new(s("one\ntwo\n")).text_size(Vec2::new(40, 12));
    assert_eq!(label.text, "onetwo");
    let res = label.ui(&mut ui, None);
    assert_eq!(res.area, Area::new(Vec2::new(16, 16), Vec2::new(56, 28)));
    assert!(res.metadata.click_info.is_none());
    assert_eq!(ui.label(s("x")).response.id, "----0");
}

#[test]
fn canvas_can_be_dragged_when_asked() {
    let mut ui = Ui::new_at(at(0));
    let mut canvas = Canvas::new(Vec2::new(400, 200));
    let res = canvas.ui(&mut ui, None);
    assert_eq!(res.area, Area::new(Vec2::new(16, 16), Vec2::new(416, 216)));
    assert!(res.metadata.drag_info.is_none());
    let res = canvas.dragable(true).ui(&mut ui, None);
    assert!(res.metadata.drag_info.is_some());
    assert_eq!(ui.canvas(Vec2::new(1, 1)).response.id, "----0");
}

#[test]
fn switch_flips_on_a_click() {
    let mut ui = Ui::new_at(at(0));
    let mut on = false;
    let mut choice = 1;
    ui.switch(&mut on, s("dark"));
    ui.selectable_value(&mut choice, 2, false, s("two"));
    ui.clear_at(at(0));
    assert!(!on);
    ui.event_at(&Event::CursorMoved(Vec2::new(20, 20)), at(1));
    ui.event_at(&Event::MouseClick(MouseButton::Left), at(1));
    ui.update_at(at(1));
    ui.switch(&mut on, s("dark"));
    ui.selectable_value(&mut choice, 2, false, s("two"));
    ui.clear_at(at(1));
    assert!(!on);
    ui.event_at(&Event::MouseRelease(MouseButton::Left), at(2));
    ui.update_at(at(2));
    assert!(ui.switch(&mut on, s("dark")).response.is_clicked());
    assert!(!ui.selectable_value(&mut choice, 2, false, s("two")).response.is_clicked());
    ui.clear_at(at(2));
    assert!(on);
    assert_eq!(choice, 1);
    let mut value = SelectableValue::new(true, s("a")).icon(Vec2::new(8, 8)).set_padding(1).text_size(Vec2::new(10, 10));
    assert!(value.has_icon() && value.select);
    assert_eq!(value.ui(&mut ui, None).area.width_and_height(), Vec2::new(20, 11));
}

#[test]
fn typing_goes_in_at_the_cursor() {
    let mut e = line("held", 2, None);
    e.insert(&s("llo wor"), None);
    assert_eq!((e.text.as_str(), e.pointer, e.select), ("hello world", 9, None));
    let mut e = line("", 0, None);
    e.insert(&s("a"), None);
    assert_eq!((e.text.as_str(), e.pointer), ("a", 1));
}

#[test]
fn typing_respects_the_limit_and_replaces_the_selection() {
    let mut e = line("abc", 3, None);
    e.insert(&s("defgh"), Some(5));
    assert_eq!((e.text.as_str(), e.pointer), ("abcde", 5));
    e.insert(&s("x"), Some(5));
    assert_eq!((e.text.as_str(), e.pointer), ("abcde", 5));
    e.insert(&s("x"), Some(2));
    assert_eq!((e.text.as_str(), e.pointer), ("abcde", 5));
    let mut e = line("abcdef", 6, Some((1, 4, false)));
    e.insert(&s("XY"), None);
    assert_eq!((e.text.as_str(), e.pointer, e.select), ("aXYef", 3, None));
    let mut e = line("abcdef", 6, Some((1, 4, false)));
    e.insert(&s(""), None);
    assert_eq!((e.text.as_str(), e.pointer), ("abcdef", 6));
    assert!(e.select.is_some());
    let mut e = line("\u{e9}\u{e9}", 1, None);
    e.insert(&s("\u{fc}\u{fc}\u{fc}"), Some(6));
    assert_eq!((e.text.as_str(), e.pointer), ("\u{e9}\u{fc}\u{fc}\u{e9}", 3));
    let mut e = line("ab", 9, None);
    e.insert(&s("c"), None);
    assert_eq!((e.text.as_str(), e.pointer), ("abc", 10));
}

#[test]
fn selection_is_read_and_taken_out_by_characters() {
    let e = line("h\u{e9}llo w\u{f6}rld", 0, Some((1, 5, false)));
    assert_eq!(e.selection(), Some(s("\u{e9}llo")));
    let mut e = e;
    e.deselect();
    assert_eq!((e.text.as_str(), e.pointer, e.select), ("h w\u{f6}rld", 1, None));
    e.deselect();
    assert_eq!(e.text, "h w\u{f6}rld");
    assert_eq!(line("abc", 0, None).selection(), None);
    assert_eq!(line("abc", 0, Some((2, 1, false))).selection(), Some(s("")));
    assert_eq!(line("abc", 0, Some((1, 9, false))).selection(), Some(s("bc")));
    let mut all = line("abc", 1, None);
    all.select_all();
    assert_eq!((all.pointer, all.select), (3, Some(Select { begin: 0, end: 3, is_backwards: false })));
}

#[test]
fn backspace_takes_out_one_character_or_the_selection() {
    let mut e = line("ab\u{e9}d", 3, None);
    e.backspace();
    assert_eq!((e.text.as_str(), e.pointer), ("abd", 2));
    let mut e = line("abc", 0, None);
    e.backspace();
    assert_eq!((e.text.as_str(), e.pointer), ("abc", 0));
    let mut e = line("abcdef", 5, Some((2, 5, true)));
    e.backspace();
    assert_eq!((e.text.as_str(), e.pointer, e.select), ("abf", 2, None));
}

#[test]
fn arrows_move_the_cursor_and_the_selection() {
    let mut e = line("abcd", 2, None);
    e.move_left(false);
    assert_eq!((e.pointer, e.select), (1, None));
    e.move_left(true);
    assert_eq!((e.pointer, e.select), (0, Some(Select { begin: 0, end: 1, is_backwards: true })));
    e.move_left(true);
    assert_eq!((e.pointer, e.select), (0, Some(Select { begin: 0, end: 1, is_backwards: true })));
    e.move_right(true);
    assert_eq!((e.pointer, e.select), (1, Some(Select { begin: 1, end: 1, is_backwards: false })));
    e.move_right(true);
    assert_eq!((e.pointer, e.select), (2, Some(Select { begin: 1, end: 2, is_backwards: false })));
    e.move_left(true);
    assert_eq!((e.pointer, e.select), (1, Some(Select { begin: 1, end: 1, is_backwards: true })));
    e.move_right(false);
    assert_eq!((e.pointer, e.select), (2, None));
    let mut e = line("abcd", 4, None);
    e.move_right(true);
    assert_eq!((e.pointer, e.select), (4, None));
    e.move_right(false);
    assert_eq!(e.pointer, 4);
    let mut e = line("abcd", 3, Some((1, 4, false)));
    e.move_right(true);
    assert_eq!((e.pointer, e.select), (4, Some(Select { begin: 1, end: 4, is_backwards: false })));
}

#[test]
fn one_frame_of_keys() {
    let mut text = s("hello");
    let mut temp = state(5, None);
    let input = keys(vec![Event::KeyPressed(Key::Space), Event::KeyPressed(Key::W)]);
    assert!(edit(&mut text, &mut temp, &input, None, None).is_empty());
    assert_eq!((text.as_str(), temp.pointer), ("hello w", 7));

    let input = keys(vec![Event::KeyPressed(Key::ControlLeft), Event::KeyPressed(Key::A), Event::KeyRelease(Key::A)]);
    edit(&mut text, &mut temp, &input, None, None);
    assert_eq!(temp.select, Some(Select { begin: 0, end: 7, is_backwards: false }));

    let input = keys(vec![Event::KeyPressed(Key::ControlLeft), Event::KeyPressed(Key::C), Event::KeyRelease(Key::C)]);
    assert_eq!(edit(&mut text, &mut temp, &input, None, None), vec![s("hello w")]);
    assert_eq!(text, "hello w");

    let input = keys(vec![Event::KeyPressed(Key::ControlLeft), Event::KeyPressed(Key::X), Event::KeyRelease(Key::X)]);
    assert_eq!(edit(&mut text, &mut temp, &input, None, None), vec![s("hello w")]);
    assert_eq!((text.as_str(), temp.pointer, temp.select), ("", 0, None));

    let input = keys(vec![Event::KeyPressed(Key::ControlLeft), Event::TextInput(s("pasted")), Event::KeyRelease(Key::V)]);
    edit(&mut text, &mut temp, &input, None, None);
    assert_eq!((text.as_str(), temp.pointer), ("pasted", 6));

    let input = keys(vec![Event::KeyPressed(Key::ControlLeft), Event::TextInput(s("no")), Event::KeyPressed(Key::Q)]);
    edit(&mut text, &mut temp, &input, None, None);
    assert_eq!(text, "pasted");

    let input = keys(vec![Event::KeyPressed(Key::Backspace), Event::KeyPressed(Key::ArrowLeft)]);
    edit(&mut text, &mut temp, &input, None, None);
    assert_eq!((text.as_str(), temp.pointer), ("paste", 4));

    let input = keys(vec![Event::KeyPressed(Key::ArrowLeft), Event::KeyPressed(Key::ArrowRight)]);
    edit(&mut text, &mut temp, &input, None, Some(2));
    assert_eq!(temp.pointer, 2);

    let input = keys(vec![Event::KeyPressed(Key::ControlLeft), Event::KeyPressed(Key::A), Event::KeyRelease(Key::A), Event::KeyPressed(Key::X), Event::KeyRelease(Key::X), Event::KeyPressed(Key::C), Event::KeyRelease(Key::C)]);
    assert_eq!(edit(&mut text, &mut temp, &input, None, None), vec![s("paste")]);
    assert_eq!(text, "");
}

#[test]
fn input_gains_and_loses_the_focus() {
    let area = Area::new(Vec2::new(0, 0), Vec2::new(100, 20));
    let mut temp = SingleTextInputTemp::default();
    temp.focus_at(false, &keys(vec![]), &area, at(1));
    assert!(!temp.is_focused);
    temp.focus_at(true, &keys(vec![]), &area, at(2));
    assert!(temp.is_focused);
    assert_eq!((temp.earlier_change, temp.latest_change), (None, Some(at(2))));
    temp.focus_at(true, &keys(vec![]), &area, at(3));
    assert_eq!(temp.latest_change, Some(at(2)));
    let inside = keys(vec![Event::CursorMoved(Vec2::new(5, 5)), Event::MouseRelease(MouseButton::Left)]);
    temp.focus_at(false, &inside, &area, at(4));
    assert!(temp.is_focused);
    let outside = keys(vec![Event::CursorMoved(Vec2::new(500, 5)), Event::MouseRelease(MouseButton::Left)]);
    temp.focus_at(false, &outside, &area, at(5));
    assert!(!temp.is_focused);
    assert_eq!((temp.earlier_change, temp.latest_change), (Some(at(2)), Some(at(5))));
    temp.focus_at(true, &keys(vec![]), &area, at(6));
    temp.focus_at(false, &keys(vec![Event::KeyRelease(Key::Enter)]), &area, at(7));
    assert!(!temp.is_focused);
    assert_eq!((temp.earlier_change, temp.latest_change), (Some(at(6)), Some(at(7))));
    temp.focus_at(true, &keys(vec![]), &area, at(8));
    temp.focus_at(false, &keys(vec![Event::KeyRelease(Key::Tab)]), &area, at(9));
    assert!(!temp.is_focused);
    temp.focus_at(true, &keys(vec![]), &area, at(10));
    temp.focus_at(false, &keys(vec![Event::MouseRelease(MouseButton::Left)]), &area, at(11));
    assert!(!temp.is_focused);
    assert_eq!(temp.focus_time_at(at(20)), Some(nablo::Duration::milliseconds(10)));
    assert_eq!(SingleTextInputTemp::default().focus_time_at(at(20)), None);
}

#[test]
fn text_input_in_a_scope() {
    let mut ui = Ui::new_at(at(0));
    let mut field = SingleTextInput::new(s("ab")).set_width(180).limit(4).place_holder(s("name")).set_padding(8);
    assert!(!field.has_icon());
    let declared = ui.add_with_id(s("field"), SingleTextInput::new(s("ab")).set_width(180).set_padding(8));
    assert_eq!(declared.response.area, Area::new(Vec2::new(16, 16), Vec2::new(196, 32)));
    ui.clear_at(at(0));
    ui.event_at(&Event::CursorMoved(Vec2::new(20, 20)), at(1));
    ui.event_at(&Event::MouseClick(MouseButton::Left), at(1));
    ui.update_at(at(1));
    ui.add_with_id(s("field"), SingleTextInput::new(s("ab")).set_width(180).set_padding(8));
    ui.clear_at(at(1));
    ui.event_at(&Event::MouseRelease(MouseButton::Left), at(2));
    ui.update_at(at(2));
    let res = ui.add_with_id(s("field"), SingleTextInput::new(s("ab")).set_width(180).set_padding(8)).response;
    assert!(res.is_clicked());
    field.update_at(&mut ui, &res, 2, at(2));
    assert_eq!(field.input, "ab");
    ui.clear_at(at(2));
    ui.event_at(&Event::KeyPressed(Key::C), at(3));
    ui.event_at(&Event::KeyPressed(Key::D), at(3));
    ui.event_at(&Event::KeyPressed(Key::E), at(3));
    ui.update_at(at(3));
    let res = ui.add_with_id(s("field"), SingleTextInput::new(s("ab")).set_width(180).set_padding(8)).response;
    field.update_at(&mut ui, &res, 0, at(3));
    assert_eq!(field.input, "abcd");
    match ui.container_read(&s("field")) {
        ContainerState::Input(t) => {
            assert!(t.is_focused);
            assert_eq!(t.pointer, 4);
            assert_eq!(t.latest_change, Some(at(2)));
        },
        _ => panic!("no input state"),
    }
    ui.clear_at(at(3));
    for key in [Key::ControlLeft, Key::A] {
        ui.event_at(&Event::KeyPressed(key), at(4));
    }
    ui.event_at(&Event::KeyRelease(Key::A), at(4));
    ui.event_at(&Event::KeyPressed(Key::C), at(4));
    ui.event_at(&Event::KeyRelease(Key::C), at(4));
    ui.update_at(at(4));
    let res = ui.add_with_id(s("field"), SingleTextInput::new(s("ab")).set_width(180).set_padding(8)).response;
    field.update(&mut ui, &res, 0);
    assert!(matches!(&ui.output_events()[0], OutputEvent::ClipboardCopy(t) if t == "abcd"));
    assert_eq!(ui.output_events().len(), 1);
    assert_eq!(field.shown(), "abcd");
    let secret = SingleTextInput::new(s("p\u{e4}ss")).password(true).icon(Vec2::new(10, 10));
    assert_eq!(secret.shown(), "\u{25cf}\u{25cf}\u{25cf}\u{25cf}");
    assert!(secret.has_icon());
    assert_eq!(ui.single_input(s("")).response.area.width(), 180);
}

#[test]
fn click_puts_the_cursor_into_the_words() {
    let area = Area::new(Vec2::new(100, 0), Vec2::new(300, 20));
    assert_eq!(pointer_at(&area, 116, 80, 16, 10), 0);
    assert_eq!(pointer_at(&area, 156, 80, 16, 10), 5);
    assert_eq!(pointer_at(&area, 160, 80, 16, 10), 5);
    assert_eq!(pointer_at(&area, 195, 80, 16, 10), 9);
    assert_eq!(pointer_at(&area, 196, 80, 16, 10), 10);
    assert_eq!(pointer_at(&area, 290, 80, 16, 10), 10);
    assert_eq!(pointer_at(&area, 50, 80, 16, 10), 0);
    assert_eq!(pointer_at(&area, 150, 0, 16, 0), 0);
    assert_eq!(pointer_at(&area, 300, 400, 16, 10), 10);
    assert_eq!(pointer_at(&area, 100, 400, 16, 10), 5);
    assert_eq!(pointer_at(&area, i64::MAX, i64::MAX, i64::MIN, usize::MAX), usize::MAX);
}
