use nablo::identity::{
    chars_of, child_scope_string, container_id_string, container_key_string, count_marks,
    decimal_string, is_inner, split_pieces, string_of, widget_id_string,
};
use nablo::math::{Area, Vec2};
use nablo::ui::Ui;
use nablo::Instant;

fn s(text: &str) -> String {
    text.to_string()
}

#[test]
fn numbers_in_decimal() {
    assert_eq!(decimal_string(0), "0");
    assert_eq!(decimal_string(7), "7");
    assert_eq!(decimal_string(10), "10");
    assert_eq!(decimal_string(1234567890), "1234567890");
    assert_eq!(decimal_string(usize::MAX), usize::MAX.to_string());
}

#[test]
fn allocated_identities_count_up() {
    let mut ui = Ui::new_at(Instant { nanos: 0 });
    assert_eq!(ui.available_id(), "----0");
    assert_eq!(ui.available_id(), "----1");
    ui.clear_at(Instant { nanos: 1 });
    assert_eq!(ui.available_id(), "----0");
    assert_eq!(widget_id_string(&s("||panel"), 12), "||panel----12");
}

#[test]
fn container_identities() {
    assert_eq!(container_key_string(&s(""), &s("panel")), "||panel!!panel");
    assert_eq!(container_key_string(&s("||a"), &s("b")), "||a||b!!b");
    assert_eq!(child_scope_string(&s("||a"), &s("b")), "||a||b");
    assert_eq!(container_id_string(&s(""), &s("panel")), "||panel!!panel");
    assert_eq!(container_id_string(&s("||a"), &s("b")), "||a||b!!b");
    assert_eq!(container_id_string(&s("||a||b"), &s("b")), "||a||b!!b");
    assert_eq!(container_id_string(&s("||a||b||c"), &s("b")), "||a||b!!b");
    assert_eq!(container_id_string(&s("||a||b||c"), &s("a")), "||a!!a");
    assert_eq!(container_id_string(&s("a||b"), &s("a")), "a||b||a!!a");
}

#[test]
fn pieces_between_scope_marks() {
    assert_eq!(split_pieces(&chars_of("")), vec![s("")]);
    assert_eq!(split_pieces(&chars_of("abc")), vec![s("abc")]);
    assert_eq!(split_pieces(&chars_of("||a||b")), vec![s(""), s("a"), s("b")]);
    assert_eq!(split_pieces(&chars_of("a||||b")), vec![s("a"), s(""), s("b")]);
    assert_eq!(split_pieces(&chars_of("a|||b")), vec![s("a"), s("|b")]);
    assert_eq!(split_pieces(&chars_of("a||")), vec![s("a"), s("")]);
    assert_eq!(split_pieces(&chars_of("a|b")), vec![s("a|b")]);
    for text in ["", "x", "||", "|||", "||||", "a||b||c", "|a|b||"] {
        let expected: Vec<String> = text.split("||").map(|p| p.to_string()).collect();
        assert_eq!(split_pieces(&chars_of(text)), expected);
        assert_eq!(count_marks(&chars_of(text)) + 1, expected.len());
    }
}

#[test]
fn characters_are_counted_not_bytes() {
    assert_eq!(chars_of("h\u{e9}llo"), vec!['h', '\u{e9}', 'l', 'l', 'o']);
    assert_eq!(string_of(&chars_of("h\u{e9}llo"), 1, 3), "\u{e9}l");
    assert_eq!(string_of(&chars_of("abc"), 3, 3), "");
    assert_eq!(string_of(&chars_of("abc"), 1, 9), "bc");
    assert_eq!(string_of(&chars_of("abc"), 2, 1), "");
    assert_eq!(string_of(&chars_of("abc"), 7, 9), "");
    assert!(is_inner(&s("\u{e9}\u{e9}||x----0"), &s("\u{e9}\u{e9}||x")));
    assert!(!is_inner(&s("\u{e9}\u{e9}||x----0"), &s("\u{e9}e||x")));
}

#[test]
fn what_belongs_to_a_scope() {
    assert!(is_inner(&s("||a----0"), &s("||a")));
    assert!(is_inner(&s("||a||b!!b"), &s("||a")));
    assert!(is_inner(&s("||a||b----3"), &s("||a")));
    assert!(is_inner(&s("||a!!a"), &s("||a")));
    assert!(is_inner(&s("||a"), &s("||a")));
    assert!(!is_inner(&s("||a||b||c----0"), &s("||a")));
    assert!(is_inner(&s("a||b||c----0"), &s("a||b")));
    assert!(!is_inner(&s("||b----0"), &s("||a")));
    assert!(!is_inner(&s("||"), &s("||a")));
    assert!(is_inner(&s("----0"), &s("")));
    assert!(!is_inner(&s("||a||b----0"), &s("")));
}

#[test]
fn equal_ids_in_different_containers_stay_apart() {
    let now = Instant { nanos: 0 };
    let mut ui = Ui::new_at(now);
    let area = Area::new(Vec2::new(0, 0), Vec2::new(100, 100));
    let mut left = ui.sub_ui_begin(area, &s("left"), nablo::Layer::Middle, Vec2::zero());
    let in_left = left.available_id();
    ui.sub_ui_end(left);
    let mut right = ui.sub_ui_begin(area, &s("right"), nablo::Layer::Middle, Vec2::zero());
    let in_right = right.available_id();
    ui.sub_ui_end(right);
    assert_eq!(in_left, "||left----0");
    assert_eq!(in_right, "||right----0");
    assert_eq!(ui.container_id(&s("left")), "||left!!left");
    assert_eq!(ui.container_key(&s("left")), "||left!!left");
}
