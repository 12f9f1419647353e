use nablo::clock::{Duration, Instant};
use nablo::event::{Event, MouseButton, Touch, TouchPhase};
use nablo::layer::Layer;
use nablo::math::{Area, Vec2};
use nablo::response::Response;
use nablo::ui::Ui;

const MS: i64 = 1_000_000;

fn at(ms: i64) -> Instant {
    Instant { nanos: ms * MS }
}

fn begin(ui: &mut Ui, events: Vec<Event>, now: Instant) {
    for event in &events {
        ui.event_at(event, now);
    }
    ui.update_at(now);
}

fn declare(ui: &mut Ui, id: &str, area: Area, now: Instant) -> Response {
    ui.response_update_at(area, id.to_string(), true, true, now)
}

fn widget_a() -> Area {
    Area::new(Vec2::new(0, 0), Vec2::new(50, 20))
}

#[test]
fn hover_scenario_enter_stay_leave() {
    let mut ui = Ui::new_at(at(0));
    begin(&mut ui, vec![], at(0));
    declare(&mut ui, "A", widget_a(), at(0));
    ui.clear_at(at(0));

    begin(&mut ui, vec![Event::CursorMoved(Vec2::new(10, 10))], at(16));
    let first = declare(&mut ui, "A", widget_a(), at(16));
    ui.clear_at(at(16));
    assert!(first.is_hovering());
    assert_eq!(first.hovering_time_at(at(16)), Some(Duration { nanos: 0 }));

    let mut last = first;
    for frame in 2..=5 {
        let now = at(16 * frame);
        begin(&mut ui, vec![], now);
        last = declare(&mut ui, "A", widget_a(), now);
        ui.clear_at(now);
    }
    assert!(last.is_hovering());
    assert_eq!(last.hovering_time_at(at(80)), Some(Duration { nanos: 4 * 16 * MS as i128 }));
    assert!(!last.is_lost_hover());

    begin(&mut ui, vec![Event::CursorMoved(Vec2::new(60, 10))], at(96));
    let gone = declare(&mut ui, "A", widget_a(), at(96));
    ui.clear_at(at(96));
    assert!(!gone.is_hovering());
    assert!(gone.is_lost_hover());
    assert_eq!(gone.lost_hovering_time_at(at(96)), Some(Duration { nanos: 0 }));
    assert_eq!(gone.hovering_sustain_time(), Some(Duration { nanos: 80 * MS as i128 }));
}

#[test]
fn hover_start_stays_and_time_grows() {
    let mut ui = Ui::new_at(at(0));
    begin(&mut ui, vec![], at(0));
    declare(&mut ui, "A", widget_a(), at(0));
    ui.clear_at(at(0));
    let mut before: Option<Duration> = None;
    for frame in 1..=8 {
        let now = at(10 * frame);
        let events = if frame == 1 { vec![Event::CursorMoved(Vec2::new(1, 1))] } else { vec![] };
        begin(&mut ui, events, now);
        let res = declare(&mut ui, "A", widget_a(), now);
        ui.clear_at(now);
        assert!(res.is_hovering());
        assert_eq!(res.metadata.hover_info.unwrap().last_hover_time, Some(at(10)));
        let hovered = res.hovering_time_at(now).unwrap();
        if let Some(b) = before {
            assert!(hovered.nanos > b.nanos);
        }
        before = Some(hovered);
    }
}

#[test]
fn hover_by_touch() {
    let mut ui = Ui::new_at(at(0));
    begin(&mut ui, vec![], at(0));
    declare(&mut ui, "A", widget_a(), at(0));
    ui.clear_at(at(0));
    let touch = Touch::new(7, Vec2::new(5, 5), TouchPhase::Start);
    begin(&mut ui, vec![Event::TouchStart(touch)], at(10));
    let res = declare(&mut ui, "A", widget_a(), at(10));
    assert!(res.is_hovering());
    assert!(res.is_pressed());
    assert!(res.is_pressing());
}

#[test]
fn edge_of_area_is_half_open() {
    let mut ui = Ui::new_at(at(0));
    begin(&mut ui, vec![], at(0));
    declare(&mut ui, "A", widget_a(), at(0));
    ui.clear_at(at(0));
    begin(&mut ui, vec![Event::CursorMoved(Vec2::new(50, 10))], at(10));
    let res = declare(&mut ui, "A", widget_a(), at(10));
    ui.clear_at(at(10));
    assert!(!res.is_hovering());
    begin(&mut ui, vec![Event::CursorMoved(Vec2::new(0, 0))], at(20));
    let res = declare(&mut ui, "A", widget_a(), at(20));
    assert!(res.is_hovering());
}

fn click_once(ui: &mut Ui, ids: &[&str], press_at: Instant, release_at: Instant) -> Vec<Response> {
    begin(ui, vec![Event::CursorMoved(Vec2::new(10, 10)), Event::MouseClick(MouseButton::Left)], press_at);
    for id in ids {
        declare(ui, id, widget_a(), press_at);
    }
    ui.clear_at(press_at);
    begin(ui, vec![Event::MouseRelease(MouseButton::Left)], release_at);
    let mut back = vec![];
    for id in ids {
        back.push(declare(ui, id, widget_a(), release_at));
    }
    ui.clear_at(release_at);
    back
}

fn known(ui: &mut Ui, ids: &[&str]) {
    begin(ui, vec![], at(0));
    for id in ids {
        declare(ui, id, widget_a(), at(0));
    }
    ui.clear_at(at(0));
}

#[test]
fn click_is_press_then_release() {
    let mut ui = Ui::new_at(at(0));
    known(&mut ui, &["A"]);
    begin(&mut ui, vec![Event::CursorMoved(Vec2::new(10, 10)), Event::MouseClick(MouseButton::Left)], at(10));
    let pressed = declare(&mut ui, "A", widget_a(), at(10));
    ui.clear_at(at(10));
    assert!(pressed.is_pressed());
    assert!(pressed.is_pressing());
    assert!(!pressed.is_released());
    assert!(!pressed.is_clicked());
    assert_eq!(pressed.press_time_at(at(15)), Some(Duration { nanos: 5 * MS as i128 }));
    assert_eq!(pressed.release_time_at(at(15)), None);

    begin(&mut ui, vec![Event::MouseRelease(MouseButton::Left)], at(20));
    let released = declare(&mut ui, "A", widget_a(), at(20));
    ui.clear_at(at(20));
    assert!(released.is_released());
    assert!(released.is_clicked());
    assert_eq!(released.release_times_at(at(20)), vec![Duration { nanos: 0 }]);

    begin(&mut ui, vec![], at(30));
    let after = declare(&mut ui, "A", widget_a(), at(30));
    assert!(!after.is_pressing());
    assert!(!after.is_clicked());
}

#[test]
fn click_consumption_between_overlapping_widgets() {
    let mut ui = Ui::new_at(at(0));
    known(&mut ui, &["A", "B"]);
    let responses = click_once(&mut ui, &["A", "B"], at(10), at(20));
    let clicked: Vec<&str> = responses.iter().filter(|r| r.is_clicked()).map(|r| r.id.as_str()).collect();
    assert_eq!(clicked, vec!["B"]);
    assert_eq!(responses[0].press_times_at(at(20)).len(), 0);
    assert_eq!(responses[1].press_times_at(at(20)).len(), 1);
}

#[test]
fn multi_click_chain() {
    let mut ui = Ui::new_at(at(0));
    known(&mut ui, &["A"]);
    click_once(&mut ui, &["A"], at(0), at(0));
    let second = click_once(&mut ui, &["A"], at(90), at(100)).pop().unwrap();
    assert!(second.is_multi_clicked_at(2, at(100)));
    assert!(second.is_multi_clicked_at(1, at(100)));
    assert!(!second.is_multi_clicked_at(3, at(100)));
    let third = click_once(&mut ui, &["A"], at(590), at(600)).pop().unwrap();
    assert!(!third.is_multi_clicked_at(3, at(600)));
    assert!(!third.is_multi_clicked_at(2, at(600)));
    assert!(third.is_multi_clicked_at(1, at(600)));
    assert!(third.is_multi_clicked_at(1, at(850)));
    assert!(!third.is_multi_clicked_at(1, at(851)));
}

#[test]
fn multi_click_without_any_release() {
    let mut ui = Ui::new_at(at(0));
    let res = declare(&mut ui, "A", widget_a(), at(0));
    assert!(!res.is_multi_clicked_at(0, at(0)));
    assert!(!res.is_multi_clicked_at(1, at(0)));
    let plain = ui.response_update_at(widget_a(), "P".to_string(), false, false, at(0));
    assert!(!plain.is_multi_clicked_at(0, at(0)));
    assert!(!plain.is_pressed());
    assert!(!plain.is_draging());
    assert_eq!(plain.drag_delta(), Vec2::new(0, 0));
}

#[test]
fn click_history_is_capped() {
    let mut ui = Ui::new_at(at(0));
    known(&mut ui, &["A"]);
    let mut last = None;
    for k in 0..8 {
        last = click_once(&mut ui, &["A"], at(1000 * k), at(1000 * k + 10)).pop();
    }
    let last = last.unwrap();
    let presses = last.press_times_at(at(8000));
    let releases = last.release_times_at(at(8000));
    assert_eq!(presses.len(), 5);
    assert_eq!(releases.len(), 5);
    assert_eq!(presses[0], Duration { nanos: 5000 * MS as i128 });
    assert_eq!(presses[4], Duration { nanos: 1000 * MS as i128 });
    assert_eq!(releases[4], Duration { nanos: 990 * MS as i128 });
}

#[test]
fn drag_follows_the_cursor_beyond_the_area() {
    let mut ui = Ui::new_at(at(0));
    known(&mut ui, &["A"]);
    begin(&mut ui, vec![Event::CursorMoved(Vec2::new(10, 10)), Event::MouseClick(MouseButton::Left)], at(10));
    let start = declare(&mut ui, "A", widget_a(), at(10));
    ui.clear_at(at(10));
    assert!(start.is_draging());
    assert_eq!(start.drag_delta(), Vec2::new(0, 0));
    assert_eq!(start.drag(), Some(Vec2::new(0, 0)));
    assert_eq!(start.drag_time_at(at(12)), Some(Duration { nanos: 2 * MS as i128 }));

    begin(&mut ui, vec![Event::CursorMoved(Vec2::new(200, 110))], at(20));
    let moved = declare(&mut ui, "A", widget_a(), at(20));
    ui.clear_at(at(20));
    assert!(moved.is_draging());
    assert_eq!(moved.drag_delta(), Vec2::new(190, 100));
    assert_eq!(moved.drag(), Some(Vec2::new(190, 100)));

    begin(&mut ui, vec![Event::CursorMoved(Vec2::new(210, 100)), Event::MouseRelease(MouseButton::Left)], at(30));
    let dropped = declare(&mut ui, "A", widget_a(), at(30));
    ui.clear_at(at(30));
    assert!(!dropped.is_draging());
    assert_eq!(dropped.drag_delta(), Vec2::new(10, -10));
    assert_eq!(dropped.drag(), None);
    assert_eq!(dropped.drag_time_at(at(30)), None);
}

#[test]
fn drag_ends_when_the_cursor_leaves_the_surface() {
    let mut ui = Ui::new_at(at(0));
    known(&mut ui, &["A"]);
    begin(&mut ui, vec![Event::CursorMoved(Vec2::new(10, 10)), Event::MouseClick(MouseButton::Left)], at(10));
    declare(&mut ui, "A", widget_a(), at(10));
    ui.clear_at(at(10));
    begin(&mut ui, vec![Event::CursorLeft], at(20));
    let res = declare(&mut ui, "A", widget_a(), at(20));
    assert!(!res.is_draging());
    assert_eq!(res.pointer_position(), None);
    assert_eq!(res.drag_delta(), Vec2::new(0, 0));
}

#[test]
fn drag_is_claimed_by_one_widget_only() {
    let mut ui = Ui::new_at(at(0));
    known(&mut ui, &["A", "B"]);
    begin(&mut ui, vec![Event::CursorMoved(Vec2::new(10, 10)), Event::MouseClick(MouseButton::Left)], at(10));
    let a = declare(&mut ui, "A", widget_a(), at(10));
    let b = declare(&mut ui, "B", widget_a(), at(10));
    assert!(!a.is_draging());
    assert!(b.is_draging());
}

#[test]
fn topmost_layer_claims_first() {
    let mut ui = Ui::new_at(at(0));
    begin(&mut ui, vec![], at(0));
    ui.set_paint_layer(Layer::ToolTips);
    declare(&mut ui, "top", widget_a(), at(0));
    ui.set_paint_layer(Layer::Background);
    declare(&mut ui, "low", widget_a(), at(0));
    ui.clear_at(at(0));
    begin(&mut ui, vec![Event::CursorMoved(Vec2::new(10, 10)), Event::MouseClick(MouseButton::Left)], at(10));
    let top = declare(&mut ui, "top", widget_a(), at(10));
    let low = declare(&mut ui, "low", widget_a(), at(10));
    assert!(top.is_pressing());
    assert!(!low.is_pressing());
    assert!(top.is_pressed() && low.is_pressed());
}

#[test]
fn create_time_counts_from_first_declaration() {
    let mut ui = Ui::new_at(at(0));
    begin(&mut ui, vec![], at(5));
    declare(&mut ui, "A", widget_a(), at(5));
    ui.clear_at(at(5));
    begin(&mut ui, vec![], at(25));
    let res = declare(&mut ui, "A", widget_a(), at(25));
    assert_eq!(res.create_time_at(at(25)), Duration { nanos: 20 * MS as i128 });
}

#[test]
fn system_clock_is_read() {
    let now = Instant::now();
    assert!(now.nanos > 1_600_000_000 * 1_000_000_000);
    let later = Instant::now();
    assert!(later.since(now).nanos > -1_000_000_000);
    assert!(now.elapsed().nanos > -1_000_000_000);
}
