use nablo::container::collapsing::Collapsing;
use nablo::container::state::{CardTemp, ContainerState};
use nablo::event::Event;
use nablo::math::{Area, Vec2};
use nablo::memory::Memory;
use nablo::response::Metadata;
use nablo::ui::Ui;
use nablo::widgets::Empty;
use nablo::{Instant, Layer, Response};

fn at(ms: i64) -> Instant {
    Instant { nanos: ms * 1_000_000 }
}

fn s(text: &str) -> String {
    text.to_string()
}

fn room() -> Area {
    Area::new(Vec2::new(0, 0), Vec2::new(10, 10))
}

fn declare(ui: &mut Ui, id: &str, now: Instant) -> Response {
    ui.response_update_at(room(), s(id), true, false, now)
}

fn fresh(area: Area, now: Instant) -> Response {
    Response { area, id: String::new(), metadata: Metadata::new_at(Layer::Middle, true, true, now) }
}

#[test]
fn identity_lifecycle() {
    let mut ui = Ui::new_at(at(0));
    declare(&mut ui, "kept", at(0));
    declare(&mut ui, "dropped", at(0));
    ui.memory_save(&s("kept"), s("{\"n\":1}"));
    ui.memory_save(&s("dropped"), s("x"));
    assert!(ui.clear_at(at(1)).is_empty());
    assert!(ui.is_known(&s("kept")));
    assert!(ui.is_known(&s("dropped")));

    ui.update_at(at(2));
    let again = declare(&mut ui, "kept", at(2));
    assert_eq!(again.memory_read(), Some(s("{\"n\":1}")));
    assert_eq!(ui.memory_read(&s("kept")), Some(s("{\"n\":1}")));
    assert_eq!(ui.memory_read(&s("dropped")), Some(s("x")));
    ui.clear_at(at(3));
    assert!(ui.is_known(&s("kept")));
    assert!(!ui.is_known(&s("dropped")));
    assert_eq!(ui.memory_read(&s("dropped")), None);
    assert_eq!(ui.memory_read(&s("kept")), Some(s("{\"n\":1}")));

    ui.update_at(at(4));
    ui.clear_at(at(5));
    assert!(!ui.is_known(&s("kept")));
}

#[test]
fn first_declaration_is_not_drawn() {
    let mut ui = Ui::new_at(at(0));
    let first = ui.add_widget(s("w"), fresh(room(), at(0)));
    assert!(!first.need_draw);
    assert_eq!(first.response.id, "w");
    ui.clear_at(at(1));
    let second = ui.add_widget(s("w"), fresh(Area::new(Vec2::new(5, 5), Vec2::new(9, 9)), at(7)));
    assert!(second.need_draw);
    assert_eq!(second.response.area, Area::new(Vec2::new(5, 5), Vec2::new(9, 9)));
    assert_eq!(second.response.create_time_at(at(7)), nablo::Duration { nanos: 7_000_000 });
}

#[test]
fn area_change_is_seen_by_the_next_update() {
    let mut ui = Ui::new_at(at(0));
    ui.add_widget(s("w"), fresh(room(), at(0)));
    ui.clear_at(at(0));
    ui.event_at(&Event::CursorMoved(Vec2::new(105, 105)), at(1));
    ui.update_at(at(1));
    let moved = Area::new(Vec2::new(100, 100), Vec2::new(110, 110));
    let res = ui.add_widget(s("w"), fresh(moved, at(1))).response;
    assert!(!res.is_hovering());
    assert_eq!(res.area, moved);
    ui.clear_at(at(1));
    ui.update_at(at(2));
    let res = ui.add_widget(s("w"), fresh(moved, at(2))).response;
    assert!(res.is_hovering());
}

#[test]
fn only_the_visible_part_takes_pointers() {
    let mut ui = Ui::new_at(at(0));
    let big = Area::new(Vec2::new(600, 400), Vec2::new(700, 500));
    ui.add_widget(s("w"), fresh(big, at(0)));
    ui.clear_at(at(0));
    ui.event_at(&Event::CursorMoved(Vec2::new(650, 450)), at(1));
    ui.update_at(at(1));
    assert!(!ui.add_widget(s("w"), fresh(big, at(1))).response.is_hovering());
    ui.clear_at(at(1));
    ui.event_at(&Event::CursorMoved(Vec2::new(620, 450)), at(2));
    ui.update_at(at(2));
    assert!(ui.add_widget(s("w"), fresh(big, at(2))).response.is_hovering());
}

#[test]
fn declaring_twice_is_reported_and_lived_with() {
    let mut ui = Ui::new_at(at(0));
    declare(&mut ui, "a", at(0));
    declare(&mut ui, "b", at(0));
    declare(&mut ui, "a", at(0));
    declare(&mut ui, "c", at(0));
    declare(&mut ui, "c", at(0));
    assert_eq!(ui.clear_at(at(1)), vec![s("a"), s("c")]);
    assert!(ui.is_known(&s("a")) && ui.is_known(&s("b")) && ui.is_known(&s("c")));
    ui.update_at(at(2));
    declare(&mut ui, "a", at(2));
    assert!(ui.clear_at(at(3)).is_empty());
}

#[test]
fn memory_of_unknown_identity() {
    let mut ui = Ui::new_at(at(0));
    ui.memory_save(&s("nobody"), s("text"));
    assert_eq!(ui.memory_read(&s("nobody")), None);
    assert!(!ui.is_known(&s("nobody")));
    let res = declare(&mut ui, "somebody", at(0));
    assert_eq!(res.memory_read(), None);
    assert_eq!(ui.memory_read(&s("somebody")), Some(s("")));
    ui.container_save(&s("nobody"), ContainerState::Card(CardTemp::default()));
    assert!(matches!(ui.container_read(&s("nobody")), ContainerState::Empty));
    assert!(matches!(ui.container_read(&s("somebody")), ContainerState::Empty));
    ui.container_save(&s("somebody"), ContainerState::Card(CardTemp::default()));
    assert!(matches!(ui.container_read(&s("somebody")), ContainerState::Card(_)));
}

#[test]
fn store_finds_the_first_entry_for_an_id() {
    let mut memory = Memory::new();
    assert_eq!(memory.len(), 0);
    assert_eq!(memory.find(&s("a")), 0);
    let visible = Area::new(Vec2::new(0, 0), Vec2::new(5, 5));
    let (_, known) = memory.declare(&s("a"), fresh(room(), at(0)), &visible);
    assert!(!known);
    let (_, known) = memory.declare(&s("b"), fresh(room(), at(0)), &visible);
    assert!(!known);
    let (back, known) = memory.declare(&s("a"), fresh(Area::zero(), at(9)), &visible);
    assert!(known);
    assert_eq!(back.area, Area::zero());
    assert_eq!(memory.len(), 2);
    assert_eq!(memory.find(&s("a")), 0);
    assert_eq!(memory.find(&s("b")), 1);
    assert_eq!(memory.find(&s("c")), 2);
    assert!(memory.contains_id(&s("b")));
    assert!(!memory.contains_id(&s("c")));
    assert_eq!(memory.entries[0].access_time, 2);
    assert_eq!(memory.entries[1].access_time, 1);
    assert_eq!(memory.entries[1].update_area, visible);
    assert_eq!(memory.entries[0].update_area, Area::zero());
    assert_eq!(memory.entries[0].response.metadata.layer, Layer::Middle);
    assert_eq!(memory.evict(), vec![s("a")]);
    assert_eq!(memory.entries[0].access_time, 0);
    assert!(memory.evict().is_empty());
    assert_eq!(memory.len(), 0);
}

#[test]
fn container_skip_leaves_nothing_behind() {
    let mut ui = Ui::new_at(at(0));
    let mut section = Collapsing::new(s("more")).default_open(true);
    let shown = ui.show(&mut section, |ui, _| ui.add(Empty::new(Vec2::new(10, 10))).response.id);
    assert_eq!(shown.return_value, Some(s("||more----0")));
    assert_eq!(shown.response.id, "||more!!more");
    ui.clear_at(at(1));
    assert!(ui.is_known(&s("||more----0")));
    assert!(ui.is_known(&s("||more!!more")));

    ui.update_at(at(2));
    let mut section = Collapsing::new(s("more")).default_open(true);
    section.open(false, &mut ui);
    let hidden = ui.show(&mut section, |ui, _| ui.add(Empty::new(Vec2::new(10, 10))).response.id);
    assert_eq!(hidden.return_value, None);
    assert!(hidden.inner_responses.is_empty());
    ui.clear_at(at(3));
    assert!(!ui.is_known(&s("||more----0")));
    assert!(ui.is_known(&s("||more!!more")));
}

#[test]
fn section_toggled_open_and_shut_again() {
    let mut ui = Ui::new_at(at(0));
    let mut section = Collapsing::new(s("more"));
    assert_eq!(ui.show(&mut section, |_, _| 1).return_value, None);
    ui.clear_at(at(1));
    section.open(true, &mut ui);
    ui.update_at(at(2));
    let open = ui.show(&mut section, |ui, _| ui.add(Empty::new(Vec2::new(10, 10))).response.id);
    assert_eq!(open.return_value, Some(s("||more----0")));
    section.open(false, &mut ui);
    ui.clear_at(at(3));
    assert!(ui.is_known(&s("||more----0")));
    ui.update_at(at(4));
    assert_eq!(ui.show(&mut section, |_, _| 1).return_value, None);
    ui.clear_at(at(5));
    assert!(!ui.is_known(&s("||more----0")));
}
