use nablo::animation::PROGRESS_ONE;
use nablo::container::card::{content_area, Card, ScrollBar};
use nablo::container::collapsing::Collapsing;
use nablo::container::message_provider::{read_messages, MessageProvider};
use nablo::container::state::{CardTemp, CollapsingTemp, ContainerState, Message, MessageInner, MessageTemp};
use nablo::animation::FadePhase;
use nablo::container::tooltip_provider::{center, half, middle, TooltipProvider};
use nablo::container::{Align, Container};
use nablo::event::{Event, MouseButton};
use nablo::math::{Area, Vec2};
use nablo::ui::Ui;
use nablo::widgets::{Empty, Status};
use nablo::{Duration, Instant, Layer};

const MS: i64 = 1_000_000;

fn at(ms: i64) -> Instant {
    Instant { nanos: ms * MS }
}

fn s(text: &str) -> String {
    text.to_string()
}

fn card_state(ui: &Ui, id: &str) -> CardTemp {
    match ui.container_read(&s(id)) {
        ContainerState::Card(t) => t,
        _ => panic!("no card state under {}", id),
    }
}

#[test]
fn scroll_target_is_held_within_the_content() {
    let room = Area::new(Vec2::new(0, 0), Vec2::new(100, 100));
    let mut temp = CardTemp::default();
    temp.maxium = Vec2::new(300, 50);
    temp.change_at(Vec2::new(-1000, -10), &room, None, at(5));
    assert_eq!(temp.target, Vec2::new(-232, 0));
    assert_eq!(temp.from, Vec2::new(0, 0));
    assert_eq!(temp.change_time, Some(at(5)));
    temp.change_at(Vec2::new(40, 3), &room, Some(500_000), at(9));
    assert_eq!(temp.target, Vec2::new(0, 0));
    assert_eq!(temp.from, Vec2::new(-116, 0));
    assert_eq!(temp.change_time, Some(at(9)));
    temp.maxium = Vec2::new(100, 100);
    temp.change_at(Vec2::new(-10, -40), &room, None, at(10));
    assert_eq!(temp.target, Vec2::new(-10, -32));
}

#[test]
fn scroll_offset_moves_from_start_to_target() {
    let mut temp = CardTemp::default();
    temp.from = Vec2::new(0, 0);
    temp.target = Vec2::new(0, -100);
    assert_eq!(temp.animation_time_at(at(7)), Duration { nanos: 0 });
    assert_eq!(temp.current_at(Some(0), at(7)), Vec2::new(0, 0));
    assert_eq!(temp.change_time, Some(at(7)));
    assert_eq!(temp.animation_time_at(at(57)), Duration { nanos: 50 * MS as i128 });
    assert_eq!(temp.current_at(Some(250_000), at(57)), Vec2::new(0, -25));
    assert_eq!(temp.change_time, Some(at(7)));
    assert_eq!(temp.current_at(Some(PROGRESS_ONE), at(257)), Vec2::new(0, -100));
    assert_eq!(temp.from, Vec2::new(0, 0));
    assert_eq!(temp.current_at(None, at(300)), Vec2::new(0, -100));
    assert_eq!(temp.from, Vec2::new(0, -100));
    assert_eq!(temp.current_at(Some(3), at(400)), Vec2::new(0, -100));
}

#[test]
fn card_takes_the_room_it_is_given() {
    let mut ui = Ui::new_at(at(0));
    let card = Card::new(s("c")).set_size(Vec2::new(200, 100)).set_position(Vec2::new(30, 40));
    assert_eq!(card.get_area(&mut ui), Area::new(Vec2::new(30, 40), Vec2::new(230, 140)));
    let card = Card::new(s("c"));
    assert_eq!(card.get_area(&mut ui), Area::new(Vec2::new(16, 16), Vec2::new(624, 464)));
    let card = Card::new(s("c")).set_width(10).set_height(20);
    assert_eq!(card.get_area(&mut ui), Area::new(Vec2::new(16, 16), Vec2::new(26, 36)));
    assert!(card.is_clickable(&mut ui));
    assert!(!card.is_dragable(&mut ui));
    assert!(Card::new(s("c")).set_scrollable_y(true).is_dragable(&mut ui));
    assert!(Card::new(s("c")).set_scrollable_x(true).is_dragable(&mut ui));
    assert!(Card::new(s("c")).set_resizable(true).is_dragable(&mut ui));
    assert!(Card::new(s("c")).set_dragable(true).is_dragable(&mut ui));
    assert_eq!(card.layer(&mut ui), Layer::Bottom);
    assert_eq!(card.get_id(&mut ui), "c");
}

#[test]
fn card_scrolls_its_content_by_the_wheel() {
    let mut ui = Ui::new_at(at(0));
    let content = |ui: &mut Ui, _: &mut Card| {
        ui.add(Empty::new(Vec2::new(50, 300)));
        ui.add(Empty::new(Vec2::new(50, 300)));
        ui.available_position()
    };
    let mut card = Card::new(s("list")).set_size(Vec2::new(100, 100)).set_position(Vec2::new(0, 0)).set_scrollable([false, true]);
    let first = ui.show(&mut card, content);
    assert_eq!(first.return_value, Some(Vec2::new(16, 16 + 316 + 316)));
    assert_eq!(first.response.id, "||list!!list");
    assert_eq!(first.inner_responses.len(), 3);
    ui.clear_at(at(1));
    assert_eq!(card_state(&ui, "||list!!list").maxium, Vec2::new(0, 616));
    assert_eq!(card.scroll(&ui), Vec2::new(0, 0));

    ui.event_at(&Event::CursorMoved(Vec2::new(50, 50)), at(2));
    ui.event_at(&Event::Scroll(Vec2::new(0, -48)), at(2));
    ui.update_at(at(2));
    ui.show(&mut card, content);
    ui.clear_at(at(3));
    let temp = card_state(&ui, "||list!!list");
    assert_eq!(temp.target, Vec2::new(0, -48));
    assert_eq!(temp.from, Vec2::new(0, 0));
    assert!(temp.is_scrolling);

    ui.update_at(at(4));
    let mut card = card.set_progress(Some(500_000));
    assert_eq!(card.scroll(&ui), Vec2::new(0, -24));
    assert_eq!(card.scroll_x(&ui), 0);
    assert_eq!(card.scroll_y(&ui), -24);
    let moved = ui.show(&mut card, content);
    assert_eq!(moved.return_value, Some(Vec2::new(16, 16 + 316 + 316 - 24)));
    ui.clear_at(at(5));
    assert!(!card_state(&ui, "||list!!list").is_scrolling);

    ui.update_at(at(6));
    let mut card = card.set_progress(None);
    card.scroll_to_y_at(1000, &mut ui, at(6));
    assert_eq!(card_state(&ui, "||list!!list").target, Vec2::new(0, -548));
    card.scroll_delta_to_y_at(-32, &mut ui, at(6));
    assert_eq!(card_state(&ui, "||list!!list").target, Vec2::new(0, -516));
    card.scroll_to_x_at(10, &mut ui, at(6));
    card.scroll_delta_to_x_at(10, &mut ui, at(6));
    assert_eq!(card_state(&ui, "||list!!list").target, Vec2::new(0, -516));
    card.scroll_to_y(0, &mut ui);
    assert_eq!(card_state(&ui, "||list!!list").target, Vec2::new(0, 0));
    card.scroll_delta_to(Vec2::new(5, 5), &mut ui);
    assert_eq!(card_state(&ui, "||list!!list").target, Vec2::new(0, -5));
    card.scroll_to(Vec2::new(5, 7), &mut ui);
    assert_eq!(card_state(&ui, "||list!!list").target, Vec2::new(0, -7));
}

#[test]
fn window_is_dragged_by_its_edge() {
    let mut ui = Ui::new_at(at(0));
    let mut card = Card::new(s("win")).set_size(Vec2::new(100, 100)).set_position(Vec2::new(10, 10)).set_dragable(true);
    let first = ui.show(&mut card, |_, _| ());
    assert_eq!(first.response.area, Area::new(Vec2::new(10, 10), Vec2::new(110, 110)));
    ui.clear_at(at(1));
    ui.event_at(&Event::CursorMoved(Vec2::new(50, 12)), at(2));
    ui.event_at(&Event::MouseClick(MouseButton::Left), at(2));
    ui.update_at(at(2));
    ui.show(&mut card, |_, _| ());
    ui.clear_at(at(3));
    assert!(card_state(&ui, "||win!!win").is_draging);
    ui.event_at(&Event::CursorMoved(Vec2::new(80, 52)), at(4));
    ui.update_at(at(4));
    ui.show(&mut card, |_, _| ());
    ui.clear_at(at(5));
    assert_eq!(card_state(&ui, "||win!!win").position, Some(Vec2::new(40, 50)));
    ui.event_at(&Event::MouseRelease(MouseButton::Left), at(6));
    ui.update_at(at(6));
    let moved = ui.show(&mut card, |_, _| ());
    assert_eq!(moved.response.area, Area::new(Vec2::new(40, 50), Vec2::new(140, 150)));
    ui.clear_at(at(7));
    assert!(!card_state(&ui, "||win!!win").is_draging);
}

#[test]
fn card_is_resized_by_its_corner_but_not_below_its_least_size() {
    let mut ui = Ui::new_at(at(0));
    let mut card = Card::new(s("r")).set_size(Vec2::new(100, 100)).set_position(Vec2::new(0, 0)).set_resizable(true);
    ui.show(&mut card, |_, _| ());
    ui.clear_at(at(1));
    ui.event_at(&Event::CursorMoved(Vec2::new(95, 95)), at(2));
    ui.event_at(&Event::MouseClick(MouseButton::Left), at(2));
    ui.update_at(at(2));
    ui.show(&mut card, |_, _| ());
    ui.clear_at(at(3));
    assert!(card_state(&ui, "||r!!r").is_resizing);
    ui.event_at(&Event::CursorMoved(Vec2::new(125, 45)), at(4));
    ui.update_at(at(4));
    ui.show(&mut card, |_, _| ());
    ui.clear_at(at(5));
    assert_eq!(card_state(&ui, "||r!!r").size, Some(Vec2::new(130, 100)));
    ui.update_at(at(6));
    assert_eq!(card.get_area(&mut ui), Area::new(Vec2::new(0, 0), Vec2::new(130, 100)));
}

#[test]
fn content_leaves_out_the_container_itself() {
    let mut ui = Ui::new_at(at(0));
    let own = Area::new(Vec2::new(0, 0), Vec2::new(100, 100));
    let a = ui.response_update_at(own, s("own"), false, false, at(0));
    let b = ui.response_update_at(Area::new(Vec2::new(10, 10), Vec2::new(20, 20)), s("b"), false, false, at(0));
    let c = ui.response_update_at(Area::new(Vec2::new(15, 30), Vec2::new(50, 40)), s("c"), false, false, at(0));
    assert_eq!(content_area(&vec![a, b, c], &own), Area::new(Vec2::new(10, 10), Vec2::new(50, 40)));
    assert_eq!(content_area(&vec![], &own), Area::zero());
}

#[test]
fn section_opens_on_a_click_on_its_header() {
    let mut ui = Ui::new_at(at(0));
    let mut section = Collapsing::new(s("more")).text_size(Vec2::new(40, 12));
    assert_eq!(section.area(&mut ui), Area::new(Vec2::new(16, 16), Vec2::new(88, 48)));
    let shut = ui.show(&mut section, |ui, _| ui.add(Empty::new(Vec2::new(30, 50))).response.area);
    assert_eq!(shut.return_value, None);
    ui.clear_at(at(1));

    ui.event_at(&Event::CursorMoved(Vec2::new(20, 20)), at(2));
    ui.event_at(&Event::MouseClick(MouseButton::Left), at(2));
    ui.update_at(at(2));
    assert_eq!(ui.show(&mut section, |_, _| ()).return_value, None);
    ui.clear_at(at(3));
    ui.event_at(&Event::MouseRelease(MouseButton::Left), at(4));
    ui.update_at(at(4));
    let open = ui.show(&mut section, |ui, _| ui.add(Empty::new(Vec2::new(30, 50))).response.area);
    assert_eq!(open.return_value, Some(Area::new(Vec2::new(32, 48), Vec2::new(62, 98))));
    ui.clear_at(at(5));
    ui.update_at(at(6));
    assert_eq!(section.area(&mut ui), Area::new(Vec2::new(16, 16), Vec2::new(16 + 56 + 30 + 16, 16 + 16 + 50 + 16)));
    match ui.container_read(&s("||more!!more")) {
        ContainerState::Collapsing(t) => {
            assert!(t.is_open);
            assert_eq!(t.area, Vec2::new(30, 50));
            assert!(t.latest_change.is_some());
            assert_eq!(t.earlier_change, None);
        },
        _ => panic!("no section state"),
    }
    assert!(section.is_clickable(&mut ui));
    assert!(!section.is_dragable(&mut ui));
}

#[test]
fn interrupted_turn_of_the_arrow_is_made_up_for() {
    let mut temp = CollapsingTemp::default();
    assert_eq!(temp.turn_time_at(at(0)), None);
    temp.toggle_at(at(100));
    assert!(temp.is_open);
    assert_eq!(temp.turn_time_at(at(130)), Some(Duration { nanos: 30 * MS as i128 }));
    temp.toggle_at(at(160));
    assert!(!temp.is_open);
    assert_eq!((temp.earlier_change, temp.latest_change), (Some(at(100)), Some(at(160))));
    assert_eq!(temp.turn_time_at(at(170)), Some(Duration { nanos: 70 * MS as i128 }));
    temp.toggle_at(at(1000));
    assert_eq!((temp.earlier_change, temp.latest_change), (Some(at(160)), Some(at(1000))));
    assert_eq!(temp.turn_time_at(at(1010)), Some(Duration { nanos: 10 * MS as i128 }));
    temp.toggle_at(at(1150));
    assert_eq!(temp.turn_time_at(at(1150)), Some(Duration { nanos: 150 * MS as i128 }));
}

#[test]
fn section_with_an_icon() {
    let mut ui = Ui::new_at(at(0));
    let section = Collapsing::new(s("x")).icon(Vec2::new(20, 30)).text_size(Vec2::new(40, 12)).default_open(true);
    assert_eq!(section.area(&mut ui), Area::new(Vec2::new(16, 16), Vec2::new(16 + 60 + 16, 16 + 30 + 16)));
    assert_eq!(section.get_id(&mut ui), "x");
    assert_eq!(section.layer(&mut ui), Layer::Middle);
}

#[test]
fn halves_and_middles() {
    assert_eq!(half(7), 3);
    assert_eq!(half(-7), -3);
    assert_eq!(half(i64::MIN), i64::MIN / 2);
    assert_eq!(middle(0, 10), 5);
    assert_eq!(middle(10, 0), 5);
    assert_eq!(middle(-3, 4), 0);
    assert_eq!(middle(i64::MIN, i64::MAX), -1);
    assert_eq!(center(&Area::new(Vec2::new(0, 0), Vec2::new(50, 20))), Vec2::new(25, 10));
}

#[test]
fn tip_comes_while_resting_and_goes_after_leaving() {
    let mut ui = Ui::new_at(at(0));
    let target = Area::new(Vec2::new(0, 0), Vec2::new(50, 20));
    let host = TooltipProvider::new(s("tips"), s("a tip")).hover_time(Duration::milliseconds(500));
    ui.response_update_at(target, s("w"), false, false, at(0));
    ui.clear_at(at(0));
    ui.update_at(at(10));
    let res = ui.response_update_at(target, s("w"), false, false, at(10));
    assert_eq!(host.phase_at(&res, at(10)), FadePhase::Hidden);
    ui.clear_at(at(10));

    ui.event_at(&Event::CursorMoved(Vec2::new(5, 5)), at(1000));
    ui.update_at(at(1000));
    let res = ui.response_update_at(target, s("w"), false, false, at(1000));
    ui.clear_at(at(1000));
    assert_eq!(host.phase_at(&res, at(1000)), FadePhase::Rising(Duration { nanos: -500 * MS as i128 }));
    assert_eq!(host.phase_at(&res, at(1600)), FadePhase::Rising(Duration { nanos: 100 * MS as i128 }));

    ui.event_at(&Event::CursorLeft, at(3000));
    ui.update_at(at(3000));
    let res = ui.response_update_at(target, s("w"), false, false, at(3000));
    ui.clear_at(at(3000));
    assert_eq!(host.phase_at(&res, at(3100)), FadePhase::Falling(Duration { nanos: 100 * MS as i128 }));

    ui.event_at(&Event::CursorMoved(Vec2::new(5, 5)), at(5000));
    ui.update_at(at(5000));
    ui.response_update_at(target, s("w"), false, false, at(5000));
    ui.clear_at(at(5000));
    ui.event_at(&Event::CursorLeft, at(5600));
    ui.update_at(at(5600));
    let res = ui.response_update_at(target, s("w"), false, false, at(5600));
    assert_eq!(host.phase_at(&res, at(5650)), FadePhase::Sinking(Duration { nanos: 50 * MS as i128 }));

    assert_eq!(
        res.hover_phase_at(Duration::zero(), Duration::milliseconds(250), at(5650)),
        FadePhase::Falling(Duration { nanos: 50 * MS as i128 })
    );

    let never = ui.response_update_at(target, s("fresh"), false, false, at(5600));
    assert_eq!(host.phase_at(&never, at(5600)), FadePhase::Hidden);
}

#[test]
fn tip_goes_where_it_is_aligned() {
    let target = Area::new(Vec2::new(100, 100), Vec2::new(200, 140));
    let host = TooltipProvider::new(s("tips"), s("a tip")).text_size(Vec2::new(60, 10));
    assert_eq!(host.tip_size(16), Vec2::new(92, 26));
    assert_eq!(host.tip_position(&target, 16, 0), Vec2::new(150 - 46, 120 - 13));
    assert_eq!(host.tip_position(&target, 16, PROGRESS_ONE), Vec2::new(150 - 46, 120 - 13));
    let host = host.align([Align::Right, Align::Left]).padding(4);
    assert_eq!(host.tip_size(16), Vec2::new(68, 14));
    assert_eq!(host.tip_position(&target, 16, PROGRESS_ONE), Vec2::new(208 - 34, 100 - 8 - 14));
    assert_eq!(host.tip_position(&target, 16, 0), Vec2::new(150 - 34, 120 - 7));
    assert_eq!(host.tip_position(&target, 16, 500_000), Vec2::new(179 - 34, 113 - 17));
    let host = host.align([Align::Left, Align::Right]).status(Status::Info).tip(s("other"));
    assert_eq!(host.tip_position(&target, 16, PROGRESS_ONE), Vec2::new(92 - 34, 148));
}

#[test]
fn tooltip_host_remembers_the_room_of_its_content() {
    let mut ui = Ui::new_at(at(0));
    let mut host = TooltipProvider::new(s("tips"), s("a tip"));
    assert_eq!(host.area(&mut ui), Area::new(Vec2::new(16, 16), Vec2::new(40, 40)));
    let shown = ui.show(&mut host, |ui, _| ui.add(Empty::new(Vec2::new(30, 10))).response.area);
    assert_eq!(shown.return_value, Some(Area::new(Vec2::new(32, 32), Vec2::new(62, 42))));
    ui.clear_at(at(1));
    ui.update_at(at(2));
    assert_eq!(host.area(&mut ui), Area::new(Vec2::new(16, 16), Vec2::new(16 + 30 + 24, 16 + 10 + 24)));
    assert!(!host.is_clickable(&mut ui));
    assert!(!host.is_dragable(&mut ui));
    assert_eq!(host.get_id(&mut ui), "tips");
}

#[test]
fn messages_come_stay_and_go() {
    let mut ui = Ui::new_at(at(0));
    let mut host = MessageProvider::new(s("notes"));
    ui.show(&mut host, |_, _| ());
    host.message_at(Message::new(s("saved")), &mut ui, at(0));
    host.message_at(Message::new(s("saved")), &mut ui, at(50));
    host.message_at(Message::new(s("sent")).status(Status::Success), &mut ui, at(100));
    let temp = read_messages(&ui, &s("||notes!!notes"));
    assert_eq!(temp.messages.len(), 2);
    assert_eq!(temp.messages[0].create_time, at(0));
    assert_eq!(temp.messages[1].message.status, Status::Success);
    assert_eq!(temp.messages[0].message.sustain_time, Some(Duration::seconds(3)));
    assert_eq!(temp.display_order_at(at(200)), vec![(100 * MS as i128, 1), (200 * MS as i128, 0)]);

    host.end_at(&mut ui, &s("||notes!!notes"), at(3000));
    let temp = read_messages(&ui, &s("||notes!!notes"));
    assert_eq!(temp.messages.len(), 2);
    assert!(!temp.messages[0].message.should_delete);

    host.end_at(&mut ui, &s("||notes!!notes"), at(3001));
    let temp = read_messages(&ui, &s("||notes!!notes"));
    assert!(temp.messages[0].message.should_delete);
    assert_eq!(temp.messages[0].delete_time, Some(at(3001)));
    assert!(!temp.messages[1].message.should_delete);
    assert_eq!(temp.messages[0].fade_time_at(at(3101)), (Duration { nanos: 100 * MS as i128 }, true));
    assert_eq!(temp.messages[1].fade_time_at(at(3101)), (Duration { nanos: 3001 * MS as i128 }, false));

    host.end_at(&mut ui, &s("||notes!!notes"), at(3251));
    assert_eq!(read_messages(&ui, &s("||notes!!notes")).messages.len(), 2);
    host.end_at(&mut ui, &s("||notes!!notes"), at(3252));
    let temp = read_messages(&ui, &s("||notes!!notes"));
    assert_eq!(temp.messages.len(), 1);
    assert_eq!(temp.messages[0].message.id, "sent");
    assert!(temp.messages[0].message.should_delete);
}

#[test]
fn message_that_stays_until_closed() {
    let mut temp = MessageTemp { messages: vec![] };
    let mut note = Message::new(s("stay"));
    note.sustain_time = None;
    temp.push_at(note, at(0));
    temp.step_all_at(at(1_000_000));
    assert_eq!(temp.messages.len(), 1);
    assert!(!temp.messages[0].message.should_delete);
    temp.messages[0].message.should_delete = true;
    temp.step_all_at(at(1_000_100));
    assert_eq!(temp.messages[0].delete_time, Some(at(1_000_100)));
    assert!(!temp.messages[0].is_gone_at(at(1_000_350)));
    assert!(temp.messages[0].is_gone_at(at(1_000_351)));
    temp.step_all_at(at(1_000_351));
    assert!(temp.messages.is_empty());
}

#[test]
fn messages_are_ordered_by_age() {
    let mut temp = MessageTemp { messages: vec![] };
    for (k, t) in [500, 100, 300, 100, 900].iter().enumerate() {
        temp.messages.push(MessageInner { message: Message::new(k.to_string()), create_time: at(*t), delete_time: None });
    }
    let order = temp.display_order_at(at(1000));
    assert_eq!(
        order,
        vec![(100 * MS as i128, 4), (500 * MS as i128, 0), (700 * MS as i128, 2), (900 * MS as i128, 1), (900 * MS as i128, 3)]
    );
    assert!(MessageTemp { messages: vec![] }.display_order_at(at(0)).is_empty());
    let made: MessageInner = (Message::new(s("m")), at(3)).into();
    assert_eq!((made.create_time, made.delete_time), (at(3), None));
    assert_eq!(MessageInner::new(Message::new(s("m")), at(4)).create_time, at(4));
}

#[test]
fn message_is_changed_in_place() {
    let mut ui = Ui::new_at(at(0));
    let mut host = MessageProvider::new(s("notes"));
    ui.show(&mut host, |_, _| ());
    host.message(Message::new(s("a")), &mut ui);
    host.message_at(Message::new(s("b")), &mut ui, at(1));
    host.message_change(&s("b"), |m: &mut Message| m.should_delete = true, &mut ui);
    host.message_change(&s("zzz"), |m: &mut Message| m.should_delete = true, &mut ui);
    let temp = read_messages(&ui, &s("||notes!!notes"));
    assert!(!temp.messages[0].message.should_delete);
    assert!(temp.messages[1].message.should_delete);
    let mut other = Message::new(s("a"));
    other.text = s("changed");
    host.message_set(&s("a"), other, &mut ui);
    let temp = read_messages(&ui, &s("||notes!!notes"));
    assert_eq!(temp.messages[0].message.text, "changed");
    assert_eq!(temp.messages.len(), 2);
    assert_eq!(host.area(&mut ui), Area::new(Vec2::new(0, 0), Vec2::new(640, 480)));
    assert_eq!(host.get_id(&mut ui), "notes");
}

#[test]
fn scroll_bar_shows_how_much_is_hidden() {
    let mut ui = Ui::new_at(at(0));
    let content = |ui: &mut Ui, _: &mut Card| {
        ui.add(Empty::new(Vec2::new(50, 300)));
        ui.add(Empty::new(Vec2::new(50, 300)));
    };
    let mut card = Card::new(s("list")).set_size(Vec2::new(100, 100)).set_position(Vec2::new(0, 0)).set_scrollable([true, true]);
    let shown = ui.show(&mut card, content);
    let key = s("||list!!list");
    let (across, down) = card.scroll_bars(&ui, &shown.response, &shown.inner_responses, &key);
    assert_eq!(across, None);
    assert_eq!(
        down,
        Some(ScrollBar {
            groove: Area { left_top: Vec2::new(90, 16), right_bottom: Vec2::new(95, 84) },
            grip: Area { left_top: Vec2::new(90, 16), right_bottom: Vec2::new(95, 23) },
        })
    );
    card.scroll_to_y_at(24, &mut ui, at(1));
    let (_, down) = card.scroll_bars(&ui, &shown.response, &shown.inner_responses, &key);
    assert_eq!(down.unwrap().grip, Area { left_top: Vec2::new(90, 18), right_bottom: Vec2::new(95, 25) });
    card.scroll_to_y_at(10_000, &mut ui, at(2));
    let (_, down) = card.scroll_bars(&ui, &shown.response, &shown.inner_responses, &key);
    assert_eq!(down.unwrap().grip, Area { left_top: Vec2::new(90, 16 + 61), right_bottom: Vec2::new(95, 16 + 61 + 7) });
    let still = Card::new(s("list")).set_size(Vec2::new(100, 100)).set_position(Vec2::new(0, 0));
    assert_eq!(still.scroll_bars(&ui, &shown.response, &shown.inner_responses, &key), (None, None));
}
