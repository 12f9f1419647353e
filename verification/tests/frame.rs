use nablo::event::{Event, Key, OutputEvent};
use nablo::input::MouseState;
use nablo::integrator::Integrator;
use nablo::order::draw_order;
use nablo::ui::InnerResponse;
use nablo::manager::{App, Manager, ManagerBuilder, Settings};
use nablo::math::{Area, Vec2};
use nablo::texture::Image;
use nablo::ui::{Layout, Ui};
use nablo::widgets::divide_line::LINE;
use nablo::widgets::{Color, DivideLine, Empty, Status, Style, Text, Widget, EM, PASSWORD};
use nablo::{Instant, Layer};

fn at(ms: i64) -> Instant {
    Instant { nanos: ms * 1_000_000 }
}

fn s(text: &str) -> String {
    text.to_string()
}

#[test]
fn new_scope_starts_out_empty() {
    let ui = Ui::new_at(at(0));
    assert_eq!(ui.available_position(), Vec2::new(16, 16));
    assert_eq!(ui.window_area(), Area::new(Vec2::new(0, 0), Vec2::new(640, 480)));
    assert_eq!(ui.window_crossed(), ui.window_area());
    assert_eq!(ui.paint_area(), ui.window_area());
    assert_eq!(ui.start_position(), Vec2::new(0, 0));
    assert_eq!(ui.paint_layer(), Layer::Middle);
    assert_eq!(ui.language(), "");
    assert_eq!(ui.collapsing_times(), 0);
    assert_eq!(ui.delay_at(at(16)).nanos, 16_000_000);
    assert_eq!(*ui.style(), Style::default());
    assert_eq!(ui.style().space, EM);
    assert!(ui.events().is_empty());
    assert!(ui.output_events().is_empty());
    assert_eq!(ui.input().cursor_position(), None);
}

#[test]
fn widgets_flow_one_below_the_other() {
    let mut ui = Ui::new_at(at(0));
    let a = ui.add(Empty::new(Vec2::new(100, 20))).response;
    let b = ui.add(Empty::new(Vec2::new(50, 30))).response;
    assert_eq!(a.area, Area::new(Vec2::new(16, 16), Vec2::new(116, 36)));
    assert_eq!(b.area, Area::new(Vec2::new(16, 52), Vec2::new(66, 82)));
    assert_eq!(ui.available_position(), Vec2::new(16, 98));
    assert_eq!(a.id, "----0");
    assert_eq!(b.id, "----1");
    let put = ui.put(Empty::empty(), Area::new(Vec2::new(300, 300), Vec2::new(310, 310))).response;
    assert_eq!(put.area, Area::new(Vec2::new(300, 300), Vec2::new(310, 310)));
    assert_eq!(put.id, "----2");
    assert_eq!(ui.available_position(), Vec2::new(16, 124));
    let named = ui.add_with_id(s("named"), Empty::empty()).response;
    assert_eq!(named.id, "named");
    let named = ui.put_with_id(s("named too"), Empty::empty(), Area::zero()).response;
    assert_eq!(named.id, "named too");
    assert_eq!(ui.empty(Vec2::new(1, 1)).response.id, "----3");
    ui.clear_at(at(1));
    assert_eq!(ui.available_position(), Vec2::new(16, 16));
}

#[test]
fn stretch_of_widgets_side_by_side() {
    let mut ui = Ui::new_at(at(0));
    let row = ui.horizental(|ui: &mut Ui| {
        let a = ui.add(Empty::new(Vec2::new(100, 20))).response.area;
        let b = ui.add(Empty::new(Vec2::new(50, 30))).response.area;
        (a, b)
    });
    assert_eq!(row.0, Area::new(Vec2::new(16, 16), Vec2::new(116, 36)));
    assert_eq!(row.1, Area::new(Vec2::new(132, 16), Vec2::new(182, 46)));
    assert_eq!(ui.available_position(), Vec2::new(16, 16 + 30 + 16));
    let next = ui.add(Empty::new(Vec2::new(10, 10))).response.area;
    assert_eq!(next, Area::new(Vec2::new(16, 62), Vec2::new(26, 72)));
}

#[test]
fn inverse_stretches_start_at_the_far_edge() {
    let mut ui = Ui::new_at(at(0));
    let row = ui.horizental_inverse(|ui: &mut Ui| {
        let a = ui.add(Empty::new(Vec2::new(100, 20))).response.area;
        let b = ui.add(Empty::new(Vec2::new(50, 30))).response.area;
        (a, b)
    });
    assert_eq!(row.0, Area::new(Vec2::new(524, 16), Vec2::new(624, 36)));
    assert_eq!(row.1, Area::new(Vec2::new(458, 16), Vec2::new(508, 46)));
    assert_eq!(ui.available_position(), Vec2::new(16, 62));
    let column = ui.vertical_inverse(|ui: &mut Ui| ui.add(Empty::new(Vec2::new(10, 40))).response.area);
    assert_eq!(column, Area::new(Vec2::new(16, 424), Vec2::new(26, 464)));
    let column = ui.vertical(|ui: &mut Ui| ui.add(Empty::new(Vec2::new(10, 40))).response.area);
    assert_eq!(column, Area::new(Vec2::new(16, 118), Vec2::new(26, 158)));
    let frame = ui.layout_begin(Layout::horizental());
    assert_eq!(frame.original_layout, Layout::vertical());
    ui.layout_end(frame);
    assert_eq!(Layout::default(), Layout::vertical());
    assert_eq!(Layout::vertical_inverse(), Layout { is_inverse: true, is_horizental: false });
    assert_eq!(Layout::horizental_inverse(), Layout { is_inverse: true, is_horizental: true });
}

#[test]
fn collected_responses_follow_the_order_of_declaration() {
    let mut ui = Ui::new_at(at(0));
    ui.add(Empty::new(Vec2::new(1, 1)));
    ui.add_with_id(s("x"), Empty::new(Vec2::new(1, 1)));
    let ids: Vec<String> = ui.count().into_iter().map(|r| r.id).collect();
    assert_eq!(ids, vec![s("----0"), s("x")]);
    assert!(ui.count().is_empty());
}

#[test]
fn child_scope_is_clipped_moved_and_merged_back() {
    let mut ui = Ui::new_at(at(0));
    ui.send_output_event(OutputEvent::Close);
    let area = Area::new(Vec2::new(600, 400), Vec2::new(700, 500));
    let mut sub = ui.sub_ui_begin(area, &s("panel"), Layer::Foreground, Vec2::new(0, -30));
    assert_eq!(sub.window_area(), area);
    assert_eq!(sub.window_crossed(), Area::new(Vec2::new(600, 400), Vec2::new(640, 480)));
    assert_eq!(sub.paint_area(), Area::new(Vec2::new(600, 400), Vec2::new(640, 480)));
    assert_eq!(sub.available_position(), Vec2::new(616, 386));
    assert_eq!(sub.start_position(), Vec2::new(600, 370));
    assert_eq!(sub.paint_layer(), Layer::Foreground);
    assert_eq!(sub.collapsing_times(), 1);
    assert!(sub.output_events().is_empty());
    let inside = sub.add(Empty::new(Vec2::new(10, 10))).response;
    assert_eq!(inside.id, "||panel----0");
    assert_eq!(inside.metadata.layer, Layer::Foreground);
    sub.send_output_event(OutputEvent::ClipboardCopy(s("copied")));
    sub.memory_save(&s("||panel----0"), s("kept"));
    let deeper = sub.sub_ui_begin(area, &s("inner"), Layer::Foreground, Vec2::zero());
    assert_eq!(deeper.collapsing_times(), 2);
    assert_eq!(deeper.container_id(&s("panel")), "||panel!!panel");
    let mut deeper = deeper;
    deeper.add(Empty::new(Vec2::new(1, 1)));
    let mut deepest = deeper.sub_ui_begin(area, &s("x"), Layer::Foreground, Vec2::zero());
    deepest.add(Empty::new(Vec2::new(1, 1)));
    deeper.sub_ui_end(deepest);
    sub.sub_ui_end(deeper);
    let harvested: Vec<String> = ui.sub_ui_end(sub).into_iter().map(|r| r.id).collect();
    assert_eq!(harvested, vec![s("||panel----0"), s("||panel||inner----0")]);
    assert!(ui.is_known(&s("||panel||inner||x----0")));
    assert_eq!(ui.memory_read(&s("||panel----0")), Some(s("kept")));
    assert_eq!(ui.output_events().len(), 2);
    assert!(matches!(ui.output_events()[0], OutputEvent::Close));
    assert!(matches!(&ui.output_events()[1], OutputEvent::ClipboardCopy(t) if t == "copied"));
    assert_eq!(ui.available_position(), Vec2::new(16, 16));
    assert_eq!(ui.count().len(), 3);
}

#[test]
fn events_are_kept_for_the_frame() {
    let mut ui = Ui::new_at(at(0));
    ui.event_at(&Event::KeyPressed(Key::A), at(1));
    ui.event_at(&Event::NotSupported, at(1));
    ui.event_at(&Event::Resized(Vec2::new(800, 600)), at(1));
    ui.event(&Event::TextInput(s("hi")));
    assert_eq!(ui.events().len(), 3);
    assert!(matches!(ui.events()[0], Event::KeyPressed(Key::A)));
    assert!(matches!(&ui.events()[2], Event::TextInput(t) if t == "hi"));
    assert_eq!(ui.window_area(), Area::new(Vec2::new(0, 0), Vec2::new(800, 600)));
    assert_eq!(ui.window_crossed(), Area::new(Vec2::new(0, 0), Vec2::new(800, 600)));
    assert_eq!(ui.input().input_text(), "hi");
    ui.clear_at(at(2));
    assert!(ui.events().is_empty());
    assert_eq!(ui.window_area(), Area::new(Vec2::new(0, 0), Vec2::new(800, 600)));
    assert_eq!(ui.delay_at(at(5)).nanos, 3_000_000);
}

#[test]
fn frame_settings_are_reset_at_its_end() {
    let mut ui = Ui::new_at(at(0));
    let mut style = Style::default();
    style.space = 4;
    ui.set_style(style);
    ui.set_paint_layer(Layer::Debug);
    ui.change_language(s("de"));
    ui.close();
    assert_eq!(ui.style().space, 4);
    ui.clear_at(at(1));
    assert_eq!(ui.available_position(), Vec2::new(4, 4));
    assert_eq!(*ui.style(), Style::default());
    assert_eq!(ui.paint_layer(), Layer::Middle);
    assert_eq!(ui.language(), "de");
    assert!(ui.output_events().is_empty());
    ui.clear();
    assert_eq!(ui.available_position(), Vec2::new(16, 16));
    ui.update();
}

#[test]
fn requests_to_the_host_are_queued_in_order() {
    let mut ui = Ui::new_at(at(0));
    ui.change_current_shader(Some(s("glow")));
    ui.change_current_shader(None);
    ui.registrate_shader(s("glow"), s("code"));
    ui.remove_shader(s("glow"));
    ui.close();
    let events = ui.output_events();
    assert_eq!(events.len(), 5);
    assert!(matches!(&events[0], OutputEvent::ChangeShader(Some(t)) if t == "glow"));
    assert!(matches!(&events[1], OutputEvent::ChangeShader(None)));
    assert!(matches!(&events[2], OutputEvent::RegstrateShader(a, b) if a == "glow" && b == "code"));
    assert!(matches!(&events[3], OutputEvent::RemoveShader(t) if t == "glow"));
    assert!(matches!(&events[4], OutputEvent::Close));
}

fn picture(id: &str) -> Image {
    Image { rgba: vec![1, 2, 3, 4], id: s(id), size: Vec2::new(1, 1) }
}

#[test]
fn textures_are_asked_for_once() {
    let mut ui = Ui::new_at(at(0));
    assert!(!ui.has_texture(&s("logo")));
    ui.create_texture(picture("logo"));
    ui.create_texture(picture("logo"));
    assert!(ui.has_texture(&s("logo")));
    assert_eq!(ui.output_events().len(), 1);
    assert!(matches!(&ui.output_events()[0], OutputEvent::TextureChange(i) if i.id == "logo" && i.rgba == vec![1, 2, 3, 4]));
    ui.change_texture(picture("logo"));
    ui.change_texture(picture("icon"));
    assert_eq!(ui.output_events().len(), 3);
    assert!(ui.has_texture(&s("icon")));
    ui.delete_texture(s("logo"));
    assert!(!ui.has_texture(&s("logo")));
    assert!(ui.has_texture(&s("icon")));
    assert!(matches!(&ui.output_events()[3], OutputEvent::TextureDelete(t) if t == "logo"));
    ui.clear_at(at(1));
    assert!(ui.has_texture(&s("icon")));
    ui.create_texture(picture("logo"));
    assert_eq!(ui.output_events().len(), 1);
}

#[test]
fn dividing_line_takes_the_rest_of_the_row() {
    let mut ui = Ui::new_at(at(0));
    let line = DivideLine::new();
    assert!(line.is_horizental());
    assert_eq!(line.room(&ui), Area::new(Vec2::new(16, 16), Vec2::new(624, 32)));
    assert_eq!(line.vertical().room(&ui), Area::new(Vec2::new(16, 16), Vec2::new(32, 464)));
    let declared = ui.divide_line().response;
    assert_eq!(declared.area, Area::new(Vec2::new(16, 16), Vec2::new(624, 32)));
    assert_eq!(ui.available_position(), Vec2::new(16, 48));
    let mut line = DivideLine::new().vertical().horizental();
    let given = line.ui(&mut ui, Some(Area::new(Vec2::new(0, 0), Vec2::new(5, 5))));
    assert_eq!(given.area, Area::new(Vec2::new(0, 0), Vec2::new(5, 5)));
    assert_eq!(line, DivideLine::new());
}

#[test]
fn dividing_line_is_drawn_where_it_is_aligned() {
    let room = Area::new(Vec2::new(10, 10), Vec2::new(110, 30));
    assert_eq!(LINE, 4);
    assert_eq!(DivideLine::new().line(&room), Area { left_top: Vec2::new(10, 18), right_bottom: Vec2::new(110, 22) });
    assert_eq!(DivideLine::new().top().line(&room), Area { left_top: Vec2::new(10, 10), right_bottom: Vec2::new(110, 14) });
    assert_eq!(DivideLine::new().bottom().line(&room), Area { left_top: Vec2::new(10, 26), right_bottom: Vec2::new(110, 30) });
    assert_eq!(DivideLine::new().bottom().centered().line(&room), DivideLine::new().line(&room));
    assert_eq!(DivideLine::new().vertical().line(&room), Area { left_top: Vec2::new(58, 10), right_bottom: Vec2::new(62, 30) });
    assert_eq!(DivideLine::new().vertical().top().line(&room), Area { left_top: Vec2::new(10, 10), right_bottom: Vec2::new(14, 30) });
    assert_eq!(DivideLine::new().vertical().bottom().line(&room), Area { left_top: Vec2::new(106, 10), right_bottom: Vec2::new(110, 30) });
}

#[test]
fn status_colours_come_from_the_style() {
    let ui = Ui::new_at(at(0));
    assert_eq!(Status::Error.into_color(&ui), Color::new(229, 115, 115, 255));
    assert_eq!(Status::Info.into_color(&ui), Color::new(100, 181, 246, 255));
    assert_eq!(Status::Warning.into_color(&ui), Color::new(255, 235, 59, 255));
    assert_eq!(Status::Success.into_color(&ui), Color::new(111, 249, 6, 255));
    assert_eq!(Status::Default.into_color(&ui), Color::new(230, 230, 230, 255));
    assert_eq!(ui.style().primary_color, Color::new(98, 0, 234, 255));
    assert_eq!(PASSWORD, '\u{25cf}');
}

#[test]
fn integrator_runs_whole_frames() {
    let mut integrator = Integrator::new_at(at(0));
    let mut seen = vec![];
    for frame in 0..3 {
        let events = if frame == 1 { vec![Event::CursorMoved(Vec2::new(20, 20))] } else { vec![] };
        let mut hovering = false;
        let output = integrator.frame(events, |ui: &mut Ui| {
            hovering = ui.add(Empty::new(Vec2::new(50, 50))).response.is_hovering();
            if frame == 2 {
                ui.add_with_id(s("----0"), Empty::empty());
                ui.close();
            }
        });
        seen.push((hovering, output.output_events.len(), output.conflicts.clone()));
        assert_eq!(output.background_color, Color::new(18, 18, 18, 255));
    }
    assert_eq!(seen, vec![(false, 0, vec![]), (true, 0, vec![]), (true, 1, vec![s("----0")])]);
    integrator.event(&Event::CursorLeft);
    assert_eq!(integrator.ui.input().cursor_position(), None);
    let mut other = Integrator::new();
    other.begin_frame_at(&vec![Event::KeyPressed(Key::A)], at(5));
    assert_eq!(other.ui.events().len(), 1);
    let output = other.end_frame_at(at(6));
    assert!(output.output_events.is_empty());
    assert!(other.ui.events().is_empty());
}

struct Counter {
    frames: usize,
    clicks: usize,
}

impl App for Counter {
    fn app(&mut self, ui: &mut Ui) {
        self.frames += 1;
        let res = ui.response_update(Area::new(Vec2::new(0, 0), Vec2::new(50, 50)), s("button"), true, false);
        if res.is_clicked() {
            self.clicks += 1;
        }
    }
}

#[test]
fn manager_drives_an_application() {
    let settings = Settings::default();
    assert_eq!(settings.max_clicks, 5);
    assert_eq!(settings.size, Some(Vec2::new(640, 480)));
    assert_eq!(settings.title, "nablo");
    assert!(settings.resizeable && !settings.fullscreen && !settings.soft_rendering);
    let builder = ManagerBuilder::new(settings, Counter { frames: 0, clicks: 0 });
    assert_eq!(builder.settings.title, "nablo");
    let builder = ManagerBuilder::new_closure(builder.settings, builder.app);
    let mut manager = Manager::new_with_settings(builder.app, builder.settings);
    manager.on_frame(vec![]);
    manager.on_frame(vec![Event::CursorMoved(Vec2::new(5, 5)), Event::MouseClick(nablo::MouseButton::Left)]);
    manager.on_event(&Event::MouseRelease(nablo::MouseButton::Left));
    manager.on_frame(vec![]);
    manager.on_frame(vec![]);
    assert_eq!(manager.app.frames, 4);
    assert_eq!(manager.app.clicks, 1);
    let manager = Manager::new(Counter { frames: 0, clicks: 0 });
    assert_eq!(manager.settings.max_clicks, 5);
}

#[test]
fn what_was_drawn_is_ordered_by_layer() {
    let layers = vec![Layer::Middle, Layer::Debug, Layer::Background, Layer::Middle, Layer::ToolTips, Layer::Bottom, Layer::Foreground];
    assert_eq!(draw_order(&layers), vec![(0, 2), (1, 5), (2, 0), (2, 3), (3, 6), (4, 4), (5, 1)]);
    assert!(draw_order(&vec![]).is_empty());
    assert_eq!(Layer::Background.rank(), 0);
    assert_eq!(Layer::Debug.rank(), 5);
}

#[test]
fn conversions() {
    let mut ui = Ui::new_at(at(0));
    let own = ui.response_update_at(Area::zero(), s("own"), false, false, at(0));
    let inner = ui.response_update_at(Area::zero(), s("inner"), false, false, at(0));
    let whole: InnerResponse<u8> = (own, vec![inner], 7).into();
    assert_eq!(whole.return_value, Some(7));
    assert_eq!(whole.response.id, "own");
    assert_eq!(whole.inner_responses.len(), 1);
    let other = InnerResponse::new(whole.response, whole.inner_responses, "x");
    assert_eq!(other.return_value, Some("x"));
    let press: MouseState = nablo::MouseButton::Right.into();
    assert_eq!(press, MouseState { button: nablo::MouseButton::Right, is_drag_used: false, is_click_used: false });
}

#[test]
fn words_take_their_colour_from_their_status() {
    let ui = Ui::new_at(at(0));
    let words = Text::new(s("hi"));
    assert!(!words.is_empty());
    assert!(Text::new(s("")).is_empty());
    assert_eq!(words.get_color(&ui), Color::new(230, 230, 230, 255));
    let words = words.set_status(Status::Warning);
    assert_eq!(words.get_color(&ui), Color::new(255, 235, 59, 255));
    let words = words.set_color(Color::new(1, 2, 3, 4)).set_text(s("ho")).set_width(10).set_height(20).underline(true);
    assert_eq!(words.get_color(&ui), Color::new(1, 2, 3, 4));
    assert_eq!((words.text.as_str(), words.width, words.height, words.underline), ("ho", Some(10), Some(20), true));
}

#[test]
fn defaults() {
    let ui = Ui::default();
    assert_eq!(ui.available_position(), Vec2::new(16, 16));
    assert!(Integrator::default().ui.events().is_empty());
    let data = nablo::response::Metadata::default();
    assert_eq!(data.layer, Layer::Middle);
    assert!(data.hover_info.is_some() && data.click_info.is_some() && data.drag_info.is_some());
    let note = nablo::container::state::Message::default();
    assert_eq!((note.text.as_str(), note.id.as_str(), note.should_delete), ("", "", false));
    assert_eq!(note.sustain_time, Some(nablo::Duration::seconds(3)));
    let mut ui = ui;
    let host = nablo::container::tooltip_provider::TooltipProvider::default();
    assert_eq!(nablo::Container::get_id(&host, &mut ui), "");
}
