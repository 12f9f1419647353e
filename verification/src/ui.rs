//! A scope: the engine against which widgets are declared. It owns the
//! store, the input snapshot, the place where the next widget goes, and
//! the requests queued for the host.

use vstd::prelude::*;
use crate::clock::{clamp_i64, Duration, Instant};
use crate::container::state::ContainerState;
use crate::container::{Container, Opening};
use crate::event::{Event, EventView, OutputEvent, OutputEventView};
use crate::identity::{
    child_scope, child_scope_string, container_id_in, container_id_string, container_key,
    container_key_string, is_inner, is_inner_key, widget_id, widget_id_string,
};
use crate::input::{InputState, InputStateView};
use crate::layer::Layer;
use crate::math::{sat_add, sat_sub, Area, Vec2};
use crate::memory::{
    conflicts, contains, declare, declared_entry, evict, get, layer_at, read, read_container, save,
    save_container, update_all, update_layer, update_layers, update_step, Memory, MemoryTempView,
    MemoryView, UpdateState,
};
use crate::response::{Metadata, MetadataView, Response, ResponseView};
use crate::texture::{Image, ImageView};
use crate::widgets::{Style, Widget};

verus! {

/// The direction in which a scope places one widget after another.
#[derive(Clone, Copy, Debug, PartialEq, Eq, Structural)]
pub struct Layout {
    /// Right to left or bottom to top, in place of left to right or top to
    /// bottom.
    pub is_inverse: bool,
    /// Side by side, in place of one below the other.
    pub is_horizental: bool,
}

impl Layout {
    /// Side by side, from left to right.
    pub fn horizental() -> (r: Layout)
        ensures
            r == (Layout { is_inverse: false, is_horizental: true }),
    {
        Layout { is_inverse: false, is_horizental: true }
    }

    /// Side by side, from right to left.
    pub fn horizental_inverse() -> (r: Layout)
        ensures
            r == (Layout { is_inverse: true, is_horizental: true }),
    {
        Layout { is_inverse: true, is_horizental: true }
    }

    /// One below the other, from top to bottom: the way a scope starts
    /// out.
    pub fn vertical() -> (r: Layout)
        ensures
            r == (Layout { is_inverse: false, is_horizental: false }),
    {
        Layout { is_inverse: false, is_horizental: false }
    }

    /// One above the other, from bottom to top.
    pub fn vertical_inverse() -> (r: Layout)
        ensures
            r == (Layout { is_inverse: true, is_horizental: false }),
    {
        Layout { is_inverse: true, is_horizental: false }
    }
}

impl Default for Layout {
    fn default() -> (r: Layout)
        ensures
            r == (Layout { is_inverse: false, is_horizental: false }),
    {
        Layout { is_inverse: false, is_horizental: false }
    }
}

/// The scope against which widgets are declared.
pub struct Ui {
    pub(crate) memory: Memory,
    pub(crate) memory_clip: Vec<String>,
    pub(crate) memory_clip_total: Vec<String>,
    pub(crate) last_frame: Instant,
    pub(crate) available_position: Vec2,
    pub(crate) input_state: InputState,
    pub(crate) events: Vec<Event>,
    pub(crate) window: Area,
    pub(crate) style: Style,
    pub(crate) available_id: (String, usize),
    pub(crate) language: String,
    pub(crate) paint_layer: Layer,
    pub(crate) layout: Layout,
    pub(crate) output_events: Vec<OutputEvent>,
    pub(crate) texture_id: Vec<String>,
    pub(crate) offset: Vec2,
    pub(crate) parent_area: Option<Area>,
    pub(crate) start_position: Vec2,
    pub(crate) window_crossed: Area,
    pub(crate) collapse_times: usize,
}

/// Mathematical value of a [`Ui`].
pub struct UiView {
    /// The store, shared with the scopes around and within this one.
    pub memory: MemoryView,
    /// The ids declared since they were last collected, in order.
    pub memory_clip: Seq<Seq<char>>,
    /// The ids declared since the last update of the derived state, in
    /// order.
    pub memory_clip_total: Seq<Seq<char>>,
    /// When the previous frame ended.
    pub last_frame: Instant,
    /// Where the next widget goes.
    pub available_position: Vec2,
    pub input: InputStateView,
    /// The events taken in during this frame.
    pub events: Seq<EventView>,
    /// The room of this scope.
    pub window: Area,
    pub style: Style,
    /// The id of this scope.
    pub scope_id: Seq<char>,
    /// The number that the next allocated identity gets.
    pub next_number: usize,
    pub language: Seq<char>,
    /// The layer on which widgets are declared.
    pub paint_layer: Layer,
    pub layout: Layout,
    /// The requests queued for the host in this frame.
    pub output_events: Seq<OutputEventView>,
    /// The ids of the textures that the host has been asked to make.
    pub texture_id: Seq<Seq<char>>,
    /// By how much the content of this scope is moved, as by scrolling.
    pub offset: Vec2,
    /// The room of the scope around this one.
    pub parent_area: Option<Area>,
    /// Where the first widget of this scope would go without spacing.
    pub start_position: Vec2,
    /// The part of this scope's room that can be seen.
    pub window_crossed: Area,
    /// How many scopes lie around this one.
    pub collapse_times: usize,
}

/// The views of the strings of a list, in order.
pub open spec fn strings_view(v: Seq<String>) -> Seq<Seq<char>> {
    v.map_values(|s: String| s@)
}

/// The views of the events of a list, in order.
pub open spec fn events_view(v: Seq<Event>) -> Seq<EventView> {
    v.map_values(|e: Event| e@)
}

/// The views of the requests of a list, in order.
pub open spec fn output_events_view(v: Seq<OutputEvent>) -> Seq<OutputEventView> {
    v.map_values(|e: OutputEvent| e@)
}

/// The views of the responses of a list, in order.
pub open spec fn responses_view(v: Seq<Response>) -> Seq<ResponseView> {
    v.map_values(|r: Response| r@)
}

impl View for Ui {
    type V = UiView;

    closed spec fn view(&self) -> UiView {
        UiView {
            memory: self.memory@,
            memory_clip: strings_view(self.memory_clip@),
            memory_clip_total: strings_view(self.memory_clip_total@),
            last_frame: self.last_frame,
            available_position: self.available_position,
            input: self.input_state@,
            events: events_view(self.events@),
            window: self.window,
            style: self.style,
            scope_id: self.available_id.0@,
            next_number: self.available_id.1,
            language: self.language@,
            paint_layer: self.paint_layer,
            layout: self.layout,
            output_events: output_events_view(self.output_events@),
            texture_id: strings_view(self.texture_id@),
            offset: self.offset,
            parent_area: self.parent_area,
            start_position: self.start_position,
            window_crossed: self.window_crossed,
            collapse_times: self.collapse_times,
        }
    }
}

/// The room of a root scope before the host has reported its size.
pub open spec fn default_window() -> Area {
    Area { left_top: Vec2 { x: 0, y: 0 }, right_bottom: Vec2 { x: 640, y: 480 } }
}

impl UiView {
    /// The root scope of an interface that has seen no frame yet, made at
    /// `now`.
    pub open spec fn new(now: Instant) -> UiView {
        UiView {
            memory: Seq::empty(),
            memory_clip: Seq::empty(),
            memory_clip_total: Seq::empty(),
            last_frame: now,
            available_position: Vec2 { x: Style::spec_default().space, y: Style::spec_default().space },
            input: InputStateView::empty(),
            events: Seq::empty(),
            window: default_window(),
            style: Style::spec_default(),
            scope_id: Seq::empty(),
            next_number: 0,
            language: Seq::empty(),
            paint_layer: Layer::Middle,
            layout: Layout { is_inverse: false, is_horizental: false },
            output_events: Seq::empty(),
            texture_id: Seq::empty(),
            offset: Vec2::spec_zero(),
            parent_area: None,
            start_position: Vec2::spec_zero(),
            window_crossed: default_window(),
            collapse_times: 0,
        }
    }
}

/// Where the next widget goes once a widget with room `area` has been
/// placed at `position`: past the widget and the spacing, in the direction
/// of the layout.
pub open spec fn advanced(layout: Layout, position: Vec2, area: Area, space: i64) -> Vec2 {
    let across = Vec2 { x: clamp_i64(area.spec_width() + space), y: 0 };
    let down = Vec2 { x: 0, y: clamp_i64(area.spec_height() + space) };
    if layout.is_inverse {
        if layout.is_horizental {
            position.spec_minus(across)
        } else {
            position.spec_minus(down)
        }
    } else if layout.is_horizental {
        position.spec_plus(across)
    } else {
        position.spec_plus(down)
    }
}

/// Where a widget that asked for `area` ends up: in an inverse layout it
/// is moved back by its own extent, so that it ends where it would have
/// begun.
pub open spec fn placed(layout: Layout, area: Area) -> Area {
    if layout.is_inverse {
        if layout.is_horizental {
            area.spec_moved(Vec2 { x: clamp_i64(0 - area.spec_width()), y: 0 })
        } else {
            area.spec_moved(Vec2 { x: 0, y: clamp_i64(0 - area.spec_height()) })
        }
    } else {
        area
    }
}

/// The response that the store holds for an id, if it holds one.
pub open spec fn response_in(m: MemoryView) -> spec_fn(Seq<char>) -> Option<ResponseView> {
    |id: Seq<char>|
        match get(m, id) {
            Some(e) => Some(e.response),
            None => None,
        }
}

/// The responses that the store holds for the ids of a list, in the order
/// of the list.
pub open spec fn responses_of(m: MemoryView, ids: Seq<Seq<char>>) -> Seq<ResponseView> {
    ids.filter_map(response_in(m))
}

/// What declaring a widget hands back.
#[derive(Debug)]
pub struct Declared {
    /// The widget's area in this frame with the state derived for its
    /// identity up to the previous frame.
    pub response: Response,
    /// Whether the identity was known before this declaration. A widget is
    /// not drawn in the frame in which its identity is first seen, since no
    /// state has been derived for it yet.
    pub need_draw: bool,
}

impl Default for Ui {
    fn default() -> (r: Ui)
        ensures
            exists|now: Instant| r@ == #[trigger] UiView::new(now),
    {
        Ui::new_at(Instant::now())
    }
}

/// A second list with the same strings in the same order.
pub fn copy_strings(v: &Vec<String>) -> (r: Vec<String>)
    ensures
        strings_view(r@) == strings_view(v@),
{
    let mut back: Vec<String> = Vec::new();
    let mut i: usize = 0;
    while i < v.len()
        invariant
            i <= v.len(),
            back.len() == i,
            forall|j: int| 0 <= j < i ==> back@[j]@ == v@[j]@,
        decreases v.len() - i,
    {
        back.push(v[i].clone());
        i += 1;
    }
    assert(strings_view(back@) =~= strings_view(v@));
    back
}

/// A second list with the same events in the same order.
pub fn copy_events(v: &Vec<Event>) -> (r: Vec<Event>)
    ensures
        events_view(r@) == events_view(v@),
{
    let mut back: Vec<Event> = Vec::new();
    let mut i: usize = 0;
    while i < v.len()
        invariant
            i <= v.len(),
            back.len() == i,
            forall|j: int| 0 <= j < i ==> back@[j]@ == v@[j]@,
        decreases v.len() - i,
    {
        back.push(v[i].clone());
        i += 1;
    }
    assert(events_view(back@) =~= events_view(v@));
    back
}

/// A second list with the same requests in the same order.
pub fn copy_output_events(v: &Vec<OutputEvent>) -> (r: Vec<OutputEvent>)
    ensures
        output_events_view(r@) == output_events_view(v@),
{
    let mut back: Vec<OutputEvent> = Vec::new();
    let mut i: usize = 0;
    while i < v.len()
        invariant
            i <= v.len(),
            back.len() == i,
            forall|j: int| 0 <= j < i ==> back@[j]@ == v@[j]@,
        decreases v.len() - i,
    {
        back.push(v[i].clone());
        i += 1;
    }
    assert(output_events_view(back@) =~= output_events_view(v@));
    back
}

impl Ui {
    /// The root scope of an interface that has seen no frame yet, made at
    /// `now`.
    pub fn new_at(now: Instant) -> (r: Ui)
        ensures
            r@ == UiView::new(now),
    {
        let style = Style::default();
        let window = Area::new_with_origin(Vec2::new(640, 480));
        let r = Ui {
            memory: Memory::new(),
            memory_clip: Vec::new(),
            memory_clip_total: Vec::new(),
            last_frame: now,
            available_position: Vec2::same(style.space),
            input_state: InputState::new(),
            events: Vec::new(),
            window,
            style,
            available_id: (String::new(), 0),
            language: String::new(),
            paint_layer: Layer::Middle,
            layout: Layout::default(),
            output_events: Vec::new(),
            texture_id: Vec::new(),
            offset: Vec2::zero(),
            parent_area: None,
            start_position: Vec2::zero(),
            window_crossed: window,
            collapse_times: 0,
        };
        assert(r@.memory_clip =~= Seq::empty());
        assert(r@.memory_clip_total =~= Seq::empty());
        assert(r@.events =~= Seq::empty());
        assert(r@.output_events =~= Seq::empty());
        assert(r@.texture_id =~= Seq::empty());
        r
    }

    /// Where the next widget goes.
    pub fn available_position(&self) -> (r: Vec2)
        ensures
            r == self@.available_position,
    {
        self.available_position
    }

    /// The room of this scope. In a scope within another, its upper left
    /// corner is not the origin.
    pub fn window_area(&self) -> (r: Area)
        ensures
            r == self@.window,
    {
        self.window
    }

    /// The part of this scope's room that can be seen.
    pub fn window_crossed(&self) -> (r: Area)
        ensures
            r == self@.window_crossed,
    {
        self.window_crossed
    }

    /// The room in which this scope may draw: what can be seen of it, cut
    /// down to the scope around it.
    pub fn paint_area(&self) -> (r: Area)
        ensures
            r == match self@.parent_area {
                Some(t) => self@.window_crossed.spec_cross_part(t),
                None => self@.window_crossed,
            },
    {
        if let Some(t) = self.parent_area {
            self.window_crossed.cross_part(&t)
        } else {
            self.window_crossed
        }
    }

    /// How long ago, at `now`, the previous frame ended.
    pub fn delay_at(&self, now: Instant) -> (r: Duration)
        ensures
            r == now.spec_since(self@.last_frame),
    {
        self.last_frame.elapsed_at(now)
    }

    /// How long ago the previous frame ended.
    pub fn delay(&self) -> (r: Duration)
        ensures
            exists|now: Instant| r == #[trigger] now.spec_since(self@.last_frame),
    {
        self.delay_at(Instant::now())
    }

    /// The input snapshot of this frame.
    pub fn input(&self) -> (r: &InputState)
        ensures
            r@ == self@.input,
    {
        &self.input_state
    }

    /// Replaces the input snapshot, as after a widget has claimed some of
    /// it.
    pub fn set_input(&mut self, input_state: InputState)
        ensures
            final(self)@ == (UiView { input: input_state@, ..old(self)@ }),
    {
        self.input_state = input_state;
    }

    /// The settings that widgets draw with.
    pub fn style(&self) -> (r: &Style)
        ensures
            *r == self@.style,
    {
        &self.style
    }

    /// Replaces the settings that widgets draw with, until the end of the
    /// frame.
    pub fn set_style(&mut self, style: Style)
        ensures
            final(self)@ == (UiView { style, ..old(self)@ }),
    {
        self.style = style;
    }

    /// The layer on which widgets are declared.
    pub fn paint_layer(&self) -> (r: Layer)
        ensures
            r == self@.paint_layer,
    {
        self.paint_layer
    }

    /// Changes the layer on which widgets are declared, until the end of
    /// the frame.
    pub fn set_paint_layer(&mut self, layer: Layer)
        ensures
            final(self)@ == (UiView { paint_layer: layer, ..old(self)@ }),
    {
        self.paint_layer = layer;
    }

    /// Where the first widget of this scope would go without spacing.
    pub fn start_position(&self) -> (r: Vec2)
        ensures
            r == self@.start_position,
    {
        self.start_position
    }

    /// Allocates the identity of the next plain widget of this scope: the
    /// scope's id, four hyphens, and a number that counts up from zero
    /// within the frame.
    pub fn available_id(&mut self) -> (r: String)
        ensures
            r@ == widget_id(old(self)@.scope_id, old(self)@.next_number as nat),
            final(self)@ == (UiView {
                next_number: crate::memory::next_count(old(self)@.next_number),
                ..old(self)@
            }),
    {
        let back = widget_id_string(&self.available_id.0, self.available_id.1);
        if self.available_id.1 < usize::MAX {
            self.available_id.1 = self.available_id.1 + 1;
        }
        back
    }

    /// The language that the interface speaks; how a language is named is
    /// up to the caller.
    pub fn language(&self) -> (r: String)
        ensures
            r@ == self@.language,
    {
        self.language.clone()
    }

    /// Changes the language that the interface speaks.
    pub fn change_language(&mut self, language: String)
        ensures
            final(self)@ == (UiView { language: language@, ..old(self)@ }),
    {
        self.language = language;
    }

    /// The events taken in during this frame.
    pub fn events(&self) -> (r: &Vec<Event>)
        ensures
            events_view(r@) == self@.events,
    {
        &self.events
    }

    /// The requests queued for the host in this frame.
    pub fn output_events(&self) -> (r: &Vec<OutputEvent>)
        ensures
            output_events_view(r@) == self@.output_events,
    {
        &self.output_events
    }

    /// Queues a request for the host.
    pub fn send_output_event(&mut self, output_event: OutputEvent)
        ensures
            final(self)@ == (UiView {
                output_events: old(self)@.output_events.push(output_event@),
                ..old(self)@
            }),
    {
        self.output_events.push(output_event);
        assert(output_events_view(self.output_events@) =~= output_events_view(
            old(self).output_events@,
        ).push(output_event@));
    }

    /// Asks the host to close the window.
    pub fn close(&mut self)
        ensures
            final(self)@ == (UiView {
                output_events: old(self)@.output_events.push(OutputEventView::Close),
                ..old(self)@
            }),
    {
        self.send_output_event(OutputEvent::Close);
    }

    /// Asks the host to switch to the shader registered under `id`, or
    /// back to the built-in one.
    pub fn change_current_shader(&mut self, id: Option<String>)
        ensures
            final(self)@ == (UiView {
                output_events: old(self)@.output_events.push(
                    OutputEventView::ChangeShader(
                        match id {
                            Some(t) => Some(t@),
                            None => None,
                        },
                    ),
                ),
                ..old(self)@
            }),
    {
        self.send_output_event(OutputEvent::ChangeShader(id));
    }

    /// Asks the host to register shader code under `id`.
    pub fn registrate_shader(&mut self, id: String, shader_code: String)
        ensures
            final(self)@ == (UiView {
                output_events: old(self)@.output_events.push(
                    OutputEventView::RegstrateShader(id@, shader_code@),
                ),
                ..old(self)@
            }),
    {
        self.send_output_event(OutputEvent::RegstrateShader(id, shader_code));
    }

    /// Asks the host to forget the shader registered under `id`.
    pub fn remove_shader(&mut self, id: String)
        ensures
            final(self)@ == (UiView {
                output_events: old(self)@.output_events.push(OutputEventView::RemoveShader(id@)),
                ..old(self)@
            }),
    {
        self.send_output_event(OutputEvent::RemoveShader(id));
    }

    /// How many scopes lie around this one.
    pub fn collapsing_times(&self) -> (r: usize)
        ensures
            r == self@.collapse_times,
    {
        self.collapse_times
    }
}

impl Ui {
    /// Makes room for a widget that asks for `area`: moves `area` to where
    /// the widget ends up and the place of the next widget past it.
    pub fn position_change(&mut self, area: &mut Area)
        ensures
            *final(area) == placed(old(self)@.layout, *old(area)),
            final(self)@ == (UiView {
                available_position: advanced(
                    old(self)@.layout,
                    old(self)@.available_position,
                    *old(area),
                    old(self)@.style.space,
                ),
                ..old(self)@
            }),
    {
        let width = area.width();
        let height = area.height();
        if self.layout.is_inverse {
            if self.layout.is_horizental {
                self.available_position = self.available_position.minus(
                    Vec2::new(sat_add(width, self.style.space), 0),
                );
                area.move_by(Vec2::new(sat_sub(0, width), 0));
            } else {
                self.available_position = self.available_position.minus(
                    Vec2::new(0, sat_add(height, self.style.space)),
                );
                area.move_by(Vec2::new(0, sat_sub(0, height)));
            }
        } else if self.layout.is_horizental {
            self.available_position = self.available_position.plus(
                Vec2::new(sat_add(width, self.style.space), 0),
            );
        } else {
            self.available_position = self.available_position.plus(
                Vec2::new(0, sat_add(height, self.style.space)),
            );
        }
    }

    /// Claims `area` for a widget first seen at `now` and hands back a
    /// fresh response for it, without an identity yet. The place of the
    /// next widget moves past the area.
    pub fn response_at(&mut self, area: Area, is_clickable: bool, is_dragable: bool, now: Instant) -> (r: Response)
        ensures
            r@ == old(self)@.fresh_response(area, is_clickable, is_dragable, now),
            final(self)@ == old(self)@.claimed(area),
    {
        let mut area = area;
        self.position_change(&mut area);
        Response {
            area,
            id: String::new(),
            metadata: Metadata::new_at(self.paint_layer, is_clickable, is_dragable, now),
        }
    }

    /// Claims `area` for a widget first seen at the present moment of the
    /// system clock.
    pub fn response(&mut self, area: Area, is_clickable: bool, is_dragable: bool) -> (r: Response)
        ensures
            exists|now: Instant|
                r@ == #[trigger] old(self)@.fresh_response(area, is_clickable, is_dragable, now),
            final(self)@ == old(self)@.claimed(area),
    {
        self.response_at(area, is_clickable, is_dragable, Instant::now())
    }
}

impl Ui {
    /// Declares the widget `id` with `response` in this frame.
    ///
    /// The first declaration of an identity stores the response as it is.
    /// A later one finds the entry by its id, stores the new area for the
    /// next frame's pointer tests, and hands back the state derived up to
    /// the previous frame together with the area of this frame.
    pub fn add_widget(&mut self, id: String, response: Response) -> (r: Declared)
        ensures
            final(self)@ == (UiView {
                memory: declare(old(self)@.memory, id@, response@, old(self)@.window_crossed),
                memory_clip: old(self)@.memory_clip.push(id@),
                memory_clip_total: old(self)@.memory_clip_total.push(id@),
                ..old(self)@
            }),
            r.response@ == declared_entry(
                get(old(self)@.memory, id@),
                id@,
                response@,
                old(self)@.window_crossed,
            ).response,
            r.need_draw == contains(old(self)@.memory, id@),
    {
        self.memory_clip.push(id.clone());
        self.memory_clip_total.push(id.clone());
        assert(strings_view(self.memory_clip@) =~= strings_view(old(self).memory_clip@).push(id@));
        assert(strings_view(self.memory_clip_total@) =~= strings_view(
            old(self).memory_clip_total@,
        ).push(id@));
        let (back, known) = self.memory.declare(&id, response, &self.window_crossed);
        Declared { response: back, need_draw: known }
    }

    /// Claims `area` and declares it under `id`, at `now`: the way a
    /// container, or anything else that draws nothing of its own, takes part
    /// in hover, click and drag.
    pub fn response_update_at(
        &mut self,
        area: Area,
        id: String,
        is_clickable: bool,
        is_dragable: bool,
        now: Instant,
    ) -> (r: Response)
        ensures
            final(self)@ == old(self)@.with_declared(area, id@, is_clickable, is_dragable, now),
            r@ == old(self)@.declared_response(area, id@, is_clickable, is_dragable, now),
    {
        let response = self.response_at(area, is_clickable, is_dragable, now);
        self.add_widget(id, response).response
    }

    /// Claims `area` and declares it under `id`, at the present moment of
    /// the system clock.
    pub fn response_update(&mut self, area: Area, id: String, is_clickable: bool, is_dragable: bool) -> (r: Response)
        ensures
            exists|now: Instant|
                final(self)@ == old(self)@.with_declared(area, id@, is_clickable, is_dragable, now)
                    && r@ == old(self)@.declared_response(
                    area,
                    id@,
                    is_clickable,
                    is_dragable,
                    now,
                ),
    {
        self.response_update_at(area, id, is_clickable, is_dragable, Instant::now())
    }

    /// Sets the persisted text of `id`. The id must be that of a widget or
    /// container declared before; for any other id nothing is stored.
    pub fn memory_save(&mut self, id: &String, data: String)
        ensures
            final(self)@ == (UiView { memory: save(old(self)@.memory, id@, data@), ..old(self)@ }),
    {
        self.memory.save(id, data);
    }

    /// The persisted text of `id`; `None` when nothing is known under the
    /// id.
    pub fn memory_read(&self, id: &String) -> (r: Option<String>)
        ensures
            match r {
                Some(t) => read(self@.memory, id@) == Some(t@),
                None => read(self@.memory, id@) is None,
            },
    {
        self.memory.read(id)
    }

    /// Sets what the container `id` keeps; for an id that was not declared
    /// nothing is stored.
    pub fn container_save(&mut self, id: &String, state: ContainerState)
        ensures
            final(self)@ == (UiView {
                memory: save_container(old(self)@.memory, id@, state@),
                ..old(self)@
            }),
    {
        self.memory.save_container(id, state);
    }

    /// What the container `id` keeps; nothing when the id is not known.
    pub fn container_read(&self, id: &String) -> (r: ContainerState)
        ensures
            r@ == read_container(self@.memory, id@),
    {
        self.memory.read_container(id)
    }

    /// Whether the store has an entry for `id`.
    pub fn is_known(&self, id: &String) -> (r: bool)
        ensures
            r == contains(self@.memory, id@),
    {
        self.memory.contains_id(id)
    }

    /// Collects the responses of the widgets declared since the last
    /// collection, in the order of their declaration, and starts a new
    /// collection.
    pub fn count(&mut self) -> (r: Vec<Response>)
        ensures
            responses_view(r@) == responses_of(old(self)@.memory, old(self)@.memory_clip),
            final(self)@ == (UiView { memory_clip: Seq::empty(), ..old(self)@ }),
    {
        let ghost ids = strings_view(self.memory_clip@);
        let ghost pick = response_in(self@.memory);
        let mut back: Vec<Response> = Vec::new();
        let mut i: usize = 0;
        assert(responses_view(back@) =~= ids.take(0).filter_map(pick));
        while i < self.memory_clip.len()
            invariant
                i <= self.memory_clip.len(),
                *self == *old(self),
                ids == strings_view(self.memory_clip@),
                pick == response_in(self@.memory),
                responses_view(back@) == ids.take(i as int).filter_map(pick),
            decreases self.memory_clip.len() - i,
        {
            let ghost before = responses_view(back@);
            proof {
                ids.lemma_filter_map_take_succ(pick, i as int);
                assert(ids[i as int] == self.memory_clip@[i as int]@);
            }
            match self.memory.response_of(&self.memory_clip[i]) {
                Some(response) => {
                    back.push(response);
                    assert(responses_view(back@) =~= before.push(response@));
                },
                None => {},
            }
            i += 1;
        }
        assert(ids.take(self.memory_clip.len() as int) =~= ids);
        self.memory_clip = Vec::new();
        assert(strings_view(self.memory_clip@) =~= Seq::empty());
        back
    }
}

impl UiView {
    /// The scope after the widget `id` has been declared with `response`.
    pub open spec fn added(self, id: Seq<char>, response: ResponseView) -> UiView {
        UiView {
            memory: declare(self.memory, id, response, self.window_crossed),
            memory_clip: self.memory_clip.push(id),
            memory_clip_total: self.memory_clip_total.push(id),
            ..self
        }
    }

    /// The response handed back when the widget `id` is declared with
    /// `response`.
    pub open spec fn added_response(self, id: Seq<char>, response: ResponseView) -> ResponseView {
        declared_entry(get(self.memory, id), id, response, self.window_crossed).response
    }

    /// The scope after room `area` has been claimed in it: the place of the
    /// next widget lies past the area.
    pub open spec fn claimed(self, area: Area) -> UiView {
        UiView {
            available_position: advanced(
                self.layout,
                self.available_position,
                area,
                self.style.space,
            ),
            ..self
        }
    }

    /// The scope after the next identity has been allocated.
    pub open spec fn numbered(self) -> UiView {
        UiView { next_number: crate::memory::next_count(self.next_number), ..self }
    }

    /// The scope after a widget that claims `room` and asks for
    /// `response` has been declared in it, under the identity that is
    /// allocated next.
    pub open spec fn with_widget(self, room: Area, response: ResponseView) -> UiView {
        self.numbered().claimed(room).added(self.next_id(), response)
    }

    /// The response handed back when a widget that claims `room` and asks
    /// for `response` is declared, under the identity that is allocated
    /// next.
    pub open spec fn widget_response(self, room: Area, response: ResponseView) -> ResponseView {
        self.numbered().claimed(room).added_response(self.next_id(), response)
    }

    /// The identity that is allocated next.
    pub open spec fn next_id(self) -> Seq<char> {
        widget_id(self.scope_id, self.next_number as nat)
    }

    /// The response that a fresh declaration at `now` asks to be stored.
    pub open spec fn fresh_response(self, area: Area, is_clickable: bool, is_dragable: bool, now: Instant) -> ResponseView {
        ResponseView {
            area: placed(self.layout, area),
            id: Seq::empty(),
            metadata: MetadataView::new(self.paint_layer, is_clickable, is_dragable, now),
        }
    }

    /// The scope after `area` has been claimed and declared under `id` at
    /// `now`.
    pub open spec fn with_declared(
        self,
        area: Area,
        id: Seq<char>,
        is_clickable: bool,
        is_dragable: bool,
        now: Instant,
    ) -> UiView {
        UiView {
            available_position: advanced(self.layout, self.available_position, area, self.style.space),
            memory: declare(
                self.memory,
                id,
                self.fresh_response(area, is_clickable, is_dragable, now),
                self.window_crossed,
            ),
            memory_clip: self.memory_clip.push(id),
            memory_clip_total: self.memory_clip_total.push(id),
            ..self
        }
    }

    /// The response handed back when `area` is claimed and declared under
    /// `id` at `now`.
    pub open spec fn declared_response(
        self,
        area: Area,
        id: Seq<char>,
        is_clickable: bool,
        is_dragable: bool,
        now: Instant,
    ) -> ResponseView {
        declared_entry(
            get(self.memory, id),
            id,
            self.fresh_response(area, is_clickable, is_dragable, now),
            self.window_crossed,
        ).response
    }
}

impl UiView {
    /// The scope after one event has been taken in at `now`: the input
    /// snapshot takes it in, a new size of the surface becomes the room of
    /// the scope, and every event that is understood is kept for the frame.
    pub open spec fn event(self, event: EventView, now: Instant) -> UiView {
        let resized = match event {
            EventView::Resized(size) => UiView {
                window: Area::spec_new(Vec2::spec_zero(), size),
                window_crossed: Area::spec_new(Vec2::spec_zero(), size),
                ..self
            },
            _ => self,
        };
        UiView {
            input: self.input.apply(event, now),
            events: if event is NotSupported {
                self.events
            } else {
                self.events.push(event)
            },
            ..resized
        }
    }

    /// The scope at the start of the next frame, the present one having
    /// ended at `now`: what belongs to the frame is forgotten, the store
    /// drops what was not declared, and everything else is kept.
    pub open spec fn clear(self, now: Instant) -> UiView {
        UiView {
            input: self.input.clear(),
            events: Seq::empty(),
            available_position: Vec2 { x: self.style.space, y: self.style.space },
            last_frame: now,
            next_number: 0,
            memory_clip: Seq::empty(),
            output_events: Seq::empty(),
            paint_layer: Layer::Middle,
            style: Style::spec_default(),
            memory: evict(self.memory),
            ..self
        }
    }

    /// The scope after the derived state of every identity declared in the
    /// previous frame has been moved on against the input of this frame,
    /// taken at `now`.
    pub open spec fn update(self, now: Instant) -> UiView {
        let done = update_all(self.memory, self.input, self.memory_clip_total, now);
        UiView {
            memory: done.memory,
            input: done.input,
            memory_clip_total: Seq::empty(),
            ..self
        }
    }
}

fn layer_for(rank: usize) -> (r: Layer)
    ensures
        r == layer_at(rank as int),
{
    if rank == 0 {
        Layer::Background
    } else if rank == 1 {
        Layer::Bottom
    } else if rank == 2 {
        Layer::Middle
    } else if rank == 3 {
        Layer::Foreground
    } else if rank == 4 {
        Layer::ToolTips
    } else {
        Layer::Debug
    }
}

impl Ui {
    /// Takes in one event at `now`. This only merges the event into the
    /// state of the scope; no widget is touched.
    pub fn event_at(&mut self, event: &Event, now: Instant)
        ensures
            final(self)@ == old(self)@.event(event@, now),
    {
        self.input_state.apply(event, now);
        match event {
            Event::Resized(size) => {
                self.window = Area::new_with_origin(*size);
                self.window_crossed = Area::new_with_origin(*size);
            },
            _ => {},
        }
        match event {
            Event::NotSupported => {},
            _ => {
                self.events.push(event.clone());
                assert(events_view(self.events@) =~= events_view(old(self).events@).push(event@));
            },
        }
    }

    /// Takes in one event at the present moment of the system clock.
    pub fn event(&mut self, event: &Event)
        ensures
            exists|now: Instant| final(self)@ == old(self)@.event(event@, now),
    {
        self.event_at(event, Instant::now());
    }

    /// Ends the frame at `now`. Hands back the ids that were declared more
    /// than once in the frame: a mistake of the caller that is reported and
    /// otherwise lived with.
    ///
    /// The persisted text of an identity is not touched here; it goes only
    /// when the identity itself is dropped.
    pub fn clear_at(&mut self, now: Instant) -> (r: Vec<String>)
        ensures
            final(self)@ == old(self)@.clear(now),
            r.deep_view() == conflicts(old(self)@.memory),
    {
        self.input_state.clear();
        self.events = Vec::new();
        self.available_position = Vec2::same(self.style.space);
        self.last_frame = now;
        self.available_id.1 = 0;
        self.memory_clip = Vec::new();
        self.output_events = Vec::new();
        self.paint_layer = Layer::Middle;
        self.style = Style::default();
        let twice = self.memory.evict();
        assert(events_view(self.events@) =~= Seq::empty());
        assert(strings_view(self.memory_clip@) =~= Seq::empty());
        assert(output_events_view(self.output_events@) =~= Seq::empty());
        twice
    }

    /// Ends the frame at the present moment of the system clock.
    pub fn clear(&mut self) -> (r: Vec<String>)
        ensures
            exists|now: Instant| final(self)@ == old(self)@.clear(now),
            r.deep_view() == conflicts(old(self)@.memory),
    {
        self.clear_at(Instant::now())
    }

    /// Moves the derived state of every identity declared in the previous
    /// frame on against the input of this frame, taken at `now`. This comes
    /// before any widget of the frame is declared.
    ///
    /// Layer by layer from the topmost down, and within a layer from the
    /// last declared to the first, each widget sees the input with the
    /// claims of those before it and adds its own.
    #[verifier::rlimit(40)]
    pub fn update_at(&mut self, now: Instant)
        ensures
            final(self)@ == old(self)@.update(now),
    {
        let ghost ids = strings_view(self.memory_clip_total@);
        let ghost goal = update_all(self@.memory, self@.input, ids, now);
        let ghost mut state = UpdateState {
            memory: self@.memory,
            input: self@.input,
            done: Set::empty(),
        };
        let mut done: Vec<bool> = Vec::new();
        let mut n: usize = 0;
        while n < self.memory.len()
            invariant
                n <= self.memory@.len(),
                done.len() == n,
                forall|k: int| 0 <= k < n ==> !done@[k],
            decreases self.memory@.len() - n,
        {
            done.push(false);
            n += 1;
        }
        let mut rank: usize = 6;
        while rank > 0
            invariant
                rank <= 6,
                ids == strings_view(self.memory_clip_total@),
                state.memory == self.memory@,
                state.input == self.input_state@,
                done.len() == state.memory.len(),
                forall|k: int| 0 <= k < done.len() ==> done@[k] == state.done.contains(k),
                update_layers(state, ids, rank as int - 1, now) == goal,
                self@ == (UiView { memory: self.memory@, input: self.input_state@, ..old(self)@ }),
            decreases rank,
        {
            rank -= 1;
            let layer = layer_for(rank);
            let mut i: usize = self.memory_clip_total.len();
            assert(ids.take(i as int) =~= ids);
            while i > 0
                invariant
                    i <= self.memory_clip_total.len(),
                    rank < 6,
                    layer == layer_at(rank as int),
                    ids == strings_view(self.memory_clip_total@),
                    state.memory == self.memory@,
                    state.input == self.input_state@,
                    done.len() == state.memory.len(),
                    forall|k: int| 0 <= k < done.len() ==> done@[k] == state.done.contains(k),
                    update_layers(
                        update_layer(state, ids.take(i as int), layer, now),
                        ids,
                        rank as int - 1,
                        now,
                    ) == goal,
                    self@ == (UiView {
                        memory: self.memory@,
                        input: self.input_state@,
                        ..old(self)@
                    }),
                decreases i,
            {
                proof {
                    assert(ids.take(i as int).last() == ids[i - 1]);
                    assert(ids.take(i as int).drop_last() =~= ids.take(i - 1));
                    assert(ids[i - 1] == self.memory_clip_total@[i - 1]@);
                }
                i -= 1;
                let k = self.memory.find(&self.memory_clip_total[i]);
                if k < self.memory.len() && !done[k] && self.memory.layer_of(k) == layer {
                    self.memory.update_entry_at(k, &mut self.input_state, now);
                    done[k] = true;
                }
                proof {
                    state = update_step(state, ids[i as int], layer, now);
                }
            }
        }
        self.memory_clip_total = Vec::new();
        assert(strings_view(self.memory_clip_total@) =~= Seq::empty());
    }

    /// Moves the derived state on, at the present moment of the system
    /// clock.
    pub fn update(&mut self)
        ensures
            exists|now: Instant| final(self)@ == old(self)@.update(now),
    {
        self.update_at(Instant::now());
    }
}

/// The smallest rectangle around the areas of the responses; the zero
/// rectangle when there are none.
pub open spec fn combined(rs: Seq<ResponseView>) -> Area
    decreases rs.len(),
{
    if rs.len() == 0 {
        Area::spec_zero()
    } else {
        combined(rs.drop_last()).spec_combine(rs.last().area)
    }
}

/// The smallest rectangle around the areas of the responses.
pub fn combine_all(rs: &Vec<Response>) -> (r: Area)
    ensures
        r == combined(responses_view(rs@)),
{
    let ghost views = responses_view(rs@);
    let mut area = Area::zero();
    let mut i: usize = 0;
    while i < rs.len()
        invariant
            i <= rs.len(),
            views == responses_view(rs@),
            area == combined(views.take(i as int)),
        decreases rs.len() - i,
    {
        proof {
            assert(views.take(i + 1).drop_last() =~= views.take(i as int));
            assert(views.take(i + 1).last() == rs@[i as int]@);
        }
        area.combine(&rs[i].area);
        i += 1;
    }
    assert(views.take(rs.len() as int) =~= views);
    area
}

/// What a scope sets aside while a stretch of widgets is laid out in
/// another direction.
#[derive(Clone, Copy, Debug, PartialEq, Eq, Structural)]
pub struct LayoutFrame {
    pub original_layout: Layout,
    pub original_position: Vec2,
}

/// The response of a container together with those of the widgets
/// declared inside it.
#[derive(Debug)]
pub struct InnerResponse<R> {
    /// What the code inside the container handed back; `None` when the
    /// container kept its inside shut, so that the code never ran.
    pub return_value: Option<R>,
    pub inner_responses: Vec<Response>,
    /// The response of the container itself.
    pub response: Response,
}

impl<R> InnerResponse<R> {
    /// The response of a container that showed its inside.
    pub fn new(response: Response, inner_responses: Vec<Response>, return_value: R) -> (r:
        InnerResponse<R>)
        ensures
            r.response == response,
            r.inner_responses == inner_responses,
            r.return_value == Some(return_value),
    {
        InnerResponse { response, inner_responses, return_value: Some(return_value) }
    }
}

impl<R> From<(Response, Vec<Response>, R)> for InnerResponse<R> {
    fn from(input: (Response, Vec<Response>, R)) -> (r: InnerResponse<R>) {
        let (response, inner_responses, return_value) = input;
        InnerResponse { response, inner_responses, return_value: Some(return_value) }
    }
}

impl<R> vstd::std_specs::convert::FromSpecImpl<(Response, Vec<Response>, R)> for InnerResponse<R> {
    open spec fn obeys_from_spec() -> bool {
        true
    }

    open spec fn from_spec(input: (Response, Vec<Response>, R)) -> InnerResponse<R> {
        InnerResponse { response: input.0, inner_responses: input.1, return_value: Some(input.2) }
    }
}

/// The response of an entry that belongs to the scope `scope`.
pub open spec fn inner_response_of(scope: Seq<char>) -> spec_fn(MemoryTempView) -> Option<ResponseView> {
    |e: MemoryTempView|
        if is_inner_key(e.response.id, scope) {
            Some(e.response)
        } else {
            None
        }
}

/// The responses of the entries that belong to the scope `scope`, in the
/// order of the store.
pub open spec fn harvest(m: MemoryView, scope: Seq<char>) -> Seq<ResponseView> {
    m.filter_map(inner_response_of(scope))
}

impl UiView {
    /// Where a stretch of widgets in direction `layout` begins: an inverse
    /// one at the far edge of the scope's room, less the spacing, moved with
    /// the scope's content.
    pub open spec fn layout_start(self, layout: Layout) -> Vec2 {
        if layout.is_inverse {
            if layout.is_horizental {
                (Vec2 {
                    x: clamp_i64(self.window.right_bottom.x - self.style.space),
                    y: self.available_position.y,
                }).spec_plus(self.offset)
            } else {
                (Vec2 {
                    x: self.available_position.x,
                    y: clamp_i64(self.window.right_bottom.y - self.style.space),
                }).spec_plus(self.offset)
            }
        } else {
            self.available_position
        }
    }

    /// The scope at the start of a stretch of widgets in direction
    /// `layout`.
    pub open spec fn layout_begin(self, layout: Layout) -> UiView {
        UiView {
            layout,
            available_position: self.layout_start(layout),
            memory_clip: Seq::empty(),
            ..self
        }
    }

    /// The scope at the end of a stretch of widgets: direction and place
    /// are as before the stretch, and the stretch as a whole takes room as
    /// one widget would.
    pub open spec fn layout_end(self, frame: LayoutFrame) -> UiView {
        UiView {
            layout: frame.original_layout,
            available_position: advanced(
                frame.original_layout,
                frame.original_position,
                combined(responses_of(self.memory, self.memory_clip)),
                self.style.space,
            ),
            memory_clip: Seq::empty(),
            ..self
        }
    }

    /// The scope that the container `id` opens inside this one, with room
    /// `area`, on layer `layer`, its content moved by `offset`.
    ///
    /// It has an id of its own, so that equal ids inside different
    /// containers stay apart; it starts placing widgets at the corner of
    /// its room; it sees of its room what this scope sees; and it shares
    /// the store and the input with this scope.
    pub open spec fn child(self, area: Area, id: Seq<char>, layer: Layer, offset: Vec2) -> UiView {
        UiView {
            memory: self.memory,
            memory_clip: self.memory_clip,
            memory_clip_total: self.memory_clip_total,
            last_frame: self.last_frame,
            available_position: area.left_top.spec_plus(
                Vec2 { x: self.style.space, y: self.style.space },
            ).spec_plus(offset),
            input: self.input,
            events: self.events,
            window: area,
            style: self.style,
            scope_id: child_scope(self.scope_id, id),
            next_number: 0,
            language: self.language,
            paint_layer: layer,
            layout: Layout { is_inverse: false, is_horizental: false },
            output_events: Seq::empty(),
            texture_id: self.texture_id,
            offset,
            parent_area: Some(self.window),
            start_position: area.left_top.spec_plus(offset),
            window_crossed: self.window_crossed.spec_cross_part(area),
            collapse_times: crate::memory::next_count(self.collapse_times),
        }
    }

    /// This scope after the scope `sub` within it has come to its end:
    /// what the inner scope did to the store, the input, the style and the
    /// collections of declared ids is taken over, and its requests to the
    /// host are queued behind this scope's own.
    pub open spec fn merged(self, sub: UiView) -> UiView {
        UiView {
            memory: sub.memory,
            input: sub.input,
            style: sub.style,
            output_events: self.output_events + sub.output_events,
            texture_id: sub.texture_id,
            memory_clip: sub.memory_clip,
            memory_clip_total: sub.memory_clip_total,
            ..self
        }
    }
}

impl Ui {
    /// Starts a stretch of widgets placed in direction `layout`. Hands
    /// back what has to be given to [`Ui::layout_end`] at the end of the
    /// stretch.
    pub fn layout_begin(&mut self, layout: Layout) -> (r: LayoutFrame)
        ensures
            r == (LayoutFrame {
                original_layout: old(self)@.layout,
                original_position: old(self)@.available_position,
            }),
            final(self)@ == old(self)@.layout_begin(layout),
    {
        let frame = LayoutFrame {
            original_layout: self.layout,
            original_position: self.available_position,
        };
        self.layout = layout;
        if self.layout.is_inverse {
            if self.layout.is_horizental {
                self.available_position = Vec2::new(
                    sat_sub(self.window.right_top().x, self.style.space),
                    self.available_position.y,
                ).plus(self.offset);
            } else {
                self.available_position = Vec2::new(
                    self.available_position.x,
                    sat_sub(self.window.left_bottom().y, self.style.space),
                ).plus(self.offset);
            }
        }
        self.count();
        frame
    }

    /// Ends a stretch of widgets begun with [`Ui::layout_begin`].
    pub fn layout_end(&mut self, frame: LayoutFrame)
        ensures
            final(self)@ == old(self)@.layout_end(frame),
    {
        let responses = self.count();
        let mut area = combine_all(&responses);
        self.available_position = frame.original_position;
        self.layout = frame.original_layout;
        self.position_change(&mut area);
    }

    /// Places the widgets that `add_contents` declares in direction
    /// `layout`, and afterwards goes on as before, past the room that they
    /// took together.
    ///
    /// What is handed back is what `add_contents` hands back when run on
    /// the scope as [`Ui::layout_begin`] leaves it, and the scope ends as
    /// [`Ui::layout_end`] makes of what `add_contents` leaves.
    pub fn layout<R, F: FnOnce(&mut Ui) -> R>(&mut self, layout: Layout, add_contents: F) -> (r: R)
        requires
            forall|u: &mut Ui| call_requires(add_contents, (u,)),
        ensures
            final(self)@.layout == old(self)@.layout,
            final(self)@.memory_clip == Seq::<Seq<char>>::empty(),
            exists|u: &mut Ui|
                (*u)@ == old(self)@.layout_begin(layout) && #[trigger] call_ensures(
                    add_contents,
                    (u,),
                    r,
                ) && final(self)@ == (*final(u))@.layout_end(
                    LayoutFrame {
                        original_layout: old(self)@.layout,
                        original_position: old(self)@.available_position,
                    },
                ),
    {
        let frame = self.layout_begin(layout);
        let return_value = add_contents(self);
        self.layout_end(frame);
        return_value
    }

    /// Places the widgets that `add_contents` declares side by side.
    pub fn horizental<R, F: FnOnce(&mut Ui) -> R>(&mut self, add_contents: F) -> (r: R)
        requires
            forall|u: &mut Ui| call_requires(add_contents, (u,)),
        ensures
            final(self)@.layout == old(self)@.layout,
            final(self)@.memory_clip == Seq::<Seq<char>>::empty(),
            exists|u: &mut Ui|
                (*u)@ == old(self)@.layout_begin((Layout { is_inverse: false, is_horizental: true })) && #[trigger] call_ensures(
                    add_contents,
                    (u,),
                    r,
                ) && final(self)@ == (*final(u))@.layout_end(
                    LayoutFrame {
                        original_layout: old(self)@.layout,
                        original_position: old(self)@.available_position,
                    },
                ),
    {
        self.layout(Layout::horizental(), add_contents)
    }

    /// Places the widgets that `add_contents` declares side by side, from
    /// right to left.
    pub fn horizental_inverse<R, F: FnOnce(&mut Ui) -> R>(&mut self, add_contents: F) -> (r: R)
        requires
            forall|u: &mut Ui| call_requires(add_contents, (u,)),
        ensures
            final(self)@.layout == old(self)@.layout,
            final(self)@.memory_clip == Seq::<Seq<char>>::empty(),
            exists|u: &mut Ui|
                (*u)@ == old(self)@.layout_begin((Layout { is_inverse: true, is_horizental: true })) && #[trigger] call_ensures(
                    add_contents,
                    (u,),
                    r,
                ) && final(self)@ == (*final(u))@.layout_end(
                    LayoutFrame {
                        original_layout: old(self)@.layout,
                        original_position: old(self)@.available_position,
                    },
                ),
    {
        self.layout(Layout::horizental_inverse(), add_contents)
    }

    /// Places the widgets that `add_contents` declares one below the
    /// other.
    pub fn vertical<R, F: FnOnce(&mut Ui) -> R>(&mut self, add_contents: F) -> (r: R)
        requires
            forall|u: &mut Ui| call_requires(add_contents, (u,)),
        ensures
            final(self)@.layout == old(self)@.layout,
            final(self)@.memory_clip == Seq::<Seq<char>>::empty(),
            exists|u: &mut Ui|
                (*u)@ == old(self)@.layout_begin((Layout { is_inverse: false, is_horizental: false })) && #[trigger] call_ensures(
                    add_contents,
                    (u,),
                    r,
                ) && final(self)@ == (*final(u))@.layout_end(
                    LayoutFrame {
                        original_layout: old(self)@.layout,
                        original_position: old(self)@.available_position,
                    },
                ),
    {
        self.layout(Layout::vertical(), add_contents)
    }

    /// Places the widgets that `add_contents` declares one above the
    /// other, from bottom to top.
    pub fn vertical_inverse<R, F: FnOnce(&mut Ui) -> R>(&mut self, add_contents: F) -> (r: R)
        requires
            forall|u: &mut Ui| call_requires(add_contents, (u,)),
        ensures
            final(self)@.layout == old(self)@.layout,
            final(self)@.memory_clip == Seq::<Seq<char>>::empty(),
            exists|u: &mut Ui|
                (*u)@ == old(self)@.layout_begin((Layout { is_inverse: true, is_horizental: false })) && #[trigger] call_ensures(
                    add_contents,
                    (u,),
                    r,
                ) && final(self)@ == (*final(u))@.layout_end(
                    LayoutFrame {
                        original_layout: old(self)@.layout,
                        original_position: old(self)@.available_position,
                    },
                ),
    {
        self.layout(Layout::vertical_inverse(), add_contents)
    }

    /// The identity of the container `id` as seen from this scope.
    pub fn container_id(&self, id: &String) -> (r: String)
        ensures
            r@ == container_id_in(self@.scope_id, id@),
    {
        container_id_string(&self.available_id.0, id)
    }

    /// The identity under which a container `id` is declared in this
    /// scope.
    pub fn container_key(&self, id: &String) -> (r: String)
        ensures
            r@ == container_key(self@.scope_id, id@),
    {
        container_key_string(&self.available_id.0, id)
    }

    /// Opens the scope of the container `id` inside this one.
    pub fn sub_ui_begin(&self, area: Area, id: &String, layer: Layer, offset: Vec2) -> (sub: Ui)
        ensures
            sub@ == self@.child(area, id@, layer, offset),
    {
        let sub = Ui {
            memory: self.memory.clone(),
            memory_clip: copy_strings(&self.memory_clip),
            memory_clip_total: copy_strings(&self.memory_clip_total),
            last_frame: self.last_frame,
            available_position: area.left_top().plus(Vec2::same(self.style.space)).plus(offset),
            input_state: self.input_state.clone(),
            events: copy_events(&self.events),
            window: area,
            style: self.style,
            available_id: (child_scope_string(&self.available_id.0, id), 0),
            language: self.language.clone(),
            paint_layer: layer,
            layout: Layout::default(),
            output_events: Vec::new(),
            texture_id: copy_strings(&self.texture_id),
            offset,
            parent_area: Some(self.window),
            start_position: area.left_top().plus(offset),
            window_crossed: self.window_crossed.cross_part(&area),
            collapse_times: if self.collapse_times == usize::MAX {
                self.collapse_times
            } else {
                self.collapse_times + 1
            },
        };
        assert(sub@.output_events =~= Seq::empty());
        sub
    }

    /// Closes the scope `sub` that was opened inside this one: takes over
    /// what it did and hands back the responses of everything that belongs
    /// to it, in the order of the store.
    pub fn sub_ui_end(&mut self, sub: Ui) -> (r: Vec<Response>)
        ensures
            final(self)@ == old(self)@.merged(sub@),
            responses_view(r@) == harvest(sub@.memory, sub@.scope_id),
    {
        let ghost m = sub.memory@;
        let ghost pick = inner_response_of(sub@.scope_id);
        let mut inner: Vec<Response> = Vec::new();
        let mut i: usize = 0;
        assert(responses_view(inner@) =~= m.take(0).filter_map(pick));
        while i < sub.memory.entries.len()
            invariant
                i <= sub.memory.entries.len(),
                m == sub.memory@,
                pick == inner_response_of(sub@.scope_id),
                responses_view(inner@) == m.take(i as int).filter_map(pick),
            decreases sub.memory.entries.len() - i,
        {
            let ghost before = responses_view(inner@);
            proof {
                m.lemma_filter_map_take_succ(pick, i as int);
                assert(m[i as int] == sub.memory.entries@[i as int]@);
            }
            if is_inner(&sub.memory.entries[i].response.id, &sub.available_id.0) {
                let response = sub.memory.entries[i].response.clone();
                inner.push(response);
                assert(responses_view(inner@) =~= before.push(m[i as int].response));
            }
            i += 1;
        }
        assert(m.take(sub.memory.entries.len() as int) =~= m);
        let ghost queued = output_events_view(self.output_events@);
        let ghost added = output_events_view(sub.output_events@);
        let mut sub = sub;
        self.memory = sub.memory;
        self.input_state = sub.input_state;
        self.style = sub.style;
        self.output_events.append(&mut sub.output_events);
        self.texture_id = sub.texture_id;
        self.memory_clip = sub.memory_clip;
        self.memory_clip_total = sub.memory_clip_total;
        assert(output_events_view(self.output_events@) =~= queued + added);
        inner
    }
}

impl Ui {
    /// Declares `widget` under the next identity of this scope, at the
    /// scope's next free place.
    ///
    /// The identity is allocated, the widget claims its room, and the
    /// response it asks for is declared under the identity.
    pub fn add<W: Widget>(&mut self, widget: W) -> (r: Declared)
        ensures
            r.response@.id == old(self)@.next_id(),
            exists|w: &mut W, u: &mut Ui, response: Response|
                *w == widget && (*u)@ == old(self)@.numbered() && #[trigger] call_ensures(
                    W::ui,
                    (w, u, None::<Area>),
                    response,
                ) && final(self)@ == (*final(u))@.added(old(self)@.next_id(), response@)
                    && r.response@ == (*final(u))@.added_response(
                    old(self)@.next_id(),
                    response@,
                ) && r.need_draw == contains((*final(u))@.memory, old(self)@.next_id()),
    {
        let id = self.available_id();
        self.add_with_id(id, widget)
    }

    /// Declares `widget` under `id`, at the scope's next free place.
    pub fn add_with_id<W: Widget>(&mut self, id: String, widget: W) -> (r: Declared)
        ensures
            r.response@.id == id@,
            exists|w: &mut W, u: &mut Ui, response: Response|
                *w == widget && (*u)@ == old(self)@ && #[trigger] call_ensures(
                    W::ui,
                    (w, u, None::<Area>),
                    response,
                ) && final(self)@ == (*final(u))@.added(id@, response@) && r.response@ == (*final(u))@.added_response(id@, response@) && r.need_draw == contains(
                    (*final(u))@.memory,
                    id@,
                ),
    {
        let mut widget = widget;
        let response = widget.ui(self, None);
        self.add_widget(id, response)
    }

    /// Declares `widget` under the next identity of this scope, at
    /// `area`.
    pub fn put<W: Widget>(&mut self, widget: W, area: Area) -> (r: Declared)
        ensures
            r.response@.id == old(self)@.next_id(),
            exists|w: &mut W, u: &mut Ui, response: Response|
                *w == widget && (*u)@ == old(self)@.numbered() && #[trigger] call_ensures(
                    W::ui,
                    (w, u, Some(area)),
                    response,
                ) && final(self)@ == (*final(u))@.added(old(self)@.next_id(), response@)
                    && r.response@ == (*final(u))@.added_response(
                    old(self)@.next_id(),
                    response@,
                ) && r.need_draw == contains((*final(u))@.memory, old(self)@.next_id()),
    {
        let id = self.available_id();
        self.put_with_id(id, widget, area)
    }

    /// Declares `widget` under `id`, at `area`.
    pub fn put_with_id<W: Widget>(&mut self, id: String, widget: W, area: Area) -> (r: Declared)
        ensures
            r.response@.id == id@,
            exists|w: &mut W, u: &mut Ui, response: Response|
                *w == widget && (*u)@ == old(self)@ && #[trigger] call_ensures(
                    W::ui,
                    (w, u, Some(area)),
                    response,
                ) && final(self)@ == (*final(u))@.added(id@, response@) && r.response@ == (*final(u))@.added_response(id@, response@) && r.need_draw == contains(
                    (*final(u))@.memory,
                    id@,
                ),
    {
        let mut widget = widget;
        let response = widget.ui(self, Some(area));
        self.add_widget(id, response)
    }

    /// Shows a container: declares it like a widget, lets it decide
    /// whether its inside is shown, runs `inner_widget` against a scope of
    /// its own if so, and lets the container see what was declared there.
    ///
    /// Step by step: the container is asked for its id, its room, its layer
    /// and whether it takes clicks and drags; it is declared under its key
    /// in this scope; it begins. If it shows its inside, a scope is opened
    /// for it, `inner_widget` runs against that scope, the scope is closed
    /// and merged back, and the container ends. If it does not, nothing more
    /// happens: no scope is opened and nothing inside is declared.
    #[verifier::rlimit(40)]
    pub fn show<R, C: Container, F: FnOnce(&mut Ui, &mut C) -> R>(&mut self, container: &mut C, inner_widget: F) -> (r: InnerResponse<R>)
        requires
            forall|u: &mut Ui, c: &mut C| call_requires(inner_widget, (u, c)),
        ensures
            r.return_value is None ==> r.inner_responses@.len() == 0,
            r.return_value is None ==> exists|
                u1: &mut Ui,
                id: String,
                u2: &mut Ui,
                size: Area,
                u3: &mut Ui,
                layer: Layer,
                u4: &mut Ui,
                is_clickable: bool,
                u5: &mut Ui,
                is_dragable: bool,
                now: Instant,
                key: String,
                c6: &mut C,
                u6: &mut Ui,
                opening: Opening,
            |
                {
                    &&& (*u1)@ == old(self)@
                    &&& #[trigger] call_ensures(C::get_id, (&*old(container), u1), id)
                    &&& (*u2)@ == (*final(u1))@
                    &&& #[trigger] call_ensures(C::area, (&*old(container), u2), size)
                    &&& (*u3)@ == (*final(u2))@
                    &&& #[trigger] call_ensures(C::layer, (&*old(container), u3), layer)
                    &&& (*u4)@ == (*final(u3))@
                    &&& #[trigger] call_ensures(
                        C::is_clickable,
                        (&*old(container), u4),
                        is_clickable,
                    )
                    &&& (*u5)@ == (*final(u4))@
                    &&& #[trigger] call_ensures(C::is_dragable, (&*old(container), u5), is_dragable)
                    &&& key@ == container_key((*final(u3))@.scope_id, id@)
                    &&& r.response@ == (*final(u5))@.declared_response(
                        size,
                        key@,
                        is_clickable,
                        is_dragable,
                        now,
                    )
                    &&& *c6 == *old(container)
                    &&& (*u6)@ == #[trigger] (*final(u5))@.with_declared(
                        size,
                        key@,
                        is_clickable,
                        is_dragable,
                        now,
                    )
                    &&& #[trigger] call_ensures(C::begin, (c6, u6, &r.response, &key), opening)
                    &&& !opening.show
                    &&& final(self)@ == (*final(u6))@
                    &&& *final(container) == *final(c6)
                },
            r.return_value is Some ==> exists|
                u1: &mut Ui,
                id: String,
                u2: &mut Ui,
                size: Area,
                u3: &mut Ui,
                layer: Layer,
                u4: &mut Ui,
                is_clickable: bool,
                u5: &mut Ui,
                is_dragable: bool,
                now: Instant,
                key: String,
                c6: &mut C,
                u6: &mut Ui,
                opening: Opening,
                c7: &mut C,
                u7: &mut Ui,
                c8: &mut C,
                u8: &mut Ui,
            |
                {
                    &&& (*u1)@ == old(self)@
                    &&& #[trigger] call_ensures(C::get_id, (&*old(container), u1), id)
                    &&& (*u2)@ == (*final(u1))@
                    &&& #[trigger] call_ensures(C::area, (&*old(container), u2), size)
                    &&& (*u3)@ == (*final(u2))@
                    &&& #[trigger] call_ensures(C::layer, (&*old(container), u3), layer)
                    &&& (*u4)@ == (*final(u3))@
                    &&& #[trigger] call_ensures(
                        C::is_clickable,
                        (&*old(container), u4),
                        is_clickable,
                    )
                    &&& (*u5)@ == (*final(u4))@
                    &&& #[trigger] call_ensures(C::is_dragable, (&*old(container), u5), is_dragable)
                    &&& key@ == container_key((*final(u3))@.scope_id, id@)
                    &&& r.response@ == (*final(u5))@.declared_response(
                        size,
                        key@,
                        is_clickable,
                        is_dragable,
                        now,
                    )
                    &&& *c6 == *old(container)
                    &&& (*u6)@ == #[trigger] (*final(u5))@.with_declared(
                        size,
                        key@,
                        is_clickable,
                        is_dragable,
                        now,
                    )
                    &&& #[trigger] call_ensures(C::begin, (c6, u6, &r.response, &key), opening)
                    &&& opening.show
                    &&& *c7 == *final(c6)
                    &&& (*u7)@ == (*final(u6))@.child(size, id@, layer, opening.offset)
                    &&& #[trigger] call_ensures(inner_widget, (u7, c7), r.return_value->0)
                    &&& responses_view(r.inner_responses@) == harvest(
                        (*final(u7))@.memory,
                        (*final(u7))@.scope_id,
                    )
                    &&& *c8 == *final(c7)
                    &&& (*u8)@ == (*final(u6))@.merged((*final(u7))@)
                    &&& #[trigger] call_ensures(
                        C::end,
                        (c8, u8, &r.response, &r.inner_responses, &key),
                        (),
                    )
                    &&& final(self)@ == (*final(u8))@
                    &&& *final(container) == *final(c8)
                },
    {
        let id = container.get_id(self);
        let size = container.area(self);
        let layer = container.layer(self);
        let input_id = self.container_key(&id);
        let is_clickable = container.is_clickable(self);
        let is_dragable = container.is_dragable(self);
        let response = self.response_update(size, input_id.clone(), is_clickable, is_dragable);
        let opening = container.begin(self, &response, &input_id);
        if opening.show {
            let mut sub = self.sub_ui_begin(size, &id, layer, opening.offset);
            let return_value = inner_widget(&mut sub, container);
            let inner_responses = self.sub_ui_end(sub);
            let back = InnerResponse { return_value: Some(return_value), inner_responses, response };
            assert(back.return_value->0 == return_value);
            container.end(self, &back.response, &back.inner_responses, &input_id);
            back
        } else {
            InnerResponse { response, inner_responses: Vec::new(), return_value: None }
        }
    }
}

/// The test "is not the id `id`".
pub open spec fn not_id(id: Seq<char>) -> spec_fn(Seq<char>) -> bool {
    |s: Seq<char>| s != id
}

impl UiView {
    /// Whether the host has been asked to make a texture `id`.
    pub open spec fn has_texture(self, id: Seq<char>) -> bool {
        self.texture_id.contains(id)
    }

    /// The scope after a new texture has been asked for: when the id is
    /// taken, nothing happens.
    pub open spec fn create_texture(self, image: ImageView) -> UiView {
        if self.has_texture(image.id) {
            self
        } else {
            UiView {
                output_events: self.output_events.push(OutputEventView::TextureChange(image)),
                texture_id: self.texture_id.push(image.id),
                ..self
            }
        }
    }

    /// The scope after a texture has been asked to change: the request is
    /// queued in any case, and the id is noted when it is new.
    pub open spec fn change_texture(self, image: ImageView) -> UiView {
        UiView {
            output_events: self.output_events.push(OutputEventView::TextureChange(image)),
            texture_id: if self.has_texture(image.id) {
                self.texture_id
            } else {
                self.texture_id.push(image.id)
            },
            ..self
        }
    }

    /// The scope after a texture has been asked to go.
    pub open spec fn delete_texture(self, id: Seq<char>) -> UiView {
        UiView {
            output_events: self.output_events.push(OutputEventView::TextureDelete(id)),
            texture_id: self.texture_id.filter(not_id(id)),
            ..self
        }
    }
}

impl Ui {
    /// Whether the host has been asked to make a texture `id`.
    pub fn has_texture(&self, id: &String) -> (r: bool)
        ensures
            r == self@.has_texture(id@),
    {
        let ghost ids = strings_view(self.texture_id@);
        let mut i: usize = 0;
        while i < self.texture_id.len()
            invariant
                i <= self.texture_id.len(),
                ids == strings_view(self.texture_id@),
                forall|j: int| 0 <= j < i ==> ids[j] != id@,
            decreases self.texture_id.len() - i,
        {
            assert(ids[i as int] == self.texture_id@[i as int]@);
            if self.texture_id[i] == *id {
                return true;
            }
            i += 1;
        }
        false
    }

    /// Asks the host to make a texture of `image`, unless one with its id
    /// has been asked for before.
    pub fn create_texture(&mut self, image: Image)
        ensures
            final(self)@ == old(self)@.create_texture(image@),
    {
        if !self.has_texture(&image.id) {
            let id = image.id.clone();
            self.send_output_event(OutputEvent::TextureChange(image));
            self.texture_id.push(id);
            assert(strings_view(self.texture_id@) =~= strings_view(old(self).texture_id@).push(
                image@.id,
            ));
        }
    }

    /// Asks the host to make or replace the texture of `image`.
    pub fn change_texture(&mut self, image: Image)
        ensures
            final(self)@ == old(self)@.change_texture(image@),
    {
        let known = self.has_texture(&image.id);
        let id = image.id.clone();
        self.send_output_event(OutputEvent::TextureChange(image));
        if !known {
            self.texture_id.push(id);
            assert(strings_view(self.texture_id@) =~= strings_view(old(self).texture_id@).push(
                image@.id,
            ));
        }
    }

    /// Asks the host to drop the texture `id`.
    pub fn delete_texture(&mut self, id: String)
        ensures
            final(self)@ == old(self)@.delete_texture(id@),
    {
        let ghost ids = strings_view(self.texture_id@);
        let mut kept: Vec<String> = Vec::new();
        let mut i: usize = 0;
        assert(strings_view(kept@) =~= ids.take(0).filter(not_id(id@)));
        while i < self.texture_id.len()
            invariant
                i <= self.texture_id.len(),
                *self == *old(self),
                ids == strings_view(self.texture_id@),
                strings_view(kept@) == ids.take(i as int).filter(not_id(id@)),
            decreases self.texture_id.len() - i,
        {
            let ghost before = strings_view(kept@);
            proof {
                ids.lemma_take_succ_push(i as int);
                ids.take(i as int).lemma_filter_push(ids[i as int], not_id(id@));
                assert(ids[i as int] == self.texture_id@[i as int]@);
            }
            if !(self.texture_id[i] == id) {
                kept.push(self.texture_id[i].clone());
                assert(strings_view(kept@) =~= before.push(ids[i as int]));
            }
            i += 1;
        }
        assert(ids.take(self.texture_id.len() as int) =~= ids);
        self.texture_id = kept;
        self.send_output_event(OutputEvent::TextureDelete(id));
    }
}

} // verus!
