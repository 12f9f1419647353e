//! The tooltip host: whatever is declared inside it shows a tip while a
//! pointer rests on it.

use vstd::prelude::*;
use crate::animation::{blend_vec2, spec_blend_vec2, spec_hover_phase, FadePhase};
use crate::clock::{clamp_i64, Duration, Instant, NANOS_PER_MILLI};
use crate::container::state::{ContainerState, ContainerStateView, TooltipProviderTemp};
use crate::container::{Align, Container, Opening};
use crate::identity::container_id_in;
use crate::layer::Layer;
use crate::math::{sat_add, sat_sub, Area, Vec2};
use crate::memory::{read_container, save_container};
use crate::response::{Response, ResponseView};
use crate::ui::{responses_view, Ui, UiView};
use crate::widgets::Status;

verus! {

/// How long a tip takes to come and to go, in milliseconds.
pub const TIP_MILLIS: i64 = 250;

/// Half of a length, rounded towards nothing.
pub open spec fn spec_half(v: i64) -> i64 {
    if v >= 0 {
        (v / 2) as i64
    } else {
        (0 - (0 - v) / 2) as i64
    }
}

/// Half of a length, rounded towards nothing.
pub fn half(v: i64) -> (r: i64)
    ensures
        r == spec_half(v),
{
    if v >= 0 {
        v / 2
    } else if v == i64::MIN {
        i64::MIN / 2
    } else {
        0 - (0 - v) / 2
    }
}

/// The middle between two coordinates.
pub open spec fn spec_middle(a: i64, b: i64) -> i64 {
    if b >= a {
        (a + (b - a) / 2) as i64
    } else {
        (b + (a - b) / 2) as i64
    }
}

/// The middle between two coordinates.
pub fn middle(a: i64, b: i64) -> (r: i64)
    ensures
        r == spec_middle(a, b),
{
    if b >= a {
        let way: i128 = b as i128 - a as i128;
        (a as i128 + way / 2) as i64
    } else {
        let way: i128 = a as i128 - b as i128;
        (b as i128 + way / 2) as i64
    }
}

/// The middle of a rectangle.
pub open spec fn spec_center(a: Area) -> Vec2 {
    Vec2 {
        x: spec_middle(a.left_top.x, a.right_bottom.x),
        y: spec_middle(a.left_top.y, a.right_bottom.y),
    }
}

/// The middle of a rectangle.
pub fn center(a: &Area) -> (r: Vec2)
    ensures
        r == spec_center(*a),
{
    Vec2 {
        x: middle(a.left_top.x, a.right_bottom.x),
        y: middle(a.left_top.y, a.right_bottom.y),
    }
}

/// The smallest rectangle around the areas of the responses that are not
/// the host's own: neither under its identity `id` nor with its area
/// `own`.
pub open spec fn hosted_content(rs: Seq<ResponseView>, own: Area, id: Seq<char>) -> Area
    decreases rs.len(),
{
    if rs.len() == 0 {
        Area::spec_zero()
    } else if rs.last().id != id && rs.last().area != own {
        hosted_content(rs.drop_last(), own, id).spec_combine(rs.last().area)
    } else {
        hosted_content(rs.drop_last(), own, id)
    }
}

/// The room that the content of a tooltip host `id` with area `own`
/// takes.
pub fn hosted_area(rs: &Vec<Response>, own: &Area, id: &String) -> (r: Area)
    ensures
        r == hosted_content(responses_view(rs@), *own, id@),
{
    let ghost views = responses_view(rs@);
    let mut area = Area::zero();
    let mut i: usize = 0;
    while i < rs.len()
        invariant
            i <= rs.len(),
            views == responses_view(rs@),
            area == hosted_content(views.take(i as int), *own, id@),
        decreases rs.len() - i,
    {
        proof {
            assert(views.take(i + 1).drop_last() =~= views.take(i as int));
            assert(views.take(i + 1).last() == rs@[i as int]@);
        }
        if !(rs[i].id == *id) && rs[i].area != *own {
            area.combine(&rs[i].area);
        }
        i += 1;
    }
    assert(views.take(rs.len() as int) =~= views);
    area
}

/// What a container state holds for a tooltip host; nothing remembered
/// when it holds something else.
pub open spec fn tooltip_of(state: ContainerStateView) -> TooltipProviderTemp {
    match state {
        ContainerStateView::Tooltip(t) => t,
        _ => TooltipProviderTemp { area: Vec2::spec_zero() },
    }
}

/// What the scope remembers for the tooltip host `id`.
pub fn read_tooltip(ui: &Ui, id: &String) -> (r: TooltipProviderTemp)
    ensures
        r == tooltip_of(read_container(ui@.memory, id@)),
{
    match ui.container_read(id) {
        ContainerState::Tooltip(t) => t,
        _ => TooltipProviderTemp { area: Vec2::zero() },
    }
}

/// Shows a tip for what is declared inside it.
#[derive(Debug)]
pub struct TooltipProvider {
    pub(crate) id: String,
    pub(crate) text: String,
    pub(crate) text_size: Vec2,
    pub(crate) align: [Align; 2],
    pub(crate) hover_time: Duration,
    pub(crate) space: Option<i64>,
    pub(crate) status: Status,
}

/// Mathematical value of a [`TooltipProvider`].
pub struct TooltipProviderView {
    pub id: Seq<char>,
    /// The words of the tip.
    pub text: Seq<char>,
    /// The room that the words of the tip take when drawn.
    pub text_size: Vec2,
    /// Where the tip goes, along the horizontal axis.
    pub align_x: Align,
    /// Where the tip goes, along the vertical axis.
    pub align_y: Align,
    /// How long a pointer has to rest before the tip comes.
    pub hover_time: Duration,
    /// Room between the words of the tip and its edge; `None` for the
    /// spacing of the style.
    pub space: Option<i64>,
    pub status: Status,
}

impl View for TooltipProvider {
    type V = TooltipProviderView;

    closed spec fn view(&self) -> TooltipProviderView {
        TooltipProviderView {
            id: self.id@,
            text: self.text@,
            text_size: self.text_size,
            align_x: self.align[0],
            align_y: self.align[1],
            hover_time: self.hover_time,
            space: self.space,
            status: self.status,
        }
    }
}

impl TooltipProviderView {
    /// The identity under which the host's state is kept, seen from `ui`.
    pub open spec fn key(self, ui: UiView) -> Seq<char> {
        container_id_in(ui.scope_id, self.id)
    }

    /// The room that the host asks for in `ui`: what its content took in
    /// the previous frame, and one and a half times the spacing.
    pub open spec fn area_in(self, ui: UiView) -> Area {
        let pad = clamp_i64(ui.style.space + spec_half(ui.style.space));
        Area::spec_new(
            ui.available_position,
            ui.available_position.spec_plus(
                tooltip_of(read_container(ui.memory, self.key(ui))).area,
            ).spec_plus(Vec2 { x: pad, y: pad }),
        )
    }

    /// How the tip of the widget with response `res` shows at `now`: it
    /// comes once a pointer has rested on the widget for the host's hover
    /// time.
    pub open spec fn phase(self, res: ResponseView, now: Instant) -> FadePhase {
        spec_hover_phase(
            res.hover_start(),
            res.hover_lost(),
            self.hover_time,
            Duration { nanos: (TIP_MILLIS * NANOS_PER_MILLI) as i128 },
            now,
        )
    }

    /// The extent of the tip: its words with room around them.
    pub open spec fn tip_size(self, space: i64) -> Vec2 {
        let pad = match self.space {
            Some(s) => s,
            None => space,
        };
        Vec2 {
            x: clamp_i64(self.text_size.x + clamp_i64(pad + pad)),
            y: clamp_i64(self.text_size.y + pad),
        }
    }

    /// Where the tip of a widget with room `target` starts out: in the
    /// middle of the widget.
    pub open spec fn tip_start(self, target: Area, space: i64) -> Vec2 {
        spec_center(target).spec_minus(Vec2 { x: 0, y: spec_half(self.tip_size(space).y) })
    }

    /// Where the tip of a widget with room `target` ends up: beside, on or
    /// beyond the widget along each axis, half the spacing away.
    pub open spec fn tip_end(self, target: Area, space: i64) -> Vec2 {
        let gap = spec_half(space);
        let height = self.tip_size(space).y;
        Vec2 {
            x: match self.align_x {
                Align::Left => clamp_i64(target.left_top.x - gap),
                Align::Middle => spec_center(target).x,
                Align::Right => clamp_i64(target.right_bottom.x + gap),
            },
            y: match self.align_y {
                Align::Left => clamp_i64(clamp_i64(target.left_top.y - gap) - height),
                Align::Middle => clamp_i64(spec_center(target).y - spec_half(height)),
                Align::Right => clamp_i64(target.right_bottom.y + gap),
            },
        }
    }

    /// Where the tip of a widget with room `target` is drawn when it shows
    /// by the part `shown`: that part of the way from its start to its end,
    /// moved left by half its width.
    pub open spec fn tip_position(self, target: Area, space: i64, shown: i64) -> Vec2 {
        spec_blend_vec2(
            self.tip_start(target, space),
            self.tip_end(target, space),
            shown,
        ).spec_minus(Vec2 { x: spec_half(self.tip_size(space).x), y: 0 })
    }
}

impl Default for TooltipProvider {
    fn default() -> (r: TooltipProvider)
        ensures
            r@ == (TooltipProviderView {
                id: Seq::empty(),
                text: Seq::empty(),
                text_size: Vec2::spec_zero(),
                align_x: Align::Middle,
                align_y: Align::Middle,
                hover_time: Duration { nanos: 0 },
                space: None,
                status: Status::Default,
            }),
    {
        TooltipProvider::new(String::new(), String::new())
    }
}

impl TooltipProvider {
    /// A tooltip host `id` with the tip `tip`, which comes at once and
    /// shows over the middle of the widget.
    pub fn new(id: String, tip: String) -> (r: TooltipProvider)
        ensures
            r@ == (TooltipProviderView {
                id: id@,
                text: tip@,
                text_size: Vec2::spec_zero(),
                align_x: Align::Middle,
                align_y: Align::Middle,
                hover_time: Duration { nanos: 0 },
                space: None,
                status: Status::Default,
            }),
    {
        TooltipProvider {
            id,
            text: tip,
            text_size: Vec2::zero(),
            align: [Align::Middle, Align::Middle],
            hover_time: Duration::zero(),
            space: None,
            status: Status::Default,
        }
    }

    /// Sets where the tip goes, along the horizontal and the vertical
    /// axis.
    pub fn align(self, align: [Align; 2]) -> (r: TooltipProvider)
        ensures
            r@ == (TooltipProviderView { align_x: align[0], align_y: align[1], ..self@ }),
    {
        let mut s = self;
        s.align = align;
        s
    }

    /// Sets the words of the tip.
    pub fn tip(self, tip: String) -> (r: TooltipProvider)
        ensures
            r@ == (TooltipProviderView { text: tip@, ..self@ }),
    {
        let mut s = self;
        s.text = tip;
        s
    }

    /// Tells the host how much room the words of the tip take when drawn.
    pub fn text_size(self, size: Vec2) -> (r: TooltipProvider)
        ensures
            r@ == (TooltipProviderView { text_size: size, ..self@ }),
    {
        let mut s = self;
        s.text_size = size;
        s
    }

    /// Sets how long a pointer has to rest on a widget before the tip
    /// comes.
    pub fn hover_time(self, hover_time: Duration) -> (r: TooltipProvider)
        ensures
            r@ == (TooltipProviderView { hover_time, ..self@ }),
    {
        let mut s = self;
        s.hover_time = hover_time;
        s
    }

    /// Sets the room between the words of the tip and its edge.
    pub fn padding(self, space: i64) -> (r: TooltipProvider)
        ensures
            r@ == (TooltipProviderView { space: Some(space), ..self@ }),
    {
        let mut s = self;
        s.space = Some(space);
        s
    }

    /// Sets the status of the tip, which gives it its colour.
    pub fn status(self, status: Status) -> (r: TooltipProvider)
        ensures
            r@ == (TooltipProviderView { status, ..self@ }),
    {
        let mut s = self;
        s.status = status;
        s
    }

    /// How the tip of the widget with response `res` shows at `now`.
    pub fn phase_at(&self, res: &Response, now: Instant) -> (r: FadePhase)
        ensures
            r == self@.phase(res@, now),
    {
        res.hover_phase_at(self.hover_time, Duration::milliseconds(TIP_MILLIS), now)
    }

    /// The extent of the tip in a scope with spacing `space`.
    pub fn tip_size(&self, space: i64) -> (r: Vec2)
        ensures
            r == self@.tip_size(space),
    {
        let pad = match self.space {
            Some(s) => s,
            None => space,
        };
        Vec2 {
            x: sat_add(self.text_size.x, sat_add(pad, pad)),
            y: sat_add(self.text_size.y, pad),
        }
    }

    /// Where the tip of a widget with room `target` is drawn when it shows
    /// by the part `shown`.
    pub fn tip_position(&self, target: &Area, space: i64, shown: i64) -> (r: Vec2)
        ensures
            r == self@.tip_position(*target, space, shown),
    {
        let size = self.tip_size(space);
        let middle = center(target);
        let start = middle.minus(Vec2::y(half(size.y)));
        let gap = half(space);
        let end = Vec2 {
            x: match self.align[0] {
                Align::Left => sat_sub(target.left_top.x, gap),
                Align::Middle => middle.x,
                Align::Right => sat_add(target.right_bottom.x, gap),
            },
            y: match self.align[1] {
                Align::Left => sat_sub(sat_sub(target.left_top.y, gap), size.y),
                Align::Middle => sat_sub(middle.y, half(size.y)),
                Align::Right => sat_add(target.right_bottom.y, gap),
            },
        };
        blend_vec2(start, end, shown).minus(Vec2::x(half(size.x)))
    }
}

impl Container for TooltipProvider {
    fn get_id(&self, ui: &mut Ui) -> (r: String)
        ensures
            r@ == self@.id,
            final(ui)@ == old(ui)@,
    {
        self.id.clone()
    }

    fn is_clickable(&self, ui: &mut Ui) -> (r: bool)
        ensures
            !r,
            final(ui)@ == old(ui)@,
    {
        false
    }

    fn is_dragable(&self, ui: &mut Ui) -> (r: bool)
        ensures
            !r,
            final(ui)@ == old(ui)@,
    {
        false
    }

    fn area(&self, ui: &mut Ui) -> (r: Area)
        ensures
            r == self@.area_in(old(ui)@),
            final(ui)@ == old(ui)@,
    {
        let id = ui.container_id(&self.id);
        let temp = read_tooltip(ui, &id);
        let space = ui.style().space;
        let pad = sat_add(space, half(space));
        Area::new(
            ui.available_position(),
            ui.available_position().plus(temp.area).plus(Vec2::same(pad)),
        )
    }

    fn layer(&self, ui: &mut Ui) -> (r: Layer)
        ensures
            r == old(ui)@.paint_layer,
            final(ui)@ == old(ui)@,
    {
        ui.paint_layer()
    }

    fn begin(&mut self, ui: &mut Ui, response: &Response, id: &String) -> (r: Opening)
        ensures
            r == (Opening { show: true, offset: Vec2::spec_zero() }),
            final(ui)@ == old(ui)@,
            final(self)@ == old(self)@,
    {
        Opening { show: true, offset: Vec2::zero() }
    }

    fn end(&mut self, ui: &mut Ui, response: &Response, inner_responses: &Vec<Response>, id: &String)
        ensures
            final(self)@ == old(self)@,
            final(ui)@ == (UiView {
                memory: save_container(
                    old(ui)@.memory,
                    id@,
                    ContainerStateView::Tooltip(
                        TooltipProviderTemp {
                            area: hosted_content(
                                responses_view(inner_responses@),
                                response@.area,
                                id@,
                            ).spec_width_and_height(),
                        },
                    ),
                ),
                ..old(ui)@
            }),
    {
        let area = hosted_area(inner_responses, &response.area, id);
        ui.container_save(
            id,
            ContainerState::Tooltip(TooltipProviderTemp { area: area.width_and_height() }),
        );
    }
}

} // verus!
