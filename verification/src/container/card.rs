//! The card: a panel that can scroll its content, be dragged about and be
//! resized.

use vstd::prelude::*;
use crate::animation::{blend_vec2, spec_blend_vec2};
use crate::clock::{clamp_i64, Duration, Instant};
use crate::container::state::{CardTemp, ContainerState, ContainerStateView};
use crate::container::{Container, Opening};
use crate::identity::container_id_in;
use crate::layer::Layer;
use crate::math::{sat_add, sat_sub, Area, Vec2};
use crate::memory::{read_container, save_container};
use crate::response::{Response, ResponseView};
use crate::ui::{responses_view, Ui, UiView};
use crate::widgets::{Color, Status};

verus! {

/// How far past the end of its content a card may be scrolled.
pub const SCROLL_SLACK: i64 = 32;

/// Width of the bands along the edge of a card by which it is dragged, and
/// side of the squares in its corners by which it is resized.
pub const HANDLE: i64 = 16;

/// One handle's width backwards.
pub const BACK: i64 = -16;

/// The scroll offset along one axis, held between the far end of the
/// content, with some slack, and nothing: `extra` is by how much the
/// content is longer than the card.
pub open spec fn clamp_scroll(target: i64, extra: i64) -> i64 {
    if extra < 0 {
        0
    } else if target < clamp_i64(0 - clamp_i64(extra + SCROLL_SLACK)) {
        clamp_i64(0 - clamp_i64(extra + SCROLL_SLACK))
    } else if target > 0 {
        0
    } else {
        target
    }
}

fn clamp_scroll_to(target: i64, extra: i64) -> (r: i64)
    ensures
        r == clamp_scroll(target, extra),
{
    if extra < 0 {
        0
    } else {
        let far = sat_sub(0, sat_add(extra, SCROLL_SLACK));
        if target < far {
            far
        } else if target > 0 {
            0
        } else {
            target
        }
    }
}

impl CardTemp {
    /// The time to evaluate the easing of the scroll at, at `now`: the time
    /// since the present move began, or none when it is yet to begin.
    pub open spec fn spec_animation_time(self, now: Instant) -> Duration {
        match self.change_time {
            Some(t) => now.spec_since(t),
            None => Duration { nanos: 0 },
        }
    }

    /// Where the card has scrolled to, given the progress of the present
    /// move; `None` for a move that is over.
    pub open spec fn current_value(self, progress: Option<i64>) -> Vec2 {
        if self.target == self.from {
            self.target
        } else {
            match progress {
                Some(t) => spec_blend_vec2(self.from, self.target, t),
                None => self.target,
            }
        }
    }

    /// What is remembered after the scroll offset has been asked for at
    /// `now`: a move that was yet to begin has begun, and a move that is
    /// over has arrived.
    pub open spec fn settled(self, progress: Option<i64>, now: Instant) -> CardTemp {
        if self.target == self.from {
            self
        } else {
            CardTemp {
                change_time: match self.change_time {
                    Some(t) => Some(t),
                    None => Some(now),
                },
                from: match progress {
                    Some(_) => self.from,
                    None => self.target,
                },
                ..self
            }
        }
    }

    /// The scroll offset nearest to `target` that a card with room
    /// `container_area` allows.
    pub open spec fn allowed(self, target: Vec2, container_area: Area) -> Vec2 {
        let extra = self.maxium.spec_minus(container_area.spec_width_and_height());
        Vec2 { x: clamp_scroll(target.x, extra.x), y: clamp_scroll(target.y, extra.y) }
    }

    /// What is remembered after a move to `target` has begun at `now`: the
    /// move starts from where the card has scrolled to, and goes to the
    /// nearest offset that the card allows.
    pub open spec fn changed(
        self,
        target: Vec2,
        container_area: Area,
        progress: Option<i64>,
        now: Instant,
    ) -> CardTemp {
        CardTemp {
            target: self.allowed(target, container_area),
            change_time: Some(now),
            from: self.current_value(progress),
            ..self
        }
    }

    /// The time to evaluate the easing of the scroll at, at `now`.
    pub fn animation_time_at(&self, now: Instant) -> (r: Duration)
        ensures
            r == self.spec_animation_time(now),
    {
        match self.change_time {
            Some(t) => now.since(t),
            None => Duration::zero(),
        }
    }

    /// Where the card has scrolled to, given the progress of the present
    /// move.
    pub fn current(&self, progress: Option<i64>) -> (r: Vec2)
        ensures
            r == self.current_value(progress),
    {
        if self.target == self.from {
            self.target
        } else {
            match progress {
                Some(t) => blend_vec2(self.from, self.target, t),
                None => self.target,
            }
        }
    }

    /// Where the card has scrolled to, asked at `now`, given the progress
    /// of the present move.
    pub fn current_at(&mut self, progress: Option<i64>, now: Instant) -> (r: Vec2)
        ensures
            r == old(self).current_value(progress),
            *final(self) == old(self).settled(progress, now),
    {
        if self.target == self.from {
            return self.target;
        }
        if self.change_time.is_none() {
            self.change_time = Some(now);
        }
        match progress {
            Some(t) => blend_vec2(self.from, self.target, t),
            None => {
                self.from = self.target;
                self.target
            },
        }
    }

    /// Begins a move to `target` at `now`.
    pub fn change_at(&mut self, target: Vec2, container_area: &Area, progress: Option<i64>, now: Instant)
        ensures
            *final(self) == old(self).changed(target, *container_area, progress, now),
    {
        let extra = self.maxium.minus(container_area.width_and_height());
        let allowed = Vec2 {
            x: clamp_scroll_to(target.x, extra.x),
            y: clamp_scroll_to(target.y, extra.y),
        };
        let current = self.current_at(progress, now);
        self.target = allowed;
        self.change_time = Some(now);
        self.from = current;
    }
}

/// What a container state holds for a card; what a card remembers before
/// its first frame when it holds something else.
pub open spec fn card_of(state: ContainerStateView) -> CardTemp {
    match state {
        ContainerStateView::Card(t) => t,
        _ => CardTemp::spec_default(),
    }
}

/// What the scope remembers for the card `id`.
pub fn read_card(ui: &Ui, id: &String) -> (r: CardTemp)
    ensures
        r == card_of(read_container(ui@.memory, id@)),
{
    match ui.container_read(id) {
        ContainerState::Card(t) => t,
        _ => CardTemp::default(),
    }
}

/// The most basic container: a panel.
#[derive(Debug)]
pub struct Card {
    pub(crate) position: Option<Vec2>,
    pub(crate) width: Option<i64>,
    pub(crate) height: Option<i64>,
    pub(crate) id: String,
    pub(crate) rounding: Vec2,
    pub(crate) status: Status,
    pub(crate) color: Option<Color>,
    pub(crate) scrollable: [bool; 2],
    pub(crate) dragable: bool,
    pub(crate) resizable: bool,
    pub(crate) stroke_width: i64,
    pub(crate) stroke_color: Option<Color>,
    pub(crate) progress: Option<i64>,
}

/// Mathematical value of a [`Card`].
pub struct CardView {
    /// Where the card is put, relative to the start of its scope; `None`
    /// for the scope's next free place.
    pub position: Option<Vec2>,
    /// The width; the least width when the card can be resized.
    pub width: Option<i64>,
    /// The height; the least height when the card can be resized.
    pub height: Option<i64>,
    pub id: Seq<char>,
    pub rounding: Vec2,
    pub status: Status,
    pub color: Option<Color>,
    pub scrollable_x: bool,
    pub scrollable_y: bool,
    pub dragable: bool,
    pub resizable: bool,
    pub stroke_width: i64,
    pub stroke_color: Option<Color>,
    /// The progress of the present move of the scroll offset; `None` for a
    /// move that is over.
    pub progress: Option<i64>,
}

impl View for Card {
    type V = CardView;

    closed spec fn view(&self) -> CardView {
        CardView {
            position: self.position,
            width: self.width,
            height: self.height,
            id: self.id@,
            rounding: self.rounding,
            status: self.status,
            color: self.color,
            scrollable_x: self.scrollable[0],
            scrollable_y: self.scrollable[1],
            dragable: self.dragable,
            resizable: self.resizable,
            stroke_width: self.stroke_width,
            stroke_color: self.stroke_color,
            progress: self.progress,
        }
    }
}

impl CardView {
    /// A card as it starts out.
    pub open spec fn new(id: Seq<char>) -> CardView {
        CardView {
            position: None,
            width: None,
            height: None,
            id,
            rounding: Vec2::spec_zero(),
            status: Status::Default,
            color: None,
            scrollable_x: false,
            scrollable_y: false,
            dragable: false,
            resizable: false,
            stroke_width: 0,
            stroke_color: None,
            progress: None,
        }
    }
}

impl Card {
    /// A card that stays where it is put and is as large as its scope
    /// allows.
    pub fn new(id: String) -> (r: Card)
        ensures
            r@ == CardView::new(id@),
    {
        Card {
            position: None,
            width: None,
            height: None,
            id,
            rounding: Vec2::zero(),
            status: Status::Default,
            color: None,
            scrollable: [false, false],
            dragable: false,
            resizable: false,
            stroke_width: 0,
            stroke_color: None,
            progress: None,
        }
    }

    /// Rounds the corners of the card.
    pub fn set_rounding(self, rounding: Vec2) -> (r: Card)
        ensures
            r@ == (CardView { rounding, ..self@ }),
    {
        let mut s = self;
        s.rounding = rounding;
        s
    }

    /// Puts the card at `position`, relative to the start of its scope.
    pub fn set_position(self, position: Vec2) -> (r: Card)
        ensures
            r@ == (CardView { position: Some(position), ..self@ }),
    {
        let mut s = self;
        s.position = Some(position);
        s
    }

    /// Sets the height of the card; its least height when it can be
    /// resized.
    pub fn set_height(self, height: i64) -> (r: Card)
        ensures
            r@ == (CardView { height: Some(height), ..self@ }),
    {
        let mut s = self;
        s.height = Some(height);
        s
    }

    /// Sets the width of the card; its least width when it can be resized.
    pub fn set_width(self, width: i64) -> (r: Card)
        ensures
            r@ == (CardView { width: Some(width), ..self@ }),
    {
        let mut s = self;
        s.width = Some(width);
        s
    }

    /// Sets width and height of the card.
    pub fn set_size(self, size: Vec2) -> (r: Card)
        ensures
            r@ == (CardView { width: Some(size.x), height: Some(size.y), ..self@ }),
    {
        let mut s = self;
        s.width = Some(size.x);
        s.height = Some(size.y);
        s
    }

    /// Sets the colour of the card.
    pub fn set_color(self, color: Color) -> (r: Card)
        ensures
            r@ == (CardView { color: Some(color), ..self@ }),
    {
        let mut s = self;
        s.color = Some(color);
        s
    }

    /// Sets the status of the card, which gives it its colour when none is
    /// set.
    pub fn set_status(self, status: Status) -> (r: Card)
        ensures
            r@ == (CardView { status, ..self@ }),
    {
        let mut s = self;
        s.status = status;
        s
    }

    /// Lets the card be dragged about, like a window.
    pub fn set_dragable(self, dragable: bool) -> (r: Card)
        ensures
            r@ == (CardView { dragable, ..self@ }),
    {
        let mut s = self;
        s.dragable = dragable;
        s
    }

    /// Lets the card scroll along the horizontal and the vertical axis.
    pub fn set_scrollable(self, scroll: [bool; 2]) -> (r: Card)
        ensures
            r@ == (CardView { scrollable_x: scroll[0], scrollable_y: scroll[1], ..self@ }),
    {
        let mut s = self;
        s.scrollable = scroll;
        s
    }

    /// Lets the card scroll along the horizontal axis.
    pub fn set_scrollable_x(self, scroll: bool) -> (r: Card)
        ensures
            r@ == (CardView { scrollable_x: scroll, ..self@ }),
    {
        let binding = self.scrollable[1];
        self.set_scrollable([scroll, binding])
    }

    /// Lets the card scroll along the vertical axis.
    pub fn set_scrollable_y(self, scroll: bool) -> (r: Card)
        ensures
            r@ == (CardView { scrollable_y: scroll, ..self@ }),
    {
        let binding = self.scrollable[0];
        self.set_scrollable([binding, scroll])
    }

    /// Lets the card be resized by its corners.
    pub fn set_resizable(self, resizable: bool) -> (r: Card)
        ensures
            r@ == (CardView { resizable, ..self@ }),
    {
        let mut s = self;
        s.resizable = resizable;
        s
    }

    /// Sets the width of the line around the card.
    pub fn set_stroke_width(self, stroke_width: i64) -> (r: Card)
        ensures
            r@ == (CardView { stroke_width, ..self@ }),
    {
        let mut s = self;
        s.stroke_width = stroke_width;
        s
    }

    /// Sets the colour of the line around the card.
    pub fn set_stroke_color(self, stroke_color: Color) -> (r: Card)
        ensures
            r@ == (CardView { stroke_color: Some(stroke_color), ..self@ }),
    {
        let mut s = self;
        s.stroke_color = Some(stroke_color);
        s
    }

    /// Tells the card how far the present move of its scroll offset has
    /// come in this frame: the value of the easing curve at
    /// [`CardTemp::animation_time_at`], or `None` once the move is over.
    pub fn set_progress(self, progress: Option<i64>) -> (r: Card)
        ensures
            r@ == (CardView { progress, ..self@ }),
    {
        let mut s = self;
        s.progress = progress;
        s
    }
}

/// Whether the cursor is on the surface and inside the area.
pub open spec fn holds_cursor(area: Area, cursor: Option<Vec2>) -> bool {
    cursor is Some && area.contains(cursor->0)
}

/// Whether the cursor is inside one of the four squares in the corners of
/// `a`.
pub open spec fn on_resize_handle(a: Area, cursor: Option<Vec2>) -> bool {
    let lt = a.left_top;
    let rb = a.right_bottom;
    let lb = Vec2 { x: a.left_top.x, y: a.right_bottom.y };
    let rt = Vec2 { x: a.right_bottom.x, y: a.left_top.y };
    ||| holds_cursor(Area::spec_new(lt, lt.spec_plus(Vec2 { x: HANDLE, y: HANDLE })), cursor)
    ||| holds_cursor(
        Area::spec_new(
            lb.spec_plus(Vec2 { x: 0, y: BACK }),
            lb.spec_plus(Vec2 { x: HANDLE, y: 0 }),
        ),
        cursor,
    )
    ||| holds_cursor(Area::spec_new(rb.spec_minus(Vec2 { x: HANDLE, y: HANDLE }), rb), cursor)
    ||| holds_cursor(
        Area::spec_new(
            rt.spec_plus(Vec2 { x: BACK, y: 0 }),
            rt.spec_plus(Vec2 { x: 0, y: HANDLE }),
        ),
        cursor,
    )
}

/// Whether the cursor is inside one of the four bands along the edges of
/// `a`, between its corners.
pub open spec fn on_drag_handle(a: Area, cursor: Option<Vec2>) -> bool {
    let lt = a.left_top;
    let rb = a.right_bottom;
    let lb = Vec2 { x: a.left_top.x, y: a.right_bottom.y };
    let rt = Vec2 { x: a.right_bottom.x, y: a.left_top.y };
    ||| holds_cursor(
        Area::spec_new(
            lt.spec_plus(Vec2 { x: HANDLE, y: 0 }),
            rt.spec_plus(Vec2 { x: BACK, y: HANDLE }),
        ),
        cursor,
    )
    ||| holds_cursor(
        Area::spec_new(
            lb.spec_plus(Vec2 { x: HANDLE, y: BACK }),
            rb.spec_plus(Vec2 { x: BACK, y: 0 }),
        ),
        cursor,
    )
    ||| holds_cursor(
        Area::spec_new(
            lt.spec_plus(Vec2 { x: 0, y: HANDLE }),
            lb.spec_plus(Vec2 { x: HANDLE, y: BACK }),
        ),
        cursor,
    )
    ||| holds_cursor(
        Area::spec_new(
            rt.spec_plus(Vec2 { x: BACK, y: HANDLE }),
            rb.spec_plus(Vec2 { x: 0, y: BACK }),
        ),
        cursor,
    )
}

/// The smallest rectangle around the areas of the responses that differ
/// from `own`: the room that the content of a container takes.
pub open spec fn content_of(rs: Seq<ResponseView>, own: Area) -> Area
    decreases rs.len(),
{
    if rs.len() == 0 {
        Area::spec_zero()
    } else if rs.last().area != own {
        content_of(rs.drop_last(), own).spec_combine(rs.last().area)
    } else {
        content_of(rs.drop_last(), own)
    }
}

/// The room that the content of a container with area `own` takes.
pub fn content_area(rs: &Vec<Response>, own: &Area) -> (r: Area)
    ensures
        r == content_of(responses_view(rs@), *own),
{
    let ghost views = responses_view(rs@);
    let mut area = Area::zero();
    let mut i: usize = 0;
    while i < rs.len()
        invariant
            i <= rs.len(),
            views == responses_view(rs@),
            area == content_of(views.take(i as int), *own),
        decreases rs.len() - i,
    {
        proof {
            assert(views.take(i + 1).drop_last() =~= views.take(i as int));
            assert(views.take(i + 1).last() == rs@[i as int]@);
        }
        if rs[i].area != *own {
            area.combine(&rs[i].area);
        }
        i += 1;
    }
    assert(views.take(rs.len() as int) =~= views);
    area
}

fn cursor_in(area: Area, cursor: Option<Vec2>) -> (r: bool)
    ensures
        r == holds_cursor(area, cursor),
{
    match cursor {
        Some(p) => area.is_point_inside(&p),
        None => false,
    }
}

fn is_on_resize_handle(a: &Area, cursor: Option<Vec2>) -> (r: bool)
    ensures
        r == on_resize_handle(*a, cursor),
{
    let lt = a.left_top();
    let rb = a.right_bottom();
    let lb = a.left_bottom();
    let rt = a.right_top();
    cursor_in(Area::new(lt, lt.plus(Vec2::same(HANDLE))), cursor) || cursor_in(
        Area::new(lb.plus(Vec2::new(0, BACK)), lb.plus(Vec2::new(HANDLE, 0))),
        cursor,
    ) || cursor_in(Area::new(rb.minus(Vec2::same(HANDLE)), rb), cursor) || cursor_in(
        Area::new(rt.plus(Vec2::new(BACK, 0)), rt.plus(Vec2::new(0, HANDLE))),
        cursor,
    )
}

fn is_on_drag_handle(a: &Area, cursor: Option<Vec2>) -> (r: bool)
    ensures
        r == on_drag_handle(*a, cursor),
{
    let lt = a.left_top();
    let rb = a.right_bottom();
    let lb = a.left_bottom();
    let rt = a.right_top();
    cursor_in(
        Area::new(lt.plus(Vec2::new(HANDLE, 0)), rt.plus(Vec2::new(BACK, HANDLE))),
        cursor,
    ) || cursor_in(
        Area::new(lb.plus(Vec2::new(HANDLE, BACK)), rb.plus(Vec2::new(BACK, 0))),
        cursor,
    ) || cursor_in(
        Area::new(lt.plus(Vec2::new(0, HANDLE)), lb.plus(Vec2::new(HANDLE, BACK))),
        cursor,
    ) || cursor_in(
        Area::new(rt.plus(Vec2::new(BACK, HANDLE)), rb.plus(Vec2::new(0, BACK))),
        cursor,
    )
}

/// The larger of a length and a least length, if one is set.
pub open spec fn at_least(v: i64, least: Option<i64>) -> i64 {
    match least {
        Some(l) => if v < l {
            l
        } else {
            v
        },
        None => v,
    }
}

impl CardView {
    /// Whether the card scrolls along some axis.
    pub open spec fn scrolls(self) -> bool {
        self.scrollable_x || self.scrollable_y
    }

    /// What is remembered after the corners have been looked at: a drag
    /// that begins on a corner, while the card is neither scrolled nor
    /// moved, resizes the card for as long as it lasts, and the size never
    /// falls below the least size.
    pub open spec fn resize_step(self, temp: CardTemp, response: ResponseView, cursor: Option<Vec2>) -> CardTemp {
        if !self.resizable {
            temp
        } else {
            let active = (on_resize_handle(response.area, cursor) || temp.is_resizing)
                && !temp.is_scrolling && !temp.is_draging;
            let held = response.drag() is Some;
            let moved = if active && held {
                response.drag_delta()
            } else {
                Vec2::spec_zero()
            };
            let size = (match temp.size {
                Some(s) => s,
                None => response.area.spec_width_and_height(),
            }).spec_plus(moved);
            CardTemp {
                is_resizing: if active {
                    held
                } else {
                    temp.is_resizing
                },
                size: Some(
                    Vec2 { x: at_least(size.x, self.width), y: at_least(size.y, self.height) },
                ),
                ..temp
            }
        }
    }

    /// What is remembered after the edges have been looked at: a drag that
    /// begins on an edge, while the card is neither scrolled nor resized,
    /// moves the card for as long as it lasts.
    pub open spec fn drag_step(self, temp: CardTemp, response: ResponseView, cursor: Option<Vec2>) -> CardTemp {
        if !self.dragable {
            temp
        } else {
            let active = (on_drag_handle(response.area, cursor) || temp.is_draging)
                && !temp.is_scrolling && !temp.is_resizing;
            let held = response.drag() is Some;
            let moved = if active && held {
                response.drag_delta()
            } else {
                Vec2::spec_zero()
            };
            CardTemp {
                is_draging: if active {
                    held
                } else {
                    temp.is_draging
                },
                position: Some(
                    (match temp.position {
                        Some(p) => p,
                        None => response.area.left_top,
                    }).spec_plus(moved),
                ),
                ..temp
            }
        }
    }

    /// What is remembered once the room of the content is known: its
    /// extent along the axes that scroll.
    pub open spec fn measure_step(self, temp: CardTemp, content: Area) -> CardTemp {
        CardTemp {
            maxium: Vec2 {
                x: if self.scrollable_x {
                    content.spec_width()
                } else {
                    0
                },
                y: if self.scrollable_y {
                    content.spec_height()
                } else {
                    0
                },
            },
            ..temp
        }
    }

    /// Whether the card looks at the wheel and at drags of its inside:
    /// the cursor is well inside it and the card is not being moved, or
    /// it is being scrolled already.
    pub open spec fn scroll_active(temp: CardTemp, response: ResponseView, cursor: Option<Vec2>) -> bool {
        (holds_cursor(response.area.spec_shrink(Vec2 { x: HANDLE, y: HANDLE }), cursor)
            && !temp.is_draging) || temp.is_scrolling
    }

    /// By how much the card is asked to scroll in this frame: by the
    /// wheel, or else by a drag of its inside.
    pub open spec fn scroll_asked(response: ResponseView, wheel: Vec2) -> Vec2 {
        if wheel != Vec2::spec_zero() {
            wheel
        } else if response.drag() is Some {
            response.drag_delta()
        } else {
            Vec2::spec_zero()
        }
    }

    /// What is remembered after a move by `by` has begun at `now`, along
    /// the axes that scroll: first the horizontal one, then the vertical
    /// one.
    pub open spec fn scroll_by(self, temp: CardTemp, by: Vec2, area: Area, now: Instant) -> CardTemp {
        let across = if self.scrollable_x {
            temp.changed(
                Vec2 { x: clamp_i64(temp.target.x + by.x), y: temp.target.y },
                area,
                self.progress,
                now,
            )
        } else {
            temp
        };
        if self.scrollable_y {
            across.changed(
                Vec2 { x: across.target.x, y: clamp_i64(across.target.y + by.y) },
                area,
                self.progress,
                now,
            )
        } else {
            across
        }
    }

    /// What is remembered after the wheel and drags of the inside have
    /// been looked at.
    pub open spec fn scroll_step(
        self,
        temp: CardTemp,
        response: ResponseView,
        cursor: Option<Vec2>,
        wheel: Vec2,
        now: Instant,
    ) -> CardTemp {
        if Self::scroll_active(temp, response, cursor) {
            let by = Self::scroll_asked(response, wheel);
            let noted = CardTemp {
                is_scrolling: wheel != Vec2::spec_zero() || response.drag() is Some,
                ..temp
            };
            if by != Vec2::spec_zero() {
                self.scroll_by(noted, by, response.area, now)
            } else {
                noted
            }
        } else {
            temp
        }
    }

    /// What a card remembers at the end of a frame, given what it
    /// remembered at its start, its own response, the responses of what was
    /// declared inside it, the cursor and the wheel.
    pub open spec fn end_step(
        self,
        temp: CardTemp,
        response: ResponseView,
        inner: Seq<ResponseView>,
        cursor: Option<Vec2>,
        wheel: Vec2,
        now: Instant,
    ) -> CardTemp {
        let resized = self.resize_step(temp, response, cursor);
        let dragged = self.drag_step(resized, response, cursor);
        let measured = self.measure_step(dragged, content_of(inner, response.area));
        self.scroll_step(measured, response, cursor, wheel, now)
    }
}

fn raise_to(v: i64, least: Option<i64>) -> (r: i64)
    ensures
        r == at_least(v, least),
{
    match least {
        Some(l) => if v < l {
            l
        } else {
            v
        },
        None => v,
    }
}

impl Card {
    /// What the card remembers at the end of a frame; see
    /// [`CardView::end_step`].
    pub fn end_step(
        &self,
        temp: CardTemp,
        response: &Response,
        inner: &Vec<Response>,
        cursor: Option<Vec2>,
        wheel: Vec2,
        now: Instant,
    ) -> (r: CardTemp)
        ensures
            r == self@.end_step(temp, response@, responses_view(inner@), cursor, wheel, now),
    {
        let mut temp = temp;
        let held = response.drag().is_some();
        if self.resizable {
            let hit = is_on_resize_handle(&response.area, cursor);
            let resize = if (hit || temp.is_resizing) && !temp.is_scrolling && !temp.is_draging {
                if held {
                    temp.is_resizing = true;
                    response.drag_delta()
                } else {
                    temp.is_resizing = false;
                    Vec2::zero()
                }
            } else {
                Vec2::zero()
            };
            let size = (match temp.size {
                Some(s) => s,
                None => response.area.width_and_height(),
            }).plus(resize);
            temp.size = Some(
                Vec2 { x: raise_to(size.x, self.width), y: raise_to(size.y, self.height) },
            );
        }
        if self.dragable {
            let hit = is_on_drag_handle(&response.area, cursor);
            let drag = if (hit || temp.is_draging) && !temp.is_scrolling && !temp.is_resizing {
                if held {
                    temp.is_draging = true;
                    response.drag_delta()
                } else {
                    temp.is_draging = false;
                    Vec2::zero()
                }
            } else {
                Vec2::zero()
            };
            temp.position = Some(
                (match temp.position {
                    Some(p) => p,
                    None => response.area.left_top(),
                }).plus(drag),
            );
        }
        let area = content_area(inner, &response.area);
        temp.maxium = Vec2 {
            x: if self.scrollable[0] {
                area.width()
            } else {
                0
            },
            y: if self.scrollable[1] {
                area.height()
            } else {
                0
            },
        };
        if (cursor_in(response.area.shrink(Vec2::same(HANDLE)), cursor) && !temp.is_draging)
            || temp.is_scrolling {
            let scroll = if wheel != Vec2::zero() {
                temp.is_scrolling = true;
                wheel
            } else if held {
                temp.is_scrolling = true;
                response.drag_delta()
            } else {
                temp.is_scrolling = false;
                Vec2::zero()
            };
            if scroll != Vec2::zero() {
                if self.scrollable[0] {
                    let to = Vec2::new(sat_add(temp.target.x, scroll.x), temp.target.y);
                    temp.change_at(to, &response.area, self.progress, now);
                }
                if self.scrollable[1] {
                    let to = Vec2::new(temp.target.x, sat_add(temp.target.y, scroll.y));
                    temp.change_at(to, &response.area, self.progress, now);
                }
            }
        }
        temp
    }
}

impl CardView {
    /// Where the card goes when nothing is remembered of it: where it was
    /// put, or the scope's next free place.
    pub open spec fn base_position(self, ui: UiView) -> Vec2 {
        (match self.position {
            Some(p) => p,
            None => ui.available_position.spec_minus(ui.start_position),
        }).spec_plus(ui.start_position)
    }

    /// How large the card at `position` is when nothing is remembered of
    /// it: as it was set, or up to the far edges of the scope's room, less
    /// the spacing.
    pub open spec fn base_size(self, ui: UiView, position: Vec2) -> Vec2 {
        Vec2 {
            x: match self.width {
                Some(w) => w,
                None => clamp_i64(
                    clamp_i64(ui.window.right_bottom.x - position.x) - ui.style.space,
                ),
            },
            y: match self.height {
                Some(h) => h,
                None => clamp_i64(
                    clamp_i64(clamp_i64(ui.window.spec_height() - position.y) + ui.window.left_top.y)
                        - ui.style.space,
                ),
            },
        }
    }

    /// The identity under which the card's state is kept, seen from
    /// `ui`.
    pub open spec fn key(self, ui: UiView) -> Seq<char> {
        container_id_in(ui.scope_id, self.id)
    }

    /// What `ui` remembers of the card.
    pub open spec fn remembered(self, ui: UiView) -> CardTemp {
        card_of(read_container(ui.memory, self.key(ui)))
    }

    /// Where the card is in `ui`: a card that can be dragged is where it
    /// was dragged to.
    pub open spec fn position_in(self, ui: UiView) -> Vec2 {
        if self.dragable && self.remembered(ui).position is Some {
            self.remembered(ui).position->0
        } else {
            self.base_position(ui)
        }
    }

    /// How large the card is in `ui`: a card that can be resized is as
    /// large as it was made.
    pub open spec fn size_in(self, ui: UiView) -> Vec2 {
        if self.resizable && self.remembered(ui).size is Some {
            self.remembered(ui).size->0
        } else {
            self.base_size(ui, self.position_in(ui))
        }
    }

    /// The room of the card in `ui`.
    pub open spec fn area_in(self, ui: UiView) -> Area {
        Area::spec_new(self.position_in(ui), self.position_in(ui).spec_plus(self.size_in(ui)))
    }

    /// What is remembered of the card once its room has been asked for:
    /// where a card that can be dragged is, and how large a card that can be
    /// resized is.
    pub open spec fn noted(self, ui: UiView) -> CardTemp {
        let temp = self.remembered(ui);
        CardTemp {
            position: if self.dragable {
                Some(self.position_in(ui))
            } else {
                temp.position
            },
            size: if self.resizable {
                Some(self.size_in(ui))
            } else {
                temp.size
            },
            ..temp
        }
    }

    /// The scope after the room of the card has been asked for.
    pub open spec fn ui_after_area(self, ui: UiView) -> UiView {
        if self.dragable || self.resizable {
            UiView {
                memory: save_container(
                    ui.memory,
                    self.key(ui),
                    ContainerStateView::Card(self.noted(ui)),
                ),
                ..ui
            }
        } else {
            ui
        }
    }

    /// Where a card that is asked to scroll along one axis is to move to:
    /// `value` is the distance from the start of the content, or with
    /// `relative` the distance from where the card is moving to now.
    pub open spec fn scroll_target(temp: CardTemp, value: i64, horizontal: bool, relative: bool) -> Vec2 {
        let back = clamp_i64(0 - value);
        if horizontal {
            Vec2 {
                x: if relative {
                    clamp_i64(back + temp.target.x)
                } else {
                    back
                },
                y: temp.target.y,
            }
        } else {
            Vec2 {
                x: temp.target.x,
                y: if relative {
                    clamp_i64(back + temp.target.y)
                } else {
                    back
                },
            }
        }
    }

    /// The scope after the card has been asked at `now` to scroll along
    /// one axis; nothing changes when the card does not scroll along it.
    pub open spec fn scrolled(self, ui: UiView, value: i64, horizontal: bool, relative: bool, now: Instant) -> UiView {
        if (horizontal && self.scrollable_x) || (!horizontal && self.scrollable_y) {
            let key = self.key(ui);
            let area = self.area_in(ui);
            let after = self.ui_after_area(ui);
            let temp = card_of(read_container(after.memory, key));
            UiView {
                memory: save_container(
                    after.memory,
                    key,
                    ContainerStateView::Card(
                        temp.changed(
                            Self::scroll_target(temp, value, horizontal, relative),
                            area,
                            self.progress,
                            now,
                        ),
                    ),
                ),
                ..after
            }
        } else {
            ui
        }
    }

    /// The scope after the card `id` has seen the end of its frame at
    /// `now`.
    pub open spec fn ended(
        self,
        ui: UiView,
        response: ResponseView,
        inner: Seq<ResponseView>,
        id: Seq<char>,
        now: Instant,
    ) -> UiView {
        UiView {
            memory: save_container(
                ui.memory,
                id,
                ContainerStateView::Card(
                    self.end_step(
                        card_of(read_container(ui.memory, id)),
                        response,
                        inner,
                        ui.input.cursor_position,
                        ui.input.current_scroll,
                        now,
                    ),
                ),
            ),
            ..ui
        }
    }
}

impl Card {
    fn base_position(&self, ui: &Ui) -> (r: Vec2)
        ensures
            r == self@.base_position(ui@),
    {
        (match self.position {
            Some(p) => p,
            None => ui.available_position().minus(ui.start_position()),
        }).plus(ui.start_position())
    }

    fn base_size(&self, ui: &Ui, position: Vec2) -> (r: Vec2)
        ensures
            r == self@.base_size(ui@, position),
    {
        let window = ui.window_area();
        let space = ui.style().space;
        Vec2 {
            x: match self.width {
                Some(w) => w,
                None => sat_sub(sat_sub(window.right_top().x, position.x), space),
            },
            y: match self.height {
                Some(h) => h,
                None => sat_sub(
                    sat_add(sat_sub(window.height(), position.y), window.left_top().y),
                    space,
                ),
            },
        }
    }

    /// The room of the card. What a card that can be dragged or resized
    /// has for position and size is remembered from here on.
    pub fn get_area(&self, ui: &mut Ui) -> (r: Area)
        ensures
            r == self@.area_in(old(ui)@),
            final(ui)@ == self@.ui_after_area(old(ui)@),
    {
        let id = ui.container_id(&self.id);
        let mut temp = read_card(ui, &id);
        let base = self.base_position(ui);
        let position = if self.dragable {
            match temp.position {
                Some(t) => t,
                None => {
                    temp.position = Some(base);
                    base
                },
            }
        } else {
            base
        };
        let plain = self.base_size(ui, position);
        let width_and_height = if self.resizable {
            match temp.size {
                Some(t) => t,
                None => {
                    temp.size = Some(plain);
                    plain
                },
            }
        } else {
            plain
        };
        if self.dragable || self.resizable {
            ui.container_save(&id, ContainerState::Card(temp));
        }
        Area::new(position, position.plus(width_and_height))
    }

    /// Where the card has scrolled to.
    pub fn scroll(&self, ui: &Ui) -> (r: Vec2)
        ensures
            r == self@.remembered(ui@).current_value(self@.progress),
    {
        let id = ui.container_id(&self.id);
        read_card(ui, &id).current(self.progress)
    }

    /// Where the card has scrolled to along the horizontal axis.
    pub fn scroll_x(&self, ui: &Ui) -> (r: i64)
        ensures
            r == self@.remembered(ui@).current_value(self@.progress).x,
    {
        self.scroll(ui).x
    }

    /// Where the card has scrolled to along the vertical axis.
    pub fn scroll_y(&self, ui: &Ui) -> (r: i64)
        ensures
            r == self@.remembered(ui@).current_value(self@.progress).y,
    {
        self.scroll(ui).y
    }

    fn scroll_axis_at(&self, value: i64, horizontal: bool, relative: bool, ui: &mut Ui, now: Instant)
        ensures
            final(ui)@ == self@.scrolled(old(ui)@, value, horizontal, relative, now),
    {
        let back = sat_sub(0, value);
        if (horizontal && self.scrollable[0]) || (!horizontal && self.scrollable[1]) {
            let id = ui.container_id(&self.id);
            let area = self.get_area(ui);
            let mut temp = read_card(ui, &id);
            let to = if horizontal {
                Vec2::new(
                    if relative {
                        sat_add(back, temp.target.x)
                    } else {
                        back
                    },
                    temp.target.y,
                )
            } else {
                Vec2::new(
                    temp.target.x,
                    if relative {
                        sat_add(back, temp.target.y)
                    } else {
                        back
                    },
                )
            };
            temp.change_at(to, &area, self.progress, now);
            ui.container_save(&id, ContainerState::Card(temp));
        }
    }

    /// Scrolls to the place `scroll` of the content along the horizontal
    /// axis, beginning at `now`; does nothing when the card does not scroll
    /// along it.
    pub fn scroll_to_x_at(&mut self, scroll: i64, ui: &mut Ui, now: Instant)
        ensures
            final(ui)@ == old(self)@.scrolled(old(ui)@, scroll, true, false, now),
            final(self)@ == old(self)@,
    {
        self.scroll_axis_at(scroll, true, false, ui, now);
    }

    /// Scrolls to the place `scroll` of the content along the vertical
    /// axis, beginning at `now`; does nothing when the card does not scroll
    /// along it.
    pub fn scroll_to_y_at(&mut self, scroll: i64, ui: &mut Ui, now: Instant)
        ensures
            final(ui)@ == old(self)@.scrolled(old(ui)@, scroll, false, false, now),
            final(self)@ == old(self)@,
    {
        self.scroll_axis_at(scroll, false, false, ui, now);
    }

    /// Scrolls on by `scroll` along the horizontal axis, beginning at
    /// `now`; does nothing when the card does not scroll along it.
    pub fn scroll_delta_to_x_at(&mut self, scroll: i64, ui: &mut Ui, now: Instant)
        ensures
            final(ui)@ == old(self)@.scrolled(old(ui)@, scroll, true, true, now),
            final(self)@ == old(self)@,
    {
        self.scroll_axis_at(scroll, true, true, ui, now);
    }

    /// Scrolls on by `scroll` along the vertical axis, beginning at `now`;
    /// does nothing when the card does not scroll along it.
    pub fn scroll_delta_to_y_at(&mut self, scroll: i64, ui: &mut Ui, now: Instant)
        ensures
            final(ui)@ == old(self)@.scrolled(old(ui)@, scroll, false, true, now),
            final(self)@ == old(self)@,
    {
        self.scroll_axis_at(scroll, false, true, ui, now);
    }

    /// Scrolls to the place `scroll` of the content along the horizontal
    /// axis.
    pub fn scroll_to_x(&mut self, scroll: i64, ui: &mut Ui)
        ensures
            exists|now: Instant|
                final(ui)@ == old(self)@.scrolled(old(ui)@, scroll, true, false, now),
            final(self)@ == old(self)@,
    {
        self.scroll_to_x_at(scroll, ui, Instant::now());
    }

    /// Scrolls to the place `scroll` of the content along the vertical
    /// axis.
    pub fn scroll_to_y(&mut self, scroll: i64, ui: &mut Ui)
        ensures
            exists|now: Instant|
                final(ui)@ == old(self)@.scrolled(old(ui)@, scroll, false, false, now),
            final(self)@ == old(self)@,
    {
        self.scroll_to_y_at(scroll, ui, Instant::now());
    }

    /// Scrolls to the place `scroll` of the content, first along the
    /// horizontal axis, then along the vertical one.
    pub fn scroll_to(&mut self, scroll: Vec2, ui: &mut Ui)
        ensures
            exists|now: Instant, then: Instant|
                final(ui)@ == old(self)@.scrolled(
                    old(self)@.scrolled(old(ui)@, scroll.x, true, false, now),
                    scroll.y,
                    false,
                    false,
                    then,
                ),
            final(self)@ == old(self)@,
    {
        let now = Instant::now();
        self.scroll_to_x_at(scroll.x, ui, now);
        let then = Instant::now();
        self.scroll_to_y_at(scroll.y, ui, then);
        assert(ui@ == old(self)@.scrolled(
            old(self)@.scrolled(old(ui)@, scroll.x, true, false, now),
            scroll.y,
            false,
            false,
            then,
        ));
    }

    /// Scrolls on by `scroll` along the horizontal axis.
    pub fn scroll_delta_to_x(&mut self, scroll: i64, ui: &mut Ui)
        ensures
            exists|now: Instant|
                final(ui)@ == old(self)@.scrolled(old(ui)@, scroll, true, true, now),
            final(self)@ == old(self)@,
    {
        self.scroll_delta_to_x_at(scroll, ui, Instant::now());
    }

    /// Scrolls on by `scroll` along the vertical axis.
    pub fn scroll_delta_to_y(&mut self, scroll: i64, ui: &mut Ui)
        ensures
            exists|now: Instant|
                final(ui)@ == old(self)@.scrolled(old(ui)@, scroll, false, true, now),
            final(self)@ == old(self)@,
    {
        self.scroll_delta_to_y_at(scroll, ui, Instant::now());
    }

    /// Scrolls on by `scroll`, first along the horizontal axis, then along
    /// the vertical one.
    pub fn scroll_delta_to(&mut self, scroll: Vec2, ui: &mut Ui)
        ensures
            exists|now: Instant, then: Instant|
                final(ui)@ == old(self)@.scrolled(
                    old(self)@.scrolled(old(ui)@, scroll.x, true, true, now),
                    scroll.y,
                    false,
                    true,
                    then,
                ),
            final(self)@ == old(self)@,
    {
        let now = Instant::now();
        self.scroll_delta_to_x_at(scroll.x, ui, now);
        let then = Instant::now();
        self.scroll_delta_to_y_at(scroll.y, ui, then);
        assert(ui@ == old(self)@.scrolled(
            old(self)@.scrolled(old(ui)@, scroll.x, true, true, now),
            scroll.y,
            false,
            true,
            then,
        ));
    }

    /// What the card does after its inside has been declared, at `now`:
    /// it looks at its corners, its edges, the room its content took, the
    /// wheel and drags of its inside, and remembers the outcome.
    pub fn end_at(
        &mut self,
        ui: &mut Ui,
        response: &Response,
        inner_responses: &Vec<Response>,
        id: &String,
        now: Instant,
    )
        ensures
            final(ui)@ == old(self)@.ended(
                old(ui)@,
                response@,
                responses_view(inner_responses@),
                id@,
                now,
            ),
            final(self)@ == old(self)@,
    {
        let temp = read_card(ui, id);
        let cursor = ui.input().cursor_position();
        let wheel = ui.input().scroll();
        let after = self.end_step(temp, response, inner_responses, cursor, wheel, now);
        ui.container_save(id, ContainerState::Card(after));
    }

    /// What the card decides before its inside is declared: the inside is
    /// always shown, moved by as much as the card has scrolled.
    pub fn opening(&self, ui: &Ui, id: &String) -> (r: Opening)
        ensures
            r == (Opening {
                show: true,
                offset: card_of(read_container(ui@.memory, id@)).current_value(self@.progress),
            }),
    {
        Opening { show: true, offset: read_card(ui, id).current(self.progress) }
    }
}

impl Container for Card {
    fn get_id(&self, ui: &mut Ui) -> (r: String)
        ensures
            r@ == self@.id,
            final(ui)@ == old(ui)@,
    {
        self.id.clone()
    }

    fn area(&self, ui: &mut Ui) -> (r: Area)
        ensures
            r == self@.area_in(old(ui)@),
            final(ui)@ == self@.ui_after_area(old(ui)@),
    {
        self.get_area(ui)
    }

    fn layer(&self, ui: &mut Ui) -> (r: Layer)
        ensures
            r == Layer::Bottom,
            final(ui)@ == old(ui)@,
    {
        Layer::Bottom
    }

    fn begin(&mut self, ui: &mut Ui, response: &Response, id: &String) -> (r: Opening)
        ensures
            r == (Opening {
                show: true,
                offset: card_of(read_container(old(ui)@.memory, id@)).current_value(
                    old(self)@.progress,
                ),
            }),
            final(ui)@ == old(ui)@,
            final(self)@ == old(self)@,
    {
        self.opening(ui, id)
    }

    fn end(&mut self, ui: &mut Ui, response: &Response, inner_responses: &Vec<Response>, id: &String)
        ensures
            exists|now: Instant|
                final(ui)@ == #[trigger] old(self)@.ended(
                    old(ui)@,
                    response@,
                    responses_view(inner_responses@),
                    id@,
                    now,
                ),
            final(self)@ == old(self)@,
    {
        self.end_at(ui, response, inner_responses, id, Instant::now());
    }

    fn is_clickable(&self, ui: &mut Ui) -> (r: bool)
        ensures
            r,
            final(ui)@ == old(ui)@,
    {
        true
    }

    fn is_dragable(&self, ui: &mut Ui) -> (r: bool)
        ensures
            r == (self@.resizable || self@.dragable || self@.scrolls()),
            final(ui)@ == old(ui)@,
    {
        self.resizable || self.dragable || self.scrollable[0] || self.scrollable[1]
    }
}

/// How far from the edge of a card its scroll bars lie.
pub const BAR_INSET: i64 = 10;

/// The inset of a scroll bar, backwards.
pub const BAR_BACK: i64 = -10;

/// How thick a scroll bar is.
pub const BAR_THICKNESS: i64 = 5;

/// A scroll bar: the groove along the edge of a card and the grip that
/// moves in it.
#[derive(Clone, Copy, Debug, PartialEq, Eq, Structural)]
pub struct ScrollBar {
    pub groove: Area,
    pub grip: Area,
}

/// How long the grip of a scroll bar is: as much of the groove as the card
/// shows of its content.
pub open spec fn grip_length(inner: i64, content: i64) -> i64
    recommends
        0 <= inner < content,
{
    ((inner * inner) / (content as int)) as i64
}

/// How far along its groove the grip of a scroll bar lies when the card has
/// scrolled to `current`: as much of the free part of the groove as the card
/// has scrolled of what it hides.
pub open spec fn grip_shift(inner: i64, content: i64, current: i64) -> i64
    recommends
        0 <= inner < content,
{
    let free = inner - grip_length(inner, content);
    if current <= 0 {
        clamp_i64((free * (0 - current)) / (content - inner))
    } else {
        clamp_i64(0 - (free * current) / (content - inner))
    }
}

/// The grip of a scroll bar is never longer than its groove.
pub proof fn lemma_grip_fits(inner: i64, content: i64)
    requires
        0 <= inner < content,
    ensures
        0 <= (inner * inner) / (content as int) <= inner,
{
    assert(0 <= inner * inner <= inner * content) by (nonlinear_arith)
        requires
            0 <= inner < content,
    ;
    assert((inner * inner) / (content as int) <= inner) by (nonlinear_arith)
        requires
            0 <= inner * inner <= inner * content,
            0 < content,
    ;
    assert(0 <= (inner * inner) / (content as int)) by (nonlinear_arith)
        requires
            0 <= inner * inner,
            0 < content,
    ;
}

fn grip(inner: i64, content: i64, current: i64) -> (r: (i64, i64))
    requires
        0 <= inner < content,
    ensures
        r.0 == grip_length(inner, content),
        r.1 == grip_shift(inner, content, current),
{
    proof {
        lemma_grip_fits(inner, content);
    }
    assert(0 <= inner * inner <= 0x7fff_ffff_ffff_ffff * 0x7fff_ffff_ffff_ffff) by (nonlinear_arith)
        requires
            0 <= inner <= 0x7fff_ffff_ffff_ffff,
    ;
    let length: i64 = ((inner as i128 * inner as i128) / (content as i128)) as i64;
    let free: i128 = inner as i128 - length as i128;
    let hidden: i128 = content as i128 - inner as i128;
    if current <= 0 {
        let gone: i128 = 0 - current as i128;
        assert(0 <= free * gone <= 0x8000_0000_0000_0000 * 0x8000_0000_0000_0000)
            by (nonlinear_arith)
            requires
                0 <= free <= 0x8000_0000_0000_0000,
                0 <= gone <= 0x8000_0000_0000_0000,
        ;
        let shift: i128 = (free * gone) / hidden;
        assert(0 <= shift) by (nonlinear_arith)
            requires
                shift == (free * gone) / (hidden as int),
                0 <= free * gone,
                0 < hidden,
        ;
        (
            length,
            if shift > i64::MAX as i128 {
                i64::MAX
            } else {
                shift as i64
            },
        )
    } else {
        let gone: i128 = current as i128;
        assert(0 <= free * gone <= 0x8000_0000_0000_0000 * 0x8000_0000_0000_0000)
            by (nonlinear_arith)
            requires
                0 <= free <= 0x8000_0000_0000_0000,
                0 <= gone <= 0x8000_0000_0000_0000,
        ;
        let shift: i128 = (free * gone) / hidden;
        assert(0 <= shift) by (nonlinear_arith)
            requires
                shift == (free * gone) / (hidden as int),
                0 <= free * gone,
                0 < hidden,
        ;
        (
            length,
            if 0 - shift < i64::MIN as i128 {
                i64::MIN
            } else {
                (0 - shift) as i64
            },
        )
    }
}

impl CardView {
    /// The bar along the lower edge of a card with room `own` whose content
    /// is `content` wide and which has scrolled to `current`; `None` when
    /// the card does not scroll along this axis or shows all of its
    /// content.
    pub open spec fn bar_x(self, own: Area, space: i64, content: i64, current: Vec2) -> Option<ScrollBar> {
        let inner = own.spec_shrink(Vec2 { x: space, y: space }).spec_width();
        if self.scrollable_x && 0 <= inner < content {
            let from = (Vec2 { x: own.left_top.x, y: own.right_bottom.y }).spec_plus(
                Vec2 { x: space, y: BAR_BACK },
            );
            let at = from.spec_plus(Vec2 { x: grip_shift(inner, content, current.x), y: 0 });
            Some(
                ScrollBar {
                    groove: Area {
                        left_top: from,
                        right_bottom: from.spec_plus(Vec2 { x: inner, y: BAR_THICKNESS }),
                    },
                    grip: Area {
                        left_top: at,
                        right_bottom: at.spec_plus(
                            Vec2 { x: grip_length(inner, content), y: BAR_THICKNESS },
                        ),
                    },
                },
            )
        } else {
            None
        }
    }

    /// The bar along the right edge of a card; see [`CardView::bar_x`].
    pub open spec fn bar_y(self, own: Area, space: i64, content: i64, current: Vec2) -> Option<ScrollBar> {
        let inner = own.spec_shrink(Vec2 { x: space, y: space }).spec_height();
        if self.scrollable_y && 0 <= inner < content {
            let from = (Vec2 { x: own.right_bottom.x, y: own.left_top.y }).spec_plus(
                Vec2 { x: BAR_BACK, y: space },
            );
            let at = from.spec_plus(Vec2 { x: 0, y: grip_shift(inner, content, current.y) });
            Some(
                ScrollBar {
                    groove: Area {
                        left_top: from,
                        right_bottom: from.spec_plus(Vec2 { x: BAR_THICKNESS, y: inner }),
                    },
                    grip: Area {
                        left_top: at,
                        right_bottom: at.spec_plus(
                            Vec2 { x: BAR_THICKNESS, y: grip_length(inner, content) },
                        ),
                    },
                },
            )
        } else {
            None
        }
    }
}

impl Card {
    /// The scroll bars of the card, the horizontal one first, once its
    /// inside has been declared: each is there when the card scrolls along
    /// its axis and its content is longer than the card shows.
    pub fn scroll_bars(
        &self,
        ui: &Ui,
        response: &Response,
        inner_responses: &Vec<Response>,
        id: &String,
    ) -> (r: (Option<ScrollBar>, Option<ScrollBar>))
        ensures
            ({
                let own = response@.area;
                let content = content_of(responses_view(inner_responses@), own);
                let current = card_of(read_container(ui@.memory, id@)).current_value(self@.progress);
                &&& r.0 == self@.bar_x(own, ui@.style.space, content.spec_width(), current)
                &&& r.1 == self@.bar_y(own, ui@.style.space, content.spec_height(), current)
            }),
    {
        let own = response.area;
        let space = ui.style().space;
        let content = content_area(inner_responses, &own);
        let current = read_card(ui, id).current(self.progress);
        let room = own.shrink(Vec2::same(space));
        let across = if self.scrollable[0] && 0 <= room.width() && room.width() < content.width() {
            let (length, shift) = grip(room.width(), content.width(), current.x);
            let from = own.left_bottom().plus(Vec2::new(space, BAR_BACK));
            let at = from.plus(Vec2::x(shift));
            Some(
                ScrollBar {
                    groove: Area {
                        left_top: from,
                        right_bottom: from.plus(Vec2::new(room.width(), BAR_THICKNESS)),
                    },
                    grip: Area {
                        left_top: at,
                        right_bottom: at.plus(Vec2::new(length, BAR_THICKNESS)),
                    },
                },
            )
        } else {
            None
        };
        let down = if self.scrollable[1] && 0 <= room.height() && room.height() < content.height() {
            let (length, shift) = grip(room.height(), content.height(), current.y);
            let from = own.right_top().plus(Vec2::new(BAR_BACK, space));
            let at = from.plus(Vec2::y(shift));
            Some(
                ScrollBar {
                    groove: Area {
                        left_top: from,
                        right_bottom: from.plus(Vec2::new(BAR_THICKNESS, room.height())),
                    },
                    grip: Area {
                        left_top: at,
                        right_bottom: at.plus(Vec2::new(BAR_THICKNESS, length)),
                    },
                },
            )
        } else {
            None
        };
        (across, down)
    }
}

} // verus!
