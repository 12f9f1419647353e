//! What the interface remembers of one widget between frames (hover, click
//! and drag state), how one frame's input moves that state on, and the
//! questions a widget may ask of it.

use vstd::prelude::*;
use crate::animation::{hover_phase, spec_hover_phase, FadePhase};
use crate::clock::{Duration, Instant, NANOS_PER_MILLI};
use crate::event::{MouseButton, Touch, TouchPhase};
use crate::input::{copy_vec, InputState, InputStateView};
use crate::layer::Layer;
use crate::math::{Area, Vec2};

verus! {

/// How many press times and release times a widget keeps; older ones are
/// dropped.
pub const MAX_CLICKS: usize = 5;

/// Longest gap, in milliseconds, between two releases of one multi-click,
/// and between the last release and the moment of asking.
pub const MULTI_CLICK_MILLIS: i64 = 250;

/// Whether some pointer of the list lies inside the area.
pub open spec fn any_inside(pointers: Seq<Vec2>, area: Area) -> bool {
    exists|i: int| 0 <= i < pointers.len() && area.contains(pointers[i])
}

fn is_any_inside(pointers: &Vec<Vec2>, area: &Area) -> (r: bool)
    ensures
        r == any_inside(pointers@, *area),
{
    let mut i: usize = 0;
    while i < pointers.len()
        invariant
            i <= pointers.len(),
            forall|j: int| 0 <= j < i ==> !area.contains(pointers@[j]),
        decreases pointers.len() - i,
    {
        if area.is_point_inside(&pointers[i]) {
            return true;
        }
        i += 1;
    }
    false
}

/// Hover state of one widget.
#[derive(Clone, Copy, Debug, PartialEq, Eq, Structural)]
pub struct HoverInfo {
    /// When the present or latest stretch of hovering began.
    pub last_hover_time: Option<Instant>,
    /// When hovering was lost; `None` while hovering.
    pub last_lost_hover_time: Option<Instant>,
    pub is_hovering: bool,
    /// Whether the previous frame already saw a pointer inside.
    pub is_insert: bool,
}

impl HoverInfo {
    /// The state of a widget that no pointer has met yet.
    pub open spec fn spec_new() -> HoverInfo {
        HoverInfo {
            last_hover_time: None,
            last_lost_hover_time: None,
            is_hovering: false,
            is_insert: false,
        }
    }

    /// The state after a frame at `now` in which a pointer was inside the
    /// widget's area (`inside`) or none was.
    pub open spec fn after(self, inside: bool, now: Instant) -> HoverInfo {
        if inside {
            HoverInfo {
                is_hovering: true,
                last_lost_hover_time: None,
                last_hover_time: if self.is_insert {
                    self.last_hover_time
                } else {
                    Some(now)
                },
                is_insert: true,
            }
        } else {
            HoverInfo {
                is_hovering: false,
                is_insert: false,
                last_lost_hover_time: if self.last_lost_hover_time is None {
                    Some(now)
                } else {
                    self.last_lost_hover_time
                },
                last_hover_time: self.last_hover_time,
            }
        }
    }

    /// Whether the state hangs together: a widget that had a pointer
    /// inside in the previous frame has a start of its hover.
    pub open spec fn wf(self) -> bool {
        self.is_insert ==> self.last_hover_time is Some
    }

    /// The state of a widget that no pointer has met yet.
    #[verifier::when_used_as_spec(spec_new)]
    pub fn new() -> (r: HoverInfo)
        ensures
            r == HoverInfo::spec_new(),
            r.wf(),
    {
        HoverInfo {
            last_hover_time: None,
            last_lost_hover_time: None,
            is_hovering: false,
            is_insert: false,
        }
    }

    /// Moves the state on by one frame, taken at `now`: the widget hovers
    /// when the cursor or any touch lies inside `area`. The start of a
    /// stretch of hovering is recorded once, in its first frame; so is the
    /// moment at which hovering was lost.
    pub fn update_at(&mut self, input_state: &InputState, area: &Area, now: Instant)
        ensures
            *final(self) == old(self).after(any_inside(input_state@.pointers(), *area), now),
            old(self).wf() ==> final(self).wf(),
    {
        let positions = input_state.pointers();
        if is_any_inside(&positions, area) {
            self.is_hovering = true;
            self.last_lost_hover_time = None;
            if !self.is_insert {
                self.last_hover_time = Some(now);
            }
            self.is_insert = true;
        } else {
            self.is_hovering = false;
            self.is_insert = false;
            if self.last_lost_hover_time.is_none() {
                self.last_lost_hover_time = Some(now);
            }
        }
    }

    /// Moves the state on by one frame, taken at the present moment of the
    /// system clock.
    pub fn update(&mut self, input_state: &InputState, area: &Area)
        ensures
            exists|now: Instant|
                *final(self) == old(self).after(any_inside(input_state@.pointers(), *area), now),
    {
        self.update_at(input_state, area, Instant::now());
    }
}

/// Drag state of one widget.
#[derive(Clone, Copy, Debug, PartialEq, Eq, Structural)]
pub struct DragInfo {
    pub drag_start_time: Option<Instant>,
    pub last_drag_start_position: Option<Vec2>,
    /// Where the cursor was in the previous frame of the drag.
    pub last_drag_position: Option<Vec2>,
    /// Cursor movement since the previous frame of the drag.
    pub drag_delta: Vec2,
    pub is_draging: bool,
}

impl DragInfo {
    /// The state of a widget that is not being dragged.
    pub open spec fn spec_new() -> DragInfo {
        DragInfo {
            drag_start_time: None,
            last_drag_start_position: None,
            last_drag_position: None,
            drag_delta: Vec2::spec_zero(),
            is_draging: false,
        }
    }

    /// Whether this frame's input may start a drag of a widget in state
    /// `self` with area `area`: the cursor is inside, a button went down,
    /// and the widget is not dragged already.
    pub open spec fn may_start(self, input: InputStateView, area: Area) -> bool {
        &&& input.cursor_position is Some
        &&& area.contains(input.cursor_position->0)
        &&& input.is_any_mouse_pressed()
        &&& !self.is_draging
    }

    /// Whether this frame's input starts a drag: it may, and some press has
    /// not been claimed by another widget's drag.
    pub open spec fn starts(self, input: InputStateView, area: Area) -> bool {
        self.may_start(input, area) && input.is_any_mouse_pressed_undragged()
    }

    /// The state after one frame's input, taken at `now`.
    pub open spec fn after(self, input: InputStateView, area: Area, now: Instant) -> DragInfo {
        match input.cursor_position {
            Some(t) => {
                let begun = if self.starts(input, area) {
                    DragInfo {
                        drag_start_time: Some(now),
                        last_drag_start_position: Some(t),
                        is_draging: true,
                        ..self
                    }
                } else {
                    self
                };
                if begun.is_draging {
                    let moved = DragInfo {
                        drag_delta: match begun.last_drag_position {
                            Some(t2) => t.spec_minus(t2),
                            None => Vec2::spec_zero(),
                        },
                        last_drag_position: Some(t),
                        ..begun
                    };
                    if input.is_any_mouse_released() {
                        DragInfo {
                            is_draging: false,
                            last_drag_start_position: None,
                            drag_start_time: None,
                            ..moved
                        }
                    } else {
                        moved
                    }
                } else {
                    DragInfo { last_drag_position: None, drag_delta: Vec2::spec_zero(), ..begun }
                }
            },
            None => DragInfo::spec_new(),
        }
    }

    /// The input after the widget has looked at it: where a drag may start,
    /// every press of the frame is claimed for it.
    pub open spec fn input_after(self, input: InputStateView, area: Area) -> InputStateView {
        if self.may_start(input, area) {
            input.claim_all_drag()
        } else {
            input
        }
    }

    /// The state of a widget that is not being dragged.
    #[verifier::when_used_as_spec(spec_new)]
    pub fn new() -> (r: DragInfo)
        ensures
            r == DragInfo::spec_new(),
    {
        DragInfo {
            drag_start_time: None,
            last_drag_start_position: None,
            last_drag_position: None,
            drag_delta: Vec2::zero(),
            is_draging: false,
        }
    }

    /// Moves the state on by one frame, taken at `now`.
    ///
    /// A drag starts when a button goes down with the cursor inside `area`
    /// and no other widget has claimed that press for a drag. It goes on
    /// wherever the cursor moves, and ends when a button comes up or the
    /// cursor leaves the surface.
    pub fn update_at(&mut self, input_state: &mut InputState, area: &Area, now: Instant)
        ensures
            *final(self) == old(self).after(old(input_state)@, *area, now),
            final(input_state)@ == old(self).input_after(old(input_state)@, *area),
    {
        if let Some(t) = input_state.cursor_position() {
            if area.is_point_inside(&t) {
                if input_state.is_any_mouse_pressed() && !self.is_draging {
                    if input_state.is_any_mouse_pressed_undragged() {
                        self.drag_start_time = Some(now);
                        self.last_drag_start_position = Some(t);
                        self.is_draging = true;
                    }
                    input_state.claim_all_drag();
                }
            }
            if self.is_draging {
                if let Some(t2) = self.last_drag_position {
                    self.drag_delta = t.minus(t2);
                } else {
                    self.drag_delta = Vec2::zero();
                }
                self.last_drag_position = Some(t);
                if input_state.is_any_mouse_released() {
                    self.is_draging = false;
                    self.last_drag_start_position = None;
                    self.drag_start_time = None;
                }
            } else {
                self.last_drag_position = None;
                self.drag_delta = Vec2::zero();
            }
        } else {
            self.is_draging = false;
            self.last_drag_start_position = None;
            self.drag_start_time = None;
            self.last_drag_position = None;
            self.drag_delta = Vec2::zero();
        }
    }

    /// Moves the state on by one frame, taken at the present moment of the
    /// system clock.
    pub fn update(&mut self, input_state: &mut InputState, area: &Area)
        ensures
            exists|now: Instant| *final(self) == old(self).after(old(input_state)@, *area, now),
            final(input_state)@ == old(self).input_after(old(input_state)@, *area),
    {
        self.update_at(input_state, area, Instant::now());
    }
}

/// Click state of one widget.
#[derive(Debug)]
pub struct ClickInfo {
    /// When presses were credited to the widget, oldest first.
    pub press_time: Vec<Instant>,
    /// When releases were credited to the widget, oldest first.
    pub release_time: Vec<Instant>,
    pub last_click_position: Option<Vec2>,
    /// Buttons that went down in the latest frame with a pointer inside.
    pub pressed_mouse: Vec<MouseButton>,
    /// Buttons that came up in the latest frame with a pointer inside.
    pub released_mouse: Vec<MouseButton>,
    /// Touches that began in the latest frame with a pointer inside.
    pub pressed_touch: Vec<Touch>,
    /// Touches that ended in the latest frame with a pointer inside.
    pub released_touch: Vec<Touch>,
    /// Whether a press was credited to the widget and no release has been
    /// seen through since.
    pub is_pressed: bool,
    /// Whether the latest frame saw any release.
    pub is_released: bool,
}

/// Mathematical value of a [`ClickInfo`].
pub struct ClickInfoView {
    pub press_time: Seq<Instant>,
    pub release_time: Seq<Instant>,
    pub last_click_position: Option<Vec2>,
    pub pressed_mouse: Seq<MouseButton>,
    pub released_mouse: Seq<MouseButton>,
    pub pressed_touch: Seq<Touch>,
    pub released_touch: Seq<Touch>,
    pub is_pressed: bool,
    pub is_released: bool,
}

impl View for ClickInfo {
    type V = ClickInfoView;

    open spec fn view(&self) -> ClickInfoView {
        ClickInfoView {
            press_time: self.press_time@,
            release_time: self.release_time@,
            last_click_position: self.last_click_position,
            pressed_mouse: self.pressed_mouse@,
            released_mouse: self.released_mouse@,
            pressed_touch: self.pressed_touch@,
            released_touch: self.released_touch@,
            is_pressed: self.is_pressed,
            is_released: self.is_released,
        }
    }
}

/// The list cut down to its latest [`MAX_CLICKS`] entries by dropping the
/// oldest, once one more than that is held.
pub open spec fn capped(times: Seq<Instant>) -> Seq<Instant> {
    if times.len() > MAX_CLICKS {
        times.skip(1)
    } else {
        times
    }
}

impl ClickInfoView {
    /// The state of a widget that has not been clicked.
    pub open spec fn new() -> ClickInfoView {
        ClickInfoView {
            press_time: Seq::empty(),
            release_time: Seq::empty(),
            last_click_position: None,
            pressed_mouse: Seq::empty(),
            released_mouse: Seq::empty(),
            pressed_touch: Seq::empty(),
            released_touch: Seq::empty(),
            is_pressed: false,
            is_released: false,
        }
    }

    /// Whether the widget was clicked: something came up on it in the
    /// latest frame while it was held down.
    pub open spec fn is_clicked(self) -> bool {
        (self.released_mouse.len() >= 1 || self.released_touch.len() >= 1) && self.is_pressed
    }

    /// Whether the frame holds a press, by button or touch, that no widget
    /// has claimed.
    pub open spec fn sees_press(input: InputStateView) -> bool {
        input.is_any_mouse_pressed_unconsumed() || input.touches_in(TouchPhase::Start, true).len()
            > 0
    }

    /// Whether the frame holds a release, by button or touch, that no
    /// widget has claimed.
    pub open spec fn sees_release(input: InputStateView) -> bool {
        input.is_any_mouse_released_unconsumed() || input.touches_in(TouchPhase::End, true).len()
            > 0
    }

    /// Whether a press of this frame is credited to a widget with this
    /// area: a pointer is inside it and some press is unclaimed.
    pub open spec fn takes_press(input: InputStateView, area: Area) -> bool {
        any_inside(input.pointers(), area) && Self::sees_press(input)
    }

    /// Whether a release of this frame is credited to a widget with this
    /// area: a pointer is inside it and some release is unclaimed.
    pub open spec fn takes_release(input: InputStateView, area: Area) -> bool {
        any_inside(input.pointers(), area) && Self::sees_release(input)
    }

    /// The input after a widget with this area has looked at it: what it
    /// takes, it claims, so that no later widget takes it too.
    pub open spec fn input_after(input: InputStateView, area: Area) -> InputStateView {
        let pressed = if Self::takes_press(input, area) {
            input.consume_all_mouse_press().consume_touches_in(TouchPhase::Start)
        } else {
            input
        };
        if Self::takes_release(input, area) {
            pressed.consume_all_mouse_release().consume_touches_in(TouchPhase::End)
        } else {
            pressed
        }
    }

    /// The state after one frame's input, taken at `now`.
    pub open spec fn after(self, input: InputStateView, area: Area, now: Instant) -> ClickInfoView {
        let inside = any_inside(input.pointers(), area);
        let was_done = self.is_released;
        ClickInfoView {
            press_time: capped(
                if Self::takes_press(input, area) {
                    self.press_time.push(now)
                } else {
                    self.press_time
                },
            ),
            release_time: capped(
                if Self::takes_release(input, area) {
                    self.release_time.push(now)
                } else {
                    self.release_time
                },
            ),
            last_click_position: self.last_click_position,
            pressed_mouse: if inside {
                input.pressed_buttons()
            } else {
                Seq::empty()
            },
            released_mouse: if inside {
                input.released_buttons()
            } else {
                Seq::empty()
            },
            pressed_touch: if inside {
                input.touches_in(TouchPhase::Start, false)
            } else {
                Seq::empty()
            },
            released_touch: if inside {
                input.touches_in(TouchPhase::End, false)
            } else {
                Seq::empty()
            },
            is_pressed: Self::takes_press(input, area) || (self.is_pressed && !was_done),
            is_released: input.is_any_mouse_released() || input.touches_in(
                TouchPhase::End,
                false,
            ).len() > 0,
        }
    }
}

fn cap_times(times: &mut Vec<Instant>)
    ensures
        final(times)@ == capped(old(times)@),
{
    if times.len() > MAX_CLICKS {
        times.remove(0);
        assert(times@ =~= old(times)@.skip(1));
    }
}

impl ClickInfo {
    /// The state of a widget that has not been clicked.
    pub fn new() -> (r: ClickInfo)
        ensures
            r@ == ClickInfoView::new(),
    {
        ClickInfo {
            press_time: Vec::new(),
            release_time: Vec::new(),
            last_click_position: None,
            pressed_mouse: Vec::new(),
            released_mouse: Vec::new(),
            pressed_touch: Vec::new(),
            released_touch: Vec::new(),
            is_pressed: false,
            is_released: false,
        }
    }

    /// Moves the state on by one frame, taken at `now`.
    ///
    /// With a pointer inside `area`, the widget notes which buttons and
    /// touches went down and came up. A press that no widget has claimed is
    /// credited to it and claimed, and so is a release. The frame after a
    /// release has been seen, the widget counts as no longer pressed.
    pub fn update_at(&mut self, input_state: &mut InputState, area: &Area, now: Instant)
        ensures
            final(self)@ == old(self)@.after(old(input_state)@, *area, now),
            final(input_state)@ == ClickInfoView::input_after(old(input_state)@, *area),
    {
        if self.is_released {
            self.is_released = false;
            self.is_pressed = false;
        }
        let positions = input_state.pointers();
        let inside = is_any_inside(&positions, area);
        let press = inside && (input_state.is_any_mouse_pressed_unconsumed()
            || input_state.is_any_touch_pressed_unconsumed());
        let release = inside && (input_state.is_any_mouse_released_unconsumed()
            || input_state.is_any_touch_released_unconsumed());
        let any_release = input_state.is_any_mouse_released() || input_state.is_any_touch_released();
        if inside {
            self.pressed_mouse = input_state.pressed_mouse();
            self.released_mouse = input_state.released_mouse();
            self.pressed_touch = input_state.pressed_touches();
            self.released_touch = input_state.released_touches();
        } else {
            self.pressed_mouse = Vec::new();
            self.released_mouse = Vec::new();
            self.pressed_touch = Vec::new();
            self.released_touch = Vec::new();
        }
        if press {
            self.press_time.push(now);
            input_state.consume_all_mouse_press();
            input_state.consume_all_pressed_touch();
            self.is_pressed = true;
        }
        if release {
            self.release_time.push(now);
            input_state.consume_all_mouse_release();
            input_state.consume_all_released_touch();
        }
        if any_release {
            self.is_released = true;
        }
        cap_times(&mut self.press_time);
        cap_times(&mut self.release_time);
    }

    /// Moves the state on by one frame, taken at the present moment of the
    /// system clock.
    pub fn update(&mut self, input_state: &mut InputState, area: &Area)
        ensures
            exists|now: Instant| final(self)@ == old(self)@.after(old(input_state)@, *area, now),
            final(input_state)@ == ClickInfoView::input_after(old(input_state)@, *area),
    {
        self.update_at(input_state, area, Instant::now());
    }
}

impl Clone for ClickInfo {
    fn clone(&self) -> (r: Self)
        ensures
            r@ == self@,
    {
        ClickInfo {
            press_time: copy_vec(&self.press_time),
            release_time: copy_vec(&self.release_time),
            last_click_position: self.last_click_position,
            pressed_mouse: copy_vec(&self.pressed_mouse),
            released_mouse: copy_vec(&self.released_mouse),
            pressed_touch: copy_vec(&self.pressed_touch),
            released_touch: copy_vec(&self.released_touch),
            is_pressed: self.is_pressed,
            is_released: self.is_released,
        }
    }
}

/// Everything the interface derives for one identity: its layer, when it
/// was first declared, where the cursor was in the latest frame, the hover,
/// click and drag state that the widget asked for, and the widget's own
/// persisted text.
#[derive(Debug)]
pub struct Metadata {
    pub layer: Layer,
    pub create_time: Instant,
    pub pointer_position: Option<Vec2>,
    pub hover_info: Option<HoverInfo>,
    pub click_info: Option<ClickInfo>,
    pub drag_info: Option<DragInfo>,
    /// Text that the widget keeps from frame to frame; the interface never
    /// looks inside.
    pub other_info: String,
}

/// Mathematical value of a [`Metadata`].
pub struct MetadataView {
    pub layer: Layer,
    pub create_time: Instant,
    pub pointer_position: Option<Vec2>,
    pub hover_info: Option<HoverInfo>,
    pub click_info: Option<ClickInfoView>,
    pub drag_info: Option<DragInfo>,
    pub other_info: Seq<char>,
}

impl View for Metadata {
    type V = MetadataView;

    open spec fn view(&self) -> MetadataView {
        MetadataView {
            layer: self.layer,
            create_time: self.create_time,
            pointer_position: self.pointer_position,
            hover_info: self.hover_info,
            click_info: match self.click_info {
                Some(c) => Some(c@),
                None => None,
            },
            drag_info: self.drag_info,
            other_info: self.other_info@,
        }
    }
}

impl MetadataView {
    /// The state of an identity first declared at `now` on `layer`. Hover
    /// state is always kept; click and drag state only on request.
    pub open spec fn new(layer: Layer, is_clickable: bool, is_dragable: bool, now: Instant) -> MetadataView {
        MetadataView {
            layer,
            create_time: now,
            pointer_position: None,
            hover_info: Some(HoverInfo::spec_new()),
            click_info: if is_clickable {
                Some(ClickInfoView::new())
            } else {
                None
            },
            drag_info: if is_dragable {
                Some(DragInfo::spec_new())
            } else {
                None
            },
            other_info: Seq::empty(),
        }
    }

    /// The input after the drag state, if kept, has looked at it.
    pub open spec fn input_after_drag(self, input: InputStateView, area: Area) -> InputStateView {
        match self.drag_info {
            Some(d) => d.input_after(input, area),
            None => input,
        }
    }

    /// The input after the widget has looked at it: first its drag state,
    /// then its click state, each claiming what it takes.
    pub open spec fn input_after(self, input: InputStateView, area: Area) -> InputStateView {
        let dragged = self.input_after_drag(input, area);
        match self.click_info {
            Some(_) => ClickInfoView::input_after(dragged, area),
            None => dragged,
        }
    }

    /// The state after one frame's input, taken at `now`: drag, click and
    /// hover state move on in this order, each seeing the claims of those
    /// before it.
    pub open spec fn after(self, input: InputStateView, area: Area, now: Instant) -> MetadataView {
        let dragged = self.input_after_drag(input, area);
        let clicked = self.input_after(input, area);
        MetadataView {
            drag_info: match self.drag_info {
                Some(d) => Some(d.after(input, area, now)),
                None => None,
            },
            click_info: match self.click_info {
                Some(c) => Some(c.after(dragged, area, now)),
                None => None,
            },
            hover_info: match self.hover_info {
                Some(h) => Some(h.after(any_inside(clicked.pointers(), area), now)),
                None => None,
            },
            pointer_position: clicked.cursor_position,
            ..self
        }
    }
}

impl Metadata {
    /// The state of an identity first declared at `now` on `layer`.
    pub fn new_at(layer: Layer, is_clickable: bool, is_dragable: bool, now: Instant) -> (r: Metadata)
        ensures
            r@ == MetadataView::new(layer, is_clickable, is_dragable, now),
    {
        let click_info = if is_clickable {
            Some(ClickInfo::new())
        } else {
            None
        };
        let drag_info = if is_dragable {
            Some(DragInfo::new())
        } else {
            None
        };
        Metadata {
            layer,
            create_time: now,
            pointer_position: None,
            hover_info: Some(HoverInfo::new()),
            click_info,
            drag_info,
            other_info: String::new(),
        }
    }

    /// The state of an identity first declared at the present moment of the
    /// system clock.
    pub fn new(layer: Layer, is_clickable: bool, is_dragable: bool) -> (r: Metadata)
        ensures
            exists|now: Instant| r@ == MetadataView::new(layer, is_clickable, is_dragable, now),
    {
        Metadata::new_at(layer, is_clickable, is_dragable, Instant::now())
    }

    /// Moves the state on by one frame, taken at `now`.
    pub fn update_at(&mut self, input_state: &mut InputState, area: &Area, now: Instant)
        ensures
            final(self)@ == old(self)@.after(old(input_state)@, *area, now),
            final(input_state)@ == old(self)@.input_after(old(input_state)@, *area),
    {
        if let Some(inner) = &mut self.drag_info {
            inner.update_at(input_state, area, now);
        }
        if let Some(inner) = &mut self.click_info {
            inner.update_at(input_state, area, now);
        }
        if let Some(inner) = &mut self.hover_info {
            inner.update_at(input_state, area, now);
        }
        self.pointer_position = input_state.cursor_position();
    }

    /// Moves the state on by one frame, taken at the present moment of the
    /// system clock.
    pub fn update(&mut self, input_state: &mut InputState, area: &Area)
        ensures
            exists|now: Instant| final(self)@ == old(self)@.after(old(input_state)@, *area, now),
            final(input_state)@ == old(self)@.input_after(old(input_state)@, *area),
    {
        self.update_at(input_state, area, Instant::now());
    }
}

impl MetadataView {
    /// The state of an identity first declared at `now` that keeps hover,
    /// click and drag state, on the middle layer.
    pub open spec fn all(now: Instant) -> MetadataView {
        MetadataView::new(Layer::Middle, true, true, now)
    }
}

impl Default for Metadata {
    fn default() -> (r: Metadata)
        ensures
            exists|now: Instant| r@ == #[trigger] MetadataView::all(now),
    {
        let now = Instant::now();
        let r = Metadata::new_at(Layer::Middle, true, true, now);
        assert(r@ == MetadataView::all(now));
        r
    }
}

impl Clone for Metadata {
    fn clone(&self) -> (r: Self)
        ensures
            r@ == self@,
    {
        Metadata {
            layer: self.layer,
            create_time: self.create_time,
            pointer_position: self.pointer_position,
            hover_info: self.hover_info,
            click_info: match &self.click_info {
                Some(c) => Some(c.clone()),
                None => None,
            },
            drag_info: self.drag_info,
            other_info: self.other_info.clone(),
        }
    }
}

/// What declaring a widget hands back: the widget's area in this frame
/// together with the state derived for its identity up to the previous
/// frame.
#[derive(Debug)]
pub struct Response {
    /// Where the widget is and how much room it takes.
    pub area: Area,
    /// The widget's identity.
    pub id: String,
    /// The state derived for the identity.
    pub metadata: Metadata,
}

/// Mathematical value of a [`Response`].
pub struct ResponseView {
    pub area: Area,
    pub id: Seq<char>,
    pub metadata: MetadataView,
}

impl View for Response {
    type V = ResponseView;

    open spec fn view(&self) -> ResponseView {
        ResponseView { area: self.area, id: self.id@, metadata: self.metadata@ }
    }
}

/// Whether the gap from `earlier` to `later` is within the multi-click
/// window.
pub open spec fn within_window(earlier: Instant, later: Instant) -> bool {
    later.nanos - earlier.nanos <= MULTI_CLICK_MILLIS * NANOS_PER_MILLI
}

/// The span from an instant, if there is one, to `now`.
pub open spec fn span_from(start: Option<Instant>, now: Instant) -> Option<Duration> {
    match start {
        Some(t) => Some(now.spec_since(t)),
        None => None,
    }
}

/// The spans from each kept instant of a click state, if the widget has
/// one, to `now`; `presses` picks the presses, else the releases.
pub open spec fn click_spans(click: Option<ClickInfoView>, presses: bool, now: Instant) -> Seq<Duration> {
    match click {
        Some(c) => elapsed_all(
            if presses {
                c.press_time
            } else {
                c.release_time
            },
            now,
        ),
        None => Seq::empty(),
    }
}

/// The spans from each instant of the list to `now`.
pub open spec fn elapsed_all(times: Seq<Instant>, now: Instant) -> Seq<Duration> {
    times.map_values(|t: Instant| now.spec_since(t))
}

impl ResponseView {
    /// Did a button or touch go down on the widget in the latest frame?
    pub open spec fn is_pressed(self) -> bool {
        match self.metadata.click_info {
            Some(c) => c.pressed_mouse.len() >= 1 || c.pressed_touch.len() >= 1,
            None => false,
        }
    }

    /// Is the widget held down?
    pub open spec fn is_pressing(self) -> bool {
        match self.metadata.click_info {
            Some(c) => c.is_pressed,
            None => false,
        }
    }

    /// Did a button or touch come up on the widget in the latest frame?
    pub open spec fn is_released(self) -> bool {
        match self.metadata.click_info {
            Some(c) => c.released_mouse.len() >= 1 || c.released_touch.len() >= 1,
            None => false,
        }
    }

    /// Was the widget clicked: released in the latest frame while held
    /// down?
    pub open spec fn is_clicked(self) -> bool {
        self.is_released() && self.is_pressing()
    }

    /// Do the latest `multi` releases form a multi-click at `now`: there
    /// are that many, the latest lies within the window before `now`, and
    /// each of them lies within the window after the one before it?
    pub open spec fn is_multi_clicked_at(self, multi: usize, now: Instant) -> bool {
        match self.metadata.click_info {
            Some(c) => {
                let n = c.release_time.len();
                &&& n >= 1
                &&& multi <= n
                &&& within_window(c.release_time[n - 1], now)
                &&& forall|i: int|
                    n - multi <= i < n - 1 ==> within_window(
                        #[trigger] c.release_time[i],
                        c.release_time[i + 1],
                    )
            },
            None => false,
        }
    }

    pub open spec fn is_draging(self) -> bool {
        match self.metadata.drag_info {
            Some(d) => d.is_draging,
            None => false,
        }
    }

    /// How far the cursor is from where the drag began; `None` when the
    /// widget is not dragged.
    pub open spec fn drag(self) -> Option<Vec2> {
        if self.is_draging() && self.metadata.pointer_position is Some
            && self.metadata.drag_info->0.last_drag_start_position is Some {
            Some(
                self.metadata.pointer_position->0.spec_minus(
                    self.metadata.drag_info->0.last_drag_start_position->0,
                ),
            )
        } else {
            None
        }
    }

    pub open spec fn drag_delta(self) -> Vec2 {
        match self.metadata.drag_info {
            Some(d) => d.drag_delta,
            None => Vec2::spec_zero(),
        }
    }

    /// When the present drag began.
    pub open spec fn drag_start(self) -> Option<Instant> {
        match self.metadata.drag_info {
            Some(d) => d.drag_start_time,
            None => None,
        }
    }

    pub open spec fn is_hovering(self) -> bool {
        match self.metadata.hover_info {
            Some(h) => h.is_hovering,
            None => false,
        }
    }

    pub open spec fn is_lost_hover(self) -> bool {
        match self.metadata.hover_info {
            Some(h) => h.last_lost_hover_time is Some,
            None => false,
        }
    }

    /// When the present or latest stretch of hovering began.
    pub open spec fn hover_start(self) -> Option<Instant> {
        match self.metadata.hover_info {
            Some(h) => h.last_hover_time,
            None => None,
        }
    }

    /// When hovering was lost.
    pub open spec fn hover_lost(self) -> Option<Instant> {
        match self.metadata.hover_info {
            Some(h) => h.last_lost_hover_time,
            None => None,
        }
    }

    /// How long the latest finished stretch of hovering lasted, when that is
    /// more than nothing.
    pub open spec fn hovering_sustain_time(self) -> Option<Duration> {
        if self.hover_lost() is Some && self.hover_start() is Some && self.hover_lost()->0.nanos
            > self.hover_start()->0.nanos {
            Some(self.hover_lost()->0.spec_since(self.hover_start()->0))
        } else {
            None
        }
    }

    /// When the latest press was credited to the widget.
    pub open spec fn last_press(self) -> Option<Instant> {
        match self.metadata.click_info {
            Some(c) => if c.press_time.len() == 0 {
                None
            } else {
                Some(c.press_time.last())
            },
            None => None,
        }
    }

    /// When the latest release was credited to the widget.
    pub open spec fn last_release(self) -> Option<Instant> {
        match self.metadata.click_info {
            Some(c) => if c.release_time.len() == 0 {
                None
            } else {
                Some(c.release_time.last())
            },
            None => None,
        }
    }

    /// How much longer ago the latest release was than the latest press,
    /// when that is more than nothing.
    pub open spec fn press_sustain_time(self) -> Option<Duration> {
        if self.last_release() is Some && self.last_press() is Some && self.last_press()->0.nanos
            > self.last_release()->0.nanos {
            Some(self.last_press()->0.spec_since(self.last_release()->0))
        } else {
            None
        }
    }

    /// The widget's persisted text, unless it is empty.
    pub open spec fn memory_read(self) -> Option<Seq<char>> {
        if self.metadata.other_info.len() == 0 {
            None
        } else {
            Some(self.metadata.other_info)
        }
    }
}

fn since_each(times: &Vec<Instant>, now: Instant) -> (r: Vec<Duration>)
    ensures
        r@ == elapsed_all(times@, now),
{
    let mut back: Vec<Duration> = Vec::new();
    let mut i: usize = 0;
    while i < times.len()
        invariant
            i <= times.len(),
            back.len() == i,
            forall|j: int| 0 <= j < i ==> back@[j] == now.spec_since(times@[j]),
        decreases times.len() - i,
    {
        back.push(times[i].elapsed_at(now));
        i += 1;
    }
    assert(back@ =~= elapsed_all(times@, now));
    back
}

fn span_to(start: Option<Instant>, now: Instant) -> (r: Option<Duration>)
    ensures
        r == span_from(start, now),
{
    match start {
        Some(t) => Some(t.elapsed_at(now)),
        None => None,
    }
}

impl Response {
    /// Did a button or touch go down on the widget in the latest frame?
    pub fn is_pressed(&self) -> (r: bool)
        ensures
            r == self@.is_pressed(),
    {
        if let Some(inner) = &self.metadata.click_info {
            inner.pressed_mouse.len() >= 1 || inner.pressed_touch.len() >= 1
        } else {
            false
        }
    }

    /// Is the widget held down?
    pub fn is_pressing(&self) -> (r: bool)
        ensures
            r == self@.is_pressing(),
    {
        if let Some(inner) = &self.metadata.click_info {
            inner.is_pressed
        } else {
            false
        }
    }

    /// Did a button or touch come up on the widget in the latest frame?
    pub fn is_released(&self) -> (r: bool)
        ensures
            r == self@.is_released(),
    {
        if let Some(inner) = &self.metadata.click_info {
            inner.released_mouse.len() >= 1 || inner.released_touch.len() >= 1
        } else {
            false
        }
    }

    /// Was the widget clicked in the latest frame?
    pub fn is_clicked(&self) -> (r: bool)
        ensures
            r == self@.is_clicked(),
    {
        self.is_released() && self.is_pressing()
    }

    /// Do the latest `multi` releases form a multi-click at `now`?
    pub fn is_multi_clicked_at(&self, multi: usize, now: Instant) -> (r: bool)
        ensures
            r == self@.is_multi_clicked_at(multi, now),
    {
        if let Some(inner) = &self.metadata.click_info {
            let n = inner.release_time.len();
            if n == 0 || multi > n {
                return false;
            }
            let window = Duration::milliseconds(MULTI_CLICK_MILLIS);
            if now.since(inner.release_time[n - 1]).is_longer_than(window) {
                return false;
            }
            let ghost times = self@.metadata.click_info->0.release_time;
            let mut click: usize = n - multi;
            while click < n - 1
                invariant
                    self@.metadata.click_info is Some,
                    times == self@.metadata.click_info->0.release_time,
                    times == inner.release_time@,
                    n == times.len(),
                    n - multi <= click,
                    multi <= n,
                    n >= 1,
                    within_window(times[n - 1], now),
                    window.nanos == MULTI_CLICK_MILLIS * NANOS_PER_MILLI,
                    forall|i: int|
                        n - multi <= i < click ==> within_window(#[trigger] times[i], times[i + 1]),
                decreases n - click,
            {
                if inner.release_time[click + 1].since(inner.release_time[click]).is_longer_than(
                    window,
                ) {
                    assert(!within_window(times[click as int], times[click + 1]));
                    return false;
                }
                click += 1;
            }
            true
        } else {
            false
        }
    }

    /// Do the latest `multi` releases form a multi-click at the present
    /// moment of the system clock?
    pub fn is_multi_clicked(&self, multi: usize) -> (r: bool)
        ensures
            exists|now: Instant| r == self@.is_multi_clicked_at(multi, now),
    {
        self.is_multi_clicked_at(multi, Instant::now())
    }

    /// Where the widget was clicked last; `None` when it never was.
    pub fn last_click_position(&self) -> (r: Option<Vec2>)
        ensures
            r == match self@.metadata.click_info {
                Some(c) => c.last_click_position,
                None => None,
            },
    {
        match &self.metadata.click_info {
            Some(c) => c.last_click_position,
            None => None,
        }
    }

    /// Is the widget being dragged?
    pub fn is_draging(&self) -> (r: bool)
        ensures
            r == self@.is_draging(),
    {
        if let Some(inner) = &self.metadata.drag_info {
            inner.is_draging
        } else {
            false
        }
    }

    /// How far the cursor is from where the drag began; `None` when the
    /// widget is not dragged.
    pub fn drag(&self) -> (r: Option<Vec2>)
        ensures
            r == self@.drag(),
    {
        if self.is_draging() {
            if let Some(pointer) = self.metadata.pointer_position {
                if let Some(inner) = &self.metadata.drag_info {
                    if let Some(start) = inner.last_drag_start_position {
                        return Some(pointer.minus(start));
                    }
                }
            }
        }
        None
    }

    /// How far the cursor moved since the previous frame of the drag.
    pub fn drag_delta(&self) -> (r: Vec2)
        ensures
            r == self@.drag_delta(),
    {
        if let Some(inner) = &self.metadata.drag_info {
            inner.drag_delta
        } else {
            Vec2::zero()
        }
    }

    /// How long the widget has been dragged at `now`; `None` when it is
    /// not dragged.
    pub fn drag_time_at(&self, now: Instant) -> (r: Option<Duration>)
        ensures
            r == span_from(self@.drag_start(), now),
    {
        let start = match &self.metadata.drag_info {
            Some(d) => d.drag_start_time,
            None => None,
        };
        span_to(start, now)
    }

    /// How long the widget has been dragged; `None` when it is not dragged.
    pub fn drag_time(&self) -> (r: Option<Duration>)
        ensures
            exists|now: Instant| r == #[trigger] span_from(self@.drag_start(), now),
    {
        self.drag_time_at(Instant::now())
    }

    /// Is a pointer over the widget?
    pub fn is_hovering(&self) -> (r: bool)
        ensures
            r == self@.is_hovering(),
    {
        if let Some(inner) = &self.metadata.hover_info {
            inner.is_hovering
        } else {
            false
        }
    }

    /// Has the widget lost a pointer that was over it?
    pub fn is_lost_hover(&self) -> (r: bool)
        ensures
            r == self@.is_lost_hover(),
    {
        if let Some(inner) = &self.metadata.hover_info {
            inner.last_lost_hover_time.is_some()
        } else {
            false
        }
    }

    /// How long ago, at `now`, the present or latest stretch of hovering
    /// began; `None` when the widget was never hovered.
    pub fn hovering_time_at(&self, now: Instant) -> (r: Option<Duration>)
        ensures
            r == span_from(self@.hover_start(), now),
    {
        let start = match &self.metadata.hover_info {
            Some(h) => h.last_hover_time,
            None => None,
        };
        span_to(start, now)
    }

    /// How long ago the present or latest stretch of hovering began; `None`
    /// when the widget was never hovered.
    pub fn hovering_time(&self) -> (r: Option<Duration>)
        ensures
            exists|now: Instant| r == #[trigger] span_from(self@.hover_start(), now),
    {
        self.hovering_time_at(Instant::now())
    }

    /// How long ago, at `now`, hovering was lost; `None` while hovering.
    pub fn lost_hovering_time_at(&self, now: Instant) -> (r: Option<Duration>)
        ensures
            r == span_from(self@.hover_lost(), now),
    {
        let start = match &self.metadata.hover_info {
            Some(h) => h.last_lost_hover_time,
            None => None,
        };
        span_to(start, now)
    }

    /// How long ago hovering was lost; `None` while hovering.
    pub fn lost_hovering_time(&self) -> (r: Option<Duration>)
        ensures
            exists|now: Instant| r == #[trigger] span_from(self@.hover_lost(), now),
    {
        self.lost_hovering_time_at(Instant::now())
    }

    /// How something shows at `now` that comes once a pointer has rested
    /// on the widget for `rest`, and takes `fade` to come and to go: the
    /// light on a button, or a tip.
    pub fn hover_phase_at(&self, rest: Duration, fade: Duration, now: Instant) -> (r: FadePhase)
        ensures
            r == spec_hover_phase(self@.hover_start(), self@.hover_lost(), rest, fade, now),
    {
        let (start, lost) = match &self.metadata.hover_info {
            Some(h) => (h.last_hover_time, h.last_lost_hover_time),
            None => (None, None),
        };
        hover_phase(start, lost, rest, fade, now)
    }

    /// Where the cursor was in the latest frame; `None` when it was off the
    /// surface.
    pub fn pointer_position(&self) -> (r: Option<Vec2>)
        ensures
            r == self@.metadata.pointer_position,
    {
        self.metadata.pointer_position
    }

    /// How long ago, at `now`, the identity was first declared.
    pub fn create_time_at(&self, now: Instant) -> (r: Duration)
        ensures
            r == now.spec_since(self@.metadata.create_time),
    {
        self.metadata.create_time.elapsed_at(now)
    }

    /// How long ago the identity was first declared.
    pub fn create_time(&self) -> (r: Duration)
        ensures
            exists|now: Instant| r == #[trigger] now.spec_since(self@.metadata.create_time),
    {
        self.create_time_at(Instant::now())
    }

    /// How long the latest finished stretch of hovering lasted; `None` when
    /// there is none, and while hovering.
    pub fn hovering_sustain_time(&self) -> (r: Option<Duration>)
        ensures
            r == self@.hovering_sustain_time(),
    {
        if let Some(h) = &self.metadata.hover_info {
            if let Some(lost) = h.last_lost_hover_time {
                if let Some(start) = h.last_hover_time {
                    let time = lost.since(start);
                    if time.is_positive() {
                        return Some(time);
                    }
                }
            }
        }
        None
    }

    /// How long ago, at `now`, the latest press was credited to the widget.
    pub fn press_time_at(&self, now: Instant) -> (r: Option<Duration>)
        ensures
            r == span_from(self@.last_press(), now),
    {
        let start = match &self.metadata.click_info {
            Some(c) => if c.press_time.len() == 0 {
                None
            } else {
                Some(c.press_time[c.press_time.len() - 1])
            },
            None => None,
        };
        span_to(start, now)
    }

    /// How long ago the latest press was credited to the widget; `None`
    /// when none was.
    pub fn press_time(&self) -> (r: Option<Duration>)
        ensures
            exists|now: Instant| r == #[trigger] span_from(self@.last_press(), now),
    {
        self.press_time_at(Instant::now())
    }

    /// How long ago, at `now`, the latest release was credited to the
    /// widget.
    pub fn release_time_at(&self, now: Instant) -> (r: Option<Duration>)
        ensures
            r == span_from(self@.last_release(), now),
    {
        let start = match &self.metadata.click_info {
            Some(c) => if c.release_time.len() == 0 {
                None
            } else {
                Some(c.release_time[c.release_time.len() - 1])
            },
            None => None,
        };
        span_to(start, now)
    }

    /// How long ago the latest release was credited to the widget; `None`
    /// when none was.
    pub fn release_time(&self) -> (r: Option<Duration>)
        ensures
            exists|now: Instant| r == #[trigger] span_from(self@.last_release(), now),
    {
        self.release_time_at(Instant::now())
    }

    /// The time since the latest release less the time since the latest
    /// press, when that is more than nothing: the span from that release to
    /// that press.
    pub fn press_sustain_time(&self) -> (r: Option<Duration>)
        ensures
            r == self@.press_sustain_time(),
    {
        if let Some(c) = &self.metadata.click_info {
            if c.press_time.len() > 0 && c.release_time.len() > 0 {
                let pressed = c.press_time[c.press_time.len() - 1];
                let released = c.release_time[c.release_time.len() - 1];
                let time = pressed.since(released);
                if time.is_positive() {
                    return Some(time);
                }
            }
        }
        None
    }

    /// How long ago, at `now`, each kept press was credited, oldest first.
    pub fn press_times_at(&self, now: Instant) -> (r: Vec<Duration>)
        ensures
            r@ == click_spans(self@.metadata.click_info, true, now),
    {
        if let Some(inner) = &self.metadata.click_info {
            since_each(&inner.press_time, now)
        } else {
            Vec::new()
        }
    }

    /// How long ago each kept press was credited, oldest first.
    pub fn press_times(&self) -> (r: Vec<Duration>)
        ensures
            exists|now: Instant|
                r@ == #[trigger] click_spans(self@.metadata.click_info, true, now),
    {
        self.press_times_at(Instant::now())
    }

    /// How long ago, at `now`, each kept release was credited, oldest first.
    pub fn release_times_at(&self, now: Instant) -> (r: Vec<Duration>)
        ensures
            r@ == click_spans(self@.metadata.click_info, false, now),
    {
        if let Some(inner) = &self.metadata.click_info {
            since_each(&inner.release_time, now)
        } else {
            Vec::new()
        }
    }

    /// How long ago each kept release was credited, oldest first.
    pub fn release_times(&self) -> (r: Vec<Duration>)
        ensures
            exists|now: Instant|
                r@ == #[trigger] click_spans(self@.metadata.click_info, false, now),
    {
        self.release_times_at(Instant::now())
    }

    /// The widget's persisted text; `None` when it is empty.
    pub fn memory_read(&self) -> (r: Option<String>)
        ensures
            match r {
                Some(t) => self@.memory_read() == Some(t@),
                None => self@.memory_read() is None,
            },
    {
        if self.metadata.other_info.as_str().unicode_len() == 0 {
            return None;
        }
        Some(self.metadata.other_info.clone())
    }

    /// Takes over a copy of `metadata`.
    pub fn read(&mut self, metadata: &Metadata)
        ensures
            final(self)@ == (ResponseView { metadata: metadata@, ..old(self)@ }),
    {
        self.metadata = metadata.clone();
    }
}

impl Clone for Response {
    fn clone(&self) -> (r: Self)
        ensures
            r@ == self@,
    {
        Response { area: self.area, id: self.id.clone(), metadata: self.metadata.clone() }
    }
}

} // verus!
