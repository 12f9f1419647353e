//! The collapsing section: a header that shows or hides what is declared
//! below it.

use vstd::prelude::*;
use crate::animation::turn_time;
use crate::clock::{clamp_i64, Duration, Instant, NANOS_PER_MILLI};
use crate::container::card::{content_area, content_of, holds_cursor};
use crate::container::state::{CollapsingTemp, ContainerState, ContainerStateView};
use crate::container::{Container, Opening};
use crate::identity::container_id_in;
use crate::input::InputStateView;
use crate::layer::Layer;
use crate::math::{sat_add, Area, Vec2};
use crate::memory::{read_container, save_container};
use crate::response::{Response, ResponseView};
use crate::ui::{responses_view, Ui, UiView};

verus! {

/// Side of the square that the arrow of a section takes when no icon is
/// set.
pub const ARROW: i64 = 16;

/// How long the arrow of a section takes to turn, in milliseconds.
pub const TURN_MILLIS: i64 = 150;

/// What a container state holds for a section, if it holds that.
pub open spec fn collapsing_of(state: ContainerStateView) -> Option<CollapsingTemp> {
    match state {
        ContainerStateView::Collapsing(t) => Some(t),
        _ => None,
    }
}

/// What the scope remembers for the section `id`, if anything.
pub fn read_collapsing(ui: &Ui, id: &String) -> (r: Option<CollapsingTemp>)
    ensures
        r == collapsing_of(read_container(ui@.memory, id@)),
{
    match ui.container_read(id) {
        ContainerState::Collapsing(t) => Some(t),
        _ => None,
    }
}

impl CollapsingTemp {
    /// What is remembered after the section has been toggled at `now`: it
    /// is open if it was shut and shut if it was open, and the latest two
    /// toggles are kept.
    pub open spec fn toggled(self, now: Instant) -> CollapsingTemp {
        CollapsingTemp {
            is_open: !self.is_open,
            earlier_change: self.latest_change,
            latest_change: Some(now),
            ..self
        }
    }

    /// The time to evaluate the easing of the arrow's turn at, at `now`;
    /// `None` when the section was never toggled.
    pub open spec fn spec_turn_time(self, now: Instant) -> Option<Duration> {
        crate::animation::spec_turn_time(
            self.earlier_change,
            self.latest_change,
            Duration { nanos: (TURN_MILLIS * NANOS_PER_MILLI) as i128 },
            now,
        )
    }

    /// What is remembered after the section has been toggled at `now`.
    pub fn toggle_at(&mut self, now: Instant)
        ensures
            *final(self) == old(self).toggled(now),
    {
        self.is_open = !self.is_open;
        self.earlier_change = self.latest_change;
        self.latest_change = Some(now);
    }

    /// The time to evaluate the easing of the arrow's turn at, at `now`.
    /// The arrow has turned by the value of the easing when the section is
    /// open, and by what is left of the whole when it is shut.
    pub fn turn_time_at(&self, now: Instant) -> (r: Option<Duration>)
        ensures
            r == self.spec_turn_time(now),
    {
        turn_time(
            self.earlier_change,
            self.latest_change,
            Duration::milliseconds(TURN_MILLIS),
            now,
        )
    }
}

/// A section with a header that shows or hides what is declared inside
/// it.
#[derive(Debug)]
pub struct Collapsing {
    pub(crate) id: String,
    pub(crate) text: String,
    pub(crate) text_size: Vec2,
    pub(crate) icon_size: Option<Vec2>,
    pub(crate) default_open: bool,
}

/// Mathematical value of a [`Collapsing`].
pub struct CollapsingView {
    pub id: Seq<char>,
    /// The words of the header.
    pub text: Seq<char>,
    /// The room that the words of the header take when drawn.
    pub text_size: Vec2,
    /// The room of the icon; `None` for the arrow.
    pub icon_size: Option<Vec2>,
    /// Whether the section starts out open.
    pub default_open: bool,
}

impl View for Collapsing {
    type V = CollapsingView;

    closed spec fn view(&self) -> CollapsingView {
        CollapsingView {
            id: self.id@,
            text: self.text@,
            text_size: self.text_size,
            icon_size: self.icon_size,
            default_open: self.default_open,
        }
    }
}

/// The largest of three lengths.
pub open spec fn max3(a: i64, b: i64, c: i64) -> i64 {
    if a >= b && a >= c {
        a
    } else if b >= c {
        b
    } else {
        c
    }
}

impl CollapsingView {
    /// The room of the icon.
    pub open spec fn icon(self) -> Vec2 {
        match self.icon_size {
            Some(s) => s,
            None => Vec2 { x: ARROW, y: ARROW },
        }
    }

    /// The extent of the header: icon and words side by side, and at least
    /// the spacing high.
    pub open spec fn header_size(self, space: i64) -> Vec2 {
        Vec2 {
            x: clamp_i64(self.text_size.x + self.icon().x),
            y: max3(self.text_size.y, self.icon().y, space),
        }
    }

    /// The room of the header of a section whose own room is `own`.
    pub open spec fn header_area(self, own: Area, space: i64) -> Area {
        Area::spec_new(own.left_top, own.left_top.spec_plus(self.header_size(space)))
    }

    /// The identity under which the section's state is kept, seen from
    /// `ui`.
    pub open spec fn key(self, ui: UiView) -> Seq<char> {
        container_id_in(ui.scope_id, self.id)
    }

    /// The room that the section asks for in `ui`: its header, the room
    /// that its content took when it is open, and the spacing.
    pub open spec fn area_in(self, ui: UiView) -> Area {
        let header = self.header_size(ui.style.space);
        let whole = match collapsing_of(read_container(ui.memory, self.key(ui))) {
            Some(t) => if t.is_open {
                header.spec_plus(t.area)
            } else {
                header
            },
            None => header,
        };
        Area::spec_new(
            ui.available_position,
            ui.available_position.spec_plus(whole).spec_plus(
                Vec2 { x: ui.style.space, y: ui.style.space },
            ),
        )
    }

    /// What the section remembered when its frame began.
    pub open spec fn remembered(self, ui: UiView, id: Seq<char>) -> CollapsingTemp {
        match collapsing_of(read_container(ui.memory, id)) {
            Some(t) => t,
            None => CollapsingTemp::initial(self.default_open),
        }
    }

    /// Whether the header is clicked in this frame: a button came up with
    /// the cursor inside it.
    pub open spec fn is_toggled(self, input: InputStateView, own: Area, space: i64) -> bool {
        input.is_any_mouse_released() && holds_cursor(
            self.header_area(own, space),
            input.cursor_position,
        )
    }

    /// What the section remembers after the start of its frame at `now`.
    pub open spec fn begun(self, ui: UiView, response: ResponseView, id: Seq<char>, now: Instant) -> CollapsingTemp {
        if self.is_toggled(ui.input, response.area, ui.style.space) {
            self.remembered(ui, id).toggled(now)
        } else {
            self.remembered(ui, id)
        }
    }

    /// What the section remembers after the end of its frame: the room
    /// that its content took, or none when it is shut.
    pub open spec fn ended(self, ui: UiView, response: ResponseView, inner: Seq<ResponseView>, id: Seq<char>) -> CollapsingTemp {
        let temp = match collapsing_of(read_container(ui.memory, id)) {
            Some(t) => t,
            None => CollapsingTemp::initial(false),
        };
        CollapsingTemp {
            area: if temp.is_open {
                content_of(inner, response.area).spec_width_and_height()
            } else {
                Vec2::spec_zero()
            },
            ..temp
        }
    }
}

impl Collapsing {
    /// A section named and headed `text`, shut, with the arrow for its
    /// icon.
    pub fn new(text: String) -> (r: Collapsing)
        ensures
            r@ == (CollapsingView {
                id: text@,
                text: text@,
                text_size: Vec2::spec_zero(),
                icon_size: None,
                default_open: false,
            }),
    {
        Collapsing {
            id: text.clone(),
            text,
            text_size: Vec2::zero(),
            icon_size: None,
            default_open: false,
        }
    }

    /// Gives the section an icon of extent `area` in place of the arrow.
    pub fn icon(self, area: Vec2) -> (r: Collapsing)
        ensures
            r@ == (CollapsingView { icon_size: Some(area), ..self@ }),
    {
        let mut s = self;
        s.icon_size = Some(area);
        s
    }

    /// Tells the section how much room the words of its header take when
    /// drawn.
    pub fn text_size(self, size: Vec2) -> (r: Collapsing)
        ensures
            r@ == (CollapsingView { text_size: size, ..self@ }),
    {
        let mut s = self;
        s.text_size = size;
        s
    }

    /// Sets whether the section starts out open.
    pub fn default_open(self, default_open: bool) -> (r: Collapsing)
        ensures
            r@ == (CollapsingView { default_open, ..self@ }),
    {
        let mut s = self;
        s.default_open = default_open;
        s
    }

    /// Opens or shuts the section.
    pub fn open(&self, is_open: bool, ui: &mut Ui)
        ensures
            final(ui)@ == (UiView {
                memory: save_container(
                    old(ui)@.memory,
                    self@.key(old(ui)@),
                    ContainerStateView::Collapsing(
                        CollapsingTemp {
                            is_open,
                            ..match collapsing_of(
                                read_container(old(ui)@.memory, self@.key(old(ui)@)),
                            ) {
                                Some(t) => t,
                                None => CollapsingTemp::initial(false),
                            }
                        },
                    ),
                ),
                ..old(ui)@
            }),
    {
        let id = ui.container_id(&self.id);
        let mut temp = match read_collapsing(ui, &id) {
            Some(t) => t,
            None => CollapsingTemp::default(),
        };
        temp.is_open = is_open;
        ui.container_save(&id, ContainerState::Collapsing(temp));
    }

    fn header_size(&self, space: i64) -> (r: Vec2)
        ensures
            r == self@.header_size(space),
    {
        let icon = match self.icon_size {
            Some(s) => s,
            None => Vec2::same(ARROW),
        };
        let a = self.text_size.y;
        let b = icon.y;
        Vec2 {
            x: sat_add(self.text_size.x, icon.x),
            y: if a >= b && a >= space {
                a
            } else if b >= space {
                b
            } else {
                space
            },
        }
    }

    /// What the section does before its inside is declared, at `now`: a
    /// click on its header toggles it. The inside is shown when the section
    /// is open, below the header.
    pub fn begin_at(&mut self, ui: &mut Ui, response: &Response, id: &String, now: Instant) -> (r: Opening)
        ensures
            final(self)@ == old(self)@,
            final(ui)@ == (UiView {
                memory: save_container(
                    old(ui)@.memory,
                    id@,
                    ContainerStateView::Collapsing(old(self)@.begun(old(ui)@, response@, id@, now)),
                ),
                ..old(ui)@
            }),
            r == (Opening {
                show: old(self)@.begun(old(ui)@, response@, id@, now).is_open,
                offset: Vec2 {
                    x: 0,
                    y: old(self)@.header_area(response@.area, old(ui)@.style.space).spec_height(),
                },
            }),
    {
        let mut temp = match read_collapsing(ui, id) {
            Some(t) => t,
            None => CollapsingTemp {
                area: Vec2::zero(),
                is_open: self.default_open,
                earlier_change: None,
                latest_change: None,
            },
        };
        let width_and_height = self.header_size(ui.style().space);
        let area = Area::new(
            response.area.left_top(),
            response.area.left_top().plus(width_and_height),
        );
        if ui.input().is_any_mouse_released() {
            if let Some(t) = ui.input().cursor_position() {
                if area.is_point_inside(&t) {
                    temp.toggle_at(now);
                }
            }
        }
        ui.container_save(id, ContainerState::Collapsing(temp));
        Opening { show: temp.is_open, offset: Vec2::y(area.height()) }
    }
}

impl Container for Collapsing {
    fn get_id(&self, ui: &mut Ui) -> (r: String)
        ensures
            r@ == self@.id,
            final(ui)@ == old(ui)@,
    {
        self.id.clone()
    }

    fn area(&self, ui: &mut Ui) -> (r: Area)
        ensures
            r == self@.area_in(old(ui)@),
            final(ui)@ == old(ui)@,
    {
        let id = ui.container_id(&self.id);
        let header = self.header_size(ui.style().space);
        let width_and_height = match read_collapsing(ui, &id) {
            Some(temp) => if temp.is_open {
                header.plus(temp.area)
            } else {
                header
            },
            None => header,
        };
        Area::new(
            ui.available_position(),
            ui.available_position().plus(width_and_height).plus(Vec2::same(ui.style().space)),
        )
    }

    fn layer(&self, ui: &mut Ui) -> (r: Layer)
        ensures
            r == old(ui)@.paint_layer,
            final(ui)@ == old(ui)@,
    {
        ui.paint_layer()
    }

    fn begin(&mut self, ui: &mut Ui, response: &Response, id: &String) -> (r: Opening)
        ensures
            final(self)@ == old(self)@,
            exists|now: Instant|
                final(ui)@ == (UiView {
                    memory: save_container(
                        old(ui)@.memory,
                        id@,
                        ContainerStateView::Collapsing(
                            old(self)@.begun(old(ui)@, response@, id@, now),
                        ),
                    ),
                    ..old(ui)@
                }) && r == (Opening {
                    show: old(self)@.begun(old(ui)@, response@, id@, now).is_open,
                    offset: Vec2 {
                        x: 0,
                        y: old(self)@.header_area(
                            response@.area,
                            old(ui)@.style.space,
                        ).spec_height(),
                    },
                }),
    {
        self.begin_at(ui, response, id, Instant::now())
    }

    fn end(&mut self, ui: &mut Ui, response: &Response, inner_responses: &Vec<Response>, id: &String)
        ensures
            final(self)@ == old(self)@,
            final(ui)@ == (UiView {
                memory: save_container(
                    old(ui)@.memory,
                    id@,
                    ContainerStateView::Collapsing(
                        old(self)@.ended(old(ui)@, response@, responses_view(inner_responses@), id@),
                    ),
                ),
                ..old(ui)@
            }),
    {
        let mut temp = match read_collapsing(ui, id) {
            Some(t) => t,
            None => CollapsingTemp::default(),
        };
        if temp.is_open {
            let area = content_area(inner_responses, &response.area);
            temp.area = area.width_and_height();
        } else {
            temp.area = Vec2::zero();
        }
        ui.container_save(id, ContainerState::Collapsing(temp));
    }

    fn is_clickable(&self, ui: &mut Ui) -> (r: bool)
        ensures
            r,
            final(ui)@ == old(ui)@,
    {
        true
    }

    fn is_dragable(&self, ui: &mut Ui) -> (r: bool)
        ensures
            !r,
            final(ui)@ == old(ui)@,
    {
        false
    }
}

} // verus!
