//! The dividing line.

use vstd::prelude::*;
use crate::clock::{clamp_i64, Instant};
use crate::container::tooltip_provider::{half, spec_half};
use crate::math::{sat_add, sat_sub, Area, Vec2};
use crate::response::Response;
use crate::ui::{Ui, UiView};
use crate::widgets::{DivideLine, Widget};

verus! {

/// Thickness of a dividing line.
pub const LINE: i64 = 4;

impl DivideLine {
    /// The room that a dividing line takes in `ui` when none is given: one
    /// spacing thick, and from the scope's next free place to the far edge
    /// of the scope's room, less the spacing.
    pub open spec fn room_in(self, ui: UiView) -> Area {
        let from = ui.available_position;
        if self.is_horizental {
            Area::spec_new(
                from,
                from.spec_plus(
                    Vec2 {
                        x: clamp_i64(clamp_i64(ui.window.right_bottom.x - from.x) - ui.style.space),
                        y: ui.style.space,
                    },
                ),
            )
        } else {
            Area::spec_new(
                from,
                from.spec_plus(
                    Vec2 {
                        x: ui.style.space,
                        y: clamp_i64(
                            clamp_i64(
                                clamp_i64(ui.window.spec_height() - from.y) + ui.window.left_top.y,
                            ) - ui.style.space,
                        ),
                    },
                ),
            )
        }
    }

    /// Where the line itself is drawn within its room `room`: along the
    /// middle of the room, or along its first or last edge.
    pub open spec fn spec_line(self, room: Area) -> Area {
        let size = if self.is_horizental {
            Vec2 { x: room.spec_width(), y: LINE }
        } else {
            Vec2 { x: LINE, y: room.spec_height() }
        };
        let position = match self.centered {
            Some(true) => room.left_top,
            Some(false) => if self.is_horizental {
                Vec2 { x: room.left_top.x, y: clamp_i64(room.right_bottom.y - LINE) }
            } else {
                Vec2 { x: clamp_i64(room.right_bottom.x - LINE), y: room.left_top.y }
            },
            None => if self.is_horizental {
                room.left_top.spec_plus(
                    Vec2 { x: 0, y: clamp_i64(spec_half(room.spec_height()) - spec_half(LINE)) },
                )
            } else {
                room.left_top.spec_plus(
                    Vec2 { x: clamp_i64(spec_half(room.spec_width()) - spec_half(LINE)), y: 0 },
                )
            },
        };
        Area { left_top: position, right_bottom: position.spec_plus(size) }
    }

    /// A horizontal line along the middle of its room.
    pub fn new() -> (r: DivideLine)
        ensures
            r == (DivideLine { is_horizental: true, centered: None }),
    {
        DivideLine { is_horizental: true, centered: None }
    }

    /// Makes the line vertical.
    pub fn vertical(self) -> (r: DivideLine)
        ensures
            r == (DivideLine { is_horizental: false, ..self }),
    {
        DivideLine { is_horizental: false, ..self }
    }

    /// Makes the line horizontal.
    pub fn horizental(self) -> (r: DivideLine)
        ensures
            r == (DivideLine { is_horizental: true, ..self }),
    {
        DivideLine { is_horizental: true, ..self }
    }

    /// Draws the line along the middle of its room.
    pub fn centered(self) -> (r: DivideLine)
        ensures
            r == (DivideLine { centered: None, ..self }),
    {
        DivideLine { centered: None, ..self }
    }

    /// Draws the line along the top of its room, or along its left edge.
    pub fn top(self) -> (r: DivideLine)
        ensures
            r == (DivideLine { centered: Some(true), ..self }),
    {
        DivideLine { centered: Some(true), ..self }
    }

    /// Draws the line along the bottom of its room, or along its right
    /// edge.
    pub fn bottom(self) -> (r: DivideLine)
        ensures
            r == (DivideLine { centered: Some(false), ..self }),
    {
        DivideLine { centered: Some(false), ..self }
    }

    /// Whether the line is horizontal.
    pub fn is_horizental(&self) -> (r: bool)
        ensures
            r == self.is_horizental,
    {
        self.is_horizental
    }

    /// The room that the line takes in `ui` when none is given.
    pub fn room(&self, ui: &Ui) -> (r: Area)
        ensures
            r == self.room_in(ui@),
    {
        let from = ui.available_position();
        let window = ui.window_area();
        let space = ui.style().space;
        if self.is_horizental {
            Area::new(
                from,
                from.plus(Vec2::new(sat_sub(sat_sub(window.right_top().x, from.x), space), space)),
            )
        } else {
            Area::new(
                from,
                from.plus(
                    Vec2::new(
                        space,
                        sat_sub(sat_add(sat_sub(window.height(), from.y), window.left_top().y), space),
                    ),
                ),
            )
        }
    }

    /// Where the line itself is drawn within its room.
    pub fn line(&self, room: &Area) -> (r: Area)
        ensures
            r == self.spec_line(*room),
    {
        let size = if self.is_horizental {
            Vec2::new(room.width(), LINE)
        } else {
            Vec2::new(LINE, room.height())
        };
        let position = match self.centered {
            Some(true) => room.left_top(),
            Some(false) => if self.is_horizental {
                Vec2::new(room.left_top.x, sat_sub(room.right_bottom.y, LINE))
            } else {
                Vec2::new(sat_sub(room.right_bottom.x, LINE), room.left_top.y)
            },
            None => if self.is_horizental {
                room.left_top().plus(Vec2::y(sat_sub(half(room.height()), half(LINE))))
            } else {
                room.left_top().plus(Vec2::x(sat_sub(half(room.width()), half(LINE))))
            },
        };
        Area { left_top: position, right_bottom: position.plus(size) }
    }
}

impl Widget for DivideLine {
    fn ui(&mut self, ui: &mut Ui, area: Option<Area>) -> (r: Response)
        ensures
            *final(self) == *old(self),
            area is Some ==> exists|now: Instant|
                r@ == #[trigger] old(ui)@.fresh_response(area->0, false, false, now),
            area is None ==> exists|now: Instant|
                r@ == #[trigger] old(ui)@.fresh_response(
                    old(self).room_in(old(ui)@),
                    false,
                    false,
                    now,
                ),
            area is Some ==> final(ui)@ == old(ui)@.claimed(area->0),
            area is None ==> final(ui)@ == old(ui)@.claimed(old(self).room_in(old(ui)@)),
    {
        let area = match area {
            Some(t) => t,
            None => self.room(ui),
        };
        ui.response(area, false, false)
    }
}

} // verus!
