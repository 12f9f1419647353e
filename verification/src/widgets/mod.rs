//! Settings shared by all widgets, and the widgets that need nothing but
//! room on the surface.

pub mod button;
pub mod divide_line;
pub mod single_input;

use vstd::prelude::*;
use vstd::string::StrSliceExecFns;
use crate::clock::Instant;
use crate::math::{Area, Vec2};
use crate::response::Response;
use crate::ui::Ui;

verus! {

/// The character shown for each character of a password.
pub const PASSWORD: char = '\u{25cf}';

/// The length of one em, the unit of spacing, in layout units.
pub const EM: i64 = 16;

/// A colour: red, green, blue and opacity.
#[derive(Clone, Copy, Debug, PartialEq, Eq, Structural)]
pub struct Color {
    pub r: u8,
    pub g: u8,
    pub b: u8,
    pub a: u8,
}

impl Color {
    /// The colour with these four parts.
    pub fn new(r: u8, g: u8, b: u8, a: u8) -> (c: Color)
        ensures
            c == (Color { r, g, b, a }),
    {
        Color { r, g, b, a }
    }
}

/// The settings that every widget draws with.
#[derive(Clone, Copy, Debug, PartialEq, Eq, Structural)]
pub struct Style {
    pub background_color: Color,
    pub card_color: Color,
    pub seprator_color: Color,
    pub slider_peek_color: Color,
    pub slider_unreached_color: Color,
    pub slider_reached_color: Color,
    pub primary_color: Color,
    pub text_color: Color,
    pub error_color: Color,
    pub info_color: Color,
    pub warning_color: Color,
    pub success_color: Color,
    /// Room left between neighbouring widgets.
    pub space: i64,
}

impl Style {
    /// The dark default settings, with one em of room between widgets.
    pub open spec fn spec_default() -> Style {
        Style {
            background_color: Color { r: 18, g: 18, b: 18, a: 255 },
            card_color: Color { r: 30, g: 30, b: 30, a: 255 },
            seprator_color: Color { r: 51, g: 51, b: 51, a: 255 },
            slider_peek_color: Color { r: 118, g: 118, b: 118, a: 255 },
            slider_reached_color: Color { r: 97, g: 97, b: 97, a: 255 },
            slider_unreached_color: Color { r: 200, g: 200, b: 200, a: 255 },
            primary_color: Color { r: 98, g: 0, b: 234, a: 255 },
            text_color: Color { r: 230, g: 230, b: 230, a: 255 },
            error_color: Color { r: 229, g: 115, b: 115, a: 255 },
            info_color: Color { r: 100, g: 181, b: 246, a: 255 },
            warning_color: Color { r: 255, g: 235, b: 59, a: 255 },
            success_color: Color { r: 111, g: 249, b: 6, a: 255 },
            space: EM,
        }
    }
}

impl Default for Style {
    fn default() -> (r: Style)
        ensures
            r == Style::spec_default(),
    {
        Style {
            background_color: Color { r: 18, g: 18, b: 18, a: 255 },
            card_color: Color { r: 30, g: 30, b: 30, a: 255 },
            seprator_color: Color { r: 51, g: 51, b: 51, a: 255 },
            slider_peek_color: Color { r: 118, g: 118, b: 118, a: 255 },
            slider_reached_color: Color { r: 97, g: 97, b: 97, a: 255 },
            slider_unreached_color: Color { r: 200, g: 200, b: 200, a: 255 },
            primary_color: Color { r: 98, g: 0, b: 234, a: 255 },
            text_color: Color { r: 230, g: 230, b: 230, a: 255 },
            error_color: Color { r: 229, g: 115, b: 115, a: 255 },
            info_color: Color { r: 100, g: 181, b: 246, a: 255 },
            warning_color: Color { r: 255, g: 235, b: 59, a: 255 },
            success_color: Color { r: 111, g: 249, b: 6, a: 255 },
            space: EM,
        }
    }
}

/// What a widget or message reports, shown by its colour.
#[derive(Clone, Copy, Debug, PartialEq, Eq, Structural)]
#[non_exhaustive]
pub enum Status {
    Error,
    Info,
    Warning,
    Success,
    Default,
}

impl Status {
    /// The colour that `style` gives to the status.
    pub open spec fn color_in(self, style: Style) -> Color {
        match self {
            Status::Error => style.error_color,
            Status::Info => style.info_color,
            Status::Warning => style.warning_color,
            Status::Success => style.success_color,
            Status::Default => style.text_color,
        }
    }
}

impl Status {
    /// The colour that the style of `ui` gives to the status.
    pub fn into_color(&self, ui: &Ui) -> (c: Color)
        ensures
            c == self.color_in(ui@.style),
    {
        match self {
            Status::Error => ui.style().error_color,
            Status::Info => ui.style().info_color,
            Status::Warning => ui.style().warning_color,
            Status::Success => ui.style().success_color,
            Status::Default => ui.style().text_color,
        }
    }
}

/// What can be declared in a scope: it claims its room there and gets a
/// response for it.
pub trait Widget {
    /// Claims the widget's room in `ui`: at `area` when one is given, at the
    /// scope's next free place otherwise.
    fn ui(&mut self, ui: &mut Ui, area: Option<Area>) -> Response;
}

/// Words to show, with what decides how they look.
#[derive(Debug)]
pub struct Text {
    pub text: String,
    pub status: Status,
    /// The colour of the words; `None` for the colour of the status.
    pub color: Option<Color>,
    /// The width to break the words at, if any.
    pub width: Option<i64>,
    /// The height to cut the words at, if any.
    pub height: Option<i64>,
    pub underline: bool,
}

/// Mathematical value of a [`Text`].
pub struct TextView {
    pub text: Seq<char>,
    pub status: Status,
    pub color: Option<Color>,
    pub width: Option<i64>,
    pub height: Option<i64>,
    pub underline: bool,
}

impl View for Text {
    type V = TextView;

    open spec fn view(&self) -> TextView {
        TextView {
            text: self.text@,
            status: self.status,
            color: self.color,
            width: self.width,
            height: self.height,
            underline: self.underline,
        }
    }
}

impl TextView {
    /// The colour in which the words show under `style`: their own, or
    /// else that of their status.
    pub open spec fn color_in(self, style: Style) -> Color {
        match self.color {
            Some(t) => t,
            None => self.status.color_in(style),
        }
    }
}

impl Text {
    /// The words `text`, as they start out.
    pub fn new(text: String) -> (r: Text)
        ensures
            r@ == (TextView {
                text: text@,
                status: Status::Default,
                color: None,
                width: None,
                height: None,
                underline: false,
            }),
    {
        Text { text, status: Status::Default, color: None, width: None, height: None, underline: false }
    }

    /// Whether there are no words.
    pub fn is_empty(&self) -> (r: bool)
        ensures
            r == (self@.text.len() == 0),
    {
        self.text.as_str().unicode_len() == 0
    }

    /// Sets the status of the words, which gives them their colour when
    /// none is set.
    pub fn set_status(self, status: Status) -> (r: Text)
        ensures
            r@ == (TextView { status, ..self@ }),
    {
        let mut s = self;
        s.status = status;
        s
    }

    /// Sets the words.
    pub fn set_text(self, text: String) -> (r: Text)
        ensures
            r@ == (TextView { text: text@, ..self@ }),
    {
        let mut s = self;
        s.text = text;
        s
    }

    /// The colour in which the words show in `ui`.
    pub fn get_color(&self, ui: &Ui) -> (c: Color)
        ensures
            c == self@.color_in(ui@.style),
    {
        match self.color {
            Some(t) => t,
            None => self.status.into_color(ui),
        }
    }

    /// Sets the width to break the words at.
    pub fn set_width(self, width: i64) -> (r: Text)
        ensures
            r@ == (TextView { width: Some(width), ..self@ }),
    {
        let mut s = self;
        s.width = Some(width);
        s
    }

    /// Sets the height to cut the words at.
    pub fn set_height(self, height: i64) -> (r: Text)
        ensures
            r@ == (TextView { height: Some(height), ..self@ }),
    {
        let mut s = self;
        s.height = Some(height);
        s
    }

    /// Sets whether a line is drawn under the words.
    pub fn underline(self, underline: bool) -> (r: Text)
        ensures
            r@ == (TextView { underline, ..self@ }),
    {
        let mut s = self;
        s.underline = underline;
        s
    }

    /// Sets the colour of the words.
    pub fn set_color(self, color: Color) -> (r: Text)
        ensures
            r@ == (TextView { color: Some(color), ..self@ }),
    {
        let mut s = self;
        s.color = Some(color);
        s
    }
}

/// How a button is drawn.
#[derive(Clone, Copy, Debug, PartialEq, Eq, Structural)]
pub enum ButtonStyle {
    Normal,
    Stroked,
    Lined,
}

/// A widget that shows nothing and only takes room.
#[derive(Clone, Copy, Debug, PartialEq, Eq, Structural)]
pub struct Empty {
    pub width_and_height: Vec2,
}

/// A line that parts what stands before it from what follows.
#[derive(Clone, Copy, Debug, PartialEq, Eq, Structural)]
pub struct DivideLine {
    pub is_horizental: bool,
    /// `None` for the middle of its room, `Some(true)` for its left or top
    /// edge, `Some(false)` for its right or bottom edge.
    pub centered: Option<bool>,
}

impl Empty {
    /// A widget that takes room of the extent `width_and_height`.
    pub fn new(width_and_height: Vec2) -> (r: Empty)
        ensures
            r.width_and_height == width_and_height,
    {
        Empty { width_and_height }
    }

    /// A widget that takes no room at all.
    pub fn empty() -> (r: Empty)
        ensures
            r.width_and_height == Vec2::spec_zero(),
    {
        Empty { width_and_height: Vec2::zero() }
    }

    /// The room that the widget takes in a scope whose next free place is
    /// `from`.
    pub open spec fn room_from(self, from: Vec2) -> Area {
        Area::spec_new(from, from.spec_plus(self.width_and_height))
    }
}

impl Widget for Empty {
    fn ui(&mut self, ui: &mut Ui, area: Option<Area>) -> (r: Response)
        ensures
            *final(self) == *old(self),
            area is Some ==> exists|now: Instant|
                r@ == #[trigger] old(ui)@.fresh_response(area->0, false, false, now),
            area is None ==> exists|now: Instant|
                r@ == #[trigger] old(ui)@.fresh_response(
                    old(self).room_from(old(ui)@.available_position),
                    false,
                    false,
                    now,
                ),
            area is Some ==> final(ui)@ == old(ui)@.claimed(area->0),
            area is None ==> final(ui)@ == old(ui)@.claimed(old(self).room_from(old(ui)@.available_position)),
    {
        let room = match area {
            Some(t) => t,
            None => {
                let from = ui.available_position();
                Area::new(from, from.plus(self.width_and_height))
            },
        };
        assert(area is None ==> room == self.room_from(ui@.available_position));
        ui.response(room, false, false)
    }
}

} // verus!
