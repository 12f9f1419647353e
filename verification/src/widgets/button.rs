//! Buttons, selectable values, labels and canvases: widgets that claim
//! room for their words or their drawing and report what happens to them.

use vstd::prelude::*;
use crate::memory::contains;
use crate::clock::{clamp_i64, Instant};
use crate::identity::{chars_of, string_of};
use crate::math::{sat_add, Area, Vec2};
use crate::response::Response;
use crate::ui::{Declared, Ui, UiView};
use crate::widgets::{ButtonStyle, Status, Widget};

verus! {

/// The room of a widget that shows an icon beside its words, with room
/// around them: as wide as both and twice the padding, as high as the
/// higher of the two and the padding.
pub open spec fn labelled_size(text_size: Vec2, icon_size: Vec2, space: i64) -> Vec2 {
    Vec2 {
        x: clamp_i64(clamp_i64(text_size.x + icon_size.x) + clamp_i64(space + space)),
        y: clamp_i64(
            (if icon_size.y > text_size.y {
                icon_size.y
            } else {
                text_size.y
            }) + space,
        ),
    }
}

fn labelled(text_size: Vec2, icon_size: Vec2, space: i64) -> (r: Vec2)
    ensures
        r == labelled_size(text_size, icon_size, space),
{
    let height = if icon_size.y > text_size.y {
        icon_size.y
    } else {
        text_size.y
    };
    Vec2 {
        x: sat_add(sat_add(text_size.x, icon_size.x), sat_add(space, space)),
        y: sat_add(height, space),
    }
}

/// The room that a widget takes when it is given `area`, or else room of
/// the extent `size` at the next free place of the scope.
pub open spec fn room_or(area: Option<Area>, ui: UiView, size: Vec2) -> Area {
    match area {
        Some(t) => t,
        None => Area::spec_new(ui.available_position, ui.available_position.spec_plus(size)),
    }
}

fn claim(ui: &mut Ui, area: Option<Area>, size: Vec2, is_clickable: bool, is_dragable: bool) -> (r: Response)
    ensures
        exists|now: Instant|
            r@ == #[trigger] old(ui)@.fresh_response(
                room_or(area, old(ui)@, size),
                is_clickable,
                is_dragable,
                now,
            ),
        final(ui)@ == old(ui)@.claimed(room_or(area, old(ui)@, size)),
{
    let room = match area {
        Some(t) => t,
        None => {
            let from = ui.available_position();
            Area::new(from, from.plus(size))
        },
    };
    ui.response(room, is_clickable, is_dragable)
}

/// A button.
#[derive(Debug)]
pub struct Button {
    pub text: String,
    /// The room that the words take when drawn.
    pub text_size: Vec2,
    /// The room of the icon; nothing when there is none.
    pub icon_size: Vec2,
    /// Room around words and icon; `None` for the spacing of the style.
    pub space: Option<i64>,
    pub status: Status,
    pub style: ButtonStyle,
}

/// Mathematical value of a [`Button`].
pub struct ButtonView {
    pub text: Seq<char>,
    pub text_size: Vec2,
    pub icon_size: Vec2,
    pub space: Option<i64>,
    pub status: Status,
    pub style: ButtonStyle,
}

impl View for Button {
    type V = ButtonView;

    open spec fn view(&self) -> ButtonView {
        ButtonView {
            text: self.text@,
            text_size: self.text_size,
            icon_size: self.icon_size,
            space: self.space,
            status: self.status,
            style: self.style,
        }
    }
}

impl ButtonView {
    /// The extent of the button in a scope with spacing `space`.
    pub open spec fn size(self, space: i64) -> Vec2 {
        labelled_size(
            self.text_size,
            self.icon_size,
            match self.space {
                Some(s) => s,
                None => space,
            },
        )
    }
}

impl Button {
    /// A button with the words `text`.
    pub fn new(text: String) -> (r: Button)
        ensures
            r@ == (ButtonView {
                text: text@,
                text_size: Vec2::spec_zero(),
                icon_size: Vec2::spec_zero(),
                space: None,
                status: Status::Default,
                style: ButtonStyle::Normal,
            }),
    {
        Button {
            text,
            text_size: Vec2::zero(),
            icon_size: Vec2::zero(),
            space: None,
            status: Status::Default,
            style: ButtonStyle::Normal,
        }
    }

    /// A button without words.
    pub fn empty() -> (r: Button)
        ensures
            r@ == (ButtonView {
                text: Seq::empty(),
                text_size: Vec2::spec_zero(),
                icon_size: Vec2::spec_zero(),
                space: None,
                status: Status::Default,
                style: ButtonStyle::Normal,
            }),
    {
        Button::new(String::new())
    }

    /// Gives the button an icon of extent `area`.
    pub fn icon(self, area: Vec2) -> (r: Button)
        ensures
            r@ == (ButtonView { icon_size: area, ..self@ }),
    {
        let mut s = self;
        s.icon_size = area;
        s
    }

    /// Whether the button has an icon that takes room.
    pub fn has_icon(&self) -> (r: bool)
        ensures
            r == (self@.icon_size != Vec2::spec_zero()),
    {
        self.icon_size != Vec2::zero()
    }

    /// Tells the button how much room its words take when drawn.
    pub fn text_size(self, size: Vec2) -> (r: Button)
        ensures
            r@ == (ButtonView { text_size: size, ..self@ }),
    {
        let mut s = self;
        s.text_size = size;
        s
    }

    /// Sets the room around words and icon.
    pub fn set_padding(self, padding: i64) -> (r: Button)
        ensures
            r@ == (ButtonView { space: Some(padding), ..self@ }),
    {
        let mut s = self;
        s.space = Some(padding);
        s
    }

    /// Sets the status of the button, which gives it its colour.
    pub fn status(self, status: Status) -> (r: Button)
        ensures
            r@ == (ButtonView { status, ..self@ }),
    {
        let mut s = self;
        s.status = status;
        s
    }

    /// Sets how the button is drawn.
    pub fn style(self, style: ButtonStyle) -> (r: Button)
        ensures
            r@ == (ButtonView { style, ..self@ }),
    {
        let mut s = self;
        s.style = style;
        s
    }
}

impl Widget for Button {
    fn ui(&mut self, ui: &mut Ui, area: Option<Area>) -> (r: Response)
        ensures
            final(self)@ == old(self)@,
            exists|now: Instant|
                r@ == #[trigger] old(ui)@.fresh_response(
                    room_or(area, old(ui)@, old(self)@.size(old(ui)@.style.space)),
                    true,
                    false,
                    now,
                ),
            final(ui)@ == old(ui)@.claimed(
                room_or(area, old(ui)@, old(self)@.size(old(ui)@.style.space)),
            ),
    {
        let space = match self.space {
            Some(s) => s,
            None => ui.style().space,
        };
        claim(ui, area, labelled(self.text_size, self.icon_size, space), true, false)
    }
}

/// One of several alternatives, chosen or not.
#[derive(Debug)]
pub struct SelectableValue {
    /// Whether this alternative is the chosen one.
    pub select: bool,
    pub text: String,
    /// The room that the words take when drawn.
    pub text_size: Vec2,
    /// The room of the icon; nothing when there is none.
    pub icon_size: Vec2,
    /// Room around words and icon; `None` for the spacing of the style.
    pub space: Option<i64>,
    pub status: Status,
}

/// Mathematical value of a [`SelectableValue`].
pub struct SelectableValueView {
    pub select: bool,
    pub text: Seq<char>,
    pub text_size: Vec2,
    pub icon_size: Vec2,
    pub space: Option<i64>,
    pub status: Status,
}

impl View for SelectableValue {
    type V = SelectableValueView;

    open spec fn view(&self) -> SelectableValueView {
        SelectableValueView {
            select: self.select,
            text: self.text@,
            text_size: self.text_size,
            icon_size: self.icon_size,
            space: self.space,
            status: self.status,
        }
    }
}

impl SelectableValueView {
    /// The extent of the widget in a scope with spacing `space`.
    pub open spec fn size(self, space: i64) -> Vec2 {
        labelled_size(
            self.text_size,
            self.icon_size,
            match self.space {
                Some(s) => s,
                None => space,
            },
        )
    }
}

impl SelectableValue {
    /// An alternative with the words `text`, chosen or not.
    pub fn new(select: bool, text: String) -> (r: SelectableValue)
        ensures
            r@ == (SelectableValueView {
                select,
                text: text@,
                text_size: Vec2::spec_zero(),
                icon_size: Vec2::spec_zero(),
                space: None,
                status: Status::Default,
            }),
    {
        SelectableValue {
            select,
            text,
            text_size: Vec2::zero(),
            icon_size: Vec2::zero(),
            space: None,
            status: Status::Default,
        }
    }

    /// Gives the alternative an icon of extent `area`.
    pub fn icon(self, area: Vec2) -> (r: SelectableValue)
        ensures
            r@ == (SelectableValueView { icon_size: area, ..self@ }),
    {
        let mut s = self;
        s.icon_size = area;
        s
    }

    /// Whether the alternative has an icon that takes room.
    pub fn has_icon(&self) -> (r: bool)
        ensures
            r == (self@.icon_size != Vec2::spec_zero()),
    {
        self.icon_size != Vec2::zero()
    }

    /// Tells the alternative how much room its words take when drawn.
    pub fn text_size(self, size: Vec2) -> (r: SelectableValue)
        ensures
            r@ == (SelectableValueView { text_size: size, ..self@ }),
    {
        let mut s = self;
        s.text_size = size;
        s
    }

    /// Sets the room around words and icon.
    pub fn set_padding(self, padding: i64) -> (r: SelectableValue)
        ensures
            r@ == (SelectableValueView { space: Some(padding), ..self@ }),
    {
        let mut s = self;
        s.space = Some(padding);
        s
    }
}

impl Widget for SelectableValue {
    fn ui(&mut self, ui: &mut Ui, area: Option<Area>) -> (r: Response)
        ensures
            final(self)@ == old(self)@,
            exists|now: Instant|
                r@ == #[trigger] old(ui)@.fresh_response(
                    room_or(area, old(ui)@, old(self)@.size(old(ui)@.style.space)),
                    true,
                    false,
                    now,
                ),
            final(ui)@ == old(ui)@.claimed(
                room_or(area, old(ui)@, old(self)@.size(old(ui)@.style.space)),
            ),
    {
        let space = match self.space {
            Some(s) => s,
            None => ui.style().space,
        };
        claim(ui, area, labelled(self.text_size, self.icon_size, space), true, false)
    }
}

/// The test "is not a line break".
pub open spec fn not_break() -> spec_fn(char) -> bool {
    |c: char| c != '\n'
}

/// A single line of words.
#[derive(Debug)]
pub struct Label {
    pub text: String,
    /// The room that the words take when drawn.
    pub text_size: Vec2,
}

impl Label {
    /// A label with the words `text`, line breaks left out.
    pub fn new(text: String) -> (r: Label)
        ensures
            r.text@ == text@.filter(not_break()),
            r.text_size == Vec2::spec_zero(),
    {
        let chars = chars_of(text.as_str());
        let mut kept: Vec<char> = Vec::new();
        let mut i: usize = 0;
        assert(chars@.take(0).filter(not_break()) =~= Seq::<char>::empty());
        while i < chars.len()
            invariant
                i <= chars.len(),
                kept@ == chars@.take(i as int).filter(not_break()),
            decreases chars.len() - i,
        {
            proof {
                chars@.lemma_take_succ_push(i as int);
                chars@.take(i as int).lemma_filter_push(chars@[i as int], not_break());
            }
            if chars[i] != '\n' {
                kept.push(chars[i]);
            }
            i += 1;
        }
        assert(chars@.take(chars.len() as int) =~= chars@);
        let n = kept.len();
        let line = string_of(&kept, 0, n);
        assert(kept@.subrange(0, n as int) =~= kept@);
        Label { text: line, text_size: Vec2::zero() }
    }

    /// Tells the label how much room its words take when drawn.
    pub fn text_size(self, size: Vec2) -> (r: Label)
        ensures
            r.text@ == self.text@,
            r.text_size == size,
    {
        let mut s = self;
        s.text_size = size;
        s
    }
}

impl Widget for Label {
    fn ui(&mut self, ui: &mut Ui, area: Option<Area>) -> (r: Response)
        ensures
            final(self).text@ == old(self).text@,
            final(self).text_size == old(self).text_size,
            exists|now: Instant|
                r@ == #[trigger] old(ui)@.fresh_response(
                    room_or(area, old(ui)@, old(self).text_size),
                    false,
                    false,
                    now,
                ),
            final(ui)@ == old(ui)@.claimed(room_or(area, old(ui)@, old(self).text_size)),
    {
        claim(ui, area, self.text_size, false, false)
    }
}

/// Room for a drawing of one's own.
#[derive(Clone, Copy, Debug, PartialEq, Eq, Structural)]
pub struct Canvas {
    pub width_and_height: Vec2,
    pub dragable: bool,
}

impl Canvas {
    /// A canvas of the extent `width_and_height`.
    pub fn new(width_and_height: Vec2) -> (r: Canvas)
        ensures
            r == (Canvas { width_and_height, dragable: false }),
    {
        Canvas { width_and_height, dragable: false }
    }

    /// Lets the canvas be dragged.
    pub fn dragable(self, dragable: bool) -> (r: Canvas)
        ensures
            r == (Canvas { dragable, ..self }),
    {
        Canvas { dragable, ..self }
    }
}

impl Widget for Canvas {
    fn ui(&mut self, ui: &mut Ui, area: Option<Area>) -> (r: Response)
        ensures
            *final(self) == *old(self),
            exists|now: Instant|
                r@ == #[trigger] old(ui)@.fresh_response(
                    room_or(area, old(ui)@, old(self).width_and_height),
                    true,
                    old(self).dragable,
                    now,
                ),
            final(ui)@ == old(ui)@.claimed(room_or(area, old(ui)@, old(self).width_and_height)),
    {
        claim(ui, area, self.width_and_height, true, self.dragable)
    }
}

impl Ui {
    /// Declares a label.
    pub fn label(&mut self, text: String) -> (r: Declared)
        ensures
            r.response@.id == old(self)@.next_id(),
            r.need_draw == contains(old(self)@.memory, old(self)@.next_id()),
            exists|now: Instant|
                final(self)@ == old(self)@.with_widget(
                    room_or(None, old(self)@.numbered(), Vec2::spec_zero()),
                    #[trigger] old(self)@.numbered().fresh_response(
                        room_or(None, old(self)@.numbered(), Vec2::spec_zero()),
                        false,
                        false,
                        now,
                    ),
                ) && r.response@ == old(self)@.widget_response(
                    room_or(None, old(self)@.numbered(), Vec2::spec_zero()),
                    old(self)@.numbered().fresh_response(
                        room_or(None, old(self)@.numbered(), Vec2::spec_zero()),
                        false,
                        false,
                        now,
                    ),
                ),
    {
        self.add(Label::new(text))
    }

    /// Declares a button.
    pub fn button(&mut self, text: String) -> (r: Declared)
        ensures
            r.response@.id == old(self)@.next_id(),
            r.need_draw == contains(old(self)@.memory, old(self)@.next_id()),
            exists|now: Instant|
                final(self)@ == old(self)@.with_widget(
                    room_or(
                        None,
                        old(self)@.numbered(),
                        (ButtonView {
                            text: text@,
                            text_size: Vec2::spec_zero(),
                            icon_size: Vec2::spec_zero(),
                            space: None,
                            status: Status::Default,
                            style: ButtonStyle::Normal,
                        }).size(old(self)@.numbered().style.space),
                    ),
                    #[trigger] old(self)@.numbered().fresh_response(
                        room_or(
                        None,
                        old(self)@.numbered(),
                        (ButtonView {
                            text: text@,
                            text_size: Vec2::spec_zero(),
                            icon_size: Vec2::spec_zero(),
                            space: None,
                            status: Status::Default,
                            style: ButtonStyle::Normal,
                        }).size(old(self)@.numbered().style.space),
                    ),
                        true,
                        false,
                        now,
                    ),
                ) && r.response@ == old(self)@.widget_response(
                    room_or(
                        None,
                        old(self)@.numbered(),
                        (ButtonView {
                            text: text@,
                            text_size: Vec2::spec_zero(),
                            icon_size: Vec2::spec_zero(),
                            space: None,
                            status: Status::Default,
                            style: ButtonStyle::Normal,
                        }).size(old(self)@.numbered().style.space),
                    ),
                    old(self)@.numbered().fresh_response(
                        room_or(
                        None,
                        old(self)@.numbered(),
                        (ButtonView {
                            text: text@,
                            text_size: Vec2::spec_zero(),
                            icon_size: Vec2::spec_zero(),
                            space: None,
                            status: Status::Default,
                            style: ButtonStyle::Normal,
                        }).size(old(self)@.numbered().style.space),
                    ),
                        true,
                        false,
                        now,
                    ),
                ),
    {
        self.add(Button::new(text))
    }

    /// Declares a canvas of the extent `width_and_height`.
    pub fn canvas(&mut self, width_and_height: Vec2) -> (r: Declared)
        ensures
            r.response@.id == old(self)@.next_id(),
            r.need_draw == contains(old(self)@.memory, old(self)@.next_id()),
            exists|now: Instant|
                final(self)@ == old(self)@.with_widget(
                    room_or(None, old(self)@.numbered(), width_and_height),
                    #[trigger] old(self)@.numbered().fresh_response(
                        room_or(None, old(self)@.numbered(), width_and_height),
                        true,
                        false,
                        now,
                    ),
                ) && r.response@ == old(self)@.widget_response(
                    room_or(None, old(self)@.numbered(), width_and_height),
                    old(self)@.numbered().fresh_response(
                        room_or(None, old(self)@.numbered(), width_and_height),
                        true,
                        false,
                        now,
                    ),
                ),
    {
        self.add(Canvas::new(width_and_height))
    }

    /// Declares a switch for `select`, and flips `select` when the switch
    /// is clicked.
    pub fn switch(&mut self, select: &mut bool, text: String) -> (r: Declared)
        ensures
            r.response@.id == old(self)@.next_id(),
            r.need_draw == contains(old(self)@.memory, old(self)@.next_id()),
            exists|now: Instant|
                final(self)@ == old(self)@.with_widget(
                    room_or(
                        None,
                        old(self)@.numbered(),
                        (SelectableValueView {
                            select: *old(select),
                            text: text@,
                            text_size: Vec2::spec_zero(),
                            icon_size: Vec2::spec_zero(),
                            space: None,
                            status: Status::Default,
                        }).size(old(self)@.numbered().style.space),
                    ),
                    #[trigger] old(self)@.numbered().fresh_response(
                        room_or(
                        None,
                        old(self)@.numbered(),
                        (SelectableValueView {
                            select: *old(select),
                            text: text@,
                            text_size: Vec2::spec_zero(),
                            icon_size: Vec2::spec_zero(),
                            space: None,
                            status: Status::Default,
                        }).size(old(self)@.numbered().style.space),
                    ),
                        true,
                        false,
                        now,
                    ),
                ) && r.response@ == old(self)@.widget_response(
                    room_or(
                        None,
                        old(self)@.numbered(),
                        (SelectableValueView {
                            select: *old(select),
                            text: text@,
                            text_size: Vec2::spec_zero(),
                            icon_size: Vec2::spec_zero(),
                            space: None,
                            status: Status::Default,
                        }).size(old(self)@.numbered().style.space),
                    ),
                    old(self)@.numbered().fresh_response(
                        room_or(
                        None,
                        old(self)@.numbered(),
                        (SelectableValueView {
                            select: *old(select),
                            text: text@,
                            text_size: Vec2::spec_zero(),
                            icon_size: Vec2::spec_zero(),
                            space: None,
                            status: Status::Default,
                        }).size(old(self)@.numbered().style.space),
                    ),
                        true,
                        false,
                        now,
                    ),
                ),
            *final(select) == (*old(select) != r.response@.is_clicked()),
    {
        let res = self.add(SelectableValue::new(*select, text));
        if res.response.is_clicked() {
            *select = !*select;
        }
        res
    }

    /// Declares an alternative that stands for the value `chosen` of
    /// `input`: it shows as chosen when `is_chosen` says so, and a click on
    /// it makes `chosen` the value of `input`.
    pub fn selectable_value<T>(&mut self, input: &mut T, chosen: T, is_chosen: bool, text: String) -> (r:
        Declared)
        ensures
            r.response@.id == old(self)@.next_id(),
            r.need_draw == contains(old(self)@.memory, old(self)@.next_id()),
            exists|now: Instant|
                final(self)@ == old(self)@.with_widget(
                    room_or(
                        None,
                        old(self)@.numbered(),
                        (SelectableValueView {
                            select: is_chosen,
                            text: text@,
                            text_size: Vec2::spec_zero(),
                            icon_size: Vec2::spec_zero(),
                            space: None,
                            status: Status::Default,
                        }).size(old(self)@.numbered().style.space),
                    ),
                    #[trigger] old(self)@.numbered().fresh_response(
                        room_or(
                        None,
                        old(self)@.numbered(),
                        (SelectableValueView {
                            select: is_chosen,
                            text: text@,
                            text_size: Vec2::spec_zero(),
                            icon_size: Vec2::spec_zero(),
                            space: None,
                            status: Status::Default,
                        }).size(old(self)@.numbered().style.space),
                    ),
                        true,
                        false,
                        now,
                    ),
                ) && r.response@ == old(self)@.widget_response(
                    room_or(
                        None,
                        old(self)@.numbered(),
                        (SelectableValueView {
                            select: is_chosen,
                            text: text@,
                            text_size: Vec2::spec_zero(),
                            icon_size: Vec2::spec_zero(),
                            space: None,
                            status: Status::Default,
                        }).size(old(self)@.numbered().style.space),
                    ),
                    old(self)@.numbered().fresh_response(
                        room_or(
                        None,
                        old(self)@.numbered(),
                        (SelectableValueView {
                            select: is_chosen,
                            text: text@,
                            text_size: Vec2::spec_zero(),
                            icon_size: Vec2::spec_zero(),
                            space: None,
                            status: Status::Default,
                        }).size(old(self)@.numbered().style.space),
                    ),
                        true,
                        false,
                        now,
                    ),
                ),
            r.response@.is_clicked() ==> *final(input) == chosen,
            !r.response@.is_clicked() ==> *final(input) == *old(input),
    {
        let res = self.add(SelectableValue::new(is_chosen, text));
        if res.response.is_clicked() {
            *input = chosen;
        }
        res
    }
}

} // verus!
