//! The single-line text input: what typing, the arrow keys, the clipboard
//! keys and the mouse do to a line of text, its cursor and its selection.

use vstd::prelude::*;
use vstd::string::StringExecFns;
use vstd::string::StringSliceAdditionalSpecFns;
use vstd::utf8::encode_utf8;
use crate::animation::turn_time;
use crate::clock::{clamp_i64, Duration, Instant, NANOS_PER_MILLI};
use crate::container::card::holds_cursor;
use crate::container::state::{ContainerState, ContainerStateView, Select, SingleTextInputTemp};
use crate::event::{Key, OutputEvent, OutputEventView};
use crate::identity::{char_count, chars_from, chars_slice, chars_till, stretch};
use crate::input::{InputState, InputStateView};
use crate::math::{sat_add, sat_sub, Area, Vec2};
use crate::memory::{contains, read_container, save_container};
use crate::response::{Response, ResponseView};
use crate::ui::{Ui, UiView};
use crate::widgets::button::room_or;
use crate::widgets::{Widget, PASSWORD};

verus! {

/// How long the frame of a text input takes to light up and to dim, in
/// milliseconds.
pub const FOCUS_MILLIS: i64 = 250;

/// A line of text with its cursor and its selection.
pub struct EditView {
    pub text: Seq<char>,
    /// The character before which the cursor stands.
    pub pointer: usize,
    pub select: Option<Select>,
}

/// What the keys of a frame ask of a text input.
pub struct EditKeys {
    /// What was typed or pasted is put into the line.
    pub inserts: bool,
    /// The whole line is selected.
    pub all: bool,
    /// The selection is copied and taken out.
    pub cut: bool,
    /// The selection is copied.
    pub copy: bool,
    /// The selection, or else the character before the cursor, is taken
    /// out.
    pub backspace: bool,
    /// The cursor goes one character back.
    pub left: bool,
    /// The cursor goes one character on.
    pub right: bool,
    /// The selection follows the cursor.
    pub shift: bool,
}

/// Whether `key` came up while the left control key was down or came up
/// too.
pub open spec fn with_control(input: InputStateView, key: Key) -> bool {
    input.released_key.contains(key) && (input.released_key.contains(Key::ControlLeft)
        || input.key.contains(Key::ControlLeft))
}

/// What the keys of the frame ask of a text input.
pub open spec fn keys_of(input: InputStateView) -> EditKeys {
    EditKeys {
        inserts: with_control(input, Key::V) || !(input.key.contains(Key::ControlLeft)
            || input.key.contains(Key::AltLeft) || input.key.contains(Key::AltRight)
            || input.key.contains(Key::ControlRight)),
        all: with_control(input, Key::A),
        cut: with_control(input, Key::X),
        copy: with_control(input, Key::C),
        backspace: input.key_repeat.contains(Key::Backspace),
        left: input.key_repeat.contains(Key::ArrowLeft),
        right: !input.key_repeat.contains(Key::ArrowLeft) && input.key_repeat.contains(
            Key::ArrowRight,
        ),
        shift: input.key.contains(Key::ShiftLeft),
    }
}

/// The line from character `from` on; nothing when it has no more than
/// that.
pub open spec fn rest(text: Seq<char>, from: usize) -> Seq<char> {
    if from <= text.len() {
        text.skip(from as int)
    } else {
        Seq::empty()
    }
}

/// The line without the stretch from `begin` to `end`.
pub open spec fn without(text: Seq<char>, begin: usize, end: usize) -> Seq<char> {
    stretch(text, 0, begin) + rest(text, end)
}

/// How many characters may still be typed into a line that is limited to
/// `limit` bytes, if it is limited.
pub open spec fn room_left(text: Seq<char>, limit: Option<usize>) -> usize {
    let used = #[verifier::truncate]
    (encode_utf8(text).len() as usize);
    match limit {
        Some(l) => if l >= used {
            (l - used) as usize
        } else {
            0
        },
        None => (usize::MAX - used) as usize,
    }
}

/// One more than `n`, held at the end of the range of `usize`.
pub open spec fn up(n: usize) -> usize {
    if n == usize::MAX {
        n
    } else {
        (n + 1) as usize
    }
}

/// One less than `n`, held at nothing.
pub open spec fn down(n: usize) -> usize {
    if n == 0 {
        n
    } else {
        (n - 1) as usize
    }
}

impl EditView {
    /// The line after the selection has been taken out of it, if there is
    /// one: the cursor stands where the selection began.
    pub open spec fn deselected(self) -> EditView {
        match self.select {
            Some(sel) => EditView {
                text: without(self.text, sel.begin, sel.end),
                pointer: sel.begin,
                select: None,
            },
            None => self,
        }
    }

    /// The line after `typed` has been put into it at the cursor, as far
    /// as the limit allows. A selection is replaced by what is typed.
    pub open spec fn inserted(self, typed: Seq<char>, limit: Option<usize>) -> EditView {
        let room = room_left(self.text, limit);
        let cleared = if typed.len() > 0 {
            self.deselected()
        } else {
            self
        };
        let taken = if typed.len() >= room {
            typed.take(room as int)
        } else {
            typed
        };
        EditView {
            text: stretch(cleared.text, 0, cleared.pointer) + taken + rest(
                cleared.text,
                cleared.pointer,
            ),
            pointer: if cleared.pointer + taken.len() > usize::MAX {
                usize::MAX
            } else {
                (cleared.pointer + taken.len()) as usize
            },
            select: cleared.select,
        }
    }

    /// How many characters the line has, held at the end of the range of
    /// `usize`.
    pub open spec fn length(self) -> usize {
        if self.text.len() > usize::MAX {
            usize::MAX
        } else {
            self.text.len() as usize
        }
    }

    /// The line with all of it selected and the cursor at its end.
    pub open spec fn selected_all(self) -> EditView {
        EditView {
            select: Some(Select { begin: 0, end: self.length(), is_backwards: false }),
            pointer: self.length(),
            ..self
        }
    }

    /// What is selected, if anything is.
    pub open spec fn selection(self) -> Option<Seq<char>> {
        match self.select {
            Some(sel) => Some(stretch(self.text, sel.begin, sel.end)),
            None => None,
        }
    }

    /// The line after a backspace: without its selection, or else without
    /// the character before the cursor.
    pub open spec fn backspaced(self) -> EditView {
        match self.select {
            Some(_) => self.deselected(),
            None => if self.pointer != 0 {
                EditView {
                    text: without(self.text, (self.pointer - 1) as usize, self.pointer),
                    pointer: (self.pointer - 1) as usize,
                    select: None,
                }
            } else {
                self
            },
        }
    }

    /// The line after the cursor has gone one character back; with
    /// `shift`, the selection follows it.
    pub open spec fn moved_left(self, shift: bool) -> EditView {
        if shift {
            EditView {
                select: match self.select {
                    Some(t) => Some(
                        if t.is_backwards {
                            Select { begin: down(t.begin), ..t }
                        } else {
                            Select {
                                end: down(t.end),
                                is_backwards: down(t.end) == t.begin,
                                ..t
                            }
                        },
                    ),
                    None => if self.pointer != 0 {
                        Some(
                            Select {
                                begin: (self.pointer - 1) as usize,
                                end: self.pointer,
                                is_backwards: true,
                            },
                        )
                    } else {
                        None
                    },
                },
                pointer: down(self.pointer),
                ..self
            }
        } else {
            EditView { pointer: down(self.pointer), select: None, ..self }
        }
    }

    /// One character on from `n`, but not beyond the end of the line.
    pub open spec fn on(self, n: usize) -> usize {
        if n < self.text.len() {
            (n + 1) as usize
        } else {
            n
        }
    }

    /// The line after the cursor has gone one character on; with `shift`,
    /// the selection follows it.
    pub open spec fn moved_right(self, shift: bool) -> EditView {
        if shift {
            EditView {
                select: match self.select {
                    Some(t) => Some(
                        if t.is_backwards {
                            Select {
                                begin: self.on(t.begin),
                                is_backwards: self.on(t.begin) != t.end,
                                ..t
                            }
                        } else {
                            Select { end: self.on(t.end), ..t }
                        },
                    ),
                    None => if self.pointer < self.text.len() {
                        Some(
                            Select {
                                begin: self.pointer,
                                end: (self.pointer + 1) as usize,
                                is_backwards: false,
                            },
                        )
                    } else {
                        None
                    },
                },
                pointer: self.on(self.pointer),
                ..self
            }
        } else {
            EditView { pointer: self.on(self.pointer), select: None, ..self }
        }
    }

    /// The line after one frame: what the keys ask is done in a fixed
    /// order (put in, select all, cut, backspace, move), a click puts the
    /// cursor at the character `clicked_at`, and an empty line has no
    /// selection.
    pub open spec fn edited(
        self,
        keys: EditKeys,
        typed: Seq<char>,
        limit: Option<usize>,
        clicked_at: Option<usize>,
    ) -> EditView {
        let a = if keys.inserts {
            self.inserted(typed, limit)
        } else {
            self
        };
        let b = if keys.all {
            a.selected_all()
        } else {
            a
        };
        let c = if keys.cut {
            b.deselected()
        } else {
            b
        };
        let d = if keys.backspace {
            c.backspaced()
        } else {
            c
        };
        let e = if keys.left {
            d.moved_left(keys.shift)
        } else if keys.right {
            d.moved_right(keys.shift)
        } else {
            d
        };
        let f = match clicked_at {
            Some(at) => EditView { pointer: at, select: None, ..e },
            None => e,
        };
        if f.text.len() == 0 {
            EditView { select: None, ..f }
        } else {
            f
        }
    }

    /// What one frame copies to the clipboard, in order: the selection
    /// when it is cut, and the selection when it is copied.
    pub open spec fn copied(self, keys: EditKeys, typed: Seq<char>, limit: Option<usize>) -> Seq<
        Seq<char>,
    > {
        let a = if keys.inserts {
            self.inserted(typed, limit)
        } else {
            self
        };
        let b = if keys.all {
            a.selected_all()
        } else {
            a
        };
        let c = if keys.cut {
            b.deselected()
        } else {
            b
        };
        let first = if keys.cut && b.selection() is Some {
            seq![b.selection()->0]
        } else {
            Seq::empty()
        };
        if keys.copy && c.selection() is Some {
            first.push(c.selection()->0)
        } else {
            first
        }
    }
}

impl SingleTextInputTemp {
    /// Whether the input gains the focus in this frame: it is clicked.
    /// Whether it loses it: a button comes up elsewhere, or the enter or
    /// the tab key comes up.
    pub open spec fn focus_after(self, clicked: bool, input: InputStateView, area: Area) -> bool {
        if clicked {
            true
        } else if (input.is_any_mouse_released() && !holds_cursor(area, input.cursor_position))
            || input.released_key.contains(Key::Enter) || input.released_key.contains(Key::Tab) {
            false
        } else {
            self.is_focused
        }
    }

    /// What is remembered after the focus has been looked at, at `now`:
    /// the latest two changes of focus are kept.
    pub open spec fn focused(self, clicked: bool, input: InputStateView, area: Area, now: Instant) -> SingleTextInputTemp {
        let after = self.focus_after(clicked, input, area);
        if after != self.is_focused {
            SingleTextInputTemp {
                is_focused: after,
                earlier_change: self.latest_change,
                latest_change: Some(now),
                ..self
            }
        } else {
            self
        }
    }

    /// The time to evaluate the easing of the input's frame at, at `now`;
    /// `None` when the focus never changed.
    pub open spec fn spec_focus_time(self, now: Instant) -> Option<Duration> {
        crate::animation::spec_turn_time(
            self.earlier_change,
            self.latest_change,
            Duration { nanos: (FOCUS_MILLIS * NANOS_PER_MILLI) as i128 },
            now,
        )
    }

    /// The line, cursor and selection that are remembered for `text`.
    pub open spec fn edit_view(self, text: Seq<char>) -> EditView {
        EditView { text, pointer: self.pointer, select: self.select }
    }

    /// The time to evaluate the easing of the input's frame at, at `now`.
    /// The frame shows as far as the easing says while the input has the
    /// focus, and as far as the easing leaves of the whole while it has
    /// not.
    pub fn focus_time_at(&self, now: Instant) -> (r: Option<Duration>)
        ensures
            r == self.spec_focus_time(now),
    {
        turn_time(
            self.earlier_change,
            self.latest_change,
            Duration::milliseconds(FOCUS_MILLIS),
            now,
        )
    }

    /// Looks at the focus, at `now`.
    pub fn focus_at(&mut self, clicked: bool, input: &InputState, area: &Area, now: Instant)
        ensures
            *final(self) == old(self).focused(clicked, input@, *area, now),
    {
        let after = if clicked {
            true
        } else {
            let outside = match input.cursor_position() {
                Some(p) => !area.is_point_inside(&p),
                None => true,
            };
            if (input.is_any_mouse_released() && outside) || input.is_key_released(Key::Enter)
                || input.is_key_released(Key::Tab) {
                false
            } else {
                self.is_focused
            }
        };
        if after != self.is_focused {
            self.is_focused = after;
            self.earlier_change = self.latest_change;
            self.latest_change = Some(now);
        }
    }
}

fn control_with(input: &InputState, key: Key) -> (r: bool)
    ensures
        r == with_control(input@, key),
{
    input.is_key_released(key) && (input.is_key_released(Key::ControlLeft)
        || input.is_key_pressing(Key::ControlLeft))
}

fn cut_out(text: &String, begin: usize, end: usize) -> (r: String)
    ensures
        r@ == without(text@, begin, end),
{
    let mut s = String::from_str(chars_till(text.as_str(), begin));
    s.append(chars_from(text.as_str(), end));
    s
}

/// A line of text with its cursor and its selection, as it is worked on.
pub struct Edit {
    pub text: String,
    pub pointer: usize,
    pub select: Option<Select>,
}

impl View for Edit {
    type V = EditView;

    open spec fn view(&self) -> EditView {
        EditView { text: self.text@, pointer: self.pointer, select: self.select }
    }
}

impl Edit {
    /// Takes the selection out of the line, if there is one.
    pub fn deselect(&mut self)
        ensures
            final(self)@ == old(self)@.deselected(),
    {
        if let Some(sel) = self.select {
            self.text = cut_out(&self.text, sel.begin, sel.end);
            self.pointer = sel.begin;
            self.select = None;
        }
    }

    /// Puts `typed` into the line at the cursor, as far as the limit
    /// allows.
    pub fn insert(&mut self, typed: &String, limit: Option<usize>)
        ensures
            final(self)@ == old(self)@.inserted(typed@, limit),
    {
        let used = self.text.as_str().len();
        let room = match limit {
            Some(l) => if l >= used {
                l - used
            } else {
                0
            },
            None => usize::MAX - used,
        };
        assert(room == room_left(old(self)@.text, limit));
        if char_count(typed.as_str()) > 0 {
            self.deselect();
        }
        let taken = if char_count(typed.as_str()) >= room {
            chars_till(typed.as_str(), room)
        } else {
            typed.as_str()
        };
        assert(taken@ =~= if typed@.len() >= room {
            typed@.take(room as int)
        } else {
            typed@
        });
        let mut s = String::from_str(chars_till(self.text.as_str(), self.pointer));
        s.append(taken);
        s.append(chars_from(self.text.as_str(), self.pointer));
        let added = char_count(taken);
        self.pointer = if self.pointer > usize::MAX - added {
            usize::MAX
        } else {
            self.pointer + added
        };
        self.text = s;
    }

    /// Selects the whole line and puts the cursor at its end.
    pub fn select_all(&mut self)
        ensures
            final(self)@ == old(self)@.selected_all(),
    {
        let n = char_count(self.text.as_str());
        self.select = Some(Select { begin: 0, end: n, is_backwards: false });
        self.pointer = n;
    }

    /// What is selected, if anything is.
    pub fn selection(&self) -> (r: Option<String>)
        ensures
            match r {
                Some(t) => self@.selection() == Some(t@),
                None => self@.selection() is None,
            },
    {
        match self.select {
            Some(sel) => Some(
                String::from_str(chars_slice(self.text.as_str(), sel.begin, sel.end)),
            ),
            None => None,
        }
    }

    /// Takes out the selection, or else the character before the cursor.
    pub fn backspace(&mut self)
        ensures
            final(self)@ == old(self)@.backspaced(),
    {
        if self.select.is_some() {
            self.deselect();
        } else if self.pointer != 0 {
            self.text = cut_out(&self.text, self.pointer - 1, self.pointer);
            self.pointer = self.pointer - 1;
        }
    }

    /// Moves the cursor one character back; with `shift`, the selection
    /// follows it.
    pub fn move_left(&mut self, shift: bool)
        ensures
            final(self)@ == old(self)@.moved_left(shift),
    {
        if shift {
            self.select = match self.select {
                Some(t) => Some(
                    if t.is_backwards {
                        Select {
                            begin: if t.begin == 0 {
                                0
                            } else {
                                t.begin - 1
                            },
                            end: t.end,
                            is_backwards: true,
                        }
                    } else {
                        let end = if t.end == 0 {
                            0
                        } else {
                            t.end - 1
                        };
                        Select { begin: t.begin, end, is_backwards: end == t.begin }
                    },
                ),
                None => if self.pointer != 0 {
                    Some(Select { begin: self.pointer - 1, end: self.pointer, is_backwards: true })
                } else {
                    None
                },
            };
        } else {
            self.select = None;
        }
        self.pointer = if self.pointer == 0 {
            0
        } else {
            self.pointer - 1
        };
    }

    /// Moves the cursor one character on; with `shift`, the selection
    /// follows it.
    pub fn move_right(&mut self, shift: bool)
        ensures
            final(self)@ == old(self)@.moved_right(shift),
    {
        let n = char_count(self.text.as_str());
        if shift {
            self.select = match self.select {
                Some(t) => Some(
                    if t.is_backwards {
                        let begin = if t.begin < n {
                            t.begin + 1
                        } else {
                            t.begin
                        };
                        Select { begin, end: t.end, is_backwards: begin != t.end }
                    } else {
                        Select {
                            begin: t.begin,
                            end: if t.end < n {
                                t.end + 1
                            } else {
                                t.end
                            },
                            is_backwards: false,
                        }
                    },
                ),
                None => if self.pointer < n {
                    Some(Select { begin: self.pointer, end: self.pointer + 1, is_backwards: false })
                } else {
                    None
                },
            };
        } else {
            self.select = None;
        }
        self.pointer = if self.pointer < n {
            self.pointer + 1
        } else {
            self.pointer
        };
    }
}

/// Works one frame's keys and click into the line `text` with what `temp`
/// remembers of its cursor and selection. Hands back what the frame copies
/// to the clipboard.
#[verifier::rlimit(40)]
pub fn edit(
    text: &mut String,
    temp: &mut SingleTextInputTemp,
    input: &InputState,
    limit: Option<usize>,
    clicked_at: Option<usize>,
) -> (copied: Vec<String>)
    ensures
        final(temp).edit_view(final(text)@) == old(temp).edit_view(old(text)@).edited(
            keys_of(input@),
            input@.input_text,
            limit,
            clicked_at,
        ),
        final(temp).is_focused == old(temp).is_focused,
        final(temp).earlier_change == old(temp).earlier_change,
        final(temp).latest_change == old(temp).latest_change,
        copied.deep_view() == old(temp).edit_view(old(text)@).copied(
            keys_of(input@),
            input@.input_text,
            limit,
        ),
{
    let mut copied: Vec<String> = Vec::new();
    assert(copied.deep_view() =~= Seq::<Seq<char>>::empty());
    let mut line = Edit { text: text.clone(), pointer: temp.pointer, select: temp.select };
    let ghost keys = keys_of(input@);
    let ghost e0 = old(temp).edit_view(old(text)@);
    let ghost a = if keys.inserts {
        e0.inserted(input@.input_text, limit)
    } else {
        e0
    };
    let ghost b = if keys.all {
        a.selected_all()
    } else {
        a
    };
    let ghost c = if keys.cut {
        b.deselected()
    } else {
        b
    };
    let ghost d = if keys.backspace {
        c.backspaced()
    } else {
        c
    };
    let ghost e = if keys.left {
        d.moved_left(keys.shift)
    } else if keys.right {
        d.moved_right(keys.shift)
    } else {
        d
    };
    assert(line@ == e0);
    if control_with(input, Key::V) || !(input.is_key_pressing(Key::ControlLeft)
        || input.is_key_pressing(Key::AltLeft) || input.is_key_pressing(Key::AltRight)
        || input.is_key_pressing(Key::ControlRight)) {
        line.insert(input.input_text(), limit);
    }
    assert(line@ == a);
    if control_with(input, Key::A) {
        line.select_all();
    }
    assert(line@ == b);
    if control_with(input, Key::X) {
        if let Some(piece) = line.selection() {
            let ghost before = copied.deep_view();
            copied.push(piece);
            assert(copied.deep_view() =~= before.push(piece@));
        }
        line.deselect();
    }
    assert(line@ == c);
    assert(copied.deep_view() == if keys.cut && b.selection() is Some {
        seq![b.selection()->0]
    } else {
        Seq::<Seq<char>>::empty()
    });
    if control_with(input, Key::C) {
        if let Some(piece) = line.selection() {
            let ghost before = copied.deep_view();
            copied.push(piece);
            assert(copied.deep_view() =~= before.push(piece@));
        }
    }
    assert(copied.deep_view() == e0.copied(keys, input@.input_text, limit));
    if input.is_key_repeat(Key::Backspace) {
        line.backspace();
    }
    assert(line@ == d);
    if input.is_key_repeat(Key::ArrowLeft) {
        line.move_left(input.is_key_pressing(Key::ShiftLeft));
    } else if input.is_key_repeat(Key::ArrowRight) {
        line.move_right(input.is_key_pressing(Key::ShiftLeft));
    }
    assert(line@ == e);
    if let Some(at) = clicked_at {
        line.pointer = at;
        line.select = None;
    }
    if char_count(line.text.as_str()) == 0 {
        line.select = None;
    }
    assert(line@ == e0.edited(keys, input@.input_text, limit, clicked_at));
    temp.pointer = line.pointer;
    temp.select = line.select;
    *text = line.text;
    copied
}

/// The character before which a click puts the cursor: as far into the
/// line as the click is into the drawn words. `text_width` is the width of
/// the drawn words, `text_start` is where they begin within the input, and
/// `length` is how many characters the line has. Words wider than the input
/// are held to its right edge.
pub open spec fn spec_pointer_at(area: Area, cursor_x: i64, text_width: i64, text_start: i64, length: usize) -> usize {
    let reach = if area.spec_width() < text_width {
        text_width - (area.right_bottom.x - cursor_x)
    } else {
        cursor_x - area.left_top.x - text_start
    };
    if text_width <= 0 || reach <= 0 {
        0
    } else if reach >= text_width {
        length
    } else {
        ((reach * length) / (text_width as int)) as usize
    }
}

/// The character before which a click at `cursor_x` puts the cursor.
pub fn pointer_at(area: &Area, cursor_x: i64, text_width: i64, text_start: i64, length: usize) -> (r: usize)
    ensures
        r == spec_pointer_at(*area, cursor_x, text_width, text_start, length),
        r <= length,
{
    let reach: i128 = if area.width() < text_width {
        text_width as i128 - (area.right_bottom.x as i128 - cursor_x as i128)
    } else {
        cursor_x as i128 - area.left_top.x as i128 - text_start as i128
    };
    if text_width <= 0 || reach <= 0 {
        0
    } else if reach >= text_width as i128 {
        length
    } else {
        assert(0 <= reach * length <= 0x7fff_ffff_ffff_ffff * 0xffff_ffff_ffff_ffff)
            by (nonlinear_arith)
            requires
                0 <= reach <= 0x7fff_ffff_ffff_ffff,
                0 <= length <= 0xffff_ffff_ffff_ffff,
        ;
        assert((reach * length) / (text_width as int) <= length) by (nonlinear_arith)
            requires
                0 < reach < text_width,
                0 <= length,
        ;
        assert(0 <= (reach * length) / (text_width as int)) by (nonlinear_arith)
            requires
                0 < reach,
                0 < text_width,
                0 <= length,
        ;
        ((reach * length as i128) / (text_width as i128)) as usize
    }
}

/// What a container state holds for a text input; what an input remembers
/// before its first frame when it holds something else.
pub open spec fn input_of(state: ContainerStateView) -> SingleTextInputTemp {
    match state {
        ContainerStateView::Input(t) => t,
        _ => SingleTextInputTemp::spec_default(),
    }
}

/// The requests to copy the texts of a list to the clipboard, in order.
pub open spec fn copy_requests(texts: Seq<Seq<char>>) -> Seq<OutputEventView> {
    texts.map_values(|t: Seq<char>| OutputEventView::ClipboardCopy(t))
}

/// The width that a text input takes unless it says otherwise.
pub const INPUT_WIDTH: i64 = 180;

/// A single line to type into.
#[derive(Debug)]
pub struct SingleTextInput {
    /// The line.
    pub input: String,
    /// The room of the icon; nothing when there is none.
    pub icon_size: Vec2,
    /// The width; `None` for all that is left of the row.
    pub width: Option<i64>,
    /// What is shown while the line is empty.
    pub place_holder: String,
    /// Whether the characters of the line are hidden.
    pub is_password: bool,
    /// Room around the line; `None` for the spacing of the style.
    pub space: Option<i64>,
    /// How many bytes the line may hold; `None` for no limit.
    pub limit: Option<usize>,
}

/// Mathematical value of a [`SingleTextInput`].
pub struct SingleTextInputView {
    pub input: Seq<char>,
    pub icon_size: Vec2,
    pub width: Option<i64>,
    pub place_holder: Seq<char>,
    pub is_password: bool,
    pub space: Option<i64>,
    pub limit: Option<usize>,
}

impl View for SingleTextInput {
    type V = SingleTextInputView;

    open spec fn view(&self) -> SingleTextInputView {
        SingleTextInputView {
            input: self.input@,
            icon_size: self.icon_size,
            width: self.width,
            place_holder: self.place_holder@,
            is_password: self.is_password,
            space: self.space,
            limit: self.limit,
        }
    }
}

impl SingleTextInputView {
    /// The extent of the input in `ui`: as wide as it is set to be or as
    /// the row has left, and as high as its icon and the padding, or twice
    /// the padding when it has no icon.
    pub open spec fn size(self, ui: UiView) -> Vec2 {
        let space = match self.space {
            Some(s) => s,
            None => ui.style.space,
        };
        Vec2 {
            x: match self.width {
                Some(t) => t,
                None => clamp_i64(
                    clamp_i64(ui.window.right_bottom.x - ui.available_position.x) - space,
                ),
            },
            y: if self.icon_size != Vec2::spec_zero() {
                clamp_i64(self.icon_size.y + space)
            } else {
                clamp_i64(space + space)
            },
        }
    }

    /// What the input shows: a mark for each character of a password, the
    /// line itself otherwise.
    pub open spec fn shown(self) -> Seq<char> {
        if self.is_password {
            Seq::new(self.input.len(), |i: int| PASSWORD)
        } else {
            self.input
        }
    }

    /// What the input remembers after one frame, taken at `now`, given
    /// what it remembered before: the focus is looked at, and while the
    /// input has the focus, the keys and the click are worked into the
    /// line.
    pub open spec fn temp_after(
        self,
        temp: SingleTextInputTemp,
        input: InputStateView,
        response: ResponseView,
        clicked_at: usize,
        now: Instant,
    ) -> SingleTextInputTemp {
        let seen = temp.focused(response.is_clicked(), input, response.area, now);
        if seen.is_focused {
            let edited = seen.edit_view(self.input).edited(
                keys_of(input),
                input.input_text,
                self.limit,
                if response.is_clicked() {
                    Some(clicked_at)
                } else {
                    None
                },
            );
            SingleTextInputTemp { pointer: edited.pointer, select: edited.select, ..seen }
        } else {
            seen
        }
    }

    /// The line after one frame.
    pub open spec fn line_after(
        self,
        temp: SingleTextInputTemp,
        input: InputStateView,
        response: ResponseView,
        clicked_at: usize,
        now: Instant,
    ) -> Seq<char> {
        let seen = temp.focused(response.is_clicked(), input, response.area, now);
        if seen.is_focused {
            seen.edit_view(self.input).edited(
                keys_of(input),
                input.input_text,
                self.limit,
                if response.is_clicked() {
                    Some(clicked_at)
                } else {
                    None
                },
            ).text
        } else {
            self.input
        }
    }

    /// What one frame copies to the clipboard.
    pub open spec fn copies_after(
        self,
        temp: SingleTextInputTemp,
        input: InputStateView,
        response: ResponseView,
        now: Instant,
    ) -> Seq<Seq<char>> {
        let seen = temp.focused(response.is_clicked(), input, response.area, now);
        if seen.is_focused {
            seen.edit_view(self.input).copied(keys_of(input), input.input_text, self.limit)
        } else {
            Seq::empty()
        }
    }
}

impl SingleTextInputView {
    /// The input after one frame in the scope `ui`, taken at `now`.
    pub open spec fn after(self, ui: UiView, response: ResponseView, clicked_at: usize, now: Instant) -> SingleTextInputView {
        SingleTextInputView {
            input: self.line_after(
                input_of(read_container(ui.memory, response.id)),
                ui.input,
                response,
                clicked_at,
                now,
            ),
            ..self
        }
    }

    /// The scope after the input has worked one frame, taken at `now`:
    /// what the input remembers is kept under its identity, and what it
    /// copies is queued for the host.
    pub open spec fn ui_after(self, ui: UiView, response: ResponseView, clicked_at: usize, now: Instant) -> UiView {
        let temp = input_of(read_container(ui.memory, response.id));
        UiView {
            memory: save_container(
                ui.memory,
                response.id,
                ContainerStateView::Input(
                    self.temp_after(temp, ui.input, response, clicked_at, now),
                ),
            ),
            output_events: ui.output_events + copy_requests(
                self.copies_after(temp, ui.input, response, now),
            ),
            ..ui
        }
    }
}

impl SingleTextInput {
    /// A text input for the line `input`, as it starts out.
    pub open spec fn new_view(input: Seq<char>) -> SingleTextInputView {
        SingleTextInputView {
            input,
            icon_size: Vec2::spec_zero(),
            width: None,
            place_holder: Seq::empty(),
            is_password: false,
            space: None,
            limit: None,
        }
    }

    /// A text input for the line `input`.
    pub fn new(input: String) -> (r: SingleTextInput)
        ensures
            r@ == SingleTextInput::new_view(input@),
    {
        SingleTextInput {
            input,
            icon_size: Vec2::zero(),
            width: None,
            place_holder: String::new(),
            is_password: false,
            space: None,
            limit: None,
        }
    }

    /// Gives the input an icon of extent `area`.
    pub fn icon(self, area: Vec2) -> (r: SingleTextInput)
        ensures
            r@ == (SingleTextInputView { icon_size: area, ..self@ }),
    {
        let mut s = self;
        s.icon_size = area;
        s
    }

    /// Whether the input has an icon that takes room.
    pub fn has_icon(&self) -> (r: bool)
        ensures
            r == (self@.icon_size != Vec2::spec_zero()),
    {
        self.icon_size != Vec2::zero()
    }

    /// Sets the width of the input; by default it takes what is left of
    /// the row.
    pub fn set_width(self, width: i64) -> (r: SingleTextInput)
        ensures
            r@ == (SingleTextInputView { width: Some(width), ..self@ }),
    {
        let mut s = self;
        s.width = Some(width);
        s
    }

    /// Sets what is shown while the line is empty.
    pub fn place_holder(self, place_holder: String) -> (r: SingleTextInput)
        ensures
            r@ == (SingleTextInputView { place_holder: place_holder@, ..self@ }),
    {
        let mut s = self;
        s.place_holder = place_holder;
        s
    }

    /// Sets whether the characters of the line are hidden.
    pub fn password(self, is_password: bool) -> (r: SingleTextInput)
        ensures
            r@ == (SingleTextInputView { is_password, ..self@ }),
    {
        let mut s = self;
        s.is_password = is_password;
        s
    }

    /// Sets the room around the line.
    pub fn set_padding(self, padding: i64) -> (r: SingleTextInput)
        ensures
            r@ == (SingleTextInputView { space: Some(padding), ..self@ }),
    {
        let mut s = self;
        s.space = Some(padding);
        s
    }

    /// Sets how many bytes the line may hold.
    pub fn limit(self, limit: usize) -> (r: SingleTextInput)
        ensures
            r@ == (SingleTextInputView { limit: Some(limit), ..self@ }),
    {
        let mut s = self;
        s.limit = Some(limit);
        s
    }

    /// What the input shows: a mark for each character of a password, the
    /// line itself otherwise.
    pub fn shown(&self) -> (r: String)
        ensures
            r@ == self@.shown(),
    {
        if self.is_password {
            let n = char_count(self.input.as_str());
            let mut s = String::new();
            let mut i: usize = 0;
            while i < n
                invariant
                    i <= n,
                    s@ == Seq::new(i as nat, |k: int| PASSWORD),
                decreases n - i,
            {
                s.push(PASSWORD);
                assert(s@ =~= Seq::new((i + 1) as nat, |k: int| PASSWORD));
                i += 1;
            }
            s
        } else {
            self.input.clone()
        }
    }

    /// Works one frame, taken at `now`, into the input: looks at the
    /// focus, and while the input has it, at the keys and at a click, which
    /// puts the cursor at the character `clicked_at`. What is cut or copied
    /// is handed to the host as requests to copy it to the clipboard.
    pub fn update_at(&mut self, ui: &mut Ui, response: &Response, clicked_at: usize, now: Instant)
        ensures
            final(self)@ == old(self)@.after(old(ui)@, response@, clicked_at, now),
            final(ui)@ == old(self)@.ui_after(old(ui)@, response@, clicked_at, now),
    {
        let mut temp = match ui.container_read(&response.id) {
            ContainerState::Input(t) => t,
            _ => SingleTextInputTemp::default(),
        };
        let clicked = response.is_clicked();
        temp.focus_at(clicked, ui.input(), &response.area, now);
        let ghost queued = ui@.output_events;
        assert(queued + copy_requests(Seq::empty()) =~= queued);
        if temp.is_focused {
            let copied = edit(
                &mut self.input,
                &mut temp,
                ui.input(),
                self.limit,
                if clicked {
                    Some(clicked_at)
                } else {
                    None
                },
            );
            let ghost texts = copied.deep_view();
            let mut i: usize = 0;
            assert(queued + copy_requests(texts.take(0)) =~= queued);
            while i < copied.len()
                invariant
                    i <= copied.len(),
                    texts == copied.deep_view(),
                    ui@ == (UiView {
                        output_events: queued + copy_requests(texts.take(i as int)),
                        ..old(ui)@
                    }),
                decreases copied.len() - i,
            {
                assert(texts[i as int] == copied@[i as int]@);
                ui.send_output_event(OutputEvent::ClipboardCopy(copied[i].clone()));
                assert((queued + copy_requests(texts.take(i as int))).push(
                    OutputEventView::ClipboardCopy(texts[i as int]),
                ) =~= queued + copy_requests(texts.take(i + 1)));
                i += 1;
            }
            assert(texts.take(copied.len() as int) =~= texts);
        }
        ui.container_save(&response.id, ContainerState::Input(temp));
    }

    /// Works one frame into the input, taken at the present moment of the
    /// system clock.
    pub fn update(&mut self, ui: &mut Ui, response: &Response, clicked_at: usize)
        ensures
            exists|now: Instant|
                final(self)@ == #[trigger] old(self)@.after(old(ui)@, response@, clicked_at, now)
                    && final(ui)@ == old(self)@.ui_after(old(ui)@, response@, clicked_at, now),
    {
        self.update_at(ui, response, clicked_at, Instant::now());
    }
}

impl Widget for SingleTextInput {
    fn ui(&mut self, ui: &mut Ui, area: Option<Area>) -> (r: Response)
        ensures
            final(self)@ == old(self)@,
            exists|now: Instant|
                r@ == #[trigger] old(ui)@.fresh_response(
                    room_or(area, old(ui)@, old(self)@.size(old(ui)@)),
                    true,
                    false,
                    now,
                ),
            final(ui)@ == old(ui)@.claimed(room_or(area, old(ui)@, old(self)@.size(old(ui)@))),
    {
        let space = match self.space {
            Some(s) => s,
            None => ui.style().space,
        };
        let height = if self.has_icon() {
            sat_add(self.icon_size.y, space)
        } else {
            sat_add(space, space)
        };
        let width = match self.width {
            Some(t) => t,
            None => sat_sub(
                sat_sub(ui.window_area().right_top().x, ui.available_position().x),
                space,
            ),
        };
        let room = match area {
            Some(t) => t,
            None => {
                let from = ui.available_position();
                Area::new(from, from.plus(Vec2::new(width, height)))
            },
        };
        ui.response(room, true, false)
    }
}

impl Ui {
    /// Declares a text input for the line `input`, of the usual width.
    pub fn single_input(&mut self, input: String) -> (r: crate::ui::Declared)
        ensures
            r.response@.id == old(self)@.next_id(),
            r.need_draw == contains(old(self)@.memory, old(self)@.next_id()),
            exists|now: Instant|
                final(self)@ == old(self)@.with_widget(
                    room_or(
                        None,
                        old(self)@.numbered(),
                        (SingleTextInputView {
                            input: input@,
                            icon_size: Vec2::spec_zero(),
                            width: Some(INPUT_WIDTH),
                            place_holder: Seq::empty(),
                            is_password: false,
                            space: None,
                            limit: None,
                        }).size(old(self)@.numbered()),
                    ),
                    #[trigger] old(self)@.numbered().fresh_response(
                        room_or(
                        None,
                        old(self)@.numbered(),
                        (SingleTextInputView {
                            input: input@,
                            icon_size: Vec2::spec_zero(),
                            width: Some(INPUT_WIDTH),
                            place_holder: Seq::empty(),
                            is_password: false,
                            space: None,
                            limit: None,
                        }).size(old(self)@.numbered()),
                    ),
                        true,
                        false,
                        now,
                    ),
                ) && r.response@ == old(self)@.widget_response(
                    room_or(
                        None,
                        old(self)@.numbered(),
                        (SingleTextInputView {
                            input: input@,
                            icon_size: Vec2::spec_zero(),
                            width: Some(INPUT_WIDTH),
                            place_holder: Seq::empty(),
                            is_password: false,
                            space: None,
                            limit: None,
                        }).size(old(self)@.numbered()),
                    ),
                    old(self)@.numbered().fresh_response(
                        room_or(
                        None,
                        old(self)@.numbered(),
                        (SingleTextInputView {
                            input: input@,
                            icon_size: Vec2::spec_zero(),
                            width: Some(INPUT_WIDTH),
                            place_holder: Seq::empty(),
                            is_password: false,
                            space: None,
                            limit: None,
                        }).size(old(self)@.numbered()),
                    ),
                        true,
                        false,
                        now,
                    ),
                ),
    {
        self.add(SingleTextInput::new(input).set_width(INPUT_WIDTH))
    }
}

} // verus!
