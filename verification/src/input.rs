//! The input snapshot of one frame: keys, pointer, buttons, touches, wheel
//! and typed text, with the marks by which a widget claims a press or a
//! release so that no other widget reacts to it too.

use vstd::prelude::*;
use vstd::string::StringExecFns;
use crate::clock::Instant;
use crate::event::{Event, EventView, Key, MouseButton, Touch, TouchPhase};
use crate::math::Vec2;

verus! {

/// A second vector with the same elements in the same order.
pub fn copy_vec<T: Copy>(v: &Vec<T>) -> (r: Vec<T>)
    ensures
        r@ == v@,
{
    let mut back: Vec<T> = Vec::new();
    let mut i: usize = 0;
    while i < v.len()
        invariant
            i <= v.len(),
            back@ == v@.take(i as int),
        decreases v.len() - i,
    {
        back.push(v[i]);
        assert(v@.take(i + 1) =~= v@.take(i as int).push(v@[i as int]));
        i += 1;
    }
    assert(v@.take(v.len() as int) =~= v@);
    back
}

/// A button pressed in this frame, with its two independent claims.
#[derive(Clone, Copy, Debug, PartialEq, Eq, Structural)]
pub struct MouseState {
    pub button: MouseButton,
    /// Claimed as the start of a drag.
    pub is_drag_used: bool,
    /// Claimed as a click.
    pub is_click_used: bool,
}

impl MouseState {
    /// An unclaimed press of `button`.
    pub open spec fn fresh(button: MouseButton) -> MouseState {
        MouseState { button, is_drag_used: false, is_click_used: false }
    }
}

impl From<MouseButton> for MouseState {
    fn from(button: MouseButton) -> (r: MouseState) {
        MouseState { button, is_drag_used: false, is_click_used: false }
    }
}

impl vstd::std_specs::convert::FromSpecImpl<MouseButton> for MouseState {
    open spec fn obeys_from_spec() -> bool {
        true
    }

    open spec fn from_spec(button: MouseButton) -> MouseState {
        MouseState::fresh(button)
    }
}

/// An active touch, with its two independent claims.
#[derive(Clone, Copy, Debug, PartialEq, Eq, Structural)]
pub struct TouchState {
    pub touch: Touch,
    /// Claimed as the start of a drag.
    pub is_drag_used: bool,
    /// Claimed as a click.
    pub is_click_used: bool,
}

impl TouchState {
    /// An unclaimed record of `touch`.
    pub open spec fn fresh(touch: Touch) -> TouchState {
        TouchState { touch, is_drag_used: false, is_click_used: false }
    }
}

/// Everything the interface knows of the input in the current frame.
///
/// It changes only when an event is taken in, when a widget claims a press
/// or release, and at the end of the frame.
pub struct InputState {
    pub(crate) key: Vec<Key>,
    pub(crate) key_repeat: Vec<Key>,
    pub(crate) released_key: Vec<Key>,
    pub(crate) cursor_position: Option<Vec2>,
    pub(crate) pressed_mouse: Vec<MouseState>,
    pub(crate) pressing_mouse: Vec<(MouseButton, bool)>,
    pub(crate) released_mouse: Vec<(MouseButton, bool)>,
    pub(crate) click_time: Vec<(MouseButton, Instant)>,
    pub(crate) is_ime_on: bool,
    pub(crate) current_scroll: Vec2,
    pub(crate) touch: Vec<TouchState>,
    pub(crate) input_text: String,
}

/// Mathematical value of an [`InputState`].
pub struct InputStateView {
    /// Keys that are down, each once, in the order in which they went down.
    pub key: Seq<Key>,
    /// Key presses reported in this frame, auto-repeat included.
    pub key_repeat: Seq<Key>,
    /// Keys that came up in this frame.
    pub released_key: Seq<Key>,
    /// Where the cursor is; `None` once it has left the surface.
    pub cursor_position: Option<Vec2>,
    /// Buttons that went down in this frame.
    pub pressed_mouse: Seq<MouseState>,
    /// Buttons that are down, each with its claim.
    pub pressing_mouse: Seq<(MouseButton, bool)>,
    /// Buttons that came up in this frame, each with its claim.
    pub released_mouse: Seq<(MouseButton, bool)>,
    /// When each button that is down went down.
    pub click_time: Seq<(MouseButton, Instant)>,
    /// Whether an input method is composing text.
    pub is_ime_on: bool,
    /// Wheel movement of this frame.
    pub current_scroll: Vec2,
    /// Active touches, at most one per touch id, in the order of their first
    /// report.
    pub touch: Seq<TouchState>,
    /// Text typed in this frame.
    pub input_text: Seq<char>,
}

impl View for InputState {
    type V = InputStateView;

    closed spec fn view(&self) -> InputStateView {
        InputStateView {
            key: self.key@,
            key_repeat: self.key_repeat@,
            released_key: self.released_key@,
            cursor_position: self.cursor_position,
            pressed_mouse: self.pressed_mouse@,
            pressing_mouse: self.pressing_mouse@,
            released_mouse: self.released_mouse@,
            click_time: self.click_time@,
            is_ime_on: self.is_ime_on,
            current_scroll: self.current_scroll,
            touch: self.touch@,
            input_text: self.input_text@,
        }
    }
}

impl InputStateView {
    /// The snapshot before any event: nothing down, nothing typed, no
    /// pointer.
    pub open spec fn empty() -> InputStateView {
        InputStateView {
            key: Seq::empty(),
            key_repeat: Seq::empty(),
            released_key: Seq::empty(),
            cursor_position: None,
            pressed_mouse: Seq::empty(),
            pressing_mouse: Seq::empty(),
            released_mouse: Seq::empty(),
            click_time: Seq::empty(),
            is_ime_on: false,
            current_scroll: Vec2::spec_zero(),
            touch: Seq::empty(),
            input_text: Seq::empty(),
        }
    }

    pub open spec fn is_mouse_pressed(self, key: MouseButton) -> bool {
        exists|i: int| 0 <= i < self.pressed_mouse.len() && self.pressed_mouse[i].button == key
    }

    pub open spec fn is_mouse_pressed_unconsumed(self, key: MouseButton) -> bool {
        exists|i: int|
            0 <= i < self.pressed_mouse.len() && !self.pressed_mouse[i].is_click_used
                && self.pressed_mouse[i].button == key
    }

    pub open spec fn is_any_mouse_pressed(self) -> bool {
        self.pressed_mouse.len() >= 1
    }

    pub open spec fn is_any_mouse_pressed_unconsumed(self) -> bool {
        exists|i: int| 0 <= i < self.pressed_mouse.len() && !self.pressed_mouse[i].is_click_used
    }

    /// Whether some press of this frame is not yet claimed as the start of a
    /// drag.
    pub open spec fn is_any_mouse_pressed_undragged(self) -> bool {
        exists|i: int| 0 <= i < self.pressed_mouse.len() && !self.pressed_mouse[i].is_drag_used
    }

    pub open spec fn is_mouse_pressing(self, key: MouseButton) -> bool {
        self.pressing_mouse.contains((key, true)) || self.pressing_mouse.contains((key, false))
    }

    pub open spec fn is_mouse_pressing_unconsumed(self, key: MouseButton) -> bool {
        self.pressing_mouse.contains((key, false))
    }

    pub open spec fn is_any_mouse_pressing(self) -> bool {
        self.pressing_mouse.len() >= 1
    }

    pub open spec fn is_any_mouse_pressing_unconsumed(self) -> bool {
        has_unclaimed(self.pressing_mouse)
    }

    pub open spec fn is_mouse_released(self, key: MouseButton) -> bool {
        self.released_mouse.contains((key, true)) || self.released_mouse.contains((key, false))
    }

    pub open spec fn is_mouse_released_unconsumed(self, key: MouseButton) -> bool {
        self.released_mouse.contains((key, false))
    }

    pub open spec fn is_any_mouse_released(self) -> bool {
        self.released_mouse.len() >= 1
    }

    pub open spec fn is_any_mouse_released_unconsumed(self) -> bool {
        has_unclaimed(self.released_mouse)
    }

    /// The buttons that went down in this frame, in order.
    pub open spec fn pressed_buttons(self) -> Seq<MouseButton> {
        self.pressed_mouse.map_values(|m: MouseState| m.button)
    }

    /// The buttons that are down, in order.
    pub open spec fn pressing_buttons(self) -> Seq<MouseButton> {
        self.pressing_mouse.map_values(|m: (MouseButton, bool)| m.0)
    }

    /// The buttons that came up in this frame, in order.
    pub open spec fn released_buttons(self) -> Seq<MouseButton> {
        self.released_mouse.map_values(|m: (MouseButton, bool)| m.0)
    }

    /// Every active touch, in order.
    pub open spec fn touches(self) -> Seq<Touch> {
        self.touch.map_values(|t: TouchState| t.touch)
    }

    /// The places of all active touches, in order.
    pub open spec fn touch_position(self) -> Seq<Vec2> {
        self.touch.map_values(|t: TouchState| t.touch.position)
    }

    /// The touches in `phase`, in order; with `fresh_only`, only those not
    /// yet claimed as a click.
    pub open spec fn touches_in(self, phase: TouchPhase, fresh_only: bool) -> Seq<Touch> {
        self.touch.filter_map(pick_touch(phase, fresh_only))
    }

    /// Every pointer that the frame tracks: each touch, then the cursor if
    /// it is on the surface.
    pub open spec fn pointers(self) -> Seq<Vec2> {
        match self.cursor_position {
            Some(p) => self.touch_position().push(p),
            None => self.touch_position(),
        }
    }

    /// With every press of `key` in this frame claimed as a click.
    pub open spec fn consume_mouse_press(self, key: MouseButton) -> InputStateView {
        InputStateView {
            pressed_mouse: self.pressed_mouse.map_values(
                |m: MouseState|
                    if m.button == key {
                        MouseState { is_click_used: true, ..m }
                    } else {
                        m
                    },
            ),
            ..self
        }
    }

    /// With every press of this frame claimed as a click.
    pub open spec fn consume_all_mouse_press(self) -> InputStateView {
        InputStateView {
            pressed_mouse: self.pressed_mouse.map_values(
                |m: MouseState| MouseState { is_click_used: true, ..m },
            ),
            ..self
        }
    }

    /// With every press of this frame claimed as the start of a drag.
    pub open spec fn claim_all_drag(self) -> InputStateView {
        InputStateView {
            pressed_mouse: self.pressed_mouse.map_values(
                |m: MouseState| MouseState { is_drag_used: true, ..m },
            ),
            ..self
        }
    }

    /// With `key` claimed among the buttons that are down.
    pub open spec fn consume_mouse_pressing(self, key: MouseButton) -> InputStateView {
        InputStateView { pressing_mouse: mark_button(self.pressing_mouse, key), ..self }
    }

    /// With every button that is down claimed.
    pub open spec fn consume_all_mouse_pressing(self) -> InputStateView {
        InputStateView { pressing_mouse: mark_all(self.pressing_mouse), ..self }
    }

    /// With every release of `key` in this frame claimed.
    pub open spec fn consume_mouse_release(self, key: MouseButton) -> InputStateView {
        InputStateView { released_mouse: mark_button(self.released_mouse, key), ..self }
    }

    /// With every release of this frame claimed.
    pub open spec fn consume_all_mouse_release(self) -> InputStateView {
        InputStateView { released_mouse: mark_all(self.released_mouse), ..self }
    }

    /// The snapshot at the start of the next frame: what happened within
    /// the frame is forgotten, what lasts is kept.
    pub open spec fn clear(self) -> InputStateView {
        InputStateView {
            key_repeat: Seq::empty(),
            pressed_mouse: Seq::empty(),
            released_key: Seq::empty(),
            released_mouse: Seq::empty(),
            current_scroll: Vec2::spec_zero(),
            input_text: Seq::empty(),
            touch: carry_touches(self.touch),
            ..self
        }
    }

    /// Whether a key press types text: not while an input method composes,
    /// and not while a control, tab or alt key is down.
    pub open spec fn types_text(self) -> bool {
        !(self.is_ime_on || self.key.contains(Key::ControlLeft) || self.key.contains(Key::Tab)
            || self.key.contains(Key::AltLeft) || self.key.contains(Key::AltRight))
    }

    /// Whether a shift key is down.
    pub open spec fn is_shifted(self) -> bool {
        self.key.contains(Key::ShiftLeft) || self.key.contains(Key::ShiftRight)
    }

    /// The snapshot after the press of `key`.
    pub open spec fn key_pressed(self, key: Key) -> InputStateView {
        let down = InputStateView {
            key: if self.key.contains(key) {
                self.key
            } else {
                self.key.push(key)
            },
            key_repeat: self.key_repeat.push(key),
            ..self
        };
        if down.types_text() {
            InputStateView { input_text: down.input_text + key.text(down.is_shifted()), ..down }
        } else {
            down
        }
    }

    /// The snapshot after one event, taken in at `now`.
    pub open spec fn apply(self, event: EventView, now: Instant) -> InputStateView {
        match event {
            EventView::KeyPressed(key) => self.key_pressed(key),
            EventView::KeyRelease(key) => InputStateView {
                key: drop_key(self.key, key),
                released_key: self.released_key.push(key),
                ..self
            },
            EventView::CursorMoved(position) => InputStateView {
                cursor_position: Some(position),
                ..self
            },
            EventView::CursorEntered => InputStateView {
                cursor_position: Some(Vec2::spec_zero()),
                ..self
            },
            EventView::CursorLeft => InputStateView { cursor_position: None, ..self },
            EventView::MouseClick(button) => InputStateView {
                pressed_mouse: self.pressed_mouse.push(MouseState::fresh(button)),
                pressing_mouse: self.pressing_mouse.push((button, false)),
                released_mouse: drop_button(self.released_mouse, button),
                click_time: put_click_time(self.click_time, button, now),
                ..self
            },
            EventView::MouseRelease(button) => InputStateView {
                pressing_mouse: drop_button(self.pressing_mouse, button),
                released_mouse: self.released_mouse.push((button, false)),
                click_time: drop_click_time(self.click_time, button),
                ..self
            },
            EventView::Resized(_) => self,
            EventView::ImeEnable => InputStateView { is_ime_on: true, ..self },
            EventView::ImeDisable => InputStateView { is_ime_on: false, ..self },
            EventView::TextInput(text) => InputStateView { input_text: text, ..self },
            EventView::TouchStart(touch) => InputStateView {
                touch: put_touch(self.touch, touch),
                ..self
            },
            EventView::TouchMove(touch) => InputStateView {
                touch: put_touch(self.touch, touch),
                ..self
            },
            EventView::TouchEnd(touch) => InputStateView {
                touch: put_touch(self.touch, touch),
                ..self
            },
            EventView::TouchCancel(touch) => InputStateView {
                touch: put_touch(self.touch, touch),
                ..self
            },
            EventView::Scroll(scroll) => InputStateView { current_scroll: scroll, ..self },
            EventView::NotSupported => self,
        }
    }

    /// With every touch in `phase` claimed as a click.
    pub open spec fn consume_touches_in(self, phase: TouchPhase) -> InputStateView {
        InputStateView {
            touch: self.touch.map_values(mark_touch(phase)),
            ..self
        }
    }
}

/// The list without the entries of button `key`.
pub open spec fn drop_button(s: Seq<(MouseButton, bool)>, key: MouseButton) -> Seq<
    (MouseButton, bool),
> {
    s.filter(not_button(key))
}

/// The test "is not an entry of button `key`".
pub open spec fn not_button(key: MouseButton) -> spec_fn((MouseButton, bool)) -> bool {
    |m: (MouseButton, bool)| m.0 != key
}

/// The list without the key `key`.
pub open spec fn drop_key(s: Seq<Key>, key: Key) -> Seq<Key> {
    s.filter(not_key(key))
}

/// The test "is not the key `key`".
pub open spec fn not_key(key: Key) -> spec_fn(Key) -> bool {
    |k: Key| k != key
}

/// The list without the press times of button `key`.
pub open spec fn drop_click_time(s: Seq<(MouseButton, Instant)>, key: MouseButton) -> Seq<
    (MouseButton, Instant),
> {
    s.filter(not_click_time(key))
}

/// The test "is not a press time of button `key`".
pub open spec fn not_click_time(key: MouseButton) -> spec_fn((MouseButton, Instant)) -> bool {
    |m: (MouseButton, Instant)| m.0 != key
}

/// Whether the list holds a press time for button `key`.
pub open spec fn has_click_time(s: Seq<(MouseButton, Instant)>, key: MouseButton) -> bool {
    exists|i: int| 0 <= i < s.len() && s[i].0 == key
}

/// The list with `now` as the press time of button `key`: in place of the
/// time it had, or at the end.
pub open spec fn put_click_time(s: Seq<(MouseButton, Instant)>, key: MouseButton, now: Instant) -> Seq<
    (MouseButton, Instant),
> {
    if has_click_time(s, key) {
        s.map_values(
            |m: (MouseButton, Instant)|
                if m.0 == key {
                    (key, now)
                } else {
                    m
                },
        )
    } else {
        s.push((key, now))
    }
}

/// Whether the list holds a touch with this id.
pub open spec fn has_touch(s: Seq<TouchState>, id: usize) -> bool {
    exists|i: int| 0 <= i < s.len() && s[i].touch.id == id
}

/// The list with `touch` as the unclaimed record of its id: in place of the
/// record it had, or at the end.
pub open spec fn put_touch(s: Seq<TouchState>, touch: Touch) -> Seq<TouchState> {
    if has_touch(s, touch.id) {
        s.map_values(
            |t: TouchState|
                if t.touch.id == touch.id {
                    TouchState::fresh(touch)
                } else {
                    t
                },
        )
    } else {
        s.push(TouchState::fresh(touch))
    }
}

/// The touches that go on into the next frame: those that have not ended,
/// each unclaimed and held.
pub open spec fn carry_touches(s: Seq<TouchState>) -> Seq<TouchState> {
    s.filter_map(
        |t: TouchState|
            if t.touch.phase == TouchPhase::End {
                None
            } else {
                Some(
                    TouchState::fresh(
                        Touch { id: t.touch.id, position: t.touch.position, phase: TouchPhase::Hold },
                    ),
                )
            },
    )
}

/// The touch of a record that is in `phase` and, with `fresh_only`, not
/// yet claimed as a click.
pub open spec fn pick_touch(phase: TouchPhase, fresh_only: bool) -> spec_fn(TouchState) -> Option<
    Touch,
> {
    |t: TouchState|
        if t.touch.phase == phase && (!fresh_only || !t.is_click_used) {
            Some(t.touch)
        } else {
            None
        }
}

/// The record claimed as a click when it is in `phase`.
pub open spec fn mark_touch(phase: TouchPhase) -> spec_fn(TouchState) -> TouchState {
    |t: TouchState|
        if t.touch.phase == phase {
            TouchState { is_click_used: true, ..t }
        } else {
            t
        }
}

/// Whether some entry of the list carries no claim.
pub open spec fn has_unclaimed(s: Seq<(MouseButton, bool)>) -> bool {
    exists|i: int| 0 <= i < s.len() && !s[i].1
}

/// The list with the claim set on every entry of button `key`.
pub open spec fn mark_button(s: Seq<(MouseButton, bool)>, key: MouseButton) -> Seq<
    (MouseButton, bool),
> {
    s.map_values(
        |m: (MouseButton, bool)|
            if m.0 == key {
                (m.0, true)
            } else {
                m
            },
    )
}

/// The list with the claim set on every entry.
pub open spec fn mark_all(s: Seq<(MouseButton, bool)>) -> Seq<(MouseButton, bool)> {
    s.map_values(|m: (MouseButton, bool)| (m.0, true))
}

fn any_unclaimed(v: &Vec<(MouseButton, bool)>) -> (r: bool)
    ensures
        r == has_unclaimed(v@),
{
    let mut i: usize = 0;
    while i < v.len()
        invariant
            i <= v.len(),
            forall|j: int| 0 <= j < i ==> v@[j].1,
        decreases v.len() - i,
    {
        if !v[i].1 {
            return true;
        }
        i += 1;
    }
    false
}

fn holds_entry(v: &Vec<(MouseButton, bool)>, key: MouseButton, claimed: bool) -> (r: bool)
    ensures
        r == v@.contains((key, claimed)),
{
    let mut i: usize = 0;
    while i < v.len()
        invariant
            i <= v.len(),
            forall|j: int| 0 <= j < i ==> v@[j] != (key, claimed),
        decreases v.len() - i,
    {
        if v[i].0 == key && v[i].1 == claimed {
            assert(v@[i as int] == (key, claimed));
            return true;
        }
        i += 1;
    }
    false
}

fn mark_button_in(v: &mut Vec<(MouseButton, bool)>, key: MouseButton)
    ensures
        final(v)@ == mark_button(old(v)@, key),
{
    let mut i: usize = 0;
    while i < v.len()
        invariant
            i <= v.len(),
            v.len() == old(v).len(),
            forall|j: int| 0 <= j < i ==> v@[j] == mark_button(old(v)@, key)[j],
            forall|j: int| i <= j < v.len() ==> v@[j] == old(v)@[j],
        decreases v.len() - i,
    {
        if v[i].0 == key {
            v[i].1 = true;
        }
        i += 1;
    }
    assert(v@ =~= mark_button(old(v)@, key));
}

fn mark_all_in(v: &mut Vec<(MouseButton, bool)>)
    ensures
        final(v)@ == mark_all(old(v)@),
{
    let mut i: usize = 0;
    while i < v.len()
        invariant
            i <= v.len(),
            v.len() == old(v).len(),
            forall|j: int| 0 <= j < i ==> v@[j] == mark_all(old(v)@)[j],
            forall|j: int| i <= j < v.len() ==> v@[j] == old(v)@[j],
        decreases v.len() - i,
    {
        v[i].1 = true;
        i += 1;
    }
    assert(v@ =~= mark_all(old(v)@));
}

fn buttons_of(v: &Vec<(MouseButton, bool)>) -> (r: Vec<MouseButton>)
    ensures
        r@ == v@.map_values(|m: (MouseButton, bool)| m.0),
{
    let mut back: Vec<MouseButton> = Vec::new();
    let mut i: usize = 0;
    while i < v.len()
        invariant
            i <= v.len(),
            back.len() == i,
            forall|j: int| 0 <= j < i ==> back@[j] == v@[j].0,
        decreases v.len() - i,
    {
        back.push(v[i].0);
        i += 1;
    }
    assert(back@ =~= v@.map_values(|m: (MouseButton, bool)| m.0));
    back
}

fn holds_key(v: &Vec<Key>, key: Key) -> (r: bool)
    ensures
        r == v@.contains(key),
{
    let mut i: usize = 0;
    while i < v.len()
        invariant
            i <= v.len(),
            forall|j: int| 0 <= j < i ==> v@[j] != key,
        decreases v.len() - i,
    {
        if v[i] == key {
            return true;
        }
        i += 1;
    }
    false
}

impl InputState {
    /// The snapshot before any event.
    pub fn new() -> (r: InputState)
        ensures
            r@ == InputStateView::empty(),
    {
        InputState {
            key: Vec::new(),
            key_repeat: Vec::new(),
            released_key: Vec::new(),
            cursor_position: None,
            pressed_mouse: Vec::new(),
            pressing_mouse: Vec::new(),
            released_mouse: Vec::new(),
            click_time: Vec::new(),
            is_ime_on: false,
            current_scroll: Vec2::zero(),
            touch: Vec::new(),
            input_text: String::new(),
        }
    }

    /// Is the key down in this frame?
    pub fn is_key_pressing(&self, key: Key) -> (r: bool)
        ensures
            r == self@.key.contains(key),
    {
        holds_key(&self.key, key)
    }

    /// Was a press of the key reported in this frame, auto-repeat included?
    pub fn is_key_repeat(&self, key: Key) -> (r: bool)
        ensures
            r == self@.key_repeat.contains(key),
    {
        holds_key(&self.key_repeat, key)
    }

    /// Did the key come up in this frame?
    pub fn is_key_released(&self, key: Key) -> (r: bool)
        ensures
            r == self@.released_key.contains(key),
    {
        holds_key(&self.released_key, key)
    }

    /// Did the button go down in this frame?
    pub fn is_mouse_pressed(&self, key: MouseButton) -> (r: bool)
        ensures
            r == self@.is_mouse_pressed(key),
    {
        let mut i: usize = 0;
        while i < self.pressed_mouse.len()
            invariant
                i <= self.pressed_mouse.len(),
                forall|j: int| 0 <= j < i ==> self.pressed_mouse@[j].button != key,
            decreases self.pressed_mouse.len() - i,
        {
            if self.pressed_mouse[i].button == key {
                return true;
            }
            i += 1;
        }
        false
    }

    /// Did the button go down in this frame without any widget having
    /// claimed the press as a click?
    pub fn is_mouse_pressed_unconsumed(&self, key: MouseButton) -> (r: bool)
        ensures
            r == self@.is_mouse_pressed_unconsumed(key),
    {
        let mut i: usize = 0;
        while i < self.pressed_mouse.len()
            invariant
                i <= self.pressed_mouse.len(),
                forall|j: int|
                    0 <= j < i ==> !(!self.pressed_mouse@[j].is_click_used
                        && self.pressed_mouse@[j].button == key),
            decreases self.pressed_mouse.len() - i,
        {
            if !self.pressed_mouse[i].is_click_used && self.pressed_mouse[i].button == key {
                return true;
            }
            i += 1;
        }
        false
    }

    /// Did any button go down in this frame?
    pub fn is_any_mouse_pressed(&self) -> (r: bool)
        ensures
            r == self@.is_any_mouse_pressed(),
    {
        self.pressed_mouse.len() >= 1
    }

    /// Did any button go down in this frame without its press having been
    /// claimed as a click?
    pub fn is_any_mouse_pressed_unconsumed(&self) -> (r: bool)
        ensures
            r == self@.is_any_mouse_pressed_unconsumed(),
    {
        let mut i: usize = 0;
        while i < self.pressed_mouse.len()
            invariant
                i <= self.pressed_mouse.len(),
                forall|j: int| 0 <= j < i ==> self.pressed_mouse@[j].is_click_used,
            decreases self.pressed_mouse.len() - i,
        {
            if !self.pressed_mouse[i].is_click_used {
                return true;
            }
            i += 1;
        }
        false
    }

    /// Did any button go down in this frame without its press having been
    /// claimed as the start of a drag?
    pub fn is_any_mouse_pressed_undragged(&self) -> (r: bool)
        ensures
            r == self@.is_any_mouse_pressed_undragged(),
    {
        let mut i: usize = 0;
        while i < self.pressed_mouse.len()
            invariant
                i <= self.pressed_mouse.len(),
                forall|j: int| 0 <= j < i ==> self.pressed_mouse@[j].is_drag_used,
            decreases self.pressed_mouse.len() - i,
        {
            if !self.pressed_mouse[i].is_drag_used {
                return true;
            }
            i += 1;
        }
        false
    }

    /// Is the button down?
    pub fn is_mouse_pressing(&self, key: MouseButton) -> (r: bool)
        ensures
            r == self@.is_mouse_pressing(key),
    {
        holds_entry(&self.pressing_mouse, key, true) || holds_entry(&self.pressing_mouse, key, false)
    }

    /// Is the button down and unclaimed?
    pub fn is_mouse_pressing_unconsumed(&self, key: MouseButton) -> (r: bool)
        ensures
            r == self@.is_mouse_pressing_unconsumed(key),
    {
        holds_entry(&self.pressing_mouse, key, false)
    }

    /// Is any button down?
    pub fn is_any_mouse_pressing(&self) -> (r: bool)
        ensures
            r == self@.is_any_mouse_pressing(),
    {
        self.pressing_mouse.len() >= 1
    }

    /// Is any button down and unclaimed?
    pub fn is_any_mouse_pressing_unconsumed(&self) -> (r: bool)
        ensures
            r == self@.is_any_mouse_pressing_unconsumed(),
    {
        any_unclaimed(&self.pressing_mouse)
    }

    /// Did any button come up in this frame without its release having been
    /// claimed?
    pub fn is_any_mouse_released_unconsumed(&self) -> (r: bool)
        ensures
            r == self@.is_any_mouse_released_unconsumed(),
    {
        any_unclaimed(&self.released_mouse)
    }

    /// Did the button come up in this frame?
    pub fn is_mouse_released(&self, key: MouseButton) -> (r: bool)
        ensures
            r == self@.is_mouse_released(key),
    {
        holds_entry(&self.released_mouse, key, true) || holds_entry(&self.released_mouse, key, false)
    }

    /// Did the button come up in this frame without its release having been
    /// claimed?
    pub fn is_mouse_released_unconsumed(&self, key: MouseButton) -> (r: bool)
        ensures
            r == self@.is_mouse_released_unconsumed(key),
    {
        holds_entry(&self.released_mouse, key, false)
    }

    /// Claims every release of the button in this frame.
    pub fn consume_mouse_release(&mut self, key: MouseButton)
        ensures
            final(self)@ == old(self)@.consume_mouse_release(key),
    {
        mark_button_in(&mut self.released_mouse, key);
    }

    /// Claims every release of this frame.
    pub fn consume_all_mouse_release(&mut self)
        ensures
            final(self)@ == old(self)@.consume_all_mouse_release(),
    {
        mark_all_in(&mut self.released_mouse);
    }

    /// Claims every press of the button in this frame as a click.
    pub fn consume_mouse_press(&mut self, key: MouseButton)
        ensures
            final(self)@ == old(self)@.consume_mouse_press(key),
    {
        let mut i: usize = 0;
        while i < self.pressed_mouse.len()
            invariant
                i <= self.pressed_mouse.len(),
                self.pressed_mouse.len() == old(self).pressed_mouse.len(),
                forall|j: int|
                    0 <= j < i ==> self.pressed_mouse@[j] == old(self)@.consume_mouse_press(
                        key,
                    ).pressed_mouse[j],
                forall|j: int|
                    i <= j < self.pressed_mouse.len() ==> self.pressed_mouse@[j] == old(
                        self,
                    ).pressed_mouse@[j],
                *self == (InputState { pressed_mouse: self.pressed_mouse, ..*old(self) }),
            decreases self.pressed_mouse.len() - i,
        {
            if self.pressed_mouse[i].button == key {
                self.pressed_mouse[i].is_click_used = true;
            }
            i += 1;
        }
        assert(self.pressed_mouse@ =~= old(self)@.consume_mouse_press(key).pressed_mouse);
    }

    /// Claims every press of this frame as a click.
    pub fn consume_all_mouse_press(&mut self)
        ensures
            final(self)@ == old(self)@.consume_all_mouse_press(),
    {
        let mut i: usize = 0;
        while i < self.pressed_mouse.len()
            invariant
                i <= self.pressed_mouse.len(),
                self.pressed_mouse.len() == old(self).pressed_mouse.len(),
                forall|j: int|
                    0 <= j < i ==> self.pressed_mouse@[j] == old(
                        self,
                    )@.consume_all_mouse_press().pressed_mouse[j],
                forall|j: int|
                    i <= j < self.pressed_mouse.len() ==> self.pressed_mouse@[j] == old(
                        self,
                    ).pressed_mouse@[j],
                *self == (InputState { pressed_mouse: self.pressed_mouse, ..*old(self) }),
            decreases self.pressed_mouse.len() - i,
        {
            self.pressed_mouse[i].is_click_used = true;
            i += 1;
        }
        assert(self.pressed_mouse@ =~= old(self)@.consume_all_mouse_press().pressed_mouse);
    }

    /// Claims every press of this frame as the start of a drag.
    pub fn claim_all_drag(&mut self)
        ensures
            final(self)@ == old(self)@.claim_all_drag(),
    {
        let mut i: usize = 0;
        while i < self.pressed_mouse.len()
            invariant
                i <= self.pressed_mouse.len(),
                self.pressed_mouse.len() == old(self).pressed_mouse.len(),
                forall|j: int|
                    0 <= j < i ==> self.pressed_mouse@[j] == old(
                        self,
                    )@.claim_all_drag().pressed_mouse[j],
                forall|j: int|
                    i <= j < self.pressed_mouse.len() ==> self.pressed_mouse@[j] == old(
                        self,
                    ).pressed_mouse@[j],
                *self == (InputState { pressed_mouse: self.pressed_mouse, ..*old(self) }),
            decreases self.pressed_mouse.len() - i,
        {
            self.pressed_mouse[i].is_drag_used = true;
            i += 1;
        }
        assert(self.pressed_mouse@ =~= old(self)@.claim_all_drag().pressed_mouse);
    }

    /// Claims the button among those that are down.
    pub fn consume_mouse_pressing(&mut self, key: MouseButton)
        ensures
            final(self)@ == old(self)@.consume_mouse_pressing(key),
    {
        mark_button_in(&mut self.pressing_mouse, key);
    }

    /// Claims every button that is down.
    pub fn consume_all_mouse_pressing(&mut self)
        ensures
            final(self)@ == old(self)@.consume_all_mouse_pressing(),
    {
        mark_all_in(&mut self.pressing_mouse);
    }

    /// Did any button come up in this frame?
    pub fn is_any_mouse_released(&self) -> (r: bool)
        ensures
            r == self@.is_any_mouse_released(),
    {
        self.released_mouse.len() >= 1
    }

    /// The buttons that went down in this frame, in order.
    pub fn pressed_mouse(&self) -> (r: Vec<MouseButton>)
        ensures
            r@ == self@.pressed_buttons(),
    {
        let mut back: Vec<MouseButton> = Vec::new();
        let mut i: usize = 0;
        while i < self.pressed_mouse.len()
            invariant
                i <= self.pressed_mouse.len(),
                back.len() == i,
                forall|j: int| 0 <= j < i ==> back@[j] == self.pressed_mouse@[j].button,
            decreases self.pressed_mouse.len() - i,
        {
            back.push(self.pressed_mouse[i].button);
            i += 1;
        }
        assert(back@ =~= self@.pressed_buttons());
        back
    }

    /// The buttons that are down, in order.
    pub fn pressing_mouse(&self) -> (r: Vec<MouseButton>)
        ensures
            r@ == self@.pressing_buttons(),
    {
        buttons_of(&self.pressing_mouse)
    }

    /// The buttons that came up in this frame, in order.
    pub fn released_mouse(&self) -> (r: Vec<MouseButton>)
        ensures
            r@ == self@.released_buttons(),
    {
        buttons_of(&self.released_mouse)
    }

    /// Where the cursor is; `None` on touch devices and once the cursor has
    /// left the surface.
    pub fn cursor_position(&self) -> (r: Option<Vec2>)
        ensures
            r == self@.cursor_position,
    {
        self.cursor_position
    }

    /// The text typed in this frame.
    pub fn input_text(&self) -> (r: &String)
        ensures
            r@ == self@.input_text,
    {
        &self.input_text
    }

    /// The wheel movement of this frame.
    pub fn scroll(&self) -> (r: Vec2)
        ensures
            r == self@.current_scroll,
    {
        self.current_scroll
    }
}

fn without_button(v: &Vec<(MouseButton, bool)>, key: MouseButton) -> (r: Vec<(MouseButton, bool)>)
    ensures
        r@ == drop_button(v@, key),
{
    let mut back: Vec<(MouseButton, bool)> = Vec::new();
    let mut i: usize = 0;
    while i < v.len()
        invariant
            i <= v.len(),
            back@ == drop_button(v@.take(i as int), key),
        decreases v.len() - i,
    {
        proof {
            v@.lemma_take_succ_push(i as int);
            v@.take(i as int).lemma_filter_push(v@[i as int], not_button(key));
        }
        if v[i].0 != key {
            back.push(v[i]);
        }
        i += 1;
    }
    assert(v@.take(v.len() as int) =~= v@);
    back
}

fn without_key(v: &Vec<Key>, key: Key) -> (r: Vec<Key>)
    ensures
        r@ == drop_key(v@, key),
{
    let mut back: Vec<Key> = Vec::new();
    let mut i: usize = 0;
    while i < v.len()
        invariant
            i <= v.len(),
            back@ == drop_key(v@.take(i as int), key),
        decreases v.len() - i,
    {
        proof {
            v@.lemma_take_succ_push(i as int);
            v@.take(i as int).lemma_filter_push(v@[i as int], not_key(key));
        }
        if v[i] != key {
            back.push(v[i]);
        }
        i += 1;
    }
    assert(v@.take(v.len() as int) =~= v@);
    back
}

fn without_click_time(v: &Vec<(MouseButton, Instant)>, key: MouseButton) -> (r: Vec<
    (MouseButton, Instant),
>)
    ensures
        r@ == drop_click_time(v@, key),
{
    let mut back: Vec<(MouseButton, Instant)> = Vec::new();
    let mut i: usize = 0;
    while i < v.len()
        invariant
            i <= v.len(),
            back@ == drop_click_time(v@.take(i as int), key),
        decreases v.len() - i,
    {
        proof {
            v@.lemma_take_succ_push(i as int);
            v@.take(i as int).lemma_filter_push(v@[i as int], not_click_time(key));
        }
        if v[i].0 != key {
            back.push(v[i]);
        }
        i += 1;
    }
    assert(v@.take(v.len() as int) =~= v@);
    back
}

fn set_click_time(v: &mut Vec<(MouseButton, Instant)>, key: MouseButton, now: Instant)
    ensures
        final(v)@ == put_click_time(old(v)@, key, now),
{
    let mut found = false;
    let mut i: usize = 0;
    while i < v.len()
        invariant
            i <= v.len(),
            v.len() == old(v).len(),
            found == exists|j: int| 0 <= j < i && old(v)@[j].0 == key,
            forall|j: int|
                0 <= j < i ==> v@[j] == if old(v)@[j].0 == key {
                    (key, now)
                } else {
                    old(v)@[j]
                },
            forall|j: int| i <= j < v.len() ==> v@[j] == old(v)@[j],
        decreases v.len() - i,
    {
        if v[i].0 == key {
            v[i] = (key, now);
            found = true;
        }
        i += 1;
    }
    if !found {
        v.push((key, now));
    }
    assert(v@ =~= put_click_time(old(v)@, key, now));
}

fn set_touch(v: &mut Vec<TouchState>, touch: Touch)
    ensures
        final(v)@ == put_touch(old(v)@, touch),
{
    let mut found = false;
    let mut i: usize = 0;
    while i < v.len()
        invariant
            i <= v.len(),
            v.len() == old(v).len(),
            found == exists|j: int| 0 <= j < i && old(v)@[j].touch.id == touch.id,
            forall|j: int|
                0 <= j < i ==> v@[j] == if old(v)@[j].touch.id == touch.id {
                    TouchState::fresh(touch)
                } else {
                    old(v)@[j]
                },
            forall|j: int| i <= j < v.len() ==> v@[j] == old(v)@[j],
        decreases v.len() - i,
    {
        if v[i].touch.id == touch.id {
            v[i] = TouchState { touch, is_drag_used: false, is_click_used: false };
            found = true;
        }
        i += 1;
    }
    if !found {
        v.push(TouchState { touch, is_drag_used: false, is_click_used: false });
    }
    assert(v@ =~= put_touch(old(v)@, touch));
}

impl InputState {
    /// Every active touch, in the order of first report.
    pub fn touches(&self) -> (r: Vec<Touch>)
        ensures
            r@ == self@.touches(),
    {
        let mut back: Vec<Touch> = Vec::new();
        let mut i: usize = 0;
        while i < self.touch.len()
            invariant
                i <= self.touch.len(),
                back.len() == i,
                forall|j: int| 0 <= j < i ==> back@[j] == self.touch@[j].touch,
            decreases self.touch.len() - i,
        {
            back.push(self.touch[i].touch);
            i += 1;
        }
        assert(back@ =~= self@.touches());
        back
    }

    /// The places of all active touches, in the order of first report.
    pub fn touch_position(&self) -> (r: Vec<Vec2>)
        ensures
            r@ == self@.touch_position(),
    {
        let mut back: Vec<Vec2> = Vec::new();
        let mut i: usize = 0;
        while i < self.touch.len()
            invariant
                i <= self.touch.len(),
                back.len() == i,
                forall|j: int| 0 <= j < i ==> back@[j] == self.touch@[j].touch.position,
            decreases self.touch.len() - i,
        {
            back.push(self.touch[i].touch.position);
            i += 1;
        }
        assert(back@ =~= self@.touch_position());
        back
    }

    /// Every pointer that the frame tracks: each touch, then the cursor if
    /// it is on the surface.
    pub fn pointers(&self) -> (r: Vec<Vec2>)
        ensures
            r@ == self@.pointers(),
    {
        let mut positions = self.touch_position();
        if let Some(t) = self.cursor_position {
            positions.push(t);
        }
        positions
    }

    fn touches_in(&self, phase: TouchPhase, fresh_only: bool) -> (r: Vec<Touch>)
        ensures
            r@ == self@.touches_in(phase, fresh_only),
    {
        let ghost pick = pick_touch(phase, fresh_only);
        let mut back: Vec<Touch> = Vec::new();
        let mut i: usize = 0;
        while i < self.touch.len()
            invariant
                i <= self.touch.len(),
                pick == pick_touch(phase, fresh_only),
                back@ == self.touch@.take(i as int).filter_map(pick),
            decreases self.touch.len() - i,
        {
            proof {
                self.touch@.lemma_filter_map_take_succ(pick, i as int);
            }
            if self.touch[i].touch.phase == phase && (!fresh_only || !self.touch[i].is_click_used) {
                back.push(self.touch[i].touch);
            }
            i += 1;
        }
        assert(self.touch@.take(self.touch.len() as int) =~= self.touch@);
        back
    }

    fn consume_touches_in(&mut self, phase: TouchPhase)
        ensures
            final(self)@ == old(self)@.consume_touches_in(phase),
    {
        let mut i: usize = 0;
        while i < self.touch.len()
            invariant
                i <= self.touch.len(),
                self.touch.len() == old(self).touch.len(),
                forall|j: int|
                    0 <= j < i ==> self.touch@[j] == old(self)@.consume_touches_in(phase).touch[j],
                forall|j: int| i <= j < self.touch.len() ==> self.touch@[j] == old(self).touch@[j],
                *self == (InputState { touch: self.touch, ..*old(self) }),
            decreases self.touch.len() - i,
        {
            if self.touch[i].touch.phase == phase {
                self.touch[i].is_click_used = true;
            }
            i += 1;
        }
        assert(self.touch@ =~= old(self)@.consume_touches_in(phase).touch);
    }

    /// Did any touch begin in this frame?
    pub fn is_any_touch_pressed(&self) -> (r: bool)
        ensures
            r == (self@.touches_in(TouchPhase::Start, false).len() > 0),
    {
        self.pressed_touches().len() > 0
    }

    /// The touches that began in this frame.
    pub fn pressed_touches(&self) -> (r: Vec<Touch>)
        ensures
            r@ == self@.touches_in(TouchPhase::Start, false),
    {
        self.touches_in(TouchPhase::Start, false)
    }

    /// Did any touch begin in this frame without having been claimed?
    pub fn is_any_touch_pressed_unconsumed(&self) -> (r: bool)
        ensures
            r == (self@.touches_in(TouchPhase::Start, true).len() > 0),
    {
        self.pressed_touches_unconsumed().len() > 0
    }

    /// The touches that began in this frame and are unclaimed.
    pub fn pressed_touches_unconsumed(&self) -> (r: Vec<Touch>)
        ensures
            r@ == self@.touches_in(TouchPhase::Start, true),
    {
        self.touches_in(TouchPhase::Start, true)
    }

    /// Claims every touch that began in this frame.
    pub fn consume_all_pressed_touch(&mut self)
        ensures
            final(self)@ == old(self)@.consume_touches_in(TouchPhase::Start),
    {
        self.consume_touches_in(TouchPhase::Start);
    }

    /// Is any touch being held?
    pub fn is_any_touch_pressing(&self) -> (r: bool)
        ensures
            r == (self@.touches_in(TouchPhase::Hold, false).len() > 0),
    {
        self.pressing_touches().len() > 0
    }

    /// The touches that are being held.
    pub fn pressing_touches(&self) -> (r: Vec<Touch>)
        ensures
            r@ == self@.touches_in(TouchPhase::Hold, false),
    {
        self.touches_in(TouchPhase::Hold, false)
    }

    /// Is any touch being held without having been claimed?
    pub fn is_any_touch_pressing_unconsumed(&self) -> (r: bool)
        ensures
            r == (self@.touches_in(TouchPhase::Hold, true).len() > 0),
    {
        self.pressing_touches_unconsumed().len() > 0
    }

    /// The touches that are being held and are unclaimed.
    pub fn pressing_touches_unconsumed(&self) -> (r: Vec<Touch>)
        ensures
            r@ == self@.touches_in(TouchPhase::Hold, true),
    {
        self.touches_in(TouchPhase::Hold, true)
    }

    /// Claims every touch that is being held.
    pub fn consume_all_pressing_touch(&mut self)
        ensures
            final(self)@ == old(self)@.consume_touches_in(TouchPhase::Hold),
    {
        self.consume_touches_in(TouchPhase::Hold);
    }

    /// Did any touch end in this frame?
    pub fn is_any_touch_released(&self) -> (r: bool)
        ensures
            r == (self@.touches_in(TouchPhase::End, false).len() > 0),
    {
        self.released_touches().len() > 0
    }

    /// The touches that ended in this frame.
    pub fn released_touches(&self) -> (r: Vec<Touch>)
        ensures
            r@ == self@.touches_in(TouchPhase::End, false),
    {
        self.touches_in(TouchPhase::End, false)
    }

    /// Did any touch end in this frame without having been claimed?
    pub fn is_any_touch_released_unconsumed(&self) -> (r: bool)
        ensures
            r == (self@.touches_in(TouchPhase::End, true).len() > 0),
    {
        self.released_touches_unconsumed().len() > 0
    }

    /// The touches that ended in this frame and are unclaimed.
    pub fn released_touches_unconsumed(&self) -> (r: Vec<Touch>)
        ensures
            r@ == self@.touches_in(TouchPhase::End, true),
    {
        self.touches_in(TouchPhase::End, true)
    }

    /// Claims every touch that ended in this frame.
    pub fn consume_all_released_touch(&mut self)
        ensures
            final(self)@ == old(self)@.consume_touches_in(TouchPhase::End),
    {
        self.consume_touches_in(TouchPhase::End);
    }

    /// Ends the frame: forgets what happened within it (presses, releases,
    /// wheel, text, claims on touches, touches that ended) and keeps what
    /// lasts (keys and buttons that are down, the cursor, touches that go
    /// on, which are held from now on).
    pub fn clear(&mut self)
        ensures
            final(self)@ == old(self)@.clear(),
    {
        self.key_repeat = Vec::new();
        self.pressed_mouse = Vec::new();
        self.released_key = Vec::new();
        self.released_mouse = Vec::new();
        self.current_scroll = Vec2::zero();
        self.input_text = String::new();
        let ghost carry = |t: TouchState|
            if t.touch.phase == TouchPhase::End {
                None
            } else {
                Some(
                    TouchState::fresh(
                        Touch { id: t.touch.id, position: t.touch.position, phase: TouchPhase::Hold },
                    ),
                )
            };
        let mut kept: Vec<TouchState> = Vec::new();
        let mut i: usize = 0;
        while i < self.touch.len()
            invariant
                i <= self.touch.len(),
                carry == |t: TouchState|
                    if t.touch.phase == TouchPhase::End {
                        None
                    } else {
                        Some(
                            TouchState::fresh(
                                Touch {
                                    id: t.touch.id,
                                    position: t.touch.position,
                                    phase: TouchPhase::Hold,
                                },
                            ),
                        )
                    },
                kept@ == self.touch@.take(i as int).filter_map(carry),
            decreases self.touch.len() - i,
        {
            proof {
                self.touch@.lemma_filter_map_take_succ(carry, i as int);
            }
            let t = self.touch[i];
            if t.touch.phase != TouchPhase::End {
                kept.push(
                    TouchState {
                        touch: Touch { id: t.touch.id, position: t.touch.position, phase: TouchPhase::Hold },
                        is_drag_used: false,
                        is_click_used: false,
                    },
                );
            }
            i += 1;
        }
        assert(self.touch@.take(self.touch.len() as int) =~= self.touch@);
        self.touch = kept;
    }

    /// Takes in one event at `now`. An event only changes the snapshot; it
    /// never reaches a widget directly.
    pub fn apply(&mut self, event: &Event, now: Instant)
        ensures
            final(self)@ == old(self)@.apply(event@, now),
    {
        match event {
            Event::KeyPressed(key) => {
                if !holds_key(&self.key, *key) {
                    self.key.push(*key);
                }
                self.key_repeat.push(*key);
                if !(self.is_ime_on || self.is_key_pressing(Key::ControlLeft)
                    || self.is_key_pressing(Key::Tab) || self.is_key_pressing(Key::AltLeft)
                    || self.is_key_pressing(Key::AltRight)) {
                    let typed = key.to_string(
                        self.is_key_pressing(Key::ShiftLeft) || self.is_key_pressing(Key::ShiftRight),
                    );
                    self.input_text.append(typed.as_str());
                }
            },
            Event::KeyRelease(key) => {
                self.key = without_key(&self.key, *key);
                self.released_key.push(*key);
            },
            Event::CursorMoved(position) => {
                self.cursor_position = Some(*position);
            },
            Event::CursorEntered => {
                self.cursor_position = Some(Vec2::zero());
            },
            Event::CursorLeft => {
                self.cursor_position = None;
            },
            Event::MouseClick(button) => {
                self.pressed_mouse.push(
                    MouseState { button: *button, is_drag_used: false, is_click_used: false },
                );
                self.pressing_mouse.push((*button, false));
                self.released_mouse = without_button(&self.released_mouse, *button);
                set_click_time(&mut self.click_time, *button, now);
            },
            Event::MouseRelease(button) => {
                self.pressing_mouse = without_button(&self.pressing_mouse, *button);
                self.released_mouse.push((*button, false));
                self.click_time = without_click_time(&self.click_time, *button);
            },
            Event::Resized(_) => {},
            Event::ImeEnable => {
                self.is_ime_on = true;
            },
            Event::ImeDisable => {
                self.is_ime_on = false;
            },
            Event::TextInput(text) => {
                self.input_text = text.clone();
            },
            Event::TouchStart(touch) => {
                set_touch(&mut self.touch, *touch);
            },
            Event::TouchMove(touch) => {
                set_touch(&mut self.touch, *touch);
            },
            Event::TouchEnd(touch) => {
                set_touch(&mut self.touch, *touch);
            },
            Event::TouchCancel(touch) => {
                set_touch(&mut self.touch, *touch);
            },
            Event::Scroll(scroll) => {
                self.current_scroll = *scroll;
            },
            Event::NotSupported => {},
        }
    }
}

impl Clone for InputState {
    fn clone(&self) -> (r: Self)
        ensures
            r@ == self@,
    {
        InputState {
            key: copy_vec(&self.key),
            key_repeat: copy_vec(&self.key_repeat),
            released_key: copy_vec(&self.released_key),
            cursor_position: self.cursor_position,
            pressed_mouse: copy_vec(&self.pressed_mouse),
            pressing_mouse: copy_vec(&self.pressing_mouse),
            released_mouse: copy_vec(&self.released_mouse),
            click_time: copy_vec(&self.click_time),
            is_ime_on: self.is_ime_on,
            current_scroll: self.current_scroll,
            touch: copy_vec(&self.touch),
            input_text: self.input_text.clone(),
        }
    }
}

} // verus!
