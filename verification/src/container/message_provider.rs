//! The message host: short notes shown over the interface, which come,
//! stay for a while and go.

use vstd::prelude::*;
use crate::clock::{Duration, Instant, NANOS_PER_MILLI, NANOS_PER_SECOND};
use crate::container::state::{
    message_views, ContainerState, ContainerStateView, Message, MessageInner,
    MessageInnerView, MessageTemp, MessageView,
};
use crate::container::{Container, Opening};
use crate::identity::container_id_in;
use crate::layer::Layer;
use crate::math::{Area, Vec2};
use crate::memory::{read_container, save_container};
use crate::order::{pairs_sorted, sort_pairs};
use crate::response::Response;
use crate::ui::{Ui, UiView};
use crate::widgets::Status;

verus! {

/// How long a message takes to come and to go, in milliseconds.
pub const FADE_MILLIS: i64 = 250;

/// How long a message stays unless it says otherwise, in seconds.
pub const SUSTAIN_SECONDS: i64 = 3;

impl Default for Message {
    fn default() -> (r: Message)
        ensures
            r@ == (MessageView {
                text: Seq::empty(),
                sustain_time: Some(
                    Duration { nanos: (SUSTAIN_SECONDS * NANOS_PER_SECOND) as i128 },
                ),
                id: Seq::empty(),
                should_delete: false,
                status: Status::Default,
            }),
    {
        Message::new(String::new())
    }
}

impl Message {
    /// A message with the words `text`, which are its id too, that stays
    /// for three seconds.
    pub fn new(text: String) -> (r: Message)
        ensures
            r@ == (MessageView {
                text: text@,
                sustain_time: Some(
                    Duration { nanos: (SUSTAIN_SECONDS * NANOS_PER_SECOND) as i128 },
                ),
                id: text@,
                should_delete: false,
                status: Status::Default,
            }),
    {
        Message {
            id: text.clone(),
            text,
            sustain_time: Some(Duration::seconds(SUSTAIN_SECONDS)),
            should_delete: false,
            status: Status::Default,
        }
    }

    /// Sets the status of the message, which gives it its colour.
    pub fn status(self, status: Status) -> (r: Message)
        ensures
            r@ == (MessageView { status, ..self@ }),
    {
        let mut s = self;
        s.status = status;
        s
    }
}

/// What a container state holds for a message host; no messages when it
/// holds something else.
pub open spec fn messages_of(state: ContainerStateView) -> Seq<MessageInnerView> {
    match state {
        ContainerStateView::Messages(t) => t,
        _ => Seq::empty(),
    }
}

/// What the scope remembers for the message host `id`.
pub fn read_messages(ui: &Ui, id: &String) -> (r: MessageTemp)
    ensures
        r@ == messages_of(read_container(ui@.memory, id@)),
{
    match ui.container_read(id) {
        ContainerState::Messages(t) => t,
        _ => {
            let r = MessageTemp { messages: Vec::new() };
            assert(r@ =~= Seq::empty());
            r
        },
    }
}

/// Whether the list holds a message with the id `id`.
pub open spec fn has_message(ms: Seq<MessageInnerView>, id: Seq<char>) -> bool {
    exists|i: int| 0 <= i < ms.len() && ms[i].message.id == id
}

/// The position of the first message with the id `id`, or the length of
/// the list when there is none.
pub open spec fn message_position(ms: Seq<MessageInnerView>, id: Seq<char>, from: int) -> int
    decreases ms.len() - from,
{
    if from < 0 || from >= ms.len() {
        ms.len() as int
    } else if ms[from].message.id == id {
        from
    } else {
        message_position(ms, id, from + 1)
    }
}

/// The list with `message`, come at `now`, at its end; unchanged when a
/// message with the same id is in it.
pub open spec fn with_message(ms: Seq<MessageInnerView>, message: MessageView, now: Instant) -> Seq<
    MessageInnerView,
> {
    if has_message(ms, message.id) {
        ms
    } else {
        ms.push(MessageInnerView { message, create_time: now, delete_time: None })
    }
}

impl MessageInnerView {
    /// When the message began to go, seen at `now`: a message that is to
    /// go and has not begun to begins now.
    pub open spec fn going_since(self, now: Instant) -> Option<Instant> {
        if self.delete_time is None && self.message.should_delete {
            Some(now)
        } else {
            self.delete_time
        }
    }

    /// The time to evaluate the easing of the message at, at `now`: the
    /// time since it began to go when it is to go, the time since it came
    /// otherwise.
    pub open spec fn fade_time(self, now: Instant) -> Duration {
        if self.message.should_delete && self.going_since(now) is Some {
            now.spec_since(self.going_since(now)->0)
        } else {
            now.spec_since(self.create_time)
        }
    }

    /// Whether the message has stayed its time at `now`.
    pub open spec fn is_spent(self, now: Instant) -> bool {
        self.message.sustain_time is Some && self.fade_time(now).nanos
            > self.message.sustain_time->0.nanos
    }

    /// The message after one frame, taken at `now`: one that has stayed
    /// its time is to go from now on.
    pub open spec fn step(self, now: Instant) -> MessageInnerView {
        if self.is_spent(now) {
            MessageInnerView {
                message: MessageView { should_delete: true, ..self.message },
                delete_time: Some(now),
                ..self
            }
        } else {
            MessageInnerView { delete_time: self.going_since(now), ..self }
        }
    }

    /// Whether the message has gone at `now`: it was to go, and its going
    /// has taken longer than the fade.
    pub open spec fn is_gone(self, now: Instant) -> bool {
        self.message.should_delete && self.delete_time is Some && now.nanos
            - self.delete_time->0.nanos > FADE_MILLIS * NANOS_PER_MILLI
    }
}

/// One frame's step of a message, taken at `now`.
pub open spec fn step_at(now: Instant) -> spec_fn(MessageInnerView) -> MessageInnerView {
    |m: MessageInnerView| m.step(now)
}

/// The test "has not gone at `now`".
pub open spec fn stays_at(now: Instant) -> spec_fn(MessageInnerView) -> bool {
    |m: MessageInnerView| !m.is_gone(now)
}

/// The messages after one frame, taken at `now`: each has made its step,
/// and those that have gone are dropped.
pub open spec fn stepped(ms: Seq<MessageInnerView>, now: Instant) -> Seq<MessageInnerView> {
    ms.map_values(step_at(now)).filter(stays_at(now))
}

/// The scope after the message host with state under `id` has seen the
/// end of its frame at `now`.
pub open spec fn ui_stepped(ui: UiView, id: Seq<char>, now: Instant) -> UiView {
    UiView {
        memory: save_container(
            ui.memory,
            id,
            ContainerStateView::Messages(stepped(messages_of(read_container(ui.memory, id)), now)),
        ),
        ..ui
    }
}

/// The scope after the message host `host` has been given `message` at
/// `now`.
pub open spec fn ui_with_message(ui: UiView, host: Seq<char>, message: MessageView, now: Instant) -> UiView {
    let key = container_id_in(ui.scope_id, host);
    UiView {
        memory: save_container(
            ui.memory,
            key,
            ContainerStateView::Messages(
                with_message(messages_of(read_container(ui.memory, key)), message, now),
            ),
        ),
        ..ui
    }
}

/// The messages that the scope holds for the message host `host`.
pub open spec fn messages_in(ui: UiView, host: Seq<char>) -> Seq<MessageInnerView> {
    messages_of(read_container(ui.memory, container_id_in(ui.scope_id, host)))
}

/// The scope after the messages of the message host `host` have been set to
/// `ms`.
pub open spec fn ui_with_messages(ui: UiView, host: Seq<char>, ms: Seq<MessageInnerView>) -> UiView {
    UiView {
        memory: save_container(
            ui.memory,
            container_id_in(ui.scope_id, host),
            ContainerStateView::Messages(ms),
        ),
        ..ui
    }
}

/// The scope after the message host `host` has had the message under
/// `message_id` replaced by `message`; nothing is replaced when no message
/// is shown under that id.
pub open spec fn ui_with_replaced(ui: UiView, host: Seq<char>, message_id: Seq<char>, message: MessageView) -> UiView {
    let key = container_id_in(ui.scope_id, host);
    let ms = messages_of(read_container(ui.memory, key));
    let k = message_position(ms, message_id, 0);
    UiView {
        memory: save_container(
            ui.memory,
            key,
            ContainerStateView::Messages(
                if k < ms.len() {
                    ms.update(k, MessageInnerView { message, ..ms[k] })
                } else {
                    ms
                },
            ),
        ),
        ..ui
    }
}

/// For each message, how long ago it came, in nanoseconds, and its
/// position in the list.
pub open spec fn ages(ms: Seq<MessageInnerView>, now: Instant) -> Seq<(i128, usize)> {
    Seq::new(ms.len(), |i: int| ((now.nanos - ms[i].create_time.nanos) as i128, i as usize))
}

impl MessageInner {
    /// The time to evaluate the easing of the message at, at `now`, and
    /// whether the message is going: a message that comes shows by the
    /// value of the easing, one that goes by what that value leaves of the
    /// whole.
    pub fn fade_time_at(&self, now: Instant) -> (r: (Duration, bool))
        ensures
            r.0 == self@.fade_time(now),
            r.1 == self@.message.should_delete,
    {
        if self.message.should_delete {
            match self.delete_time {
                Some(t) => (now.since(t), true),
                None => (now.since(now), true),
            }
        } else {
            (now.since(self.create_time), false)
        }
    }

    /// The message after one frame, taken at `now`.
    pub fn step_at(&self, now: Instant) -> (r: MessageInner)
        ensures
            r@ == self@.step(now),
    {
        let mut back = self.clone();
        if back.delete_time.is_none() && back.message.should_delete {
            back.delete_time = Some(now);
        }
        let shown = back.fade_time_at(now).0;
        if let Some(t) = back.message.sustain_time {
            if shown.is_longer_than(t) {
                back.message.should_delete = true;
                back.delete_time = Some(now);
            }
        }
        back
    }

    /// Whether the message has gone at `now`.
    pub fn is_gone_at(&self, now: Instant) -> (r: bool)
        ensures
            r == self@.is_gone(now),
    {
        match self.delete_time {
            Some(t) => self.message.should_delete && now.since(t).is_longer_than(
                Duration::milliseconds(FADE_MILLIS),
            ),
            None => false,
        }
    }
}

impl MessageTemp {
    /// Adds `message`, come at `now`, unless a message with its id is
    /// shown already.
    pub fn push_at(&mut self, message: Message, now: Instant)
        ensures
            final(self)@ == with_message(old(self)@, message@, now),
    {
        let ghost before = self@;
        let mut i: usize = 0;
        while i < self.messages.len()
            invariant
                i <= self.messages.len(),
                *self == *old(self),
                before == self@,
                forall|j: int| 0 <= j < i ==> before[j].message.id != message@.id,
            decreases self.messages.len() - i,
        {
            assert(before[i as int] == self.messages@[i as int]@);
            if self.messages[i].message.id == message.id {
                return ;
            }
            i += 1;
        }
        self.messages.push(MessageInner { message, create_time: now, delete_time: None });
        assert(self@ =~= before.push(
            MessageInnerView { message: message@, create_time: now, delete_time: None },
        ));
    }

    /// Moves every message on by one frame, taken at `now`, and drops
    /// those that have gone.
    pub fn step_all_at(&mut self, now: Instant)
        ensures
            final(self)@ == stepped(old(self)@, now),
    {
        let ghost before = self@;
        let ghost moved = before.map_values(step_at(now));
        let mut kept: Vec<MessageInner> = Vec::new();
        let mut i: usize = 0;
        assert(message_views(kept@) =~= moved.take(0).filter(stays_at(now)));
        while i < self.messages.len()
            invariant
                i <= self.messages.len(),
                before == self@,
                moved == before.map_values(step_at(now)),
                message_views(kept@) == moved.take(i as int).filter(stays_at(now)),
            decreases self.messages.len() - i,
        {
            let ghost kept_before = message_views(kept@);
            proof {
                moved.lemma_take_succ_push(i as int);
                moved.take(i as int).lemma_filter_push(moved[i as int], stays_at(now));
                assert(before[i as int] == self.messages@[i as int]@);
            }
            let next = self.messages[i].step_at(now);
            if !next.is_gone_at(now) {
                kept.push(next);
                assert(message_views(kept@) =~= kept_before.push(moved[i as int]));
            }
            i += 1;
        }
        assert(moved.take(self.messages.len() as int) =~= moved);
        self.messages = kept;
    }

    /// The order in which the messages are shown at `now`, the latest
    /// first: for each message how long ago it came and its position in
    /// the list, ordered by the former.
    pub fn display_order_at(&self, now: Instant) -> (r: Vec<(i128, usize)>)
        ensures
            r@.to_multiset() == ages(self@, now).to_multiset(),
            pairs_sorted(r@),
    {
        let ghost ms = self@;
        let mut pairs: Vec<(i128, usize)> = Vec::new();
        let mut i: usize = 0;
        while i < self.messages.len()
            invariant
                i <= self.messages.len(),
                ms == self@,
                pairs.len() == i,
                forall|j: int| 0 <= j < i ==> pairs@[j] == ages(ms, now)[j],
            decreases self.messages.len() - i,
        {
            assert(ms[i as int] == self.messages@[i as int]@);
            pairs.push((now.since(self.messages[i].create_time).nanos, i));
            i += 1;
        }
        assert(pairs@ =~= ages(ms, now));
        sort_pairs(&mut pairs);
        pairs
    }
}

/// Shows messages over what is declared inside it.
#[derive(Debug)]
pub struct MessageProvider {
    pub(crate) id: String,
}

impl View for MessageProvider {
    type V = Seq<char>;

    closed spec fn view(&self) -> Seq<char> {
        self.id@
    }
}

impl MessageProvider {
    /// A message host `id`.
    pub fn new(id: String) -> (r: MessageProvider)
        ensures
            r@ == id@,
    {
        MessageProvider { id }
    }

    /// Shows `message` from `now` on, unless a message with its id is shown
    /// already.
    pub fn message_at(&self, message: Message, ui: &mut Ui, now: Instant)
        ensures
            final(ui)@ == ui_with_message(old(ui)@, self@, message@, now),
    {
        let id = ui.container_id(&self.id);
        let mut temp = read_messages(ui, &id);
        temp.push_at(message, now);
        ui.container_save(&id, ContainerState::Messages(temp));
    }

    /// Shows `message`, unless a message with its id is shown already.
    pub fn message(&self, message: Message, ui: &mut Ui)
        ensures
            exists|now: Instant|
                final(ui)@ == ui_with_message(old(ui)@, self@, message@, now),
    {
        self.message_at(message, ui, Instant::now());
    }

    /// Puts `message` in the place of the message shown under
    /// `message_id`; does nothing when there is none.
    pub fn message_set(&self, message_id: &String, message: Message, ui: &mut Ui)
        ensures
            final(ui)@ == ui_with_replaced(old(ui)@, self@, message_id@, message@),
    {
        let id = ui.container_id(&self.id);
        let mut temp = read_messages(ui, &id);
        let ghost ms = temp@;
        let mut k: usize = temp.messages.len();
        let mut i: usize = temp.messages.len();
        while i > 0
            invariant
                i <= temp.messages.len(),
                ms == temp@,
                k == message_position(ms, message_id@, i as int),
                k <= temp.messages.len(),
            decreases i,
        {
            i -= 1;
            assert(ms[i as int] == temp.messages@[i as int]@);
            if temp.messages[i].message.id == *message_id {
                k = i;
            }
        }
        if k < temp.messages.len() {
            temp.messages[k].message = message;
            assert(temp@ =~= ms.update(
                k as int,
                MessageInnerView { message: message@, ..ms[k as int] },
            ));
        }
        ui.container_save(&id, ContainerState::Messages(temp));
    }

    /// Lets `change` alter the message shown under `message_id`; does
    /// nothing when there is none.
    ///
    /// The message is what `change` makes of the message shown under the
    /// id.
    pub fn message_change<F: FnOnce(&mut Message)>(&self, message_id: &String, change: F, ui: &mut Ui)
        requires
            forall|m: &mut Message| call_requires(change, (m,)),
        ensures
            ({
                let ms = messages_in(old(ui)@, self@);
                let k = message_position(ms, message_id@, 0);
                &&& k >= ms.len() ==> final(ui)@ == ui_with_messages(old(ui)@, self@, ms)
                &&& k < ms.len() ==> exists|m: &mut Message|
                    (*m)@ == ms[k].message && #[trigger] call_ensures(change, (m,), ())
                        && final(ui)@ == ui_with_replaced(
                        old(ui)@,
                        self@,
                        message_id@,
                        (*final(m))@,
                    )
            }),
    {
        let id = ui.container_id(&self.id);
        let mut temp = read_messages(ui, &id);
        let ghost ms = temp@;
        let mut k: usize = temp.messages.len();
        let mut i: usize = temp.messages.len();
        while i > 0
            invariant
                i <= temp.messages.len(),
                ms == temp@,
                k == message_position(ms, message_id@, i as int),
                k <= temp.messages.len(),
            decreases i,
        {
            i -= 1;
            assert(ms[i as int] == temp.messages@[i as int]@);
            if temp.messages[i].message.id == *message_id {
                k = i;
            }
        }
        if k < temp.messages.len() {
            assert(ms[k as int] == temp.messages@[k as int]@);
            let mut message = temp.messages[k].message.clone();
            change(&mut message);
            temp.messages[k].message = message;
            assert(temp@ =~= ms.update(
                k as int,
                MessageInnerView { message: message@, ..ms[k as int] },
            ));
        }
        ui.container_save(&id, ContainerState::Messages(temp));
    }

    /// What the host does after its inside has been declared, at `now`:
    /// every message makes its step, and those that have gone are dropped.
    pub fn end_at(&mut self, ui: &mut Ui, id: &String, now: Instant)
        ensures
            final(self)@ == old(self)@,
            final(ui)@ == ui_stepped(old(ui)@, id@, now),
    {
        let mut temp = read_messages(ui, id);
        temp.step_all_at(now);
        ui.container_save(id, ContainerState::Messages(temp));
    }
}

impl Container for MessageProvider {
    fn get_id(&self, ui: &mut Ui) -> (r: String)
        ensures
            r@ == self@,
            final(ui)@ == old(ui)@,
    {
        self.id.clone()
    }

    fn area(&self, ui: &mut Ui) -> (r: Area)
        ensures
            r == old(ui)@.window,
            final(ui)@ == old(ui)@,
    {
        ui.window_area()
    }

    fn layer(&self, ui: &mut Ui) -> (r: Layer)
        ensures
            r == old(ui)@.paint_layer,
            final(ui)@ == old(ui)@,
    {
        ui.paint_layer()
    }

    fn begin(&mut self, ui: &mut Ui, response: &Response, id: &String) -> (r: Opening)
        ensures
            r == (Opening { show: true, offset: Vec2::spec_zero() }),
            final(ui)@ == old(ui)@,
            final(self)@ == old(self)@,
    {
        Opening { show: true, offset: Vec2::zero() }
    }

    fn end(&mut self, ui: &mut Ui, response: &Response, inner_responses: &Vec<Response>, id: &String)
        ensures
            final(self)@ == old(self)@,
            exists|now: Instant| final(ui)@ == #[trigger] ui_stepped(old(ui)@, id@, now),
    {
        self.end_at(ui, id, Instant::now());
    }

    fn is_clickable(&self, ui: &mut Ui) -> (r: bool)
        ensures
            !r,
            final(ui)@ == old(ui)@,
    {
        false
    }

    fn is_dragable(&self, ui: &mut Ui) -> (r: bool)
        ensures
            !r,
            final(ui)@ == old(ui)@,
    {
        false
    }
}

} // verus!
