//! What the built-in containers remember from frame to frame.

use vstd::prelude::*;
use crate::clock::{Duration, Instant};
use crate::math::Vec2;
use crate::widgets::Status;

verus! {

/// What a card remembers: where it has scrolled to and is scrolling to,
/// how large its content was, and where a drag or resize has put it.
#[derive(Clone, Copy, Debug, PartialEq, Eq, Structural)]
pub struct CardTemp {
    /// The scroll offset that the card is moving to.
    pub target: Vec2,
    /// The scroll offset that the card is moving from.
    pub from: Vec2,
    /// When the present move began; `None` until it is first asked for.
    pub change_time: Option<Instant>,
    /// Size of the content in the previous frame, on the axes that scroll.
    pub maxium: Vec2,
    pub position: Option<Vec2>,
    pub size: Option<Vec2>,
    pub is_draging: bool,
    pub is_scrolling: bool,
    pub is_resizing: bool,
}

impl CardTemp {
    /// What a card remembers before its first frame.
    pub open spec fn spec_default() -> CardTemp {
        CardTemp {
            target: Vec2::spec_zero(),
            from: Vec2::spec_zero(),
            change_time: None,
            maxium: Vec2::spec_zero(),
            position: None,
            size: None,
            is_draging: false,
            is_scrolling: false,
            is_resizing: false,
        }
    }
}

impl Default for CardTemp {
    fn default() -> (r: CardTemp)
        ensures
            r == CardTemp::spec_default(),
    {
        CardTemp {
            target: Vec2::zero(),
            from: Vec2::zero(),
            change_time: None,
            maxium: Vec2::zero(),
            position: None,
            size: None,
            is_draging: false,
            is_scrolling: false,
            is_resizing: false,
        }
    }
}

/// What a collapsing section remembers: how much room its content took,
/// whether it is open, and when it was last toggled.
#[derive(Clone, Copy, Debug, PartialEq, Eq, Structural)]
pub struct CollapsingTemp {
    pub area: Vec2,
    pub is_open: bool,
    /// The toggle before the latest one, if both are remembered.
    pub earlier_change: Option<Instant>,
    /// The latest toggle.
    pub latest_change: Option<Instant>,
}

impl CollapsingTemp {
    /// What a section remembers before its first frame.
    pub open spec fn initial(is_open: bool) -> CollapsingTemp {
        CollapsingTemp { area: Vec2::spec_zero(), is_open, earlier_change: None, latest_change: None }
    }
}

impl Default for CollapsingTemp {
    fn default() -> (r: CollapsingTemp)
        ensures
            r == CollapsingTemp::initial(false),
    {
        CollapsingTemp { area: Vec2::zero(), is_open: false, earlier_change: None, latest_change: None }
    }
}

/// What a tooltip host remembers: how much room its content took.
#[derive(Clone, Copy, Debug, PartialEq, Eq, Structural)]
pub struct TooltipProviderTemp {
    pub area: Vec2,
}

impl Default for TooltipProviderTemp {
    fn default() -> (r: TooltipProviderTemp)
        ensures
            r.area == Vec2::spec_zero(),
    {
        TooltipProviderTemp { area: Vec2::zero() }
    }
}

/// A stretch of a line of text that is selected.
#[derive(Clone, Copy, Debug, PartialEq, Eq, Structural)]
pub struct Select {
    /// The character at which the stretch begins.
    pub begin: usize,
    /// The character before which the stretch ends.
    pub end: usize,
    /// Whether the stretch grows and shrinks at its beginning.
    pub is_backwards: bool,
}

/// What a text input remembers: whether it has the focus, when it last
/// gained or lost it, where its cursor is, and what is selected.
#[derive(Clone, Copy, Debug, PartialEq, Eq, Structural)]
pub struct SingleTextInputTemp {
    pub is_focused: bool,
    /// The change of focus before the latest one, if both are remembered.
    pub earlier_change: Option<Instant>,
    /// The latest change of focus.
    pub latest_change: Option<Instant>,
    /// The character before which the cursor stands.
    pub pointer: usize,
    pub select: Option<Select>,
}

impl SingleTextInputTemp {
    /// What a text input remembers before its first frame.
    pub open spec fn spec_default() -> SingleTextInputTemp {
        SingleTextInputTemp {
            is_focused: false,
            earlier_change: None,
            latest_change: None,
            pointer: 0,
            select: None,
        }
    }
}

impl Default for SingleTextInputTemp {
    fn default() -> (r: SingleTextInputTemp)
        ensures
            r == SingleTextInputTemp::spec_default(),
    {
        SingleTextInputTemp {
            is_focused: false,
            earlier_change: None,
            latest_change: None,
            pointer: 0,
            select: None,
        }
    }
}

/// A message to show over the interface.
#[derive(Debug)]
pub struct Message {
    /// The words of the message.
    pub text: String,
    /// How long the message stays; `None` to stay until it is closed.
    pub sustain_time: Option<Duration>,
    /// The message's id; a second message with the same id is not shown.
    pub id: String,
    /// Whether the message is to fade out and go.
    pub should_delete: bool,
    pub status: Status,
}

/// Mathematical value of a [`Message`].
pub struct MessageView {
    pub text: Seq<char>,
    pub sustain_time: Option<Duration>,
    pub id: Seq<char>,
    pub should_delete: bool,
    pub status: Status,
}

impl View for Message {
    type V = MessageView;

    open spec fn view(&self) -> MessageView {
        MessageView {
            text: self.text@,
            sustain_time: self.sustain_time,
            id: self.id@,
            should_delete: self.should_delete,
            status: self.status,
        }
    }
}

impl Clone for Message {
    fn clone(&self) -> (r: Self)
        ensures
            r@ == self@,
    {
        Message {
            text: self.text.clone(),
            sustain_time: self.sustain_time,
            id: self.id.clone(),
            should_delete: self.should_delete,
            status: self.status,
        }
    }
}

/// A message together with the times at which it came and began to go.
#[derive(Debug)]
pub struct MessageInner {
    pub message: Message,
    pub create_time: Instant,
    pub delete_time: Option<Instant>,
}

/// Mathematical value of a [`MessageInner`].
pub struct MessageInnerView {
    pub message: MessageView,
    pub create_time: Instant,
    pub delete_time: Option<Instant>,
}

impl View for MessageInner {
    type V = MessageInnerView;

    open spec fn view(&self) -> MessageInnerView {
        MessageInnerView {
            message: self.message@,
            create_time: self.create_time,
            delete_time: self.delete_time,
        }
    }
}

impl Clone for MessageInner {
    fn clone(&self) -> (r: Self)
        ensures
            r@ == self@,
    {
        MessageInner {
            message: self.message.clone(),
            create_time: self.create_time,
            delete_time: self.delete_time,
        }
    }
}

impl MessageInner {
    /// A message that came at `create_time` and is not going yet.
    pub fn new(message: Message, create_time: Instant) -> (r: MessageInner)
        ensures
            r@ == (MessageInnerView { message: message@, create_time, delete_time: None }),
    {
        MessageInner { message, create_time, delete_time: None }
    }
}

impl From<(Message, Instant)> for MessageInner {
    fn from(val: (Message, Instant)) -> (r: MessageInner) {
        let (message, create_time) = val;
        MessageInner { message, create_time, delete_time: None }
    }
}

impl vstd::std_specs::convert::FromSpecImpl<(Message, Instant)> for MessageInner {
    open spec fn obeys_from_spec() -> bool {
        true
    }

    open spec fn from_spec(val: (Message, Instant)) -> MessageInner {
        MessageInner { message: val.0, create_time: val.1, delete_time: None }
    }
}

/// The views of the messages of a list, in order.
pub open spec fn message_views(v: Seq<MessageInner>) -> Seq<MessageInnerView> {
    v.map_values(|m: MessageInner| m@)
}

/// A second list with the same messages in the same order.
pub fn copy_messages(v: &Vec<MessageInner>) -> (r: Vec<MessageInner>)
    ensures
        message_views(r@) == message_views(v@),
{
    let mut back: Vec<MessageInner> = Vec::new();
    let mut i: usize = 0;
    while i < v.len()
        invariant
            i <= v.len(),
            back.len() == i,
            forall|j: int| 0 <= j < i ==> back@[j]@ == v@[j]@,
        decreases v.len() - i,
    {
        back.push(v[i].clone());
        i += 1;
    }
    assert(message_views(back@) =~= message_views(v@));
    back
}

/// What a message host remembers: the messages it shows, in the order in
/// which they came.
#[derive(Debug)]
pub struct MessageTemp {
    pub messages: Vec<MessageInner>,
}

impl View for MessageTemp {
    type V = Seq<MessageInnerView>;

    open spec fn view(&self) -> Seq<MessageInnerView> {
        message_views(self.messages@)
    }
}

impl Clone for MessageTemp {
    fn clone(&self) -> (r: Self)
        ensures
            r@ == self@,
    {
        MessageTemp { messages: copy_messages(&self.messages) }
    }
}

/// What a container, or a widget with a state of its own, keeps under its
/// identity.
#[derive(Debug)]
pub enum ContainerState {
    /// Nothing yet, or the identity is that of a plain widget.
    Empty,
    Input(SingleTextInputTemp),
    Card(CardTemp),
    Collapsing(CollapsingTemp),
    Tooltip(TooltipProviderTemp),
    Messages(MessageTemp),
}

/// Mathematical value of a [`ContainerState`].
pub enum ContainerStateView {
    Empty,
    Input(SingleTextInputTemp),
    Card(CardTemp),
    Collapsing(CollapsingTemp),
    Tooltip(TooltipProviderTemp),
    Messages(Seq<MessageInnerView>),
}

impl View for ContainerState {
    type V = ContainerStateView;

    open spec fn view(&self) -> ContainerStateView {
        match self {
            ContainerState::Empty => ContainerStateView::Empty,
            ContainerState::Input(t) => ContainerStateView::Input(*t),
            ContainerState::Card(t) => ContainerStateView::Card(*t),
            ContainerState::Collapsing(t) => ContainerStateView::Collapsing(*t),
            ContainerState::Tooltip(t) => ContainerStateView::Tooltip(*t),
            ContainerState::Messages(t) => ContainerStateView::Messages(t@),
        }
    }
}

impl Clone for ContainerState {
    fn clone(&self) -> (r: Self)
        ensures
            r@ == self@,
    {
        match self {
            ContainerState::Empty => ContainerState::Empty,
            ContainerState::Input(t) => ContainerState::Input(*t),
            ContainerState::Card(t) => ContainerState::Card(*t),
            ContainerState::Collapsing(t) => ContainerState::Collapsing(*t),
            ContainerState::Tooltip(t) => ContainerState::Tooltip(*t),
            ContainerState::Messages(t) => ContainerState::Messages(t.clone()),
        }
    }
}

} // verus!
