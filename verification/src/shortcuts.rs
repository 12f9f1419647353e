//! Short ways to declare the built-in widgets and containers.

use vstd::prelude::*;
use crate::memory::contains;
use crate::clock::{Duration, Instant};
use crate::container::card::{Card, CardView};
use crate::container::collapsing::Collapsing;
use crate::container::message_provider::MessageProvider;
use crate::container::tooltip_provider::{TooltipProvider, TooltipProviderView};
use crate::container::Align;
use crate::identity::child_scope;
use crate::math::Vec2;
use crate::ui::{harvest, responses_view, Declared, InnerResponse, Ui};
use crate::widgets::{Color, DivideLine, Empty, Status};

verus! {

impl Ui {
    /// Declares a dividing line.
    pub fn divide_line(&mut self) -> (r: Declared)
        ensures
            r.response@.id == old(self)@.next_id(),
            r.need_draw == contains(old(self)@.memory, old(self)@.next_id()),
            exists|now: Instant|
                final(self)@ == old(self)@.with_widget(
                    (DivideLine { is_horizental: true, centered: None }).room_in(old(self)@.numbered()),
                    #[trigger] old(self)@.numbered().fresh_response(
                        (DivideLine { is_horizental: true, centered: None }).room_in(old(self)@.numbered()),
                        false,
                        false,
                        now,
                    ),
                ) && r.response@ == old(self)@.widget_response(
                    (DivideLine { is_horizental: true, centered: None }).room_in(old(self)@.numbered()),
                    old(self)@.numbered().fresh_response(
                        (DivideLine { is_horizental: true, centered: None }).room_in(old(self)@.numbered()),
                        false,
                        false,
                        now,
                    ),
                ),
    {
        self.add(DivideLine::new())
    }

    /// Declares a widget that shows nothing and takes room of the extent
    /// `area`.
    pub fn empty(&mut self, area: Vec2) -> (r: Declared)
        ensures
            r.response@.id == old(self)@.next_id(),
            r.need_draw == contains(old(self)@.memory, old(self)@.next_id()),
            exists|now: Instant|
                final(self)@ == old(self)@.with_widget(
                    (Empty { width_and_height: area }).room_from(old(self)@.available_position),
                    #[trigger] old(self)@.numbered().fresh_response(
                        (Empty { width_and_height: area }).room_from(old(self)@.available_position),
                        false,
                        false,
                        now,
                    ),
                ) && r.response@ == old(self)@.widget_response(
                    (Empty { width_and_height: area }).room_from(old(self)@.available_position),
                    old(self)@.numbered().fresh_response(
                        (Empty { width_and_height: area }).room_from(old(self)@.available_position),
                        false,
                        false,
                        now,
                    ),
                ),
    {
        self.add(Empty::new(area))
    }

    /// Shows a see-through card of the given extent that scrolls along
    /// both axes.
    #[verifier::rlimit(40)]
    pub fn card<R, F: FnOnce(&mut Ui, &mut Card) -> R>(&mut self, id: String, width_and_height: Vec2, inner_widget: F) -> (r: InnerResponse<R>)
        requires
            forall|u: &mut Ui, c: &mut Card| call_requires(inner_widget, (u, c)),
        ensures
            r.return_value is None ==> r.inner_responses@.len() == 0,
            r.return_value is Some,
            r.return_value is Some ==> exists|u: &mut Ui, c: &mut Card|
                {
                    &&& #[trigger] call_ensures(inner_widget, (u, c), r.return_value->0)
                    &&& (*u)@.scope_id == child_scope(old(self)@.scope_id, id@)
                    &&& (*c)@ == (CardView {
                        color: Some(Color { r: 0, g: 0, b: 0, a: 0 }),
                        width: Some(width_and_height.x),
                        height: Some(width_and_height.y),
                        scrollable_x: true,
                        scrollable_y: true,
                        ..CardView::new(id@)
                    })
                    &&& responses_view(r.inner_responses@) == harvest(
                        (*final(u))@.memory,
                        (*final(u))@.scope_id,
                    )
                },
    {
        let mut card = Card::new(id).set_color(Color::new(0, 0, 0, 0)).set_width(
            width_and_height.x,
        ).set_height(width_and_height.y).set_scrollable([true, true]);
        self.show(&mut card, inner_widget)
    }

    /// Shows a card of the given extent that scrolls along both axes and
    /// can be dragged about, like a window.
    #[verifier::rlimit(40)]
    pub fn window<R, F: FnOnce(&mut Ui, &mut Card) -> R>(&mut self, id: String, width_and_height: Vec2, inner_widget: F) -> (r: InnerResponse<R>)
        requires
            forall|u: &mut Ui, c: &mut Card| call_requires(inner_widget, (u, c)),
        ensures
            r.return_value is None ==> r.inner_responses@.len() == 0,
            r.return_value is Some,
            r.return_value is Some ==> exists|u: &mut Ui, c: &mut Card|
                {
                    &&& #[trigger] call_ensures(inner_widget, (u, c), r.return_value->0)
                    &&& (*u)@.scope_id == child_scope(old(self)@.scope_id, id@)
                    &&& (*c)@ == (CardView {
                        width: Some(width_and_height.x),
                        height: Some(width_and_height.y),
                        scrollable_x: true,
                        scrollable_y: true,
                        dragable: true,
                        ..CardView::new(id@)
                    })
                    &&& responses_view(r.inner_responses@) == harvest(
                        (*final(u))@.memory,
                        (*final(u))@.scope_id,
                    )
                },
    {
        let mut card = Card::new(id).set_width(width_and_height.x).set_height(
            width_and_height.y,
        ).set_scrollable([true, true]).set_dragable(true);
        self.show(&mut card, inner_widget)
    }

    /// Shows a collapsing section named and headed `id`.
    #[verifier::rlimit(40)]
    pub fn collapsing<R, F: FnOnce(&mut Ui, &mut Collapsing) -> R>(&mut self, id: String, inner_widget: F) -> (r: InnerResponse<R>)
        requires
            forall|u: &mut Ui, c: &mut Collapsing| call_requires(inner_widget, (u, c)),
        ensures
            r.return_value is None ==> r.inner_responses@.len() == 0,
            r.return_value is Some ==> exists|u: &mut Ui, c: &mut Collapsing|
                {
                    &&& #[trigger] call_ensures(inner_widget, (u, c), r.return_value->0)
                    &&& (*u)@.scope_id == child_scope(old(self)@.scope_id, id@)
                    &&& (*c)@.id == id@
                    &&& (*c)@.text == id@
                    &&& responses_view(r.inner_responses@) == harvest(
                        (*final(u))@.memory,
                        (*final(u))@.scope_id,
                    )
                },
    {
        let mut section = Collapsing::new(id);
        self.show(&mut section, inner_widget)
    }

    /// Shows a message host.
    #[verifier::rlimit(40)]
    pub fn message_provider<R, F: FnOnce(&mut Ui, &mut MessageProvider) -> R>(&mut self, id: String, inner_widget: F) -> (r: InnerResponse<R>)
        requires
            forall|u: &mut Ui, c: &mut MessageProvider| call_requires(inner_widget, (u, c)),
        ensures
            r.return_value is None ==> r.inner_responses@.len() == 0,
            r.return_value is Some,
            r.return_value is Some ==> exists|u: &mut Ui, c: &mut MessageProvider|
                {
                    &&& #[trigger] call_ensures(inner_widget, (u, c), r.return_value->0)
                    &&& (*u)@.scope_id == child_scope(old(self)@.scope_id, id@)
                    &&& (*c)@ == id@
                    &&& responses_view(r.inner_responses@) == harvest(
                        (*final(u))@.memory,
                        (*final(u))@.scope_id,
                    )
                },
    {
        let mut host = MessageProvider::new(id);
        self.show(&mut host, inner_widget)
    }

    /// Shows a tooltip host with the tip `tip`.
    #[verifier::rlimit(40)]
    pub fn tooltip<R, F: FnOnce(&mut Ui, &mut TooltipProvider) -> R>(&mut self, id: String, tip: String, inner_widget: F) -> (r: InnerResponse<R>)
        requires
            forall|u: &mut Ui, c: &mut TooltipProvider| call_requires(inner_widget, (u, c)),
        ensures
            r.return_value is None ==> r.inner_responses@.len() == 0,
            r.return_value is Some,
            r.return_value is Some ==> exists|u: &mut Ui, c: &mut TooltipProvider|
                {
                    &&& #[trigger] call_ensures(inner_widget, (u, c), r.return_value->0)
                    &&& (*u)@.scope_id == child_scope(old(self)@.scope_id, id@)
                    &&& (*c)@ == (TooltipProviderView {
                        id: id@,
                        text: tip@,
                        text_size: Vec2::spec_zero(),
                        align_x: Align::Middle,
                        align_y: Align::Middle,
                        hover_time: Duration { nanos: 0 },
                        space: None,
                        status: Status::Default,
                    })
                    &&& responses_view(r.inner_responses@) == harvest(
                        (*final(u))@.memory,
                        (*final(u))@.scope_id,
                    )
                },
    {
        let mut host = TooltipProvider::new(id, tip);
        self.show(&mut host, inner_widget)
    }
}

} // verus!
