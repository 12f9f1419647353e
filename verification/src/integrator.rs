//! One frame from the host's point of view: events in, the interface's
//! code run, requests out.

use vstd::prelude::*;
use crate::clock::Instant;
use crate::event::{Event, EventView, OutputEvent};
use crate::memory::conflicts;
use crate::ui::{copy_output_events, events_view, output_events_view, Ui, UiView};
use crate::widgets::Color;

verus! {

/// Drives a root scope frame by frame.
pub struct Integrator {
    /// The root scope; of use when an event is to be looked at outside a
    /// frame.
    pub ui: Ui,
}

/// What a frame leaves for the host to deal with.
#[derive(Debug)]
pub struct Output {
    /// The colour behind everything.
    pub background_color: Color,
    /// What the host is asked to do: make a texture, copy to the
    /// clipboard, and the like.
    pub output_events: Vec<OutputEvent>,
    /// The ids that were declared more than once within the frame.
    pub conflicts: Vec<String>,
}

/// The scope after the events of a list have been taken in at `now`, one
/// after the other.
pub open spec fn after_events(ui: UiView, events: Seq<EventView>, now: Instant) -> UiView
    decreases events.len(),
{
    if events.len() == 0 {
        ui
    } else {
        after_events(ui, events.drop_last(), now).event(events.last(), now)
    }
}

impl Default for Integrator {
    fn default() -> (r: Integrator)
        ensures
            exists|now: Instant| r.ui@ == #[trigger] UiView::new(now),
    {
        Integrator::new()
    }
}

impl Integrator {
    /// An integrator with a root scope made at `now`.
    pub fn new_at(now: Instant) -> (r: Integrator)
        ensures
            r.ui@ == UiView::new(now),
    {
        Integrator { ui: Ui::new_at(now) }
    }

    /// An integrator with a root scope made at the present moment of the
    /// system clock.
    pub fn new() -> (r: Integrator)
        ensures
            exists|now: Instant| r.ui@ == #[trigger] UiView::new(now),
    {
        Integrator::new_at(Instant::now())
    }

    /// Begins a frame at `now`: takes in the events, then moves the
    /// derived state of every widget on. After this the code of the
    /// interface declares its widgets.
    pub fn begin_frame_at(&mut self, input_events: &Vec<Event>, now: Instant)
        ensures
            final(self).ui@ == after_events(old(self).ui@, events_view(input_events@), now).update(
                now,
            ),
    {
        let ghost events = events_view(input_events@);
        let mut i: usize = 0;
        while i < input_events.len()
            invariant
                i <= input_events.len(),
                events == events_view(input_events@),
                self.ui@ == after_events(old(self).ui@, events.take(i as int), now),
            decreases input_events.len() - i,
        {
            proof {
                assert(events.take(i + 1).drop_last() =~= events.take(i as int));
                assert(events.take(i + 1).last() == input_events@[i as int]@);
            }
            self.ui.event_at(&input_events[i], now);
            i += 1;
        }
        assert(events.take(input_events.len() as int) =~= events);
        self.ui.update_at(now);
    }

    /// Ends a frame at `now`: hands out what the host has to deal with and
    /// clears the scope for the next frame.
    pub fn end_frame_at(&mut self, now: Instant) -> (r: Output)
        ensures
            final(self).ui@ == old(self).ui@.clear(now),
            r.background_color == old(self).ui@.style.background_color,
            output_events_view(r.output_events@) == old(self).ui@.output_events,
            r.conflicts.deep_view() == conflicts(old(self).ui@.memory),
    {
        let background_color = self.ui.style().background_color;
        let output_events = copy_output_events(self.ui.output_events());
        let conflicts = self.ui.clear_at(now);
        Output { background_color, output_events, conflicts }
    }

    /// Runs one frame: takes in the events, moves the derived state on,
    /// runs `ui_code` against the root scope, and ends the frame.
    ///
    /// The scope that `ui_code` sees is the one that
    /// [`Integrator::begin_frame_at`] leaves, and what is handed back is
    /// what [`Integrator::end_frame_at`] makes of the scope that `ui_code`
    /// leaves.
    pub fn frame<F: FnOnce(&mut Ui)>(&mut self, input_events: Vec<Event>, ui_code: F) -> (r: Output)
        requires
            forall|u: &mut Ui| call_requires(ui_code, (u,)),
        ensures
            exists|u: &mut Ui, begun: Instant, ended: Instant|
                {
                    &&& (*u)@ == #[trigger] after_events(
                        old(self).ui@,
                        events_view(input_events@),
                        begun,
                    ).update(begun)
                    &&& #[trigger] call_ensures(ui_code, (u,), ())
                    &&& final(self).ui@ == #[trigger] (*final(u))@.clear(ended)
                    &&& r.background_color == (*final(u))@.style.background_color
                    &&& output_events_view(r.output_events@) == (*final(u))@.output_events
                    &&& r.conflicts.deep_view() == conflicts((*final(u))@.memory)
                },
    {
        self.begin_frame_at(&input_events, Instant::now());
        ui_code(&mut self.ui);
        self.end_frame_at(Instant::now())
    }

    /// Takes in a single event.
    pub fn event(&mut self, input_event: &Event)
        ensures
            exists|now: Instant| final(self).ui@ == #[trigger] old(self).ui@.event(input_event@, now),
    {
        self.ui.event(input_event);
    }
}

} // verus!
