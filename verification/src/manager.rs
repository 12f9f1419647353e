//! The application and the settings of its window, as the host needs
//! them.

use vstd::prelude::*;
use crate::clock::Instant;
use crate::event::Event;
use crate::integrator::{after_events, Integrator, Output};
use crate::memory::conflicts;
use crate::math::Vec2;
use crate::ui::{events_view, output_events_view, Ui, UiView};

verus! {

/// How the window of an application is to be.
#[derive(Debug)]
pub struct Settings {
    /// How many press and release times a widget keeps.
    pub max_clicks: usize,
    /// The size of the window; its least size when it can be resized.
    pub size: Option<Vec2>,
    pub title: String,
    pub resizeable: bool,
    pub fullscreen: bool,
    /// The icon of the window: its pixels, four bytes each, and its size.
    pub icon: Option<(Vec<u8>, Vec2)>,
    /// Whether the host draws without the graphics card.
    pub soft_rendering: bool,
}

impl Settings {
    /// Whether these are the settings that an application starts out with:
    /// a window of 640 by 480 that can be resized, titled "nablo".
    pub open spec fn is_default(self) -> bool {
        &&& self.max_clicks == 5
        &&& self.size == Some(Vec2 { x: 640, y: 480 })
        &&& self.title@ == "nablo"@
        &&& self.resizeable
        &&& !self.fullscreen
        &&& self.icon is None
        &&& !self.soft_rendering
    }
}

impl Default for Settings {
    fn default() -> (r: Settings)
        ensures
            r.is_default(),
    {
        Settings {
            max_clicks: 5,
            size: Some(Vec2::new(640, 480)),
            title: "nablo".to_owned(),
            resizeable: true,
            fullscreen: false,
            icon: None,
            soft_rendering: false,
        }
    }
}

/// An application: the code that declares the interface, frame by frame.
pub trait App {
    /// Declares the widgets of one frame.
    fn app(&mut self, ui: &mut Ui);
}

/// An application together with the settings of its window, before the
/// window is opened.
pub struct ManagerBuilder<T: App> {
    pub settings: Settings,
    pub app: T,
}

impl<T: App> ManagerBuilder<T> {
    /// A builder for `app` with `settings`.
    pub fn new(settings: Settings, app: T) -> (r: ManagerBuilder<T>)
        ensures
            r.settings == settings,
            r.app == app,
    {
        ManagerBuilder { settings, app }
    }

    /// A builder for an application given as plain code, with `settings`.
    pub fn new_closure(settings: Settings, app: T) -> (r: ManagerBuilder<T>)
        ensures
            r.settings == settings,
            r.app == app,
    {
        ManagerBuilder { settings, app }
    }
}

/// An application with its interface: what the host runs.
pub struct Manager<T: App> {
    /// How the window is to be.
    pub settings: Settings,
    /// The interface.
    pub integrator: Integrator,
    /// The application.
    pub app: T,
}

impl<T: App> Manager<T> {
    /// A manager for `app` with the default settings.
    pub fn new(app: T) -> (r: Manager<T>)
        ensures
            r.app == app,
            r.settings.is_default(),
            exists|now: Instant| r.integrator.ui@ == #[trigger] UiView::new(now),
    {
        Manager { settings: Settings::default(), integrator: Integrator::new(), app }
    }

    /// A manager for `app` with `settings`.
    pub fn new_with_settings(app: T, settings: Settings) -> (r: Manager<T>)
        ensures
            r.app == app,
            r.settings == settings,
            exists|now: Instant| r.integrator.ui@ == #[trigger] UiView::new(now),
    {
        Manager { settings, integrator: Integrator::new(), app }
    }

    /// Runs one frame of the application: takes in the events, moves the
    /// derived state on, lets the application declare its widgets, and
    /// ends the frame.
    pub fn on_frame(&mut self, input_events: Vec<Event>) -> (r: Output)
        ensures
            final(self).settings == old(self).settings,
            exists|a: &mut T, u: &mut Ui, begun: Instant, ended: Instant|
                {
                    &&& *a == old(self).app
                    &&& (*u)@ == #[trigger] after_events(
                        old(self).integrator.ui@,
                        events_view(input_events@),
                        begun,
                    ).update(begun)
                    &&& #[trigger] call_ensures(T::app, (a, u), ())
                    &&& final(self).app == *final(a)
                    &&& final(self).integrator.ui@ == #[trigger] (*final(u))@.clear(ended)
                    &&& r.background_color == (*final(u))@.style.background_color
                    &&& output_events_view(r.output_events@) == (*final(u))@.output_events
                    &&& r.conflicts.deep_view() == conflicts((*final(u))@.memory)
                },
    {
        self.integrator.begin_frame_at(&input_events, Instant::now());
        self.app.app(&mut self.integrator.ui);
        self.integrator.end_frame_at(Instant::now())
    }

    /// Takes in a single event.
    pub fn on_event(&mut self, event: &Event)
        ensures
            exists|now: Instant|
                final(self).integrator.ui@ == #[trigger] old(self).integrator.ui@.event(
                    event@,
                    now,
                ),
    {
        self.integrator.event(event);
    }
}

} // verus!
