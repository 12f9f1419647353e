//! Retained-state core of an immediate-mode user interface: widgets are
//! declared anew every frame, while hover, click, drag and container state
//! are remembered across frames under string identities.

pub mod animation;
pub mod clock;
pub mod container;
pub mod event;
pub mod identity;
pub mod input;
pub mod integrator;
pub mod laws;
pub mod layer;
pub mod manager;
pub mod math;
pub mod memory;
pub mod order;
pub mod response;
pub mod shortcuts;
pub mod texture;
pub mod ui;
pub mod widgets;

pub use crate::clock::{Duration, Instant};
pub use crate::container::{Container, Opening};
pub use crate::event::{Event, Key, MouseButton, OutputEvent, Touch, TouchPhase};
pub use crate::input::InputState;
pub use crate::layer::Layer;
pub use crate::manager::{App, Manager, ManagerBuilder, Settings};
pub use crate::math::{Area, Vec2};
pub use crate::response::Response;
pub use crate::ui::{InnerResponse, Layout, Ui};
pub use crate::widgets::Widget;
