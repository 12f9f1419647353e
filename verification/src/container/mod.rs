//! Containers: widgets that open a scope of their own for what is
//! declared inside them.

pub mod card;
pub mod collapsing;
pub mod message_provider;
pub mod state;
pub mod tooltip_provider;

use vstd::prelude::*;
use crate::layer::Layer;
use crate::math::{Area, Vec2};
use crate::response::Response;
use crate::ui::Ui;

verus! {

/// What a container decides before its inside is declared.
#[derive(Clone, Copy, Debug, PartialEq, Eq, Structural)]
pub struct Opening {
    /// Whether the inside is shown. When it is not, the code inside never
    /// runs, nothing inside is declared, and what was remembered of the
    /// inside goes at the end of the frame.
    pub show: bool,
    /// By how much the inside is moved, as by scrolling.
    pub offset: Vec2,
}

/// Where something is put along one axis.
#[derive(Clone, Copy, Debug, PartialEq, Eq, Structural)]
pub enum Align {
    /// Or top.
    Left,
    Middle,
    /// Or bottom.
    Right,
}

/// What can hold widgets: it is declared like a widget, decides before its
/// inside runs whether and where the inside is shown, and sees after the
/// inside has run what was declared there.
pub trait Container {
    /// The id of the container within the scope in which it is declared.
    /// Its identity in the store is [`Ui::container_id`] of this.
    fn get_id(&self, ui: &mut Ui) -> String;

    /// Whether the container itself takes clicks.
    fn is_clickable(&self, ui: &mut Ui) -> bool;

    /// Whether the container itself can be dragged.
    fn is_dragable(&self, ui: &mut Ui) -> bool;

    /// The room that the container asks for.
    fn area(&self, ui: &mut Ui) -> Area;

    /// The layer of the container and of what is declared inside it.
    fn layer(&self, ui: &mut Ui) -> Layer;

    /// What the container does before its inside is declared.
    fn begin(&mut self, ui: &mut Ui, response: &Response, id: &String) -> Opening;

    /// What the container does after its inside has been declared:
    /// `response` is its own response, `inner_responses` are those of what
    /// was declared inside it.
    fn end(&mut self, ui: &mut Ui, response: &Response, inner_responses: &Vec<Response>, id: &String);
}

} // verus!
