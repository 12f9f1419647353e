//! Images that the host is asked to turn into textures.

use vstd::prelude::*;
use crate::math::Vec2;

verus! {

/// A decoded picture: four bytes per pixel, row after row.
#[derive(Debug)]
pub struct Image {
    pub rgba: Vec<u8>,
    pub id: String,
    pub size: Vec2,
}

/// Mathematical value of an [`Image`].
pub struct ImageView {
    pub rgba: Seq<u8>,
    pub id: Seq<char>,
    pub size: Vec2,
}

impl View for Image {
    type V = ImageView;

    open spec fn view(&self) -> ImageView {
        ImageView { rgba: self.rgba@, id: self.id@, size: self.size }
    }
}

impl Clone for Image {
    fn clone(&self) -> (r: Self)
        ensures
            r@ == self@,
    {
        Image { rgba: self.rgba.clone(), id: self.id.clone(), size: self.size }
    }
}

} // verus!
