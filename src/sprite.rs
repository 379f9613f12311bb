pub mod player_sprite;

use crate::engine::Rect;
use vstd::prelude::*;

verus! {

/// Something drawn as one rectangle of a source image.
pub trait Sprite {
    /// The name of the source image.
    fn source_image(&self) -> String;

    /// The rectangle of the source image that is drawn.
    fn frame(&self) -> Rect;

    /// Where on the drawing surface it is drawn.
    fn destination(&self) -> Rect;
}

} // verus!
