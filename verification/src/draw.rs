//! What the game shows: characters, each with its position on the screen.

use ruscii::spatial::Vec2;
use vstd::prelude::*;

verus! {

/// Something that can be shown on the screen as a sequence of characters.
///
/// Nothing is written to a screen here: `draw` returns what a host is to
/// write, in the order in which it is to write it, so that a later
/// character covers an earlier one at the same position.
pub trait Draw {
    /// Whether every position to draw can be written as a `Vec2`.
    spec fn drawable(&self) -> bool;

    /// The characters to draw with their positions, in drawing order.
    spec fn glyphs(&self) -> Seq<(char, Vec2)>;

    /// Tests whether `draw` may be called.
    fn can_draw(&self) -> (ok: bool)
        ensures
            ok == self.drawable(),
    ;

    /// The characters to draw with their positions, in drawing order.
    fn draw(&self) -> (out: Vec<(char, Vec2)>)
        requires
            self.drawable(),
        ensures
            out@ == self.glyphs(),
    ;
}

} // verus!
