//! What the game loop asks of anything it animates and draws.

use vstd::prelude::*;
use crate::geometry::Blit;

verus! {

/// Something that is advanced by states of type `T` and can be drawn.
///
/// Each implementor says, through the four spec functions, when its two
/// methods may be called and what they do. One that leaves them as they are
/// may be called at any time and promises nothing.
pub trait Entity<T> {
    /// Whether `draw` may be called on this entity.
    open spec fn draw_requires(&self) -> bool {
        true
    }

    /// Whether `blit` is what `draw` gives for this entity.
    open spec fn draw_ensures(&self, blit: Blit) -> bool {
        true
    }

    /// Whether `update` may be called on this entity with `ticks` and `state`.
    open spec fn update_requires(&self, ticks: u32, state: T) -> bool {
        true
    }

    /// Whether `update` with `ticks` and `state` turns this entity into `next`.
    open spec fn update_ensures(&self, ticks: u32, state: T, next: &Self) -> bool {
        true
    }

    /// The copy from the sprite sheet to the screen that shows this entity.
    fn draw(&self) -> (blit: Blit)
        requires
            self.draw_requires(),
        ensures
            self.draw_ensures(blit),
    ;

    /// Takes `state` as the entity's new state at time `ticks`, in
    /// milliseconds, and advances the entity by one step.
    fn update(&mut self, ticks: u32, state: T)
        requires
            old(self).update_requires(ticks, state),
        ensures
            old(self).update_ensures(ticks, state, final(self)),
    ;
}

} // verus!
