//! Edge-triggered input capture: a click fires only on the tick where the
//! button goes from not pressed to pressed, never while it is merely held.

use vstd::prelude::*;

verus! {

/// A click edge: the button is pressed now and was not pressed on the
/// previous tick.
pub open spec fn is_click_edge(prev: bool, now: bool) -> bool {
    !prev && now
}

/// Tracks the button state of the previous tick, the only state the input
/// layer keeps.
#[derive(Clone, Copy, PartialEq, Eq, Structural, Debug)]
pub struct ButtonTracker {
    pub pressed: bool,
}

impl ButtonTracker {
    /// A tracker that has not yet seen the button pressed.
    pub fn new() -> (r: ButtonTracker)
        ensures
            !r.pressed,
    {
        ButtonTracker { pressed: false }
    }

    /// Feeds this tick's raw button state and reports whether a click edge
    /// occurred: true iff the button transitioned from not pressed to
    /// pressed. Holding the button yields one click, not one per tick.
    pub fn update(&mut self, now: bool) -> (click: bool)
        ensures
            click == is_click_edge(old(self).pressed, now),
            final(self).pressed == now,
    {
        let click = !self.pressed && now;
        self.pressed = now;
        click
    }
}

} // verus!
