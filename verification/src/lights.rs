//! The typed light states of the public interface: one marker type per
//! color, a wrapper carrying the current state, and the conversions that
//! walk the wrapper along the cycle. Each typed state stands for one
//! [`Color`] of the state machine in [`crate::cycle`].

use crate::cycle::{spec_advance, spec_intensities, Color};
use vstd::prelude::*;

verus! {

/// A typed light state: a type that stands for one fixed color and yields
/// that color's duty-cycle triple.
pub trait LightState {
    /// The color this state stands for.
    spec fn color(&self) -> Color;

    /// The duty-cycle triple of this state's color, per the fixed table.
    fn rgb(&self) -> (r: (u32, u32, u32))
        ensures
            r == spec_intensities(self.color()),
    ;
}

/// The typed state standing for `Color::Red`.
pub struct Red;

/// The typed state standing for `Color::Green`.
pub struct Green;

/// The typed state standing for `Color::Blue`.
pub struct Blue;

impl LightState for Red {
    open spec fn color(&self) -> Color {
        Color::Red
    }

    fn rgb(&self) -> (r: (u32, u32, u32)) {
        (255, 0, 0)
    }
}

impl LightState for Green {
    open spec fn color(&self) -> Color {
        Color::Green
    }

    fn rgb(&self) -> (r: (u32, u32, u32)) {
        (0, 255, 0)
    }
}

impl LightState for Blue {
    open spec fn color(&self) -> Color {
        Color::Blue
    }

    fn rgb(&self) -> (r: (u32, u32, u32)) {
        (0, 0, 255)
    }
}

/// The light the drive loop carries: a wrapper over the current typed
/// state. It is never mutated; advancing replaces it, via the conversions
/// below, by the wrapper of the successor color.
pub struct Blinklight<T: LightState> {
    /// The current typed state.
    pub state: T,
}

impl<T: LightState> Blinklight<T> {
    /// The color of the current state.
    pub open spec fn color(&self) -> Color {
        self.state.color()
    }

    /// The duty-cycle triple of the current state's color.
    pub fn rgb(&self) -> (r: (u32, u32, u32))
        ensures
            r == spec_intensities(self.color()),
    {
        self.state.rgb()
    }
}

impl From<Blinklight<Red>> for Blinklight<Green> {
    /// The step Red -> Green of the cycle.
    fn from(_prev: Blinklight<Red>) -> (next: Blinklight<Green>)
        ensures
            next.color() == spec_advance(Color::Red),
    {
        Blinklight { state: Green }
    }
}

impl vstd::std_specs::convert::FromSpecImpl<Blinklight<Red>> for Blinklight<Green> {
    open spec fn obeys_from_spec() -> bool {
        true
    }

    open spec fn from_spec(v: Blinklight<Red>) -> Blinklight<Green> {
        Blinklight { state: Green }
    }
}

impl From<Blinklight<Green>> for Blinklight<Blue> {
    /// The step Green -> Blue of the cycle.
    fn from(_prev: Blinklight<Green>) -> (next: Blinklight<Blue>)
        ensures
            next.color() == spec_advance(Color::Green),
    {
        Blinklight { state: Blue }
    }
}

impl vstd::std_specs::convert::FromSpecImpl<Blinklight<Green>> for Blinklight<Blue> {
    open spec fn obeys_from_spec() -> bool {
        true
    }

    open spec fn from_spec(v: Blinklight<Green>) -> Blinklight<Blue> {
        Blinklight { state: Blue }
    }
}

impl From<Blinklight<Blue>> for Blinklight<Red> {
    /// The step Blue -> Red of the cycle, closing it.
    fn from(_prev: Blinklight<Blue>) -> (next: Blinklight<Red>)
        ensures
            next.color() == spec_advance(Color::Blue),
    {
        Blinklight { state: Red }
    }
}

impl vstd::std_specs::convert::FromSpecImpl<Blinklight<Blue>> for Blinklight<Red> {
    open spec fn obeys_from_spec() -> bool {
        true
    }

    open spec fn from_spec(v: Blinklight<Blue>) -> Blinklight<Red> {
        Blinklight { state: Red }
    }
}

/// The light at the start of the cycle: Red, the initial state of the
/// drive loop.
pub fn start() -> (light: Blinklight<Red>)
    ensures
        light.color() == Color::Red,
{
    Blinklight { state: Red }
}

} // verus!
