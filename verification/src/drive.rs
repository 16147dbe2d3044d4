//! A model of the drive loop: the decisions it makes each step, and the
//! sequence of duty-cycle updates it issues over any number of steps.
//! The loop itself runs outside the library, against the peripherals; it
//! carries a single [`Color`] across iterations and calls [`step`] to learn
//! what to write and which color comes next.

use crate::cycle::{advance, intensities, spec_advance, spec_intensities, spec_iterate, Color};
use vstd::prelude::*;

verus! {

/// Milliseconds the loop blocks between consecutive duty-cycle updates.
pub const STEP_DELAY_MS: u32 = 500;

/// PWM resolution of the red channel.
pub const RED_PWM_SCALE: u32 = 255;

/// PWM resolution of the blue channel.
pub const BLUE_PWM_SCALE: u32 = 255;

/// PWM resolution of the green channel: coarser than the other two, so the
/// green LED, brighter at equal duty cycle, is toned down.
pub const GREEN_PWM_SCALE: u32 = 512;

/// Baud rate of the serial port.
pub const UART_BAUD: u32 = 115200;

/// One step of the drive loop: the duty-cycle triple to write for the
/// current color, and the color the loop carries into the next step.
pub fn step(current: Color) -> (r: ((u32, u32, u32), Color))
    ensures
        r.0 == spec_intensities(current),
        r.1 == spec_advance(current),
{
    (intensities(current), advance(current))
}

/// The duty-cycle triples the drive loop issues over `steps` consecutive
/// steps starting from `start`: exactly one triple per step, in cycle
/// order, the i-th being the intensities of the color reached after i
/// advances from `start`.
pub fn pwm_updates(start: Color, steps: usize) -> (ups: Vec<(u32, u32, u32)>)
    ensures
        ups@.len() == steps,
        forall|i: int|
            0 <= i < steps ==> ups@[i] == spec_intensities(spec_iterate(start, i as nat)),
{
    let mut ups: Vec<(u32, u32, u32)> = Vec::new();
    let mut current = start;
    let mut k: usize = 0;
    while k < steps
        invariant
            k <= steps,
            ups@.len() == k,
            current == spec_iterate(start, k as nat),
            forall|i: int|
                0 <= i < k ==> ups@[i] == spec_intensities(spec_iterate(start, i as nat)),
        decreases steps - k,
    {
        let (triple, next) = step(current);
        ups.push(triple);
        current = next;
        k = k + 1;
    }
    ups
}

} // verus!
