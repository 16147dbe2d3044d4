//! The color state machine: three colors visited in a fixed round-robin
//! order, each with a fixed duty-cycle triple.

use vstd::prelude::*;

verus! {

/// The color that is currently active. Exactly three values exist, and the
/// successor relation on them is a single cycle: Red, Green, Blue, Red, ...
#[derive(Clone, Copy, Debug, PartialEq, Eq, Structural)]
pub enum Color {
    Red,
    Green,
    Blue,
}

/// The duty-cycle triple of a color, as (red, green, blue) channel values:
/// the color's own channel fully on at 255, the other two off.
pub open spec fn spec_intensities(c: Color) -> (u32, u32, u32) {
    match c {
        Color::Red => (255u32, 0u32, 0u32),
        Color::Green => (0u32, 255u32, 0u32),
        Color::Blue => (0u32, 0u32, 255u32),
    }
}

/// The unique successor of a color in the cycle Red -> Green -> Blue -> Red.
pub open spec fn spec_advance(c: Color) -> Color {
    match c {
        Color::Red => Color::Green,
        Color::Green => Color::Blue,
        Color::Blue => Color::Red,
    }
}

/// The color reached from `c` after `n` applications of the successor rule.
pub open spec fn spec_iterate(c: Color, n: nat) -> Color
    decreases n,
{
    if n == 0 {
        c
    } else {
        spec_advance(spec_iterate(c, (n - 1) as nat))
    }
}

/// The duty-cycle triple of `c`, per the fixed table: Red -> (255, 0, 0),
/// Green -> (0, 255, 0), Blue -> (0, 0, 255). Total, with no side effects.
pub fn intensities(c: Color) -> (r: (u32, u32, u32))
    ensures
        r == spec_intensities(c),
{
    match c {
        Color::Red => (255, 0, 0),
        Color::Green => (0, 255, 0),
        Color::Blue => (0, 0, 255),
    }
}

/// The successor of `c`: the next color of the cycle. Total, and never `c`
/// itself.
pub fn advance(c: Color) -> (n: Color)
    ensures
        n == spec_advance(c),
        n != c,
{
    match c {
        Color::Red => Color::Green,
        Color::Green => Color::Blue,
        Color::Blue => Color::Red,
    }
}

/// Each color lights exactly one channel, at the full value 255, and that
/// channel is the one the color names: Red the first, Green the second,
/// Blue the third. The other two channels are 0.
pub proof fn lemma_intensities_one_hot(c: Color)
    ensures
        ({
            let (r, g, b) = spec_intensities(c);
            &&& r == if c is Red { 255u32 } else { 0u32 }
            &&& g == if c is Green { 255u32 } else { 0u32 }
            &&& b == if c is Blue { 255u32 } else { 0u32 }
        }),
{
}

/// The successor rule is a bijection on the colors with no fixed point:
/// it moves every color, distinct colors have distinct successors, and
/// every color is some color's successor.
pub proof fn lemma_advance_bijection(a: Color, b: Color)
    ensures
        spec_advance(a) != a,
        spec_advance(a) == spec_advance(b) ==> a == b,
        exists|p: Color| spec_advance(p) == b,
{
    assert(spec_advance(spec_advance(spec_advance(b))) == b);
}

/// Applying the successor rule three times returns every color to itself:
/// the cycle has period three.
pub proof fn lemma_advance_period_three(c: Color)
    ensures
        spec_advance(spec_advance(spec_advance(c))) == c,
{
}

/// Starting from Red, repeated advancing visits exactly Red, Green, Blue,
/// in that order, forever: the color after `n` steps depends only on
/// `n % 3`, and the residues 0, 1, 2 give Red, Green, Blue.
pub proof fn lemma_cycle_from_red(n: nat)
    ensures
        spec_iterate(Color::Red, n) == spec_iterate(Color::Red, (n % 3) as nat),
        n % 3 == 0 ==> spec_iterate(Color::Red, n) is Red,
        n % 3 == 1 ==> spec_iterate(Color::Red, n) is Green,
        n % 3 == 2 ==> spec_iterate(Color::Red, n) is Blue,
    decreases n,
{
    if n >= 3 {
        lemma_cycle_from_red((n - 3) as nat);
        assert(spec_iterate(Color::Red, (n - 1) as nat)
            == spec_advance(spec_iterate(Color::Red, (n - 2) as nat)));
        assert(spec_iterate(Color::Red, (n - 2) as nat)
            == spec_advance(spec_iterate(Color::Red, (n - 3) as nat)));
        assert(spec_iterate(Color::Red, n)
            == spec_iterate(Color::Red, (n - 3) as nat));
        assert(n % 3 == (n - 3) % 3);
    } else {
        assert(spec_iterate(Color::Red, 1) == spec_advance(spec_iterate(Color::Red, 0)));
        assert(spec_iterate(Color::Red, 2) == spec_advance(spec_iterate(Color::Red, 1)));
    }
}

} // verus!
