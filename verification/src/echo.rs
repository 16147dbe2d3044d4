//! Diagnostic lines for the serial echo: every byte received on the UART
//! is answered with a line naming its decimal value.

use vstd::prelude::*;

verus! {

/// The character of one decimal digit value.
pub open spec fn spec_digit(d: int) -> char {
    if d == 0 {
        '0'
    } else if d == 1 {
        '1'
    } else if d == 2 {
        '2'
    } else if d == 3 {
        '3'
    } else if d == 4 {
        '4'
    } else if d == 5 {
        '5'
    } else if d == 6 {
        '6'
    } else if d == 7 {
        '7'
    } else if d == 8 {
        '8'
    } else {
        '9'
    }
}

/// The decimal rendering of a byte, most significant digit first and
/// without leading zeroes: one digit below 10, two below 100, else three.
pub open spec fn spec_decimal(b: u8) -> Seq<char> {
    if b < 10 {
        seq![spec_digit(b as int)]
    } else if b < 100 {
        seq![spec_digit(b as int / 10), spec_digit(b as int % 10)]
    } else {
        seq![
            spec_digit(b as int / 100),
            spec_digit((b as int / 10) % 10),
            spec_digit(b as int % 10),
        ]
    }
}

/// The diagnostic line emitted for one received byte: the fixed prefix
/// `byte read ` followed by the byte's decimal value.
pub open spec fn spec_diag_line(b: u8) -> Seq<char> {
    "byte read "@ + spec_decimal(b)
}

/// The one-character string of a decimal digit value.
fn digit_str(d: u8) -> (r: &'static str)
    requires
        d < 10,
    ensures
        r@ == seq![spec_digit(d as int)],
{
    proof {
        reveal_strlit("0");
        reveal_strlit("1");
        reveal_strlit("2");
        reveal_strlit("3");
        reveal_strlit("4");
        reveal_strlit("5");
        reveal_strlit("6");
        reveal_strlit("7");
        reveal_strlit("8");
        reveal_strlit("9");
    }
    let r: &'static str = if d == 0 {
        "0"
    } else if d == 1 {
        "1"
    } else if d == 2 {
        "2"
    } else if d == 3 {
        "3"
    } else if d == 4 {
        "4"
    } else if d == 5 {
        "5"
    } else if d == 6 {
        "6"
    } else if d == 7 {
        "7"
    } else if d == 8 {
        "8"
    } else {
        "9"
    };
    proof {
        assert(r@ =~= seq![spec_digit(d as int)]);
    }
    r
}

/// The diagnostic line for one received byte, e.g. `byte read 65` for 0x41.
pub fn diagnostic_line(b: u8) -> (line: String)
    ensures
        line@ == spec_diag_line(b),
{
    proof {
        reveal_strlit("byte read ");
    }
    let mut line = String::from_str("byte read ");
    if b >= 100 {
        line.append(digit_str(b / 100));
        line.append(digit_str((b / 10) % 10));
    } else if b >= 10 {
        line.append(digit_str(b / 10));
    }
    line.append(digit_str(b % 10));
    proof {
        assert(line@ =~= spec_diag_line(b));
    }
    line
}

/// The lines one drain step emits when the UART had exactly the bytes of
/// `bytes` pending, in that order, before reporting that no data is left:
/// one diagnostic line per byte, in the order received, and nothing more.
pub fn drain_lines(bytes: &Vec<u8>) -> (lines: Vec<String>)
    ensures
        lines@.len() == bytes@.len(),
        forall|i: int| 0 <= i < bytes@.len() ==> lines@[i]@ == spec_diag_line(bytes@[i]),
{
    let mut lines: Vec<String> = Vec::new();
    let mut k: usize = 0;
    while k < bytes.len()
        invariant
            k <= bytes@.len(),
            lines@.len() == k,
            forall|i: int| 0 <= i < k ==> lines@[i]@ == spec_diag_line(bytes@[i]),
        decreases bytes@.len() - k,
    {
        lines.push(diagnostic_line(bytes[k]));
        k = k + 1;
    }
    lines
}

} // verus!
