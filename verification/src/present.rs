//! The text handed to the presenter: the status line above the grid and
//! the rows of the grid itself, built and specified exactly so that the
//! surrounding binary only writes bytes to the terminal.

use crate::state::{BUF_SIZE, SCREEN_H, SCREEN_W};
use vstd::prelude::*;
use vstd::string::StringExecFns;

verus! {

/// The decimal digit character of a value below ten.
pub open spec fn spec_digit(d: int) -> char {
    if d <= 0 {
        '0'
    } else if d == 1 {
        '1'
    } else if d == 2 {
        '2'
    } else if d == 3 {
        '3'
    } else if d == 4 {
        '4'
    } else if d == 5 {
        '5'
    } else if d == 6 {
        '6'
    } else if d == 7 {
        '7'
    } else if d == 8 {
        '8'
    } else {
        '9'
    }
}

/// The decimal representation of `n`, most significant digit first,
/// with no leading zeros (and the single digit `0` for zero).
pub open spec fn spec_decimal(n: nat) -> Seq<char>
    decreases n,
{
    if n < 10 {
        seq![spec_digit(n as int)]
    } else {
        spec_decimal(n / 10) + seq![spec_digit((n % 10) as int)]
    }
}

fn digit_str(d: u32) -> (r: &'static str)
    requires
        d < 10,
    ensures
        r@ == seq![spec_digit(d as int)],
{
    if d == 0 {
        proof {
            reveal_strlit("0");
            assert("0"@ =~= seq![spec_digit(0)]);
        }
        "0"
    } else if d == 1 {
        proof {
            reveal_strlit("1");
            assert("1"@ =~= seq![spec_digit(1)]);
        }
        "1"
    } else if d == 2 {
        proof {
            reveal_strlit("2");
            assert("2"@ =~= seq![spec_digit(2)]);
        }
        "2"
    } else if d == 3 {
        proof {
            reveal_strlit("3");
            assert("3"@ =~= seq![spec_digit(3)]);
        }
        "3"
    } else if d == 4 {
        proof {
            reveal_strlit("4");
            assert("4"@ =~= seq![spec_digit(4)]);
        }
        "4"
    } else if d == 5 {
        proof {
            reveal_strlit("5");
            assert("5"@ =~= seq![spec_digit(5)]);
        }
        "5"
    } else if d == 6 {
        proof {
            reveal_strlit("6");
            assert("6"@ =~= seq![spec_digit(6)]);
        }
        "6"
    } else if d == 7 {
        proof {
            reveal_strlit("7");
            assert("7"@ =~= seq![spec_digit(7)]);
        }
        "7"
    } else if d == 8 {
        proof {
            reveal_strlit("8");
            assert("8"@ =~= seq![spec_digit(8)]);
        }
        "8"
    } else {
        proof {
            reveal_strlit("9");
            assert("9"@ =~= seq![spec_digit(9)]);
        }
        "9"
    }
}

/// The decimal text of `n`, exactly `spec_decimal`.
pub fn fmt_u32(n: u32) -> (r: String)
    ensures
        r@ == spec_decimal(n as nat),
    decreases n,
{
    if n < 10 {
        String::from_str(digit_str(n))
    } else {
        let mut s = fmt_u32(n / 10);
        s.append(digit_str(n % 10));
        s
    }
}

/// The status line over the grid: the pause marker (or its blank
/// placeholder of equal width), the current FPS sample, and the key help.
pub open spec fn spec_status_line(paused: bool, fps: nat) -> Seq<char> {
    (if paused {
        "[PAUSED]"@
    } else {
        "        "@
    }) + " FPS: "@ + spec_decimal(fps) + "  (space pause/resume, r reset, q quit)"@
}

/// Build the status line for one presented frame.
pub fn status_line(paused: bool, fps: u32) -> (r: String)
    ensures
        r@ == spec_status_line(paused, fps as nat),
{
    let mut s = if paused {
        String::from_str("[PAUSED]")
    } else {
        String::from_str("        ")
    };
    s.append(" FPS: ");
    let digits = fmt_u32(fps);
    s.append(digits.as_str());
    s.append("  (space pause/resume, r reset, q quit)");
    s
}

/// One row of the glyph grid, for printing: cells `row * SCREEN_W`
/// through the end of that row, in order.
pub fn row_of(grid: &Vec<char>, row: usize) -> (r: Vec<char>)
    requires
        grid@.len() == BUF_SIZE,
        row < SCREEN_H,
    ensures
        r@ == grid@.subrange((row * SCREEN_W) as int, (row * SCREEN_W + SCREEN_W) as int),
{
    let start: usize = row * SCREEN_W;
    let mut r: Vec<char> = Vec::new();
    let mut k: usize = 0;
    while k < SCREEN_W
        invariant
            k <= SCREEN_W,
            start == row * SCREEN_W,
            row < SCREEN_H,
            grid@.len() == BUF_SIZE,
            r@ =~= grid@.subrange(start as int, (start + k) as int),
        decreases SCREEN_W - k,
    {
        r.push(grid[start + k]);
        k += 1;
    }
    r
}

} // verus!
