//! Magnitude-suffixed number formatting.
//!
//! A fixed-point quantity is rendered with exactly two decimal digits,
//! truncating toward zero. Values of a thousand units or more are scaled
//! down by the matching power of a thousand and suffixed `K`, `M`, `B`,
//! `T` or `Q`. The rendering is pure and total, and its exact character
//! sequence is pinned by `format_rep`.

use vstd::prelude::*;
use vstd::string::StringExecFns;
use crate::fixed::Fixed;

verus! {

/// The character of one decimal digit.
pub open spec fn digit_char(d: int) -> char {
    if d == 0 {
        '0'
    } else if d == 1 {
        '1'
    } else if d == 2 {
        '2'
    } else if d == 3 {
        '3'
    } else if d == 4 {
        '4'
    } else if d == 5 {
        '5'
    } else if d == 6 {
        '6'
    } else if d == 7 {
        '7'
    } else if d == 8 {
        '8'
    } else {
        '9'
    }
}

/// The decimal representation of a natural number, most significant digit
/// first, with no leading zeros except for zero itself.
pub open spec fn dec_rep(n: nat) -> Seq<char>
    decreases n,
{
    if n < 10 {
        seq![digit_char(n as int)]
    } else {
        dec_rep(n / 10).push(digit_char((n % 10) as int))
    }
}

/// The rendering of `m` millis as a whole part and exactly two decimal
/// digits, truncating toward zero.
pub open spec fn two_dec_rep(m: nat) -> Seq<char> {
    dec_rep(m / 1000) + seq!['.', digit_char(((m / 100) % 10) as int), digit_char(
        ((m / 10) % 10) as int,
    )]
}

/// The full rendering of `n` millis: two decimal digits, and a magnitude
/// suffix once the value reaches a thousand units. Each suffix branch
/// scales the value down by its power of a thousand, truncating to
/// millis.
pub open spec fn format_rep(n: nat) -> Seq<char> {
    if n < 1000000 {
        two_dec_rep(n)
    } else if n < 1000000000 {
        two_dec_rep(n / 1000).push('K')
    } else if n < 1000000000000 {
        two_dec_rep(n / 1000000).push('M')
    } else if n < 1000000000000000 {
        two_dec_rep(n / 1000000000).push('B')
    } else if n < 1000000000000000000 {
        two_dec_rep(n / 1000000000000).push('T')
    } else {
        two_dec_rep(n / 1000000000000000).push('Q')
    }
}

/// The one-character string of a decimal digit.
fn digit_str(d: u64) -> (r: &'static str)
    requires
        d < 10,
    ensures
        r@ == seq![digit_char(d as int)],
{
    if d == 0 {
        proof {
            reveal_strlit("0");
        }
        let r = "0";
        assert(r@ =~= seq![digit_char(0)]);
        r
    } else if d == 1 {
        proof {
            reveal_strlit("1");
        }
        let r = "1";
        assert(r@ =~= seq![digit_char(1)]);
        r
    } else if d == 2 {
        proof {
            reveal_strlit("2");
        }
        let r = "2";
        assert(r@ =~= seq![digit_char(2)]);
        r
    } else if d == 3 {
        proof {
            reveal_strlit("3");
        }
        let r = "3";
        assert(r@ =~= seq![digit_char(3)]);
        r
    } else if d == 4 {
        proof {
            reveal_strlit("4");
        }
        let r = "4";
        assert(r@ =~= seq![digit_char(4)]);
        r
    } else if d == 5 {
        proof {
            reveal_strlit("5");
        }
        let r = "5";
        assert(r@ =~= seq![digit_char(5)]);
        r
    } else if d == 6 {
        proof {
            reveal_strlit("6");
        }
        let r = "6";
        assert(r@ =~= seq![digit_char(6)]);
        r
    } else if d == 7 {
        proof {
            reveal_strlit("7");
        }
        let r = "7";
        assert(r@ =~= seq![digit_char(7)]);
        r
    } else if d == 8 {
        proof {
            reveal_strlit("8");
        }
        let r = "8";
        assert(r@ =~= seq![digit_char(8)]);
        r
    } else {
        proof {
            reveal_strlit("9");
        }
        let r = "9";
        assert(r@ =~= seq![digit_char(9)]);
        r
    }
}

/// The decimal string of a natural number.
pub fn u64_to_dec(n: u64) -> (r: String)
    ensures
        r@ == dec_rep(n as nat),
    decreases n,
{
    if n < 10 {
        let mut s = String::new();
        s.append(digit_str(n));
        assert(s@ =~= dec_rep(n as nat));
        s
    } else {
        let mut s = u64_to_dec(n / 10);
        s.append(digit_str(n % 10));
        assert(s@ =~= dec_rep(n as nat));
        s
    }
}

/// Render `m` millis with a whole part and exactly two decimal digits,
/// truncating toward zero.
fn render_two_dec(m: u64) -> (r: String)
    ensures
        r@ == two_dec_rep(m as nat),
{
    let mut s = u64_to_dec(m / 1000);
    proof {
        reveal_strlit(".");
    }
    s.append(".");
    s.append(digit_str((m / 100) % 10));
    s.append(digit_str((m / 10) % 10));
    assert(s@ =~= two_dec_rep(m as nat));
    s
}

/// Render a quantity for display: two decimal digits, truncating toward
/// zero, with a magnitude suffix from `K` up to `Q` once the value
/// reaches a thousand units.
pub fn number_format(n: Fixed) -> (r: String)
    ensures
        r@ == format_rep(n.millis as nat),
{
    let m = n.millis;
    if m < 1000000 {
        render_two_dec(m)
    } else if m < 1000000000 {
        let mut s = render_two_dec(m / 1000);
        proof {
            reveal_strlit("K");
        }
        s.append("K");
        assert(s@ =~= format_rep(m as nat));
        s
    } else if m < 1000000000000 {
        let mut s = render_two_dec(m / 1000000);
        proof {
            reveal_strlit("M");
        }
        s.append("M");
        assert(s@ =~= format_rep(m as nat));
        s
    } else if m < 1000000000000000 {
        let mut s = render_two_dec(m / 1000000000);
        proof {
            reveal_strlit("B");
        }
        s.append("B");
        assert(s@ =~= format_rep(m as nat));
        s
    } else if m < 1000000000000000000 {
        let mut s = render_two_dec(m / 1000000000000);
        proof {
            reveal_strlit("T");
        }
        s.append("T");
        assert(s@ =~= format_rep(m as nat));
        s
    } else {
        let mut s = render_two_dec(m / 1000000000000000);
        proof {
            reveal_strlit("Q");
        }
        s.append("Q");
        assert(s@ =~= format_rep(m as nat));
        s
    }
}

} // verus!
