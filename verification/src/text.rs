//! Decimal rendering and fixed-width padding for display fields.

use vstd::prelude::*;
use vstd::string::{StrSliceExecFns, StringExecFns};

verus! {

/// The character for one decimal digit value.
pub open spec fn digit_char(d: nat) -> char
    recommends
        d < 10,
{
    if d == 0 {
        '0'
    } else if d == 1 {
        '1'
    } else if d == 2 {
        '2'
    } else if d == 3 {
        '3'
    } else if d == 4 {
        '4'
    } else if d == 5 {
        '5'
    } else if d == 6 {
        '6'
    } else if d == 7 {
        '7'
    } else if d == 8 {
        '8'
    } else {
        '9'
    }
}

/// The decimal representation of a natural number, most significant digit
/// first, with no leading zeros (a lone zero for 0).
pub open spec fn dec_rep(n: nat) -> Seq<char>
    decreases n,
    via dec_rep_decreases
{
    if n < 10 {
        seq![digit_char(n)]
    } else {
        dec_rep(n / 10).push(digit_char(n % 10))
    }
}

#[via_fn]
proof fn dec_rep_decreases(n: nat) {
    if n >= 10 {
        assert(n / 10 < n) by (nonlinear_arith)
            requires
                n >= 10,
        ;
    }
}

/// A decimal representation always has at least one character.
pub proof fn lemma_dec_rep_nonempty(n: nat)
    ensures
        dec_rep(n).len() >= 1,
{
}

/// The single-character text for one decimal digit.
fn digit_str(d: u64) -> (s: &'static str)
    requires
        d < 10,
    ensures
        s@ == seq![digit_char(d as nat)],
{
    let s: &'static str = if d == 0 {
        "0"
    } else if d == 1 {
        "1"
    } else if d == 2 {
        "2"
    } else if d == 3 {
        "3"
    } else if d == 4 {
        "4"
    } else if d == 5 {
        "5"
    } else if d == 6 {
        "6"
    } else if d == 7 {
        "7"
    } else if d == 8 {
        "8"
    } else {
        "9"
    };
    proof {
        reveal_strlit("0");
        reveal_strlit("1");
        reveal_strlit("2");
        reveal_strlit("3");
        reveal_strlit("4");
        reveal_strlit("5");
        reveal_strlit("6");
        reveal_strlit("7");
        reveal_strlit("8");
        reveal_strlit("9");
        assert(s@ =~= seq![digit_char(d as nat)]);
    }
    s
}

/// Renders an unsigned number in decimal.
pub fn u64_to_string(n: u64) -> (s: String)
    ensures
        s@ == dec_rep(n as nat),
    decreases n,
{
    if n < 10 {
        digit_str(n).to_owned()
    } else {
        proof {
            assert(n / 10 < n) by (nonlinear_arith)
                requires
                    n >= 10,
            ;
        }
        let mut s = u64_to_string(n / 10);
        s.append(digit_str(n % 10));
        proof {
            assert(s@ =~= dec_rep(n as nat));
        }
        s
    }
}

/// The decimal representation of a signed number: a minus sign before the
/// magnitude when the number is negative.
pub open spec fn dec_rep_signed(n: int) -> Seq<char> {
    if n >= 0 {
        dec_rep(n as nat)
    } else {
        seq!['-'] + dec_rep((-n) as nat)
    }
}

/// Renders a signed number in decimal.
pub fn i64_to_string(n: i64) -> (s: String)
    ensures
        s@ == dec_rep_signed(n as int),
{
    if n >= 0 {
        u64_to_string(n as u64)
    } else {
        let mag: u64 = ((-(n as i128)) as u64);
        let mut s = "-".to_owned();
        let m = u64_to_string(mag);
        s.append(m.as_str());
        proof {
            reveal_strlit("-");
            assert(s@ =~= dec_rep_signed(n as int));
        }
        s
    }
}

/// `s` left-justified in a field of `w` characters: padded on the right
/// with spaces when shorter, untouched when already as long or longer.
pub open spec fn pad_spec(s: Seq<char>, w: nat) -> Seq<char> {
    if s.len() >= w {
        s
    } else {
        s + Seq::new((w - s.len()) as nat, |i: int| ' ')
    }
}

/// Pads `s` on the right with spaces to at least `width` characters.
pub fn pad_to(s: String, width: usize) -> (r: String)
    ensures
        r@ == pad_spec(s@, width as nat),
{
    let ghost s0 = s@;
    let mut r = s;
    let mut l: usize = r.as_str().unicode_len();
    while l < width
        invariant
            l == r@.len(),
            s0.len() <= r@.len(),
            r@ == s0 + Seq::new((r@.len() - s0.len()) as nat, |i: int| ' '),
            s0.len() < width ==> l <= width,
            s0.len() >= width ==> l == s0.len(),
        decreases width - l,
    {
        r.append(" ");
        l = l + 1;
        proof {
            reveal_strlit(" ");
            assert(" "@ =~= seq![' ']);
            assert(r@ =~= s0 + Seq::new((r@.len() - s0.len()) as nat, |i: int| ' '));
        }
    }
    proof {
        assert(s0 + Seq::new(0, |i: int| ' ') =~= s0);
        if s0.len() < width {
            assert(r@ == pad_spec(s0, width as nat));
        } else {
            assert(r@ =~= s0);
        }
    }
    r
}

/// A padded field is never shorter than the field width.
pub proof fn lemma_pad_len(s: Seq<char>, w: nat)
    ensures
        pad_spec(s, w).len() >= w,
        pad_spec(s, w).len() >= s.len(),
{
}

} // verus!
