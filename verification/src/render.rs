//! Textual rendering of lists of numbers.
//!
//! The empty list renders as `[]`; a non-empty list renders as its head in
//! decimal, a ` : ` separator, then the rendering of its tail, so a list
//! with elements 3, 2, 1 renders as `3 : 2 : 1 : []`.

use crate::list::List;
use vstd::prelude::*;
use vstd::string::*;

verus! {

/// The decimal digit character for `d`.
pub open spec fn digit_char(d: int) -> char {
    if d == 0 {
        '0'
    } else if d == 1 {
        '1'
    } else if d == 2 {
        '2'
    } else if d == 3 {
        '3'
    } else if d == 4 {
        '4'
    } else if d == 5 {
        '5'
    } else if d == 6 {
        '6'
    } else if d == 7 {
        '7'
    } else if d == 8 {
        '8'
    } else {
        '9'
    }
}

/// The decimal rendering of `n`: most significant digit first, with no
/// leading zeros (zero itself renders as a single `0`).
pub open spec fn dec_chars(n: int) -> Seq<char>
    decreases n,
{
    if n < 10 {
        seq![digit_char(n)]
    } else {
        dec_chars(n / 10).push(digit_char(n % 10))
    }
}

/// The textual form of a sequence of numbers: `[]` when empty, otherwise
/// the head in decimal, then ` : `, then the textual form of the rest.
pub open spec fn render_spec(s: Seq<u64>) -> Seq<char>
    decreases s.len(),
{
    if s.len() == 0 {
        seq!['[', ']']
    } else {
        dec_chars(s[0] as int) + seq![' ', ':', ' '] + render_spec(s.drop_first())
    }
}

/// The one-character string for a decimal digit.
fn digit_str(d: u64) -> (s: &'static str)
    requires
        d < 10,
    ensures
        s@ == seq![digit_char(d as int)],
{
    let s: &'static str = match d {
        0 => "0",
        1 => "1",
        2 => "2",
        3 => "3",
        4 => "4",
        5 => "5",
        6 => "6",
        7 => "7",
        8 => "8",
        _ => "9",
    };
    proof {
        reveal_strlit("0");
        reveal_strlit("1");
        reveal_strlit("2");
        reveal_strlit("3");
        reveal_strlit("4");
        reveal_strlit("5");
        reveal_strlit("6");
        reveal_strlit("7");
        reveal_strlit("8");
        reveal_strlit("9");
        assert(s@ =~= seq![digit_char(d as int)]);
    }
    s
}

/// The decimal rendering of `n` as a string.
pub fn u64_to_string(n: u64) -> (s: String)
    ensures
        s@ == dec_chars(n as int),
    decreases n,
{
    if n < 10 {
        let mut s = String::new();
        s.append(digit_str(n));
        proof {
            assert(s@ =~= dec_chars(n as int));
        }
        s
    } else {
        let mut s = u64_to_string(n / 10);
        s.append(digit_str(n % 10));
        proof {
            assert(s@ =~= dec_chars(n as int));
        }
        s
    }
}

impl List<u64> {
    /// The textual form of this list: `[]` when empty, otherwise
    /// `head : tail-rendering`, as in `3 : 2 : 1 : []`.
    pub fn render(&self) -> (s: String)
        ensures
            s@ == render_spec(self@),
        decreases self@.len(),
    {
        match self.uncons() {
            None => {
                let s = String::from_str("[]");
                proof {
                    reveal_strlit("[]");
                    assert(s@ =~= render_spec(self@));
                }
                s
            },
            Some((x, xs)) => {
                let mut s = u64_to_string(*x);
                s.append(" : ");
                let t = xs.render();
                s.append(t.as_str());
                proof {
                    reveal_strlit(" : ");
                    assert(s@ =~= render_spec(self@));
                }
                s
            },
        }
    }
}

} // verus!
