//! Title encoding for driver-controlled windows.
//!
//! The only portable way to recognise a window the test driver spawned is by
//! its title, so titles are encoded as the window's numeric id, a separator,
//! and the actual (mutated) title.

use vstd::prelude::*;
use vstd::string::StringExecFns;

verus! {

/// The character for one decimal digit.
pub open spec fn spec_digit_char(d: nat) -> char {
    if d == 0 {
        '0'
    } else if d == 1 {
        '1'
    } else if d == 2 {
        '2'
    } else if d == 3 {
        '3'
    } else if d == 4 {
        '4'
    } else if d == 5 {
        '5'
    } else if d == 6 {
        '6'
    } else if d == 7 {
        '7'
    } else if d == 8 {
        '8'
    } else {
        '9'
    }
}

/// The decimal digits of `n`, most significant first.
pub open spec fn spec_decimal(n: nat) -> Seq<char>
    decreases n,
{
    if n < 10 {
        seq![spec_digit_char(n)]
    } else {
        spec_decimal(n / 10).push(spec_digit_char(n % 10))
    }
}

/// One decimal digit as a string slice.
fn digit_str(d: u32) -> (r: &'static str)
    requires
        d < 10,
    ensures
        r@ == seq![spec_digit_char(d as nat)],
{
    proof {
        reveal_strlit("0");
        reveal_strlit("1");
        reveal_strlit("2");
        reveal_strlit("3");
        reveal_strlit("4");
        reveal_strlit("5");
        reveal_strlit("6");
        reveal_strlit("7");
        reveal_strlit("8");
        reveal_strlit("9");
    }
    let r: &'static str = if d == 0 {
        "0"
    } else if d == 1 {
        "1"
    } else if d == 2 {
        "2"
    } else if d == 3 {
        "3"
    } else if d == 4 {
        "4"
    } else if d == 5 {
        "5"
    } else if d == 6 {
        "6"
    } else if d == 7 {
        "7"
    } else if d == 8 {
        "8"
    } else {
        "9"
    };
    proof {
        assert(r@ =~= seq![spec_digit_char(d as nat)]);
    }
    r
}

/// Append the decimal digits of `n` to `s`.
pub(crate) fn push_decimal(s: &mut String, n: u32)
    ensures
        final(s)@ == old(s)@ + spec_decimal(n as nat),
    decreases n,
{
    if n >= 10 {
        push_decimal(s, n / 10);
    }
    let d = digit_str(n % 10);
    s.append(d);
    proof {
        if n < 10 {
            assert(old(s)@ + spec_decimal(n as nat) =~= old(s)@ + seq![
                spec_digit_char((n % 10) as nat),
            ]);
        } else {
            assert(old(s)@ + spec_decimal(n as nat) =~= (old(s)@ + spec_decimal((n / 10) as nat))
                + seq![spec_digit_char((n % 10) as nat)]);
        }
    }
}

/// The encoded title: the id's decimal digits, a separating colon and space,
/// then the actual title.
pub open spec fn spec_encode_title(id: u32, title: Seq<char>) -> Seq<char> {
    spec_decimal(id as nat) + seq![':', ' '] + title
}

/// Combine a window's numeric id with its actual title, so the window can be
/// recognised again by title comparison alone.
pub fn encode_title(id: u32, title: &str) -> (r: String)
    ensures
        r@ == spec_encode_title(id, title@),
{
    let mut s = String::new();
    push_decimal(&mut s, id);
    s.append(": ");
    proof {
        reveal_strlit(": ");
        assert(s@ =~= spec_decimal(id as nat) + seq![':', ' ']);
    }
    let r = s.concat(title);
    proof {
        assert(r@ =~= spec_encode_title(id, title@));
    }
    r
}

} // verus!
