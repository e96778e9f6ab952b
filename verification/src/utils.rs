//! Small display helpers.

use vstd::prelude::*;
use vstd::string::StringExecFns;

verus! {

/// The decimal digit character for a value below ten.
pub open spec fn digit_char(d: int) -> char {
    if d == 0 {
        '0'
    } else if d == 1 {
        '1'
    } else if d == 2 {
        '2'
    } else if d == 3 {
        '3'
    } else if d == 4 {
        '4'
    } else if d == 5 {
        '5'
    } else if d == 6 {
        '6'
    } else if d == 7 {
        '7'
    } else if d == 8 {
        '8'
    } else {
        '9'
    }
}

/// The decimal digits of `n`, most significant first.
pub open spec fn dec_digits(n: nat) -> Seq<char>
    decreases n,
{
    if n < 10 {
        seq![digit_char(n as int)]
    } else {
        dec_digits(n / 10).push(digit_char((n % 10) as int))
    }
}

/// A digit sequence padded with a leading zero to at least two places.
pub open spec fn pad2(digits: Seq<char>) -> Seq<char> {
    if digits.len() >= 2 {
        digits
    } else {
        seq!['0'] + digits
    }
}

/// A play position as shown to the user: minutes and seconds, each at
/// least two digits, with a colon between.
pub open spec fn format_time_spec(sec: nat) -> Seq<char> {
    pad2(dec_digits(sec / 60)) + seq![':'] + pad2(dec_digits(sec % 60))
}

/// A number below ten prints as one digit; anything larger as at least
/// two.
pub proof fn lemma_dec_digits_len(n: nat)
    ensures
        dec_digits(n).len() >= 1,
        n < 10 ==> dec_digits(n).len() == 1,
        n >= 10 ==> dec_digits(n).len() >= 2,
    decreases n,
{
    if n >= 10 {
        lemma_dec_digits_len(n / 10);
    }
}

/// Append the digit character of a value below ten.
fn push_digit(s: &mut String, d: u64)
    requires
        d < 10,
    ensures
        final(s)@ == old(s)@.push(digit_char(d as int)),
{
    let ghost pre = s@;
    if d == 0 {
        s.append("0");
        proof {
            reveal_strlit("0");
        }
    } else if d == 1 {
        s.append("1");
        proof {
            reveal_strlit("1");
        }
    } else if d == 2 {
        s.append("2");
        proof {
            reveal_strlit("2");
        }
    } else if d == 3 {
        s.append("3");
        proof {
            reveal_strlit("3");
        }
    } else if d == 4 {
        s.append("4");
        proof {
            reveal_strlit("4");
        }
    } else if d == 5 {
        s.append("5");
        proof {
            reveal_strlit("5");
        }
    } else if d == 6 {
        s.append("6");
        proof {
            reveal_strlit("6");
        }
    } else if d == 7 {
        s.append("7");
        proof {
            reveal_strlit("7");
        }
    } else if d == 8 {
        s.append("8");
        proof {
            reveal_strlit("8");
        }
    } else {
        s.append("9");
        proof {
            reveal_strlit("9");
        }
    }
    proof {
        assert(s@ =~= pre.push(digit_char(d as int)));
    }
}

/// Append the decimal digits of `n`, most significant first.
fn push_decimal(s: &mut String, n: u64)
    ensures
        final(s)@ == old(s)@ + dec_digits(n as nat),
    decreases n,
{
    let ghost pre = s@;
    if n < 10 {
        push_digit(s, n);
        proof {
            assert(s@ =~= pre + dec_digits(n as nat));
        }
    } else {
        push_decimal(s, n / 10);
        push_digit(s, n % 10);
        proof {
            assert(s@ =~= pre + dec_digits(n as nat));
        }
    }
}

/// Format a play position for display: `minutes:seconds`, both zero
/// padded to at least two digits.
pub fn format_time(sec: u64) -> (r: String)
    ensures
        r@ == format_time_spec(sec as nat),
{
    let minutes: u64 = sec / 60;
    let seconds: u64 = sec % 60;
    let mut s = String::new();
    if minutes < 10 {
        push_digit(&mut s, 0);
    }
    push_decimal(&mut s, minutes);
    let ghost with_minutes = s@;
    s.append(":");
    proof {
        reveal_strlit(":");
        lemma_dec_digits_len(minutes as nat);
        assert(with_minutes =~= pad2(dec_digits(minutes as nat)));
    }
    if seconds < 10 {
        push_digit(&mut s, 0);
    }
    push_decimal(&mut s, seconds);
    proof {
        lemma_dec_digits_len(seconds as nat);
        assert(s@ =~= format_time_spec(sec as nat));
    }
    s
}

} // verus!
