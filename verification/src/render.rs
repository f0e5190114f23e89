//! Decimal text for durations: the `MM:SS.mmm` rendering of a number of
//! milliseconds, truncated (not rounded) to the millisecond.

use vstd::prelude::*;
use vstd::string::StringExecFns;

verus! {

/// The character for one decimal digit (`d < 10`).
pub open spec fn digit_char(d: nat) -> char {
    if d == 0 {
        '0'
    } else if d == 1 {
        '1'
    } else if d == 2 {
        '2'
    } else if d == 3 {
        '3'
    } else if d == 4 {
        '4'
    } else if d == 5 {
        '5'
    } else if d == 6 {
        '6'
    } else if d == 7 {
        '7'
    } else if d == 8 {
        '8'
    } else {
        '9'
    }
}

/// Decimal digits of `n`, most significant first, without leading zeros
/// (zero itself is the single character `'0'`).
pub open spec fn dec_digits(n: nat) -> Seq<char>
    decreases n,
{
    if n < 10 {
        seq![digit_char(n)]
    } else {
        dec_digits(n / 10).push(digit_char(n % 10))
    }
}

/// Exactly two digits; meaningful for `n < 100`.
pub open spec fn two_digits(n: nat) -> Seq<char> {
    seq![digit_char(n / 10), digit_char(n % 10)]
}

/// Exactly three digits; meaningful for `n < 1000`.
pub open spec fn three_digits(n: nat) -> Seq<char> {
    seq![digit_char(n / 100), digit_char((n / 10) % 10), digit_char(n % 10)]
}

/// Minutes take at least two digits, and grow wider only when the value
/// itself needs more than two.
pub open spec fn minutes_text(n: nat) -> Seq<char> {
    if n < 100 {
        two_digits(n)
    } else {
        dec_digits(n)
    }
}

/// The `MM:SS.mmm` rendering of `ms` milliseconds.
pub open spec fn duration_text(ms: nat) -> Seq<char> {
    minutes_text(ms / 60_000) + seq![':'] + two_digits((ms / 1_000) % 60) + seq!['.']
        + three_digits(ms % 1_000)
}

fn push_digit(out: &mut String, d: u128)
    requires
        d < 10,
    ensures
        final(out)@ == old(out)@ + seq![digit_char(d as nat)],
{
    if d == 0 {
        proof {
            reveal_strlit("0");
            assert("0"@ =~= seq![digit_char(d as nat)]);
        }
        out.append("0");
    } else if d == 1 {
        proof {
            reveal_strlit("1");
            assert("1"@ =~= seq![digit_char(d as nat)]);
        }
        out.append("1");
    } else if d == 2 {
        proof {
            reveal_strlit("2");
            assert("2"@ =~= seq![digit_char(d as nat)]);
        }
        out.append("2");
    } else if d == 3 {
        proof {
            reveal_strlit("3");
            assert("3"@ =~= seq![digit_char(d as nat)]);
        }
        out.append("3");
    } else if d == 4 {
        proof {
            reveal_strlit("4");
            assert("4"@ =~= seq![digit_char(d as nat)]);
        }
        out.append("4");
    } else if d == 5 {
        proof {
            reveal_strlit("5");
            assert("5"@ =~= seq![digit_char(d as nat)]);
        }
        out.append("5");
    } else if d == 6 {
        proof {
            reveal_strlit("6");
            assert("6"@ =~= seq![digit_char(d as nat)]);
        }
        out.append("6");
    } else if d == 7 {
        proof {
            reveal_strlit("7");
            assert("7"@ =~= seq![digit_char(d as nat)]);
        }
        out.append("7");
    } else if d == 8 {
        proof {
            reveal_strlit("8");
            assert("8"@ =~= seq![digit_char(d as nat)]);
        }
        out.append("8");
    } else {
        proof {
            reveal_strlit("9");
            assert("9"@ =~= seq![digit_char(d as nat)]);
        }
        out.append("9");
    }
}

fn push_dec(out: &mut String, n: u128)
    ensures
        final(out)@ == old(out)@ + dec_digits(n as nat),
    decreases n,
{
    if n < 10 {
        push_digit(out, n);
    } else {
        push_dec(out, n / 10);
        push_digit(out, n % 10);
        proof {
            assert(out@ =~= old(out)@ + dec_digits(n as nat));
        }
    }
}

fn push_two_digits(out: &mut String, n: u128)
    requires
        n < 100,
    ensures
        final(out)@ == old(out)@ + two_digits(n as nat),
{
    push_digit(out, n / 10);
    push_digit(out, n % 10);
    proof {
        assert(out@ =~= old(out)@ + two_digits(n as nat));
    }
}

fn push_three_digits(out: &mut String, n: u128)
    requires
        n < 1000,
    ensures
        final(out)@ == old(out)@ + three_digits(n as nat),
{
    push_digit(out, n / 100);
    push_digit(out, (n / 10) % 10);
    push_digit(out, n % 10);
    proof {
        assert(out@ =~= old(out)@ + three_digits(n as nat));
    }
}

fn push_minutes(out: &mut String, n: u128)
    ensures
        final(out)@ == old(out)@ + minutes_text(n as nat),
{
    if n < 100 {
        push_two_digits(out, n);
    } else {
        push_dec(out, n);
    }
}

/// Build the `MM:SS.mmm` text for `ms` milliseconds.
pub fn duration_text_of(ms: u128) -> (r: String)
    ensures
        r@ == duration_text(ms as nat),
{
    let mut out = String::new();
    push_minutes(&mut out, ms / 60_000);
    proof {
        reveal_strlit(":");
        assert(":"@ =~= seq![':']);
    }
    out.append(":");
    push_two_digits(&mut out, (ms / 1_000) % 60);
    proof {
        reveal_strlit(".");
        assert("."@ =~= seq!['.']);
    }
    out.append(".");
    push_three_digits(&mut out, ms % 1_000);
    proof {
        assert(out@ =~= duration_text(ms as nat));
    }
    out
}

/// An elapsed countdown renders as all zeros.
pub proof fn lemma_duration_text_zero()
    ensures
        duration_text(0) == "00:00.000"@,
{
    reveal_strlit("00:00.000");
    assert(duration_text(0) =~= "00:00.000"@);
}

} // verus!
