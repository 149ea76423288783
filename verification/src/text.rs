//! Small verified text helpers: string comparison and the duration
//! formatting used by the show cards.

use vstd::prelude::*;

verus! {

/// Character-wise string equality, equivalent to equality of the views.
pub fn str_eq(a: &str, b: &str) -> (r: bool)
    ensures
        r == (a@ == b@),
{
    let na = a.unicode_len();
    let nb = b.unicode_len();
    if na != nb {
        return false;
    }
    let mut i: usize = 0;
    while i < na
        invariant
            na == a@.len(),
            na == b@.len(),
            i <= na,
            forall|j: int| 0 <= j < i ==> a@[j] == b@[j],
        decreases na - i,
    {
        if a.get_char(i) != b.get_char(i) {
            return false;
        }
        i += 1;
    }
    proof {
        assert(a@ =~= b@);
    }
    true
}

/// The character for one decimal digit.
pub open spec fn digit_char(d: nat) -> char
    recommends
        d < 10,
{
    if d == 0 {
        '0'
    } else if d == 1 {
        '1'
    } else if d == 2 {
        '2'
    } else if d == 3 {
        '3'
    } else if d == 4 {
        '4'
    } else if d == 5 {
        '5'
    } else if d == 6 {
        '6'
    } else if d == 7 {
        '7'
    } else if d == 8 {
        '8'
    } else {
        '9'
    }
}

/// The decimal digits of `n`, most significant first, without leading zeros
/// (a single `'0'` for zero).
pub open spec fn dec_digits(n: nat) -> Seq<char>
    decreases n,
{
    if n < 10 {
        seq![digit_char(n)]
    } else {
        dec_digits(n / 10).push(digit_char(n % 10))
    }
}

/// Exactly two decimal digits, zero padded.
pub open spec fn two_digit_chars(n: nat) -> Seq<char>
    recommends
        n < 100,
{
    seq![digit_char(n / 10), digit_char(n % 10)]
}

fn digit_str(d: u64) -> (r: &'static str)
    requires
        d < 10,
    ensures
        r@ =~= seq![digit_char(d as nat)],
{
    proof {
        reveal_strlit("0");
        reveal_strlit("1");
        reveal_strlit("2");
        reveal_strlit("3");
        reveal_strlit("4");
        reveal_strlit("5");
        reveal_strlit("6");
        reveal_strlit("7");
        reveal_strlit("8");
        reveal_strlit("9");
    }
    match d {
        0 => "0",
        1 => "1",
        2 => "2",
        3 => "3",
        4 => "4",
        5 => "5",
        6 => "6",
        7 => "7",
        8 => "8",
        _ => "9",
    }
}

/// Appends the decimal digits of `n` to `out`.
fn append_dec(out: &mut String, n: u64)
    ensures
        final(out)@ == old(out)@ + dec_digits(n as nat),
    decreases n,
{
    if n >= 10 {
        append_dec(out, n / 10);
        let d = digit_str(n % 10);
        out.append(d);
        proof {
            assert(final(out)@ =~= old(out)@ + dec_digits(n as nat));
        }
    } else {
        let d = digit_str(n);
        out.append(d);
        proof {
            assert(final(out)@ =~= old(out)@ + dec_digits(n as nat));
        }
    }
}

/// Appends `n` as exactly two digits, zero padded.
fn append_two_digits(out: &mut String, n: u64)
    requires
        n < 100,
    ensures
        final(out)@ == old(out)@ + two_digit_chars(n as nat),
{
    let hi = digit_str(n / 10);
    out.append(hi);
    let lo = digit_str(n % 10);
    out.append(lo);
    proof {
        assert(final(out)@ =~= old(out)@ + two_digit_chars(n as nat));
    }
}

/// The hours field of a formatted duration: right-aligned to width two with
/// a space, as `{h:2}` formats it.
pub open spec fn hour_field(h: nat) -> Seq<char> {
    if h < 10 {
        seq![' ', digit_char(h)]
    } else {
        dec_digits(h)
    }
}

/// The text form of a duration of `n` seconds: `" 1h02m03s"` with an hour
/// field only when there is at least one full hour, else `"02m03s"`.
pub open spec fn spec_format_duration(n: nat) -> Seq<char> {
    let h = n / 3600;
    let m = (n % 3600) / 60;
    let s = (n % 3600) % 60;
    if h > 0 {
        hour_field(h) + seq!['h'] + two_digit_chars(m) + seq!['m'] + two_digit_chars(s) + seq!['s']
    } else {
        two_digit_chars(m) + seq!['m'] + two_digit_chars(s) + seq!['s']
    }
}

/// Formats a duration given in seconds for display on a card.
pub fn format_duration(total_seconds: u64) -> (r: String)
    ensures
        r@ == spec_format_duration(total_seconds as nat),
{
    let h = total_seconds / 3600;
    let rem = total_seconds % 3600;
    let m = rem / 60;
    let s = rem % 60;
    proof {
        reveal_strlit(" ");
        reveal_strlit("h");
        reveal_strlit("m");
        reveal_strlit("s");
    }
    let mut out = String::new();
    if h > 0 {
        if h < 10 {
            out.append(" ");
            let d = digit_str(h);
            out.append(d);
            proof {
                assert(out@ =~= hour_field(h as nat));
            }
        } else {
            append_dec(&mut out, h);
        }
        out.append("h");
        append_two_digits(&mut out, m);
        out.append("m");
        append_two_digits(&mut out, s);
        out.append("s");
        proof {
            assert(out@ =~= spec_format_duration(total_seconds as nat));
        }
    } else {
        append_two_digits(&mut out, m);
        out.append("m");
        append_two_digits(&mut out, s);
        out.append("s");
        proof {
            assert(out@ =~= spec_format_duration(total_seconds as nat));
        }
    }
    out
}

} // verus!
