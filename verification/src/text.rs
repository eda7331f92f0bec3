//! Rendering of the numeric parts of a frame's display form: upper-case
//! hexadecimal and decimal digit strings, zero padding, and the trimmed
//! fractional part of a timestamp.

use vstd::prelude::*;
use vstd::string::StrSliceExecFns;
use vstd::string::StringExecFns;

verus! {

/// The digit characters; hexadecimal rendering uses all sixteen, decimal
/// rendering the first ten.
pub open spec fn digit_char(d: nat) -> char {
    if d == 0 {
        '0'
    } else if d == 1 {
        '1'
    } else if d == 2 {
        '2'
    } else if d == 3 {
        '3'
    } else if d == 4 {
        '4'
    } else if d == 5 {
        '5'
    } else if d == 6 {
        '6'
    } else if d == 7 {
        '7'
    } else if d == 8 {
        '8'
    } else if d == 9 {
        '9'
    } else if d == 10 {
        'A'
    } else if d == 11 {
        'B'
    } else if d == 12 {
        'C'
    } else if d == 13 {
        'D'
    } else if d == 14 {
        'E'
    } else {
        'F'
    }
}

/// The upper-case hexadecimal digits of `n`, most significant first, with no
/// leading zeros (a single `0` for zero itself).
pub open spec fn hex_digits(n: nat) -> Seq<char>
    decreases n,
{
    if n < 16 {
        seq![digit_char(n)]
    } else {
        hex_digits(n / 16).push(digit_char(n % 16))
    }
}

/// The decimal digits of `n`, most significant first, with no leading zeros.
pub open spec fn dec_digits(n: nat) -> Seq<char>
    decreases n,
{
    if n < 10 {
        seq![digit_char(n)]
    } else {
        dec_digits(n / 10).push(digit_char(n % 10))
    }
}

/// `s` left-padded with `0` characters up to width `w`.
pub open spec fn zero_extend(s: Seq<char>, w: nat) -> Seq<char> {
    if s.len() >= w {
        s
    } else {
        Seq::new((w - s.len()) as nat, |i: int| '0') + s
    }
}

/// `s` with its trailing `0` characters removed, keeping at least the last
/// remaining character.
pub open spec fn trim_trailing_zeros(s: Seq<char>) -> Seq<char>
    decreases s.len(),
{
    if s.len() <= 1 {
        s
    } else if s.last() == '0' {
        trim_trailing_zeros(s.drop_last())
    } else {
        s
    }
}

/// How many digits [`hex_digits`] produces, by range of `n`.
proof fn lemma_hex_digits_len(n: nat)
    ensures
        1 <= hex_digits(n).len(),
        n < 16 ==> hex_digits(n).len() == 1,
        16 <= n < 256 ==> hex_digits(n).len() == 2,
        256 <= n ==> hex_digits(n).len() >= 3,
    decreases n,
{
    if n >= 16 {
        lemma_hex_digits_len(n / 16);
    }
}

/// How many digits [`dec_digits`] produces, by range of `n`.
proof fn lemma_dec_digits_len(n: nat)
    ensures
        1 <= dec_digits(n).len(),
        n < 10 ==> dec_digits(n).len() == 1,
        10 <= n < 100 ==> dec_digits(n).len() == 2,
        100 <= n < 1000 ==> dec_digits(n).len() == 3,
        1000 <= n < 10000 ==> dec_digits(n).len() == 4,
        10000 <= n < 100000 ==> dec_digits(n).len() == 5,
        100000 <= n < 1000000 ==> dec_digits(n).len() == 6,
    decreases n,
{
    if n >= 10 {
        lemma_dec_digits_len(n / 10);
    }
}

/// The one-character string for digit `d`.
fn digit_str(d: u8) -> (s: &'static str)
    requires
        d < 16,
    ensures
        s@ == seq![digit_char(d as nat)],
{
    let s: &'static str = if d == 0 {
        "0"
    } else if d == 1 {
        "1"
    } else if d == 2 {
        "2"
    } else if d == 3 {
        "3"
    } else if d == 4 {
        "4"
    } else if d == 5 {
        "5"
    } else if d == 6 {
        "6"
    } else if d == 7 {
        "7"
    } else if d == 8 {
        "8"
    } else if d == 9 {
        "9"
    } else if d == 10 {
        "A"
    } else if d == 11 {
        "B"
    } else if d == 12 {
        "C"
    } else if d == 13 {
        "D"
    } else if d == 14 {
        "E"
    } else {
        "F"
    };
    proof {
        reveal_strlit("0");
        reveal_strlit("1");
        reveal_strlit("2");
        reveal_strlit("3");
        reveal_strlit("4");
        reveal_strlit("5");
        reveal_strlit("6");
        reveal_strlit("7");
        reveal_strlit("8");
        reveal_strlit("9");
        reveal_strlit("A");
        reveal_strlit("B");
        reveal_strlit("C");
        reveal_strlit("D");
        reveal_strlit("E");
        reveal_strlit("F");
        assert(s@ =~= seq![digit_char(d as nat)]);
    }
    s
}

/// Appends the upper-case hexadecimal digits of `n`, without padding.
pub fn append_hex(out: &mut String, n: u32)
    ensures
        final(out)@ == old(out)@ + hex_digits(n as nat),
    decreases n,
{
    if n >= 16 {
        append_hex(out, n / 16);
    }
    out.append(digit_str((n % 16) as u8));
    proof {
        assert((n % 16) as nat == (n as nat) % 16);
        assert((n / 16) as nat == (n as nat) / 16);
        assert(final(out)@ =~= old(out)@ + hex_digits(n as nat));
    }
}

/// Appends the decimal digits of `n`, without padding.
pub fn append_dec(out: &mut String, n: u64)
    ensures
        final(out)@ == old(out)@ + dec_digits(n as nat),
    decreases n,
{
    if n >= 10 {
        append_dec(out, n / 10);
    }
    out.append(digit_str((n % 10) as u8));
    proof {
        assert((n % 10) as nat == (n as nat) % 10);
        assert((n / 10) as nat == (n as nat) / 10);
        assert(final(out)@ =~= old(out)@ + dec_digits(n as nat));
    }
}

/// Appends the hexadecimal digits of `n`, zero-padded to at least three
/// characters.
pub fn append_hex_pad3(out: &mut String, n: u32)
    ensures
        final(out)@ == old(out)@ + zero_extend(hex_digits(n as nat), 3),
{
    proof {
        lemma_hex_digits_len(n as nat);
    }
    if n < 16 {
        out.append("00");
    } else if n < 256 {
        out.append("0");
    }
    append_hex(out, n);
    proof {
        reveal_strlit("00");
        reveal_strlit("0");
        assert(final(out)@ =~= old(out)@ + zero_extend(hex_digits(n as nat), 3));
    }
}

/// Appends the fractional part of a timestamp: `micros` as six zero-padded
/// decimal digits with trailing zeros trimmed down to at least one digit.
pub fn append_fraction(out: &mut String, micros: u32)
    requires
        micros < 1000000,
    ensures
        final(out)@ == old(out)@ + trim_trailing_zeros(
            zero_extend(dec_digits(micros as nat), 6),
        ),
{
    let mut tmp = String::new();
    if micros < 10 {
        tmp.append("00000");
    } else if micros < 100 {
        tmp.append("0000");
    } else if micros < 1000 {
        tmp.append("000");
    } else if micros < 10000 {
        tmp.append("00");
    } else if micros < 100000 {
        tmp.append("0");
    }
    append_dec(&mut tmp, micros as u64);
    proof {
        lemma_dec_digits_len(micros as nat);
        reveal_strlit("00000");
        reveal_strlit("0000");
        reveal_strlit("000");
        reveal_strlit("00");
        reveal_strlit("0");
        assert(tmp@ =~= zero_extend(dec_digits(micros as nat), 6));
    }
    let mut end: usize = tmp.as_str().unicode_len();
    proof {
        assert(tmp@.subrange(0, end as int) =~= tmp@);
    }
    while end > 1 && tmp.as_str().get_char(end - 1) == '0'
        invariant
            1 <= end <= tmp@.len(),
            tmp@ == zero_extend(dec_digits(micros as nat), 6),
            tmp@.len() == 6,
            trim_trailing_zeros(tmp@) == trim_trailing_zeros(tmp@.subrange(0, end as int)),
        decreases end,
    {
        proof {
            assert(tmp@.subrange(0, end as int).drop_last() =~= tmp@.subrange(0, end - 1));
        }
        end = end - 1;
    }
    proof {
        assert(trim_trailing_zeros(tmp@.subrange(0, end as int)) == tmp@.subrange(0, end as int));
    }
    let tail = tmp.as_str().substring_char(0, end);
    out.append(tail);
}

} // verus!
