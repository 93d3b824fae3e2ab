//! Reading the guess line as a decimal integer.
//!
//! The captured line keeps its line ending; the guess is the text before
//! it. A guess is valid when that text is one or more decimal digits and
//! the value they denote fits in a `u32`.

use vstd::prelude::*;

verus! {

/// A decimal digit.
pub open spec fn is_digit(c: char) -> bool {
    48 <= c as int <= 57
}

/// The value of one decimal digit.
pub open spec fn digit_value(c: char) -> nat
    recommends
        is_digit(c),
{
    (c as int - 48) as nat
}

/// Every character of `s` is a decimal digit.
pub open spec fn all_digits(s: Seq<char>) -> bool {
    forall|i: int| 0 <= i < s.len() ==> is_digit(#[trigger] s[i])
}

/// The number denoted by a sequence of decimal digits, most significant
/// first. The empty sequence denotes zero.
pub open spec fn decimal_value(s: Seq<char>) -> nat
    recommends
        all_digits(s),
    decreases s.len(),
{
    if s.len() == 0 {
        0
    } else {
        decimal_value(s.drop_last()) * 10 + digit_value(s.last())
    }
}

/// A valid guess text: at least one character, all of them digits.
pub open spec fn is_decimal_string(s: Seq<char>) -> bool {
    s.len() > 0 && all_digits(s)
}

/// The captured line without its line ending: one trailing `'\n'` is
/// removed, then one trailing `'\r'`.
pub open spec fn strip_line_ending(s: Seq<char>) -> Seq<char> {
    let t = if s.len() > 0 && s.last() == '\n' {
        s.drop_last()
    } else {
        s
    };
    if t.len() > 0 && t.last() == '\r' {
        t.drop_last()
    } else {
        t
    }
}

/// Digits read so far never denote more than the whole digit string does.
proof fn lemma_decimal_value_prefix_le(s: Seq<char>, i: int)
    requires
        0 <= i <= s.len(),
    ensures
        decimal_value(s.take(i)) <= decimal_value(s),
    decreases s.len() - i,
{
    if i == s.len() {
        assert(s.take(i) =~= s);
    } else {
        assert(s.take(i + 1).drop_last() =~= s.take(i));
        assert(decimal_value(s.take(i)) <= decimal_value(s.take(i + 1)));
        lemma_decimal_value_prefix_le(s, i + 1);
    }
}

/// Parses the guess line, line ending removed, as a decimal integer.
/// Returns `None` when the text is empty, holds a character that is not a
/// digit, or denotes a value too large for a `u32`.
pub fn parse_guess(line: &str) -> (r: Option<u32>)
    ensures
        match r {
            Some(n) => is_decimal_string(strip_line_ending(line@))
                && n == decimal_value(strip_line_ending(line@)),
            None => !(is_decimal_string(strip_line_ending(line@))
                && decimal_value(strip_line_ending(line@)) <= u32::MAX),
        },
{
    let ghost s = line@;
    let len = line.unicode_len();
    let mut end = len;
    if end > 0 && line.get_char(end - 1) == '\n' {
        end = end - 1;
    }
    if end > 0 && line.get_char(end - 1) == '\r' {
        end = end - 1;
    }
    let ghost t = strip_line_ending(s);
    proof {
        assert(t =~= s.take(end as int));
    }
    if end == 0 {
        return None;
    }
    let mut value: u32 = 0;
    let mut i: usize = 0;
    while i < end
        invariant
            0 < end <= s.len(),
            s == line@,
            t == strip_line_ending(s),
            t =~= s.take(end as int),
            i <= end,
            all_digits(t.take(i as int)),
            value == decimal_value(t.take(i as int)),
        decreases end - i,
    {
        let c = line.get_char(i);
        proof {
            assert(t[i as int] == s[i as int]);
        }
        let cv = c as u32;
        if cv < 48 || cv > 57 {
            proof {
                assert(!is_digit(t[i as int]));
            }
            return None;
        }
        let d = cv - 48;
        let wide: u64 = (value as u64) * 10 + (d as u64);
        proof {
            assert(t.take(i + 1).drop_last() =~= t.take(i as int));
            assert(t.take(i + 1).last() == t[i as int]);
            assert(decimal_value(t.take(i + 1)) == decimal_value(t.take(i as int)) * 10
                + digit_value(t[i as int]));
        }
        if wide > u32::MAX as u64 {
            proof {
                lemma_decimal_value_prefix_le(t, i + 1);
            }
            return None;
        }
        value = wide as u32;
        i = i + 1;
    }
    proof {
        assert(t.take(end as int) =~= t);
    }
    Some(value)
}

} // verus!
