//! The humantime-shaped text of a duration: a whole number followed by a
//! unit (`ms`, `s`, `m` or `h`), as the mesh spec writes timeouts.

use vstd::prelude::*;

use crate::text::{
    decimal, decimal_text, digits_value, is_digit, is_u64_text, is_white_space,
    lemma_decimal_digits, u64_parse_error_text,
    lemma_decimal_is_u64_text, parse_u64, trim, trim_end_spec, trim_spec, trim_start_spec,
    u64_text_value,
};
use crate::time::{Duration, NANOS_PER_SEC};

verus! {

/// The text `format_duration` writes for a span of `secs` whole seconds:
/// hours when it is a positive whole number of hours, else minutes when it
/// is a positive whole number of minutes, else seconds.
pub open spec fn duration_text(secs: nat) -> Seq<char> {
    if secs % 3600 == 0 && secs > 0 {
        decimal(secs / 3600) + seq!['h']
    } else if secs % 60 == 0 && secs > 0 {
        decimal(secs / 60) + seq!['m']
    } else {
        decimal(secs) + seq!['s']
    }
}

/// Whether the (trimmed) text ends in the millisecond unit `ms`.
pub open spec fn ends_with_ms(t: Seq<char>) -> bool {
    t.len() >= 2 && t[t.len() - 2] == 'm' && t.last() == 's'
}

/// Seconds per unit for the single-letter units.
pub open spec fn unit_seconds(u: char) -> Option<nat> {
    if u == 's' {
        Some(1)
    } else if u == 'm' {
        Some(60)
    } else if u == 'h' {
        Some(3600)
    } else {
        None
    }
}

/// The inputs on which reading a duration text cannot go on: outside the
/// `ms` form, a trimmed text that is empty or whose last character is not
/// ASCII cannot be split before its unit, and a number of minutes or hours
/// whose count of seconds exceeds `u64::MAX` overflows.
pub open spec fn duration_text_unreadable(s: Seq<char>) -> bool {
    let t = trim_spec(s);
    &&& !ends_with_ms(t)
    &&& {
        ||| t.len() == 0
        ||| t.last() as int >= 128
        ||| is_u64_text(t.drop_last()) && (unit_seconds(t.last()) matches Some(f)
            && u64_text_value(t.drop_last()) * f > u64::MAX)
    }
}

/// The number of nanoseconds that the text `s` denotes, or `None` when it
/// is not a duration text.
pub open spec fn duration_text_nanos(s: Seq<char>) -> Option<nat> {
    let t = trim_spec(s);
    if ends_with_ms(t) {
        let d = t.subrange(0, t.len() - 2);
        if is_u64_text(d) {
            Some(u64_text_value(d) * 1_000_000)
        } else {
            None
        }
    } else {
        let d = t.drop_last();
        match unit_seconds(t.last()) {
            Some(f) => if is_u64_text(d) {
                Some(u64_text_value(d) * f * (NANOS_PER_SEC as nat))
            } else {
                None
            },
            None => None,
        }
    }
}

/// The message for a text that is not a duration text (meaningful where
/// `duration_text_nanos(s)` is `None`): the integer parser's message for the
/// number in front of the unit when that number does not read, else
/// `unknown duration unit: <u>` for the last character `u`.
pub open spec fn duration_text_error(s: Seq<char>) -> Seq<char> {
    let t = trim_spec(s);
    if ends_with_ms(t) {
        u64_parse_error_text(t.subrange(0, t.len() - 2))
    } else if !is_u64_text(t.drop_last()) {
        u64_parse_error_text(t.drop_last())
    } else {
        "unknown duration unit: "@ + seq![t.last()]
    }
}

/// Writes the whole seconds of `d` as `<n>h`, `<n>m` or `<n>s`; a
/// sub-second part is dropped.
pub fn format_duration(d: Duration) -> (t: String)
    ensures
        t@ == duration_text(d@ / (NANOS_PER_SEC as nat)),
{
    let secs = d.as_secs();
    if secs % 3600 == 0 && secs > 0 {
        let n = decimal_text(secs / 3600);
        proof {
            reveal_strlit("h");
        }
        n.concat("h")
    } else if secs % 60 == 0 && secs > 0 {
        let n = decimal_text(secs / 60);
        proof {
            reveal_strlit("m");
        }
        n.concat("m")
    } else {
        let n = decimal_text(secs);
        proof {
            reveal_strlit("s");
        }
        n.concat("s")
    }
}

/// Reads a duration text: surrounding white space is ignored, then
/// `<n>ms` is `n` milliseconds and `<n>s`, `<n>m`, `<n>h` are `n` seconds,
/// minutes or hours. A number that does not read gives the integer
/// parser's message; an unknown unit gives `unknown duration unit: <u>`.
pub fn parse_duration(s: &str) -> (r: Result<Duration, String>)
    requires
        !duration_text_unreadable(s@),
    ensures
        r is Ok <==> duration_text_nanos(s@) is Some,
        r matches Ok(d) ==> duration_text_nanos(s@) == Some(d@),
        r matches Err(m) ==> m@ == duration_text_error(s@),
{
    let t = trim(s);
    let n = t.unicode_len();
    if n >= 2 && t.get_char(n - 2) == 'm' && t.get_char(n - 1) == 's' {
        let rest = t.substring_char(0, n - 2);
        assert(ends_with_ms(t@));
        return match parse_u64(rest) {
            Ok(v) => {
                let d = Duration::from_millis(v);
                assert(duration_text_nanos(s@) == Some(d@));
                Ok(d)
            },
            Err(m) => Err(m),
        };
    }
    let num = t.substring_char(0, n - 1);
    let unit = t.substring_char(n - 1, n);
    let u = t.get_char(n - 1);
    assert(num@ =~= t@.drop_last());
    let v = match parse_u64(num) {
        Ok(v) => v,
        Err(m) => {
            return Err(m);
        },
    };
    assert(v == u64_text_value(t@.drop_last()));
    if u == 's' {
        let d = Duration::from_secs(v);
        assert(v * 1 == v);
        assert(duration_text_nanos(s@) == Some(d@));
        Ok(d)
    } else if u == 'm' {
        let d = Duration::from_secs(v * 60);
        assert(d@ == v * 60 * (NANOS_PER_SEC as nat));
        assert(duration_text_nanos(s@) == Some(d@));
        Ok(d)
    } else if u == 'h' {
        let d = Duration::from_secs(v * 3600);
        assert(d@ == v * 3600 * (NANOS_PER_SEC as nat));
        assert(duration_text_nanos(s@) == Some(d@));
        Ok(d)
    } else {
        assert(unit@ =~= seq![u]);
        Err("unknown duration unit: ".to_owned().concat(unit))
    }
}

/// Whether `parse_duration` can take `s`: false exactly on the texts that
/// it cannot read without failing (see `duration_text_unreadable`), so that a
/// caller can refuse those first.
pub fn duration_text_is_readable(s: &str) -> (b: bool)
    ensures
        b == !duration_text_unreadable(s@),
{
    let t = trim(s);
    let n = t.unicode_len();
    if n >= 2 && t.get_char(n - 2) == 'm' && t.get_char(n - 1) == 's' {
        return true;
    }
    if n == 0 {
        return false;
    }
    let u = t.get_char(n - 1);
    if (u as u32) >= 128 {
        return false;
    }
    let num = t.substring_char(0, n - 1);
    assert(num@ =~= t@.drop_last());
    match parse_u64(num) {
        Err(_) => true,
        Ok(v) => {
            if u == 'm' {
                assert(v * 60 <= u64::MAX <==> v <= u64::MAX / 60) by (nonlinear_arith);
                v <= u64::MAX / 60
            } else if u == 'h' {
                assert(v * 3600 <= u64::MAX <==> v <= u64::MAX / 3600) by (nonlinear_arith);
                v <= u64::MAX / 3600
            } else {
                assert(v * 1 == v);
                true
            }
        },
    }
}

/// Reading back what `format_duration` wrote gives the whole seconds of the
/// span that was written: for every count of seconds `secs`, the text
/// `duration_text(secs)` is read without failing, as `secs` seconds.
pub proof fn lemma_duration_text_round_trip(secs: u64)
    ensures
        !duration_text_unreadable(duration_text(secs as nat)),
        duration_text_nanos(duration_text(secs as nat)) == Some((secs as nat) * (NANOS_PER_SEC as nat)),
{
    let s = secs as nat;
    if s % 3600 == 0 && s > 0 {
        assert((s / 3600) * 3600 == s) by (nonlinear_arith)
            requires
                s % 3600 == 0,
        ;
        lemma_count_with_unit(s / 3600, 'h', 3600, s);
    } else if s % 60 == 0 && s > 0 {
        assert((s / 60) * 60 == s) by (nonlinear_arith)
            requires
                s % 60 == 0,
        ;
        lemma_count_with_unit(s / 60, 'm', 60, s);
    } else {
        lemma_count_with_unit(s, 's', 1, s);
    }
}

/// A span of whole seconds survives being written and read back: the text
/// `format_duration` writes for `d` reads as `d` itself. (A span with a
/// sub-second part reads back without it. Every `Duration` value has at
/// most `u64::MAX` whole seconds, as `as_secs` shows.)
pub proof fn lemma_whole_seconds_round_trip(d: Duration)
    requires
        d@ % (NANOS_PER_SEC as nat) == 0,
        d@ / (NANOS_PER_SEC as nat) <= u64::MAX,
    ensures
        !duration_text_unreadable(duration_text(d@ / (NANOS_PER_SEC as nat))),
        duration_text_nanos(duration_text(d@ / (NANOS_PER_SEC as nat))) == Some(d@),
{
    let n = NANOS_PER_SEC as nat;
    let secs = d@ / n;
    assert(secs * n == d@) by (nonlinear_arith)
        requires
            d@ % n == 0,
            secs == d@ / n,
            n > 0,
    ;
    lemma_duration_text_round_trip(secs as u64);
}

/// Every count written in decimal and followed by a unit reads as that
/// count in the unit: `<n>ms` is `n` milliseconds and `<n>s` is `n`
/// seconds for every `u64` count `n`, and `<n>m`, `<n>h` are `n` minutes
/// and hours whenever their seconds fit in a `u64`.
pub proof fn lemma_unit_texts_read(n: u64)
    ensures
        !duration_text_unreadable(decimal(n as nat) + seq!['m', 's']),
        duration_text_nanos(decimal(n as nat) + seq!['m', 's']) == Some((n as nat) * 1_000_000),
        !duration_text_unreadable(decimal(n as nat) + seq!['s']),
        duration_text_nanos(decimal(n as nat) + seq!['s']) == Some((n as nat) * (NANOS_PER_SEC as nat)),
        n * 60 <= u64::MAX ==> !duration_text_unreadable(decimal(n as nat) + seq!['m']),
        n * 60 <= u64::MAX ==> duration_text_nanos(decimal(n as nat) + seq!['m']) == Some(
            (n as nat) * 60 * (NANOS_PER_SEC as nat),
        ),
        n * 3600 <= u64::MAX ==> !duration_text_unreadable(decimal(n as nat) + seq!['h']),
        n * 3600 <= u64::MAX ==> duration_text_nanos(decimal(n as nat) + seq!['h']) == Some(
            (n as nat) * 3600 * (NANOS_PER_SEC as nat),
        ),
{
    let k = n as nat;
    lemma_count_with_unit(k, 's', 1, k);
    if n * 60 <= u64::MAX {
        lemma_count_with_unit(k, 'm', 60, k * 60);
    }
    if n * 3600 <= u64::MAX {
        lemma_count_with_unit(k, 'h', 3600, k * 3600);
    }
    let t = decimal(k) + seq!['m', 's'];
    lemma_decimal_is_u64_text(n);
    lemma_decimal_digits(k);
    assert(t[0] == decimal(k)[0]);
    assert(!is_white_space(t[0]));
    assert(trim_start_spec(t) == t);
    assert(trim_end_spec(t) == t);
    assert(trim_spec(t) == t);
    assert(ends_with_ms(t));
    assert(t.subrange(0, t.len() - 2) =~= decimal(k));
}

/// A readable count followed by any other printable ASCII character is
/// no duration, and is refused with `unknown duration unit: <u>`.
pub proof fn lemma_unknown_unit_refused(n: u64, u: char)
    requires
        u != 's' && u != 'm' && u != 'h',
        (u as int) < 128,
        !is_white_space(u),
    ensures
        !duration_text_unreadable(decimal(n as nat) + seq![u]),
        duration_text_nanos(decimal(n as nat) + seq![u]) is None,
        duration_text_error(decimal(n as nat) + seq![u]) == "unknown duration unit: "@ + seq![u],
{
    let k = n as nat;
    let t = decimal(k) + seq![u];
    lemma_decimal_is_u64_text(n);
    lemma_decimal_digits(k);
    assert(t.drop_last() =~= decimal(k));
    assert(t[0] == decimal(k)[0]);
    assert(!is_white_space(t[0]));
    assert(trim_start_spec(t) == t);
    assert(trim_end_spec(t) == t);
    assert(trim_spec(t) == t);
    assert(!ends_with_ms(t));
}

/// What `format_duration` writes for `secs` whole seconds is a run of
/// decimal digits without a leading zero followed by one unit letter, `h`,
/// `m` or `s` (so never `ms`), where the digits times the unit's seconds give
/// `secs`, and the unit is hours when `secs` is a positive whole number of
/// hours, minutes when it is otherwise a positive whole number of minutes,
/// and seconds else.
pub proof fn lemma_duration_text_shape(secs: nat)
    ensures
        duration_text(secs).len() >= 2,
        forall|i: int| 0 <= i < duration_text(secs).len() - 1 ==> is_digit(#[trigger] duration_text(secs)[i]),
        duration_text(secs)[0] != '0' || duration_text(secs).len() == 2,
        duration_text(secs).last() == 'h' || duration_text(secs).last() == 'm'
            || duration_text(secs).last() == 's',
        duration_text(secs).last() == 'h' ==> digits_value(duration_text(secs).drop_last()) * 3600
            == secs,
        duration_text(secs).last() == 'm' ==> digits_value(duration_text(secs).drop_last()) * 60
            == secs,
        duration_text(secs).last() == 's' ==> digits_value(duration_text(secs).drop_last()) == secs,
        (duration_text(secs).last() == 'h') == (secs > 0 && secs % 3600 == 0),
        (duration_text(secs).last() == 'm') == (secs > 0 && secs % 60 == 0 && secs % 3600 != 0),
{
    let k: nat = if secs % 3600 == 0 && secs > 0 {
        secs / 3600
    } else if secs % 60 == 0 && secs > 0 {
        secs / 60
    } else {
        secs
    };
    let t = duration_text(secs);
    lemma_decimal_digits(k);
    lemma_decimal_leading_digit(k);
    assert(t.drop_last() =~= decimal(k));
    assert forall|i: int| 0 <= i < t.len() - 1 implies is_digit(#[trigger] t[i]) by {
        assert(t[i] == decimal(k)[i]);
    }
    assert(t[0] == decimal(k)[0]);
    if secs % 3600 == 0 && secs > 0 {
        assert(k * 3600 == secs) by (nonlinear_arith)
            requires
                k == secs / 3600,
                secs % 3600 == 0,
        ;
    } else if secs % 60 == 0 && secs > 0 {
        assert(k * 60 == secs) by (nonlinear_arith)
            requires
                k == secs / 60,
                secs % 60 == 0,
        ;
    }
}

/// A decimal text starts with `0` only when it is the single digit `0`.
proof fn lemma_decimal_leading_digit(n: nat)
    ensures
        decimal(n)[0] != '0' || decimal(n).len() == 1,
    decreases n,
{
    if n >= 10 {
        lemma_decimal_leading_digit(n / 10);
        lemma_decimal_digits(n / 10);
        assert(decimal(n)[0] == decimal(n / 10)[0]);
        if decimal(n / 10).len() == 1 {
            assert(n / 10 >= 1);
            assert(digits_value(decimal(n / 10)) == n / 10);
            let d = decimal(n / 10);
            assert(d.drop_last().len() == 0);
            assert(digits_value(d.drop_last()) == 0);
            assert(d[0] == d.last());
        }
    }
}

/// The text of `k` followed by a unit of `f` seconds reads as `k * f`
/// seconds, when that fits in a `u64`.
proof fn lemma_count_with_unit(k: nat, u: char, f: nat, s: nat)
    requires
        unit_seconds(u) == Some(f),
        k * f == s,
        s <= u64::MAX,
        k <= s,
    ensures
        !duration_text_unreadable(decimal(k) + seq![u]),
        duration_text_nanos(decimal(k) + seq![u]) == Some(s * (NANOS_PER_SEC as nat)),
{
    let t = decimal(k) + seq![u];
    lemma_decimal_is_u64_text(k as u64);
    crate::text::lemma_decimal_digits(k);
    assert(t.drop_last() =~= decimal(k));
    assert(t[0] == decimal(k)[0]);
    assert(!is_white_space(t[0]));
    assert(trim_start_spec(t) == t);
    assert(trim_end_spec(t) == t);
    assert(trim_spec(t) == t);
    assert(t[t.len() - 2] == decimal(k)[decimal(k).len() - 1]);
    assert(!ends_with_ms(t));
    assert(t.last() == u);
    assert(u64_text_value(t.drop_last()) == k);
}

} // verus!
