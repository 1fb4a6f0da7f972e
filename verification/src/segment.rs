//! Formatting of a single pattern fragment.
//!
//! [`format_segment`] takes a raw fragment and a [`Settings`] record,
//! validates the record's quantifier options for conflicts, and decorates the
//! fragment in a fixed order: the inline flag token, the non-boundary and
//! boundary prefixes, the fragment itself, the repetition range or exact
//! count, the `*`/`+` repetition operators, the `?`/`??` optional markers,
//! and the boundary suffixes. The order is positional regex syntax and is
//! part of the contract: [`segment_chars`] states it exactly.

use vstd::prelude::*;
use crate::errors::ValidationError;
use crate::settings::{Flags, Settings, flag_chars};

verus! {

/// The character for a single decimal digit.
pub open spec fn digit_char(d: nat) -> char {
    if d == 0 {
        '0'
    } else if d == 1 {
        '1'
    } else if d == 2 {
        '2'
    } else if d == 3 {
        '3'
    } else if d == 4 {
        '4'
    } else if d == 5 {
        '5'
    } else if d == 6 {
        '6'
    } else if d == 7 {
        '7'
    } else if d == 8 {
        '8'
    } else {
        '9'
    }
}

/// The decimal representation of `n`, most significant digit first, with no
/// leading zeros (a single `'0'` for zero).
pub open spec fn dec_chars(n: nat) -> Seq<char>
    decreases n,
{
    if n < 10 {
        seq![digit_char(n)]
    } else {
        dec_chars(n / 10) + seq![digit_char(n % 10)]
    }
}

fn digit_str(d: u8) -> (result: &'static str)
    requires
        d < 10,
    ensures
        result@ == seq![digit_char(d as nat)],
{
    proof {
        reveal_strlit("0");
        reveal_strlit("1");
        reveal_strlit("2");
        reveal_strlit("3");
        reveal_strlit("4");
        reveal_strlit("5");
        reveal_strlit("6");
        reveal_strlit("7");
        reveal_strlit("8");
        reveal_strlit("9");
        assert("0"@ =~= seq![digit_char(0)]);
        assert("1"@ =~= seq![digit_char(1)]);
        assert("2"@ =~= seq![digit_char(2)]);
        assert("3"@ =~= seq![digit_char(3)]);
        assert("4"@ =~= seq![digit_char(4)]);
        assert("5"@ =~= seq![digit_char(5)]);
        assert("6"@ =~= seq![digit_char(6)]);
        assert("7"@ =~= seq![digit_char(7)]);
        assert("8"@ =~= seq![digit_char(8)]);
        assert("9"@ =~= seq![digit_char(9)]);
    }
    match d {
        0 => "0",
        1 => "1",
        2 => "2",
        3 => "3",
        4 => "4",
        5 => "5",
        6 => "6",
        7 => "7",
        8 => "8",
        _ => "9",
    }
}

/// Renders a repetition bound as decimal digits.
pub fn decimal_string(n: u8) -> (result: String)
    ensures
        result@ == dec_chars(n as nat),
{
    if n < 10 {
        digit_str(n).to_owned()
    } else if n < 100 {
        let mut out = digit_str(n / 10).to_owned();
        out.append(digit_str(n % 10));
        proof {
            assert(n as nat / 10 < 10);
            assert(dec_chars(n as nat / 10) == seq![digit_char(n as nat / 10)]);
            assert(dec_chars(n as nat) == dec_chars(n as nat / 10) + seq![
                digit_char(n as nat % 10),
            ]);
            assert(out@ =~= dec_chars(n as nat));
        }
        out
    } else {
        let q: u8 = n / 10;
        let mut out = digit_str(q / 10).to_owned();
        out.append(digit_str(q % 10));
        out.append(digit_str(n % 10));
        proof {
            assert(10 <= (q as nat) && (q as nat) < 100);
            assert(q as nat / 10 < 10);
            assert(dec_chars(q as nat / 10) == seq![digit_char(q as nat / 10)]);
            assert(dec_chars(q as nat) == dec_chars(q as nat / 10) + seq![
                digit_char(q as nat % 10),
            ]);
            assert(dec_chars(n as nat) == dec_chars(q as nat) + seq![digit_char(n as nat % 10)]);
            assert(out@ =~= dec_chars(n as nat));
        }
        out
    }
}

/// The first conflict among the quantifier options of a settings record, if
/// any: a range or exact count combined with `*`/`+`, `*` combined with `+`,
/// or a range combined with an exact count.
pub open spec fn settings_error(s: Settings) -> Option<ValidationError> {
    if s.range.is_some() && s.exactly.is_some() {
        Some(ValidationError::ConflictingCountSpec)
    } else if (s.range.is_some() || s.exactly.is_some()) && (s.is_one_or_more || s.is_nil_or_more) {
        Some(ValidationError::ConflictingRepetition)
    } else if s.is_one_or_more && s.is_nil_or_more {
        Some(ValidationError::ConflictingQuantifierPair)
    } else {
        None
    }
}

/// Checks the quantifier options of a settings record for conflicts.
pub fn validate_settings(settings: &Settings) -> (result: Option<ValidationError>)
    ensures
        result == settings_error(*settings),
{
    if settings.range.is_some() && settings.exactly.is_some() {
        Some(ValidationError::ConflictingCountSpec)
    } else if (settings.range.is_some() || settings.exactly.is_some())
        && (settings.is_one_or_more || settings.is_nil_or_more) {
        Some(ValidationError::ConflictingRepetition)
    } else if settings.is_one_or_more && settings.is_nil_or_more {
        Some(ValidationError::ConflictingQuantifierPair)
    } else {
        None
    }
}

/// The boundary prefixes: `\B` if requested, then `\b` if requested, so that
/// the left-boundary token stands next to the fragment.
pub open spec fn left_part(s: Settings) -> Seq<char> {
    (if s.with_left_non_boundary {
        "\\B"@
    } else {
        Seq::<char>::empty()
    }) + (if s.with_left_boundary {
        "\\b"@
    } else {
        Seq::<char>::empty()
    })
}

/// The inline flag token `(?<chars>)`, if a flag is set.
pub open spec fn flag_part(s: Settings) -> Seq<char> {
    match s.flags {
        Some(f) => "("@ + flag_chars(f) + ")"@,
        None => Seq::<char>::empty(),
    }
}

/// The decimal digits of an optional repetition bound, or nothing.
pub open spec fn bound_chars(bound: Option<u8>) -> Seq<char> {
    match bound {
        Some(n) => dec_chars(n as nat),
        None => Seq::<char>::empty(),
    }
}

/// The bounded-repetition suffix `{min,max}`, omitting either bound if
/// absent but always keeping the comma: a range with both bounds absent
/// still emits `{,}`.
pub open spec fn range_part(s: Settings) -> Seq<char> {
    match s.range {
        Some((from, to)) => "{"@ + bound_chars(from) + ","@ + bound_chars(to) + "}"@,
        None => Seq::<char>::empty(),
    }
}

/// The exact-repetition suffix `{n}`, if requested.
pub open spec fn exact_part(s: Settings) -> Seq<char> {
    match s.exactly {
        Some(n) => "{"@ + dec_chars(n as nat) + "}"@,
        None => Seq::<char>::empty(),
    }
}

/// The repetition operators: `*` if requested, then `+` if requested.
pub open spec fn repetition_part(s: Settings) -> Seq<char> {
    (if s.is_nil_or_more {
        "*"@
    } else {
        Seq::<char>::empty()
    }) + (if s.is_one_or_more {
        "+"@
    } else {
        Seq::<char>::empty()
    })
}

/// The optional markers: `?` if requested, then `??` if requested.
pub open spec fn optional_part(s: Settings) -> Seq<char> {
    (if s.is_optional {
        "?"@
    } else {
        Seq::<char>::empty()
    }) + (if s.is_optional_ungreedy {
        "??"@
    } else {
        Seq::<char>::empty()
    })
}

/// The boundary suffixes: `\b` if requested, then `\B` if requested.
pub open spec fn right_part(s: Settings) -> Seq<char> {
    (if s.with_right_boundary {
        "\\b"@
    } else {
        Seq::<char>::empty()
    }) + (if s.with_right_non_boundary {
        "\\B"@
    } else {
        Seq::<char>::empty()
    })
}

/// The fully decorated fragment: every requested decoration attached to
/// `expression` in the fixed positional order, with the inline flag token
/// standing before the boundary prefixes.
pub open spec fn segment_chars(expression: Seq<char>, s: Settings) -> Seq<char> {
    flag_part(s) + left_part(s) + expression + range_part(s) + exact_part(s)
        + repetition_part(s) + optional_part(s) + right_part(s)
}

fn append_counts(out: &mut String, settings: &Settings)
    ensures
        final(out)@ == old(out)@ + range_part(*settings) + exact_part(*settings),
{
    if let Some((from, to)) = settings.range {
        out.append("{");
        if let Some(lower) = from {
            let digits = decimal_string(lower);
            out.append(digits.as_str());
        }
        out.append(",");
        if let Some(upper) = to {
            let digits = decimal_string(upper);
            out.append(digits.as_str());
        }
        out.append("}");
    }
    proof {
        assert(out@ =~= old(out)@ + range_part(*settings));
    }
    if let Some(count) = settings.exactly {
        out.append("{");
        let digits = decimal_string(count);
        out.append(digits.as_str());
        out.append("}");
    }
    proof {
        assert(out@ =~= old(out)@ + range_part(*settings) + exact_part(*settings));
    }
}

fn append_tail(out: &mut String, settings: &Settings)
    ensures
        final(out)@ == old(out)@ + repetition_part(*settings) + optional_part(*settings)
            + right_part(*settings),
{
    if settings.is_nil_or_more {
        out.append("*");
    }
    if settings.is_one_or_more {
        out.append("+");
    }
    if settings.is_optional {
        out.append("?");
    }
    if settings.is_optional_ungreedy {
        out.append("??");
    }
    if settings.with_right_boundary {
        out.append("\\b");
    }
    if settings.with_right_non_boundary {
        out.append("\\B");
    }
    proof {
        assert(out@ =~= old(out)@ + repetition_part(*settings) + optional_part(*settings)
            + right_part(*settings));
    }
}

/// Validates the quantifier options of `settings` and, when they are free of
/// conflicts, returns `expression` decorated in the fixed positional order;
/// on a conflict, returns the matching error and produces no output.
///
/// The result is fully determined by the fragment's characters and the
/// settings record: same fragment and settings always yield the same string.
pub fn format_segment(expression: &str, settings: &Settings) -> (result: Result<
    String,
    ValidationError,
>)
    ensures
        (match result {
            Ok(formatted) => settings_error(*settings) is None && formatted@ == segment_chars(
                expression@,
                *settings,
            ),
            Err(e) => settings_error(*settings) == Some(e),
        }),
{
    if let Some(e) = validate_settings(settings) {
        return Err(e);
    }
    let mut out = String::new();
    if let Some(f) = settings.flags {
        out.append("(");
        out.append(f.as_str());
        out.append(")");
    }
    if settings.with_left_non_boundary {
        out.append("\\B");
    }
    if settings.with_left_boundary {
        out.append("\\b");
    }
    out.append(expression);
    proof {
        assert(out@ =~= flag_part(*settings) + left_part(*settings) + expression@);
    }
    append_counts(&mut out, settings);
    append_tail(&mut out, settings);
    proof {
        assert(out@ =~= segment_chars(expression@, *settings));
    }
    Ok(out)
}

} // verus!
