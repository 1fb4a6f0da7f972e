//! A collection of ready-made pattern fragments.
//!
//! These are opaque pattern constants the builder can take as a raw
//! fragment: character ranges for several languages, and canned patterns for
//! emails, URLs, times, dates and IP addresses. They carry no behaviour of
//! their own; only [`_date_regex_generator`] assembles its pattern from
//! pieces, and its contract states the exact concatenation.

use vstd::prelude::*;

verus! {

/// Should be used inside the **list** operation for its full capability.
pub const ALPHA_NUMERIC: &'static str = "a-zA-Z0-9";

/// Should be used inside the **list** operation for its full capability.
pub const UPPER_LOWER_CASE: &'static str = "a-zA-Z";

/// Should be used inside the **list** operation for its full capability.
pub const LOWER_CASE: &'static str = "a-z";

/// Should be used inside the **list** operation for its full capability.
pub const UPPER_CASE: &'static str = "A-Z";

/// Should be used inside the **list** operation for its full capability.
pub const DIGITS: &'static str = "0-9";

pub const ANY: &'static str = ".";

pub const NULL_CHAR: &'static str = "\0";

pub const NEW_LINE: &'static str = "\n";

pub const FORM_FEED: &'static str = "\\f";

pub const TAB: &'static str = "\t";

pub const VERTICAL_TAB: &'static str = "\\v";

pub const BACKSPACE: &'static str = "[\\b]";

/// Retrieves two capturing groups: one for the username, the other for the
/// mail server and its domain.
pub const EMAIL: &'static str = r"([a-z0-9_+.]*)@([a-z0-9]+(?:[\-\.]{1}[a-z0-9]+)*\.[a-z]{2,6})";

/// Retrieves protocol, subdomain, domain name, top level name, directory and
/// query params of a URL on multiple lines.
pub const WEBSITE_URL: &'static str = r"(?m)(?:(?:(?P<protocol>ftp|https?)://)?(?:(?P<subdomain>www)\.)?)?(?P<domain_name>[-a-zA-Z0-9]{2,253})(?P<top_level_name>(?:\.[a-z]{2,6})+)(?P<directory>(?:/[a-z0-9]+)+)?(?:\?(?P<query_params>[-a-zA-Z0-9@:%_\+~#()&//=]*))?";

/// Should be used inside the **list** operation for its full capability.
pub const PERSIAN_ALPHABET: &'static str = r"\u0621-\u0628\u062A-\u063A\u0641-\u0642\u0644-\u0648\u064E-\u0651\u0655\u067E\u0686\u0698\u06A9\u06AF\u06BE\u06CC|\p{arabic}";

/// Should be used inside the **list** operation for its full capability.
pub const PERSIAN_ARABIC_NUM: &'static str = r"\u06F0-\u06F9\u0660-\u0669";

/// Should be used inside the **list** operation for its full capability.
pub const PERSIAN_ALPHA_NUMERIC: &'static str = r"\u0621-\u0628\u062A-\u063A\u0641-\u0642\u0644-\u0648\u064E-\u0651\u0655\u067E\u0686\u0698\u06A9\u06AF\u06BE\u06CC\u06F0-\u06F9\u0660-\u0669";

pub const PERSIAN_PUNCTUATION: &'static str = r"\u060C\u061B\u061F\u0640\u066A\u066B\u066C";

/// Should be used inside the **list** operation for its full capability.
pub const PERSIAN_SPACES: &'static str = r"\u0020\u2000-\u200F\u2028-\u202F";

/// Should be used inside the **list** operation for its full capability.
pub const FRENCH_ALPHABET: &'static str = r"a-zA-Z\u00C0-\u017F";

/// Should be used inside the **list** operation for its full capability.
pub const GERMAN_ALPHABET: &'static str = r"a-zA-Z\u00E4\u00F6\u00FC\u00C4\u00D6\u00DC\u00df";

/// Should be used inside the **list** operation for its full capability.
pub const CHINESE_ALPHABET: &'static str = r"\u4e00-\u9fa5";

/// Captures hour, minute and optional case-insensitive am/pm in 12-hour
/// clock.
pub const TIME_HH_MM_12_AMPM: &'static str = r"\b(1[0-2]|0?[1-9]):([0-5]?\d)(?: ?((?i)[ap]m))?\b";

/// Same as [`TIME_HH_MM_12_AMPM`], capturing hour, minute, seconds and
/// optional case-insensitive am/pm.
pub const TIME_HH_MM_SS_12_AMPM: &'static str = r"\b(1[0-2]|0?[1-9]):([0-5]?\d):([0-5]?\d)(?: ?((?i)[ap]m))?\b";

/// Captures hour and minute in 24-hour clock.
pub const TIME_HH_MM_24: &'static str = r"\b([01]?\d|2[0-3]):([0-5]?\d)\b";

/// Same as [`TIME_HH_MM_24`], capturing hour, minute as well as seconds.
pub const TIME_HH_MM_SS_24: &'static str = r"\b([01]?\d|2[0-3]):([0-5]?\d):([0-5]?\d)\b";

/// Complete and abbreviated forms of Gregorian months (case sensitive).
pub const MONTH_NAMES: &'static str = r"January|Jan\.?|February|Feb\.?|March|Mar\.?|April|Apr\.?|May|June|Jun\.?July|Jul\.?|August|Aug\.?|September|Sep\.?|Sept|October|Oct\.?|November|Nov\.?|December|Dec\.?";

/// A capturing group for a day of the month.
pub const DAY_PATTERN: &'static str = r"([ 0-2]?[1-9]|[1-2]0|3[01])";

/// A capturing group for a month number.
pub const MONTH_PATTERN: &'static str = r"([ 0]?[1-9]|10|11|12)";

/// A capturing group for a four-digit year.
pub const YEAR_PATTERN: &'static str = r"([1-9]\d{3})";

/// Captures day, month and year in all valid formats, for example
/// `10/25/2025`, `25-10-2025` or `Feb, 15 2020`.
pub const DATE: &'static str = r"\b([ 0]?[1-9]|10|11|12)/([ 0-2]?[1-9]|[1-2]0|3[01])/([1-9]\d{3})\b|\b([ 0-2]?[1-9]|[1-2]0|3[01])/([ 0]?[1-9]|10|11|12)/([1-9]\d{3})\b|\b([1-9]\d{3})/([ 0]?[1-9]|10|11|12)/([ 0-2]?[1-9]|[1-2]0|3[01])\b|\b([ 0]?[1-9]|10|11|12)([ 0-2]?[1-9]|[1-2]0|3[01])([1-9]\d{3})\b|\b([ 0-2]?[1-9]|[1-2]0|3[01])([ 0]?[1-9]|10|11|12)([1-9]\d{3})\b|\b([1-9]\d{3})([ 0]?[1-9]|10|11|12)([ 0-2]?[1-9]|[1-2]0|3[01])\b|\b([ 0]?[1-9]|10|11|12)-([ 0-2]?[1-9]|[1-2]0|3[01])-([1-9]\d{3})\b|\b([ 0-2]?[1-9]|[1-2]0|3[01])-([ 0]?[1-9]|10|11|12)-([1-9]\d{3})\b|\b([1-9]\d{3})-([ 0]?[1-9]|10|11|12)-([ 0-2]?[1-9]|[1-2]0|3[01])\b|\b(January|Jan\.?|February|Feb\.?|March|Mar\.?|April|Apr\.?|May|June|Jun\.?July|Jul\.?|August|Aug\.?|September|Sep\.?|Sept|October|Oct\.?|November|Nov\.?|December|Dec\.?)(?:,| |, )?([ 0-2]?[1-9]|[1-2]0|3[01])(?:,| |, )?([1-9]\d{3})\b|\b([ 0-2]?[1-9]|[1-2]0|3[01])(?:,| |, )?(January|Jan\.?|February|Feb\.?|March|Mar\.?|April|Apr\.?|May|June|Jun\.?July|Jul\.?|August|Aug\.?|September|Sep\.?|Sept|October|Oct\.?|November|Nov\.?|December|Dec\.?)(?:,| |, )?([1-9]\d{3})\b|\b([1-9]\d{3})(?:,| |, )?(January|Jan\.?|February|Feb\.?|March|Mar\.?|April|Apr\.?|May|June|Jun\.?July|Jul\.?|August|Aug\.?|September|Sep\.?|Sept|October|Oct\.?|November|Nov\.?|December|Dec\.?)(?:,| |, )?([ 0-2]?[1-9]|[1-2]0|3[01])\b";

pub const IPV4: &'static str = r"\b(?:(?:[0-9]|[1-9][0-9]|1[0-9]{2}|2[0-4][0-9]|25[0-5])\.){3}(?:[0-9]|[1-9][0-9]|1[0-9]{2}|2[0-4][0-9]|25[0-5])\b";

pub const IPV6: &'static str = r"\b(?:(?:[0-9a-fA-F]{1,4}:){7,7}[0-9a-fA-F]{1,4}|(?:[0-9a-fA-F]{1,4}:){1,7}:|(?:[0-9a-fA-F]{1,4}:){1,6}:[0-9a-fA-F]{1,4}|(?:[0-9a-fA-F]{1,4}:){1,5}(?::[0-9a-fA-F]{1,4}){1,2}|(?:[0-9a-fA-F]{1,4}:){1,4}(?::[0-9a-fA-F]{1,4}){1,3}|(?:[0-9a-fA-F]{1,4}:){1,3}(?::[0-9a-fA-F]{1,4}){1,4}|(?:[0-9a-fA-F]{1,4}:){1,2}(?::[0-9a-fA-F]{1,4}){1,5}|[0-9a-fA-F]{1,4}:(?:(?::[0-9a-fA-F]{1,4}){1,6})|:(?:(?::[0-9a-fA-F]{1,4}){1,7}|:)|fe80:(?::[0-9a-fA-F]{0,4}){0,4}%[0-9a-zA-Z]{1,}|::(?:ffff(?::0{1,4}){0,1}:){0,1}(?:(?:25[0-5]|(?:2[0-4]|1{0,1}[0-9]){0,1}[0-9])\.){3,3}(?:25[0-5]|(?:2[0-4]|1{0,1}[0-9]){0,1}[0-9])|(?:[0-9a-fA-F]{1,4}:){1,4}:(?:(?:25[0-5]|(?:2[0-4]|1{0,1}[0-9]){0,1}[0-9])\.){3,3}(?:25[0-5]|(?:2[0-4]|1{0,1}[0-9]){0,1}[0-9]))\b";

/// One alternative of the generated date pattern: word boundaries around
/// three components joined by a separator.
pub open spec fn date_alternative_chars(
    a: Seq<char>,
    b: Seq<char>,
    c: Seq<char>,
    sep: Seq<char>,
) -> Seq<char> {
    "\\b"@ + a + sep + b + sep + c + "\\b"@
}

/// The generated date pattern: every ordering of month, day and year,
/// joined by `/`, by nothing, by `-`, and with month names, as alternatives.
pub open spec fn date_pattern_chars() -> Seq<char> {
    let m = MONTH_PATTERN@;
    let d = DAY_PATTERN@;
    let y = YEAR_PATTERN@;
    let n = "("@ + MONTH_NAMES@ + ")"@;
    let s = "(?:,| |, )?"@;
    date_alternative_chars(m, d, y, "/"@) + "|"@ + date_alternative_chars(d, m, y, "/"@) + "|"@
        + date_alternative_chars(y, m, d, "/"@) + "|"@ + date_alternative_chars(m, d, y, ""@)
        + "|"@ + date_alternative_chars(d, m, y, ""@) + "|"@ + date_alternative_chars(y, m, d, ""@)
        + "|"@ + date_alternative_chars(m, d, y, "-"@) + "|"@ + date_alternative_chars(
        d,
        m,
        y,
        "-"@,
    ) + "|"@ + date_alternative_chars(y, m, d, "-"@) + "|"@ + date_alternative_chars(n, d, y, s)
        + "|"@ + date_alternative_chars(d, n, y, s) + "|"@ + date_alternative_chars(y, n, d, s)
}

fn push_alternative(out: &mut String, a: &str, b: &str, c: &str, sep: &str)
    ensures
        final(out)@ == old(out)@ + date_alternative_chars(a@, b@, c@, sep@),
{
    out.append("\\b");
    out.append(a);
    out.append(sep);
    out.append(b);
    out.append(sep);
    out.append(c);
    out.append("\\b");
    proof {
        assert(out@ =~= old(out)@ + date_alternative_chars(a@, b@, c@, sep@));
    }
}

/// Assembles the date pattern from its day, month, year and month-name
/// pieces, in the exact alternation order stated by [`date_pattern_chars`].
pub fn _date_regex_generator() -> (result: String)
    ensures
        result@ == date_pattern_chars(),
{
    let mut names = "(".to_owned();
    names.append(MONTH_NAMES);
    names.append(")");
    proof {
        assert(names@ =~= "("@ + MONTH_NAMES@ + ")"@);
    }
    let separator = "(?:,| |, )?";
    let mut out = String::new();
    push_alternative(&mut out, MONTH_PATTERN, DAY_PATTERN, YEAR_PATTERN, "/");
    out.append("|");
    push_alternative(&mut out, DAY_PATTERN, MONTH_PATTERN, YEAR_PATTERN, "/");
    out.append("|");
    push_alternative(&mut out, YEAR_PATTERN, MONTH_PATTERN, DAY_PATTERN, "/");
    out.append("|");
    push_alternative(&mut out, MONTH_PATTERN, DAY_PATTERN, YEAR_PATTERN, "");
    out.append("|");
    push_alternative(&mut out, DAY_PATTERN, MONTH_PATTERN, YEAR_PATTERN, "");
    out.append("|");
    push_alternative(&mut out, YEAR_PATTERN, MONTH_PATTERN, DAY_PATTERN, "");
    out.append("|");
    push_alternative(&mut out, MONTH_PATTERN, DAY_PATTERN, YEAR_PATTERN, "-");
    out.append("|");
    push_alternative(&mut out, DAY_PATTERN, MONTH_PATTERN, YEAR_PATTERN, "-");
    out.append("|");
    push_alternative(&mut out, YEAR_PATTERN, MONTH_PATTERN, DAY_PATTERN, "-");
    out.append("|");
    push_alternative(&mut out, names.as_str(), DAY_PATTERN, YEAR_PATTERN, separator);
    out.append("|");
    push_alternative(&mut out, DAY_PATTERN, names.as_str(), YEAR_PATTERN, separator);
    out.append("|");
    push_alternative(&mut out, YEAR_PATTERN, names.as_str(), DAY_PATTERN, separator);
    proof {
        assert(out@ =~= date_pattern_chars());
    }
    out
}

pub const IPV4_6: &'static str =r"\b(?:(?:(?:(?:(?:[0-9]|[1-9][0-9]|1[0-9]{2}|2[0-4][0-9]|25[0-5])\.){3}(?:[0-9]|[1-9][0-9]|1[0-9]{2}|2[0-4][0-9]|25[0-5])))|(?:(?:(?:(?:[0-9A-Fa-f]{1,4}:){7}(?:[0-9A-Fa-f]{1,4}|:))|(?:(?:[0-9A-Fa-f]{1,4}:){6}(?::[0-9A-Fa-f]{1,4}|(?:(?:25[0-5]|2[0-4]\d|1\d\d|[1-9]?\d)(?:\.(?:25[0-5]|2[0-4]\d|1\d\d|[1-9]?\d)){3})|:))|(?:(?:[0-9A-Fa-f]{1,4}:){5}(?:(?:(?::[0-9A-Fa-f]{1,4}){1,2})|:(?:(?:25[0-5]|2[0-4]\d|1\d\d|[1-9]?\d)(?:\.(?:25[0-5]|2[0-4]\d|1\d\d|[1-9]?\d)){3})|:))|(?:(?:[0-9A-Fa-f]{1,4}:){4}(?:(?:(?::[0-9A-Fa-f]{1,4}){1,3})|(?:(?::[0-9A-Fa-f]{1,4})?:(?:(?:25[0-5]|2[0-4]\d|1\d\d|[1-9]?\d)(?:\.(?:25[0-5]|2[0-4]\d|1\d\d|[1-9]?\d)){3}))|:))|(?:(?:[0-9A-Fa-f]{1,4}:){3}(?:(?:(?::[0-9A-Fa-f]{1,4}){1,4})|(?:(?::[0-9A-Fa-f]{1,4}){0,2}:(?:(?:25[0-5]|2[0-4]\d|1\d\d|[1-9]?\d)(?:\.(?:25[0-5]|2[0-4]\d|1\d\d|[1-9]?\d)){3}))|:))|(?:(?:[0-9A-Fa-f]{1,4}:){2}(?:(?:(?::[0-9A-Fa-f]{1,4}){1,5})|(?:(?::[0-9A-Fa-f]{1,4}){0,3}:(?:(?:25[0-5]|2[0-4]\d|1\d\d|[1-9]?\d)(?:\.(?:25[0-5]|2[0-4]\d|1\d\d|[1-9]?\d)){3}))|:))|(?:(?:[0-9A-Fa-f]{1,4}:){1}(?:(?:(?::[0-9A-Fa-f]{1,4}){1,6})|(?:(?::[0-9A-Fa-f]{1,4}){0,4}:(?:(?:25[0-5]|2[0-4]\d|1\d\d|[1-9]?\d)(?:\.(?:25[0-5]|2[0-4]\d|1\d\d|[1-9]?\d)){3}))|:))|(?::(?:(?:(?::[0-9A-Fa-f]{1,4}){1,7})|(?:(?::[0-9A-Fa-f]{1,4}){0,5}:(?:(?:25[0-5]|2[0-4]\d|1\d\d|[1-9]?\d)(?:\.(?:25[0-5]|2[0-4]\d|1\d\d|[1-9]?\d)){3}))|:)))(?:%.+)?))\b";

} // verus!
