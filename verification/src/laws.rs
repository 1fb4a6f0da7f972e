//! Laws of the expression-assembly engine, stated and proved once.
//!
//! The operations' own contracts pin every result down; the lemmas here
//! state the properties that follow for all inputs, so a reader finds them
//! written out rather than implied.

use vstd::prelude::*;
use crate::errors::ValidationError;
use crate::group::{group_error, paren_chars};
use crate::segment::{
    exact_part,
    flag_part,
    left_part,
    optional_part,
    range_part,
    repetition_part,
    right_part,
    segment_chars,
    settings_error,
};
use crate::settings::{GroupSettings, Settings, default_settings};

verus! {

/// Formatting is deterministic: the contract of `format_segment` pins its
/// result to `segment_chars`, so any two results for the same fragment and
/// settings are the same string.
pub proof fn lemma_format_deterministic(
    expression: Seq<char>,
    settings: Settings,
    first: Seq<char>,
    second: Seq<char>,
)
    requires
        first == segment_chars(expression, settings),
        second == segment_chars(expression, settings),
    ensures
        first == second,
{
}

/// The decorations of a fragment always stand in the same order, whatever
/// subset of settings is active: the flag token first, then the boundary
/// prefixes, the fragment, the range or count suffix, the repetition
/// operators, the optional markers, and the boundary suffixes.
pub proof fn lemma_decoration_order(expression: Seq<char>, settings: Settings)
    ensures
        segment_chars(expression, settings) == flag_part(settings) + left_part(settings)
            + expression + range_part(settings) + exact_part(settings) + repetition_part(settings)
            + optional_part(settings) + right_part(settings),
{
}

/// A repetition range or an exact count combined with `*` or `+` raises
/// `ConflictingRepetition` (unless range and count are also combined with
/// each other, which is reported first).
pub proof fn lemma_repetition_conflict(s: Settings)
    requires
        s.range is Some || s.exactly is Some,
        s.is_one_or_more || s.is_nil_or_more,
        !(s.range is Some && s.exactly is Some),
    ensures
        settings_error(s) == Some(ValidationError::ConflictingRepetition),
{
}

/// `*` and `+` requested together raise `ConflictingQuantifierPair` when no
/// range or exact count is also set (those conflicts are reported first).
pub proof fn lemma_quantifier_pair_conflict(s: Settings)
    requires
        s.is_one_or_more,
        s.is_nil_or_more,
        s.range is None,
        s.exactly is None,
    ensures
        settings_error(s) == Some(ValidationError::ConflictingQuantifierPair),
{
}

/// A repetition range and an exact count requested together always raise
/// `ConflictingCountSpec`.
pub proof fn lemma_count_spec_conflict(s: Settings)
    requires
        s.range is Some,
        s.exactly is Some,
    ensures
        settings_error(s) == Some(ValidationError::ConflictingCountSpec),
{
}

/// A non-capturing group combined with either lookahead mode always raises
/// `InvalidGroupMode`.
pub proof fn lemma_group_mode_conflict(g: GroupSettings)
    requires
        g.is_non_capture,
        g.is_positive_lookahead || g.is_negative_lookahead,
    ensures
        group_error(g) == Some(ValidationError::InvalidGroupMode),
{
}

/// Positive and negative lookahead requested together raise
/// `ConflictingLookaheadModes` when the group is not also non-capturing
/// (that conflict is reported first).
pub proof fn lemma_lookahead_modes_conflict(g: GroupSettings)
    requires
        g.is_positive_lookahead,
        g.is_negative_lookahead,
        !g.is_non_capture,
    ensures
        group_error(g) == Some(ValidationError::ConflictingLookaheadModes),
{
}

/// A lookahead group marked optional raises `QuantifiedLookahead` when the
/// group settings carry no conflict that is reported first.
pub proof fn lemma_quantified_lookahead_conflict(g: GroupSettings)
    requires
        g.is_positive_lookahead || g.is_negative_lookahead,
        g.other.is_optional || g.other.is_optional_ungreedy,
        !g.is_non_capture,
        !(g.is_positive_lookahead && g.is_negative_lookahead),
    ensures
        group_error(g) == Some(ValidationError::QuantifiedLookahead),
{
}

/// Wrapping in a capturing group never deduplicates parentheses: with the
/// default settings the wrapping adds exactly one enclosing layer, so
/// applying it to an already-parenthesized fragment yields a doubly
/// parenthesized one.
pub proof fn lemma_into_group_adds_one_layer(inner: Seq<char>)
    ensures
        segment_chars(paren_chars(inner), default_settings()) == paren_chars(inner),
        segment_chars(paren_chars(paren_chars(inner)), default_settings()) == "(("@ + inner
            + "))"@,
{
    reveal_strlit("(");
    reveal_strlit(")");
    reveal_strlit("((");
    reveal_strlit("))");
    assert(segment_chars(paren_chars(inner), default_settings()) =~= paren_chars(inner));
    assert(segment_chars(paren_chars(paren_chars(inner)), default_settings()) =~= "(("@ + inner
        + "))"@);
}

} // verus!
