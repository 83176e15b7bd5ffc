//! Properties that hold of every expression and of every treeish.
use vstd::prelude::*;

use crate::glob::{compiles, partition_of, rooted};
use crate::model::{
    build_model, first_separator, form_wf, lemma_separator_from, parse_model, separator_from, Form,
    Outcome,
};
use crate::treeish::{detached_copy, Treeish};

verus! {

/// An expression without a separator that is not a valid pattern is read as
/// a literal path, or as nothing when it is empty.
pub proof fn lemma_unseparated_non_pattern_is_path(e: Seq<char>)
    requires
        first_separator(e) is None,
        !compiles(e),
    ensures
        build_model(e) == (if e.len() == 0 {
            Outcome::Built(Form::Empty)
        } else {
            Outcome::Built(Form::Path(e))
        }),
{
}

proof fn lemma_separator_after_prefix(prefix: Seq<char>, suffix: Seq<char>, i: nat)
    requires
        i <= prefix.len(),
        separator_from(prefix.push(':'), i) is None,
    ensures
        separator_from(prefix + seq![':', ':'] + suffix, i) == Some(prefix.len()),
    decreases prefix.len() - i,
{
    let e = prefix + seq![':', ':'] + suffix;
    let q = prefix.push(':');
    assert(e[prefix.len() as int] == ':' && e[prefix.len() as int + 1] == ':');
    if i < prefix.len() {
        assert(e[i as int] == q[i as int] && e[i as int + 1] == q[i as int + 1]);
        lemma_separator_after_prefix(prefix, suffix, i + 1);
    }
}

/// In `prefix::suffix`, split at its first separator, with a suffix that is a
/// valid non-empty pattern: an empty prefix gives that pattern with the
/// default root, and a non-empty one gives the pattern rooted at the prefix,
/// unless the pattern has a root of its own, which breaks the rules. (An
/// empty suffix is dropped, as no treeish holds an empty component.)
pub proof fn lemma_separated(prefix: Seq<char>, suffix: Seq<char>)
    requires
        first_separator(prefix.push(':')) is None,
        compiles(suffix),
        suffix.len() > 0,
    ensures
        build_model(prefix + seq![':', ':'] + suffix) == (if prefix.len() == 0 {
            Outcome::Built(Form::Glob(suffix))
        } else if rooted(suffix) {
            Outcome::RuleFailure
        } else {
            Outcome::Built(Form::GlobIn(prefix, suffix))
        }),
{
    let e = prefix + seq![':', ':'] + suffix;
    lemma_separator_after_prefix(prefix, suffix, 0);
    assert(e.subrange(0, prefix.len() as int) =~= prefix);
    assert(e.subrange(prefix.len() as int + 2, e.len() as int) =~= suffix);
}

/// No expression builds a pattern rooted at a path whose pattern is itself
/// rooted: such a parse fails with a rule violation instead. Every treeish
/// built holds only non-empty components.
pub proof fn lemma_rooted_pattern_in_rejected(e: Seq<char>)
    ensures
        parse_model(e) matches Some(Form::GlobIn(_, g)) && rooted(g) ==> build_model(e)
            == Outcome::RuleFailure,
        build_model(e) matches Outcome::Built(f) ==> form_wf(f),
        !(build_model(e) matches Outcome::Built(Form::GlobIn(_, g)) && rooted(g)),
{
    lemma_separator_from(e, 0);
}

/// Detaching a treeish twice gives what detaching it once gives.
pub proof fn lemma_into_owned_idempotent(t: Treeish<'_>, once: Treeish<'_>, twice: Treeish<'_>)
    requires
        detached_copy(t, once),
        detached_copy(once, twice),
    ensures
        detached_copy(t, twice),
        twice@ == once@,
{
}

/// A non-empty expression without a separator that the glob engine reads as
/// an invariant path alone (no remainder), or does not read as a pattern at
/// all, is a literal path equal to the expression.
pub proof fn lemma_literal_path_round_trip(e: Seq<char>)
    requires
        first_separator(e) is None,
        e.len() > 0,
        !compiles(e) || partition_of(e) == (e, Seq::<char>::empty()),
    ensures
        build_model(e) == Outcome::Built(Form::Path(e)),
{
}

} // verus!
