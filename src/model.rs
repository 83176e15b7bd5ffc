//! The mathematical model of expressions and of what they denote.
use vstd::prelude::*;

use crate::glob::{compiles, partition_of, rooted};

verus! {

/// What an expression denotes once parsed: nothing, a literal path, a
/// pattern with a default root, or a pattern rooted at a literal path.
pub ghost enum Form {
    Empty,
    Path(Seq<char>),
    Glob(Seq<char>),
    GlobIn(Seq<char>, Seq<char>),
}

/// What building a treeish from an expression comes to.
pub ghost enum Outcome {
    Built(Form),
    GlobFailure,
    ParseFailure,
    RuleFailure,
}

/// Every component that a form holds is non-empty, and the pattern of a
/// rooted form is not itself rooted.
pub open spec fn form_wf(f: Form) -> bool {
    match f {
        Form::Empty => true,
        Form::Path(p) => p.len() > 0,
        Form::Glob(g) => g.len() > 0,
        Form::GlobIn(p, g) => p.len() > 0 && g.len() > 0 && !rooted(g),
    }
}

/// The separator `::` starts at index `i`.
pub open spec fn is_separator_at(e: Seq<char>, i: int) -> bool {
    0 <= i && i + 1 < e.len() && e[i] == ':' && e[i + 1] == ':'
}

/// The first separator at or after index `i`.
pub open spec fn separator_from(e: Seq<char>, i: nat) -> Option<nat>
    decreases e.len() - i,
{
    if i + 1 >= e.len() {
        None
    } else if is_separator_at(e, i as int) {
        Some(i)
    } else {
        separator_from(e, i + 1)
    }
}

/// The separator found from index `j` is the first one at or after `j`.
pub proof fn lemma_separator_from(e: Seq<char>, j: nat)
    ensures
        match separator_from(e, j) {
            Some(i) => j <= i && is_separator_at(e, i as int) && forall|k: int|
                j <= k < i ==> !#[trigger] is_separator_at(e, k),
            None => forall|k: int| j <= k ==> !#[trigger] is_separator_at(e, k),
        },
    decreases e.len() - j,
{
    if j + 1 < e.len() && !is_separator_at(e, j as int) {
        lemma_separator_from(e, j + 1);
    }
}

/// The first separator of the expression.
pub open spec fn first_separator(e: Seq<char>) -> Option<nat> {
    separator_from(e, 0)
}

/// A path and a pattern combined by which of them is present (non-empty).
pub open spec fn form_of_parts(path: Seq<char>, glob: Seq<char>) -> Form {
    if path.len() > 0 && glob.len() > 0 {
        Form::GlobIn(path, glob)
    } else if glob.len() > 0 {
        Form::Glob(glob)
    } else if path.len() > 0 {
        Form::Path(path)
    } else {
        Form::Empty
    }
}

/// The form that parsing yields, or `None` where the pattern after a
/// separator does not compile.
pub open spec fn parse_model(e: Seq<char>) -> Option<Form> {
    match first_separator(e) {
        Some(i) => {
            let suffix = e.subrange(i as int + 2, e.len() as int);
            if compiles(suffix) {
                Some(form_of_parts(e.subrange(0, i as int), suffix))
            } else {
                None
            }
        },
        None => {
            if e.len() == 0 {
                Some(Form::Empty)
            } else if compiles(e) {
                Some(form_of_parts(partition_of(e).0, partition_of(e).1))
            } else {
                Some(Form::Path(e))
            }
        },
    }
}

/// A parsed form checked against the rule that a rooted form's pattern has
/// no root of its own.
pub open spec fn validate_model(f: Form) -> Outcome {
    match f {
        Form::GlobIn(_, g) => if rooted(g) {
            Outcome::RuleFailure
        } else {
            Outcome::Built(f)
        },
        _ => Outcome::Built(f),
    }
}

/// What building a treeish from the expression comes to.
pub open spec fn build_model(e: Seq<char>) -> Outcome {
    match parse_model(e) {
        Some(f) => validate_model(f),
        None => Outcome::GlobFailure,
    }
}

} // verus!
