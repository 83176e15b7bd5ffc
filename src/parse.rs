//! Splitting an expression into a path, a pattern, or both.
use vstd::prelude::*;

use crate::glob::{compile_glob, compiles, partition_glob, partition_of};
use crate::model::{first_separator, form_of_parts, parse_model, separator_from, Form, Outcome};
use crate::text::Text;
use crate::treeish::{BuildError, TreeishGlob, TreeishPath};

verus! {

/// The expression could not be consumed by the grammar.
pub struct ParseError<'t> {
    expression: Text<'t>,
}

impl<'t> ParseError<'t> {
    /// The expression that failed to parse.
    pub closed spec fn expression_view(&self) -> Seq<char> {
        self.expression@
    }

    pub fn new(expression: &'t str) -> (r: ParseError<'t>)
        ensures
            r.expression_view() == expression@,
    {
        ParseError { expression: Text::Borrowed(expression) }
    }

    pub fn into_owned(self) -> (r: ParseError<'static>)
        ensures
            r.expression_view() == self.expression_view(),
    {
        let ParseError { expression } = self;
        ParseError { expression: expression.into_owned() }
    }

    pub fn expression(&self) -> (r: &str)
        ensures
            r@ == self.expression_view(),
    {
        self.expression.as_str()
    }
}

/// A parsed expression before the rules are checked.
pub enum Partitioned<'t> {
    Path(TreeishPath<'t>),
    Glob(TreeishGlob<'t>),
    GlobIn(TreeishPath<'t>, TreeishGlob<'t>),
}

/// The form of a parsed expression; no partition is the empty form.
pub open spec fn partitioned_form(p: Option<Partitioned<'_>>) -> Form {
    match p {
        None => Form::Empty,
        Some(Partitioned::Path(path)) => Form::Path(path@),
        Some(Partitioned::Glob(glob)) => Form::Glob(glob@),
        Some(Partitioned::GlobIn(path, glob)) => Form::GlobIn(path@, glob@),
    }
}

/// The index of the first `::` in the expression.
fn find_separator(expression: &str) -> (r: Option<usize>)
    ensures
        match r {
            Some(i) => first_separator(expression@) == Some(i as nat),
            None => first_separator(expression@) is None,
        },
{
    let n = expression.unicode_len();
    let mut i: usize = 0;
    while n > 0 && i < n - 1
        invariant
            n == expression@.len(),
            i <= n,
            separator_from(expression@, 0) == separator_from(expression@, i as nat),
        decreases n - i,
    {
        if expression.get_char(i) == ':' && expression.get_char(i + 1) == ':' {
            return Some(i);
        }
        i = i + 1;
    }
    None
}

/// Combines a path and a pattern by which of them is non-empty.
fn combine<'t>(path: Text<'t>, glob: Text<'t>) -> (r: Option<Partitioned<'t>>)
    ensures
        partitioned_form(r) == form_of_parts(path@, glob@),
{
    match (path.non_empty(), glob.non_empty()) {
        (Some(path), Some(glob)) => Some(
            Partitioned::GlobIn(TreeishPath::new(path), TreeishGlob::new(glob)),
        ),
        (None, Some(glob)) => Some(Partitioned::Glob(TreeishGlob::new(glob))),
        (Some(path), None) => Some(Partitioned::Path(TreeishPath::new(path))),
        (None, None) => None,
    }
}

/// Splits a compiled glob expression into its invariant path prefix and its
/// variant remainder.
pub(crate) fn partition_parts(expression: &str) -> (r: Option<Partitioned<'static>>)
    requires
        compiles(expression@),
    ensures
        partitioned_form(r) == form_of_parts(partition_of(expression@).0, partition_of(expression@).1),
{
    let (prefix, remainder) = partition_glob(expression);
    combine(Text::Owned(prefix), Text::Owned(remainder))
}

/// Parses an expression: the first `::` splits it into a path and a pattern;
/// without one, the whole expression is read as a pattern where it compiles
/// and as a literal path where it does not.
pub fn parse<'t>(expression: &'t str) -> (r: Result<Option<Partitioned<'t>>, BuildError>)
    ensures
        match r {
            Ok(p) => parse_model(expression@) == Some(partitioned_form(p)),
            Err(error) => parse_model(expression@) is None && error.outcome() == Outcome::GlobFailure,
        },
{
    match find_separator(expression) {
        Some(i) => {
            proof {
                crate::model::lemma_separator_from(expression@, 0);
            }
            let n = expression.unicode_len();
            let prefix = expression.substring_char(0, i);
            let suffix = expression.substring_char(i + 2, n);
            match compile_glob(suffix) {
                Ok(()) => Ok(combine(Text::Borrowed(prefix), Text::Borrowed(suffix))),
                Err(error) => Err(BuildError::from_glob(error)),
            }
        },
        None => {
            if expression.is_empty() {
                Ok(None)
            } else {
                match compile_glob(expression) {
                    Ok(()) => Ok(partition_parts(expression)),
                    Err(_) => Ok(Some(Partitioned::Path(TreeishPath::new(Text::Borrowed(expression))))),
                }
            }
        },
    }
}

} // verus!
