//! The calls into the `wax` glob engine that the parser relies on.
//!
//! A pattern is carried through this library as its expression text. What the
//! engine computes from such a text is named here and believed from `wax`.
use vstd::prelude::*;
use wax::BuildError as WaxBuildError;

verus! {

#[verifier::external_type_specification]
#[verifier::external_body]
pub struct ExWaxBuildError(WaxBuildError);

/// Whether `wax::Glob::new` accepts the expression.
pub uninterp spec fn compiles(expression: Seq<char>) -> bool;

/// The pair that `wax::Glob::partition` gives for a compiled expression: the
/// invariant path prefix and the text of the variant remainder.
pub uninterp spec fn partition_of(expression: Seq<char>) -> (Seq<char>, Seq<char>);

/// Whether the expression compiles to a glob that `wax::Glob::has_root`
/// reports as rooted.
pub uninterp spec fn rooted(expression: Seq<char>) -> bool;

/// Relies on `wax::Glob::new`: it succeeds exactly on expressions that it
/// accepts, and reports its error otherwise.
#[verifier::external_body]
pub(crate) fn compile_glob(expression: &str) -> (r: Result<(), WaxBuildError>)
    ensures
        r is Ok <==> compiles(expression@),
{
    match wax::Glob::new(expression) {
        Ok(_) => Ok(()),
        Err(error) => Err(error),
    }
}

/// Relies on `wax::Glob::partition`: the invariant prefix as text (it is built
/// from the expression, so it is valid UTF-8) and the remainder's expression
/// text, which `wax`'s `Display` for `Glob` writes out.
#[verifier::external_body]
pub(crate) fn partition_glob(expression: &str) -> (r: (String, String))
    requires
        compiles(expression@),
    ensures
        (r.0@, r.1@) == partition_of(expression@),
{
    match wax::Glob::new(expression) {
        Ok(glob) => {
            let (prefix, remainder) = glob.partition();
            (prefix.to_string_lossy().into_owned(), remainder.to_string())
        },
        Err(_) => (String::new(), String::new()),
    }
}

/// Relies on `wax::Glob::has_root`: whether the compiled expression begins
/// with a root; an expression that does not compile is reported unrooted.
#[verifier::external_body]
pub(crate) fn glob_has_root(expression: &str) -> (r: bool)
    ensures
        r == rooted(expression@),
{
    match wax::Glob::new(expression) {
        Ok(glob) => glob.has_root(),
        Err(_) => false,
    }
}

} // verus!
