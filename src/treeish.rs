//! The treeish entity: a literal path, a pattern, or a pattern rooted at a
//! path, together with the errors of building one.
use vstd::prelude::*;

use crate::glob::{compile_glob, compiles, glob_has_root, partition_of, rooted};
use crate::model::{build_model, form_of_parts, form_wf, validate_model, Form, Outcome};
use crate::parse::{parse, partition_parts, partitioned_form, ParseError, Partitioned};
use crate::text::Text;
use wax::BuildError as WaxBuildError;

verus! {

/// Why a treeish could not be built.
pub enum BuildErrorKind {
    /// The glob engine refused a pattern.
    Glob(WaxBuildError),
    /// The expression could not be consumed by the grammar.
    Parse(ParseError<'static>),
    /// A pattern rooted at a path was itself rooted.
    Rule(RuleError),
}

/// A failure to build a treeish from an expression.
pub struct BuildError {
    pub kind: BuildErrorKind,
}

/// A violation of the rules that a treeish must obey.
pub enum RuleError {
    /// The pattern of a rooted form has a root of its own.
    RootedPatternIn,
}

impl BuildError {
    /// The outcome that this error stands for.
    pub open spec fn outcome(&self) -> Outcome {
        match self.kind {
            BuildErrorKind::Glob(_) => Outcome::GlobFailure,
            BuildErrorKind::Parse(_) => Outcome::ParseFailure,
            BuildErrorKind::Rule(_) => Outcome::RuleFailure,
        }
    }

    pub fn from_glob(error: WaxBuildError) -> (r: BuildError)
        ensures
            r.outcome() == Outcome::GlobFailure,
    {
        BuildError { kind: BuildErrorKind::Glob(error) }
    }

    pub fn from_parse(error: ParseError<'_>) -> (r: BuildError)
        ensures
            r.outcome() == Outcome::ParseFailure,
    {
        BuildError { kind: BuildErrorKind::Parse(error.into_owned()) }
    }

    pub fn from_rule(error: RuleError) -> (r: BuildError)
        ensures
            r.outcome() == Outcome::RuleFailure,
    {
        BuildError { kind: BuildErrorKind::Rule(error) }
    }
}

/// A literal path component; never empty.
pub struct TreeishPath<'p>(Text<'p>);

impl<'p> View for TreeishPath<'p> {
    type V = Seq<char>;

    closed spec fn view(&self) -> Seq<char> {
        self.0@
    }
}

impl<'p> TreeishPath<'p> {
    /// Whether the path owns its text.
    pub closed spec fn is_detached(&self) -> bool {
        self.0.is_detached()
    }

    pub(crate) fn new(text: Text<'p>) -> (r: TreeishPath<'p>)
        ensures
            r@ == text@,
    {
        TreeishPath(text)
    }

    pub fn into_owned(self) -> (r: TreeishPath<'static>)
        ensures
            r@ == self@,
            r.is_detached(),
    {
        TreeishPath(self.0.into_owned())
    }

    pub fn as_str(&self) -> (r: &str)
        ensures
            r@ == self@,
    {
        self.0.as_str()
    }
}

/// A pattern component, held as its glob expression text; never empty.
pub struct TreeishGlob<'t>(Text<'t>);

impl<'t> View for TreeishGlob<'t> {
    type V = Seq<char>;

    closed spec fn view(&self) -> Seq<char> {
        self.0@
    }
}

impl<'t> TreeishGlob<'t> {
    /// Whether the pattern owns its text.
    pub closed spec fn is_detached(&self) -> bool {
        self.0.is_detached()
    }

    pub(crate) fn new(text: Text<'t>) -> (r: TreeishGlob<'t>)
        ensures
            r@ == text@,
    {
        TreeishGlob(text)
    }

    pub fn into_owned(self) -> (r: TreeishGlob<'static>)
        ensures
            r@ == self@,
            r.is_detached(),
    {
        TreeishGlob(self.0.into_owned())
    }

    pub fn as_str(&self) -> (r: &str)
        ensures
            r@ == self@,
    {
        self.0.as_str()
    }

    /// Whether the pattern has a root, as the glob engine reports it.
    pub fn has_root(&self) -> (r: bool)
        ensures
            r == rooted(self@),
    {
        glob_has_root(self.0.as_str())
    }
}

/// A value that is known to have no root.
pub struct Unrooted<T>(T);

impl<T: View> View for Unrooted<T> {
    type V = T::V;

    closed spec fn view(&self) -> T::V {
        self.0@
    }
}

impl<T> Unrooted<T> {
    fn map<U, F: FnOnce(T) -> U>(self, f: F) -> (r: Unrooted<U>)
        requires
            f.requires((self.0,)),
        ensures
            f.ensures((self.0,), r.0),
    {
        Unrooted(f(self.0))
    }

    pub fn get(&self) -> (r: &T)
        ensures
            *r == self.inner(),
    {
        &self.0
    }

    /// The value inside.
    pub closed spec fn inner(&self) -> T {
        self.0
    }
}

impl<'t> Unrooted<TreeishGlob<'t>> {
    pub fn into_owned(self) -> (r: Unrooted<TreeishGlob<'static>>)
        ensures
            r@ == self@,
            r.inner().is_detached(),
    {
        self.map(|glob: TreeishGlob<'t>| -> (g: TreeishGlob<'static>)
            ensures
                g@ == glob@,
                g.is_detached(),
            { glob.into_owned() })
    }
}

/// A literal path, a pattern with a default root, or a pattern rooted at a
/// literal path; `Empty` stands for the empty expression, which denotes
/// nothing.
pub enum Treeish<'t> {
    Empty,
    Path(TreeishPath<'t>),
    Glob(TreeishGlob<'t>),
    GlobIn { tree: TreeishPath<'t>, glob: Unrooted<TreeishGlob<'t>> },
}

impl<'t> View for Treeish<'t> {
    type V = Form;

    open spec fn view(&self) -> Form {
        match self {
            Treeish::Empty => Form::Empty,
            Treeish::Path(path) => Form::Path(path@),
            Treeish::Glob(glob) => Form::Glob(glob@),
            Treeish::GlobIn { tree, glob } => Form::GlobIn(tree@, glob@),
        }
    }
}

/// The outcome that a result of building stands for.
pub open spec fn outcome_of(r: Result<Treeish<'_>, BuildError>) -> Outcome {
    match r {
        Ok(treeish) => Outcome::Built(treeish@),
        Err(error) => error.outcome(),
    }
}

/// `copy` denotes what `t` denotes and owns all of its text.
pub open spec fn detached_copy(t: Treeish<'_>, copy: Treeish<'_>) -> bool {
    copy@ == t@ && copy.is_detached()
}

impl<'t> Treeish<'t> {
    /// Components are non-empty and a rooted form's pattern has no root.
    pub open spec fn wf(&self) -> bool {
        form_wf(self@)
    }

    /// Whether every component owns its text.
    pub open spec fn is_detached(&self) -> bool {
        match self {
            Treeish::Empty => true,
            Treeish::Path(path) => path.is_detached(),
            Treeish::Glob(glob) => glob.is_detached(),
            Treeish::GlobIn { tree, glob } => tree.is_detached() && glob.inner().is_detached(),
        }
    }

    /// Parses the expression and checks the result against the rules.
    pub fn new(expression: &'t str) -> (r: Result<Treeish<'t>, BuildError>)
        ensures
            outcome_of(r) == build_model(expression@),
            r matches Ok(treeish) ==> treeish.wf(),
    {
        match parse(expression) {
            Ok(partitioned) => Treeish::from_partitioned(partitioned),
            Err(error) => Err(error),
        }
    }

    /// Checks a partition against the rules: the pattern of a rooted form
    /// must have no root of its own.
    pub fn from_partitioned(partitioned: Option<Partitioned<'t>>) -> (r: Result<
        Treeish<'t>,
        BuildError,
    >)
        ensures
            outcome_of(r) == validate_model(partitioned_form(partitioned)),
    {
        match partitioned {
            None => Ok(Treeish::Empty),
            Some(Partitioned::Path(path)) => Ok(Treeish::Path(path)),
            Some(Partitioned::Glob(glob)) => Ok(Treeish::Glob(glob)),
            Some(Partitioned::GlobIn(path, glob)) => {
                if glob.has_root() {
                    Err(BuildError::from_rule(RuleError::RootedPatternIn))
                } else {
                    Ok(Treeish::GlobIn { tree: path, glob: Unrooted(glob) })
                }
            },
        }
    }

    /// Builds a treeish from a glob expression, split into its invariant
    /// path prefix and its variant remainder.
    pub fn from_glob(expression: &'t str) -> (r: Result<Treeish<'t>, BuildError>)
        ensures
            outcome_of(r) == (if compiles(expression@) {
                validate_model(
                    form_of_parts(partition_of(expression@).0, partition_of(expression@).1),
                )
            } else {
                Outcome::GlobFailure
            }),
    {
        match compile_glob(expression) {
            Ok(()) => Treeish::from_partitioned(partition_parts(expression)),
            Err(error) => Err(BuildError::from_glob(error)),
        }
    }

    /// A literal path; the empty path denotes nothing.
    pub fn from_path(path: &'t str) -> (r: Treeish<'t>)
        ensures
            r@ == (if path@.len() == 0 {
                Form::Empty
            } else {
                Form::Path(path@)
            }),
    {
        if path.is_empty() {
            Treeish::Empty
        } else {
            Treeish::Path(TreeishPath::new(Text::Borrowed(path)))
        }
    }

    /// Copies all borrowed text, detaching the value from its expression.
    pub fn into_owned(self) -> (r: Treeish<'static>)
        ensures
            detached_copy(self, r),
    {
        match self {
            Treeish::Empty => Treeish::Empty,
            Treeish::Path(path) => Treeish::Path(path.into_owned()),
            Treeish::Glob(glob) => Treeish::Glob(glob.into_owned()),
            Treeish::GlobIn { tree, glob } => Treeish::GlobIn {
                tree: tree.into_owned(),
                glob: glob.into_owned(),
            },
        }
    }

    /// The path of a `Path` treeish.
    pub fn path(self) -> (r: Option<TreeishPath<'t>>)
        ensures
            match self@ {
                Form::Path(p) => r matches Some(path) && path@ == p,
                _ => r is None,
            },
    {
        match self {
            Treeish::Path(path) => Some(path),
            _ => None,
        }
    }

    /// The pattern of a `Glob` treeish.
    pub fn glob(self) -> (r: Option<TreeishGlob<'t>>)
        ensures
            match self@ {
                Form::Glob(g) => r matches Some(glob) && glob@ == g,
                _ => r is None,
            },
    {
        match self {
            Treeish::Glob(glob) => Some(glob),
            _ => None,
        }
    }

    /// The path and pattern of a `GlobIn` treeish.
    pub fn glob_in(self) -> (r: Option<(TreeishPath<'t>, TreeishGlob<'t>)>)
        ensures
            match self@ {
                Form::GlobIn(p, g) => r matches Some(pair) && pair.0@ == p && pair.1@ == g,
                _ => r is None,
            },
    {
        match self {
            Treeish::GlobIn { tree, glob } => Some((tree, glob.0)),
            _ => None,
        }
    }

    /// Where and with which pattern a walk of this treeish runs: a path is
    /// walked whole (the empty pattern matches everything under it), a
    /// pattern is walked from the working directory `.`, and a rooted
    /// pattern from its tree. The empty treeish has no walk: it yields
    /// nothing.
    pub fn walk_target(&self) -> (r: Option<(&str, &str)>)
        ensures
            match self@ {
                Form::Empty => r is None,
                Form::Path(p) => r matches Some(target) && target.0@ == p && target.1@.len() == 0,
                Form::Glob(g) => r matches Some(target) && target.0@ == seq!['.'] && target.1@ == g,
                Form::GlobIn(p, g) => r matches Some(target) && target.0@ == p && target.1@ == g,
            },
    {
        proof {
            reveal_strlit(".");
            reveal_strlit("");
        }
        match self {
            Treeish::Empty => None,
            Treeish::Path(path) => Some((path.as_str(), "")),
            Treeish::Glob(glob) => Some((".", glob.as_str())),
            Treeish::GlobIn { tree, glob } => Some((tree.as_str(), glob.0.as_str())),
        }
    }

    /// Whether there is an explicit literal path component.
    pub fn has_path(&self) -> (r: bool)
        ensures
            r == (self@ is Path || self@ is GlobIn),
    {
        match self {
            Treeish::Path(_) | Treeish::GlobIn { .. } => true,
            _ => false,
        }
    }

    /// Whether there is a pattern component.
    pub fn has_glob(&self) -> (r: bool)
        ensures
            r == (self@ is Glob || self@ is GlobIn),
    {
        match self {
            Treeish::Glob(_) | Treeish::GlobIn { .. } => true,
            _ => false,
        }
    }
}

} // verus!
