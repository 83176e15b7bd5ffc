//! Text that is either borrowed from an expression or owned outright.
use vstd::prelude::*;

verus! {

/// A piece of text that borrows from the expression it came from, or owns a
/// copy of it.
pub enum Text<'t> {
    Borrowed(&'t str),
    Owned(String),
}

impl<'t> View for Text<'t> {
    type V = Seq<char>;

    open spec fn view(&self) -> Seq<char> {
        match self {
            Text::Borrowed(s) => s@,
            Text::Owned(s) => s@,
        }
    }
}

impl<'t> Text<'t> {
    /// Whether the text has no lifetime tie to an expression.
    pub open spec fn is_detached(&self) -> bool {
        self is Owned
    }

    pub fn as_str(&self) -> (r: &str)
        ensures
            r@ == self@,
    {
        match self {
            Text::Borrowed(s) => s,
            Text::Owned(s) => s.as_str(),
        }
    }

    pub fn is_empty(&self) -> (r: bool)
        ensures
            r == (self@.len() == 0),
    {
        self.as_str().is_empty()
    }

    /// The text itself where it is non-empty.
    pub fn non_empty(self) -> (r: Option<Text<'t>>)
        ensures
            match r {
                Some(t) => t@ == self@ && self@.len() > 0,
                None => self@.len() == 0,
            },
    {
        if self.is_empty() {
            None
        } else {
            Some(self)
        }
    }

    /// Copies borrowed text; owned text is moved as it is.
    pub fn into_owned(self) -> (r: Text<'static>)
        ensures
            r@ == self@,
            r.is_detached(),
    {
        match self {
            Text::Borrowed(s) => Text::Owned(s.to_owned()),
            Text::Owned(s) => Text::Owned(s),
        }
    }
}

} // verus!
