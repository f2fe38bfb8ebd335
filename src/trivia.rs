use vstd::prelude::*;

pub use crate::location::Location;

verus! {

/// A fragment of lexical material, tagged with the range it covers.
#[derive(Clone, Debug, PartialEq)]
pub struct TriviaBase<T> {
    pub location: Location,
    pub node: T,
}

impl<T> TriviaBase<T> {
    pub fn new(location: Location, node: T) -> (r: Self)
        ensures
            r.location == location,
            r.node == node,
    {
        TriviaBase { location, node }
    }
}

/// The kinds of non-semantic lexical material.
#[derive(Clone, Copy, Debug, PartialEq, Eq, Structural)]
pub enum TriviaKind {
    WhiteSpace,
    Newline,
    Comment,
}

pub type Trivia = TriviaBase<TriviaKind>;

/// Debugging placeholder for a kind of trivia; the text itself is recovered
/// by slicing the source with the trivia's location.
pub open spec fn placeholder(kind: TriviaKind) -> Seq<char> {
    match kind {
        TriviaKind::WhiteSpace => "' '"@,
        TriviaKind::Newline => "<NEWLINE>"@,
        TriviaKind::Comment => "<COMMENT>"@,
    }
}

impl TriviaBase<TriviaKind> {
    /// Renders the placeholder of this trivia's kind.
    pub fn to_string(&self) -> (r: String)
        ensures
            r@ == placeholder(self.node),
    {
        match self.node {
            TriviaKind::WhiteSpace => String::from_str("' '"),
            TriviaKind::Newline => String::from_str("<NEWLINE>"),
            TriviaKind::Comment => String::from_str("<COMMENT>"),
        }
    }
}

} // verus!
