//! The invocation surface: source locations and caller-supplied arguments.
//!
//! The encoder is handed a list of arguments, each carrying the source
//! location it came from and either the character sequence of a string
//! literal or the mark that the caller supplied a computed value instead.

use vstd::prelude::*;

verus! {

/// A source location, so that every diagnostic can point at the text that
/// caused it.
#[derive(Debug, Clone, Copy, PartialEq, Eq, Structural)]
pub struct Span {
    /// Offset of the first position covered.
    pub lo: usize,
    /// Offset one past the last position covered.
    pub hi: usize,
}

/// What a single caller-supplied argument turned out to be.
#[derive(Debug, PartialEq, Eq)]
pub enum ArgKind {
    /// A string literal, with its characters.
    StringLiteral(String),
    /// Anything else: a computed value, or a literal of another kind.
    Computed,
}

/// One caller-supplied argument together with where it stands in the source.
#[derive(Debug, PartialEq, Eq)]
pub struct Arg {
    /// The source location of this argument.
    pub span: Span,
    /// Its classification.
    pub kind: ArgKind,
}

/// Whether an argument is a string literal.
pub open spec fn is_string_literal(arg: Arg) -> bool {
    arg.kind is StringLiteral
}

/// The characters of a string-literal argument.
pub open spec fn literal_chars(arg: Arg) -> Seq<char>
    recommends
        is_string_literal(arg),
{
    match arg.kind {
        ArgKind::StringLiteral(s) => s@,
        ArgKind::Computed => Seq::empty(),
    }
}

/// Ensure `arg` is a string literal and hand its characters back; a computed
/// value yields nothing.
pub fn extract_literal<'a>(arg: &'a Arg) -> (r: Option<&'a String>)
    ensures
        r is Some <==> is_string_literal(*arg),
        r matches Some(s) ==> s@ == literal_chars(*arg),
{
    match &arg.kind {
        ArgKind::StringLiteral(s) => Some(s),
        ArgKind::Computed => None,
    }
}

} // verus!
