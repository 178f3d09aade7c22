//! The output of the encoder and its mathematical model.
//!
//! The model is the narrowing of one character to a signed byte
//! ([`char_narrow`]) and the payload of a whole text: every character
//! narrowed, in order, followed by the zero terminator ([`payload`]).

use crate::input::Span;
use vstd::prelude::*;

verus! {

/// The value of one character narrowed to a signed 8-bit element: the low
/// eight bits of its scalar value, read as a two's-complement byte. For
/// plain ASCII this is the character's code itself.
pub open spec fn char_narrow(c: char) -> i8 {
    let v: int = (c as int) % 256;
    if v < 128 {
        v as i8
    } else {
        (v - 256) as i8
    }
}

/// The full initializer for a text: each character narrowed, in order, and a
/// trailing zero element.
pub open spec fn payload(text: Seq<char>) -> Seq<i8> {
    text.map_values(|c: char| char_narrow(c)).push(0i8)
}

/// The completed declaration: a named, fixed-length, immutable array of
/// signed 8-bit elements with an explicit initializer, marked so the
/// toolchain neither renames the symbol nor warns about its style or use.
#[derive(Debug, PartialEq, Eq)]
pub struct DeclarationArtifact {
    /// The externally visible symbol name.
    pub name: String,
    /// The number of elements: characters of the text plus the terminator.
    pub length: usize,
    /// Every element, explicitly present and in order.
    pub initializer: Vec<i8>,
    /// The symbol must keep its given name, unmangled.
    pub no_mangle: bool,
    /// Do not warn if the symbol appears unused.
    pub allow_dead_code: bool,
    /// Do not warn if the name ignores constant-casing conventions.
    pub allow_non_upper_case_globals: bool,
    /// The symbol is publicly visible.
    pub exported: bool,
    /// The array's contents never change after declaration.
    pub immutable: bool,
    /// Where the declaration originated.
    pub span: Span,
}

/// What the encoder promises of a successful result: the artifact for `name`
/// and `text`, declared at `sp`. This pins every field.
pub open spec fn is_artifact_for(
    a: DeclarationArtifact,
    sp: Span,
    name: Seq<char>,
    text: Seq<char>,
) -> bool {
    &&& a.name@ == name
    &&& a.length == text.len() + 1
    &&& a.initializer@ == payload(text)
    &&& a.no_mangle
    &&& a.allow_dead_code
    &&& a.allow_non_upper_case_globals
    &&& a.exported
    &&& a.immutable
    &&& a.span == sp
}

/// The shape of every payload: one element per character plus the
/// terminator, the terminator exactly zero, and each other element the
/// narrowing of the character at its index.
pub proof fn lemma_payload_shape(text: Seq<char>)
    ensures
        payload(text).len() == text.len() + 1,
        payload(text)[text.len() as int] == 0i8,
        forall|i: int| 0 <= i < text.len() ==> payload(text)[i] == char_narrow(text[i]),
{
}

/// For a text of nonzero plain-ASCII characters, no element before the
/// terminator is zero: the terminator is the only zero in the initializer.
pub proof fn lemma_payload_ascii_nonzero(text: Seq<char>)
    requires
        forall|i: int| 0 <= i < text.len() ==> ((#[trigger] text[i]) as int > 0 && (text[i] as int)
            < 128),
    ensures
        forall|i: int| 0 <= i < text.len() ==> payload(text)[i] != 0i8,
{
    assert forall|i: int| 0 <= i < text.len() implies payload(text)[i] != 0i8 by {
        assert((text[i] as int) > 0 && (text[i] as int) < 128);
        assert((text[i] as int) % 256 == text[i] as int);
    }
}

/// Encoding is deterministic: two artifacts produced for the same location,
/// name and text are structurally identical in every field.
pub proof fn lemma_encode_deterministic(
    a1: DeclarationArtifact,
    a2: DeclarationArtifact,
    sp: Span,
    name: Seq<char>,
    text: Seq<char>,
)
    requires
        is_artifact_for(a1, sp, name, text),
        is_artifact_for(a2, sp, name, text),
    ensures
        a1.name@ == a2.name@,
        a1.length == a2.length,
        a1.initializer@ == a2.initializer@,
        a1.no_mangle == a2.no_mangle,
        a1.allow_dead_code == a2.allow_dead_code,
        a1.allow_non_upper_case_globals == a2.allow_non_upper_case_globals,
        a1.exported == a2.exported,
        a1.immutable == a2.immutable,
        a1.span == a2.span,
{
}

} // verus!
