//! The literal encoder: validation of the caller's arguments and
//! construction of the declaration artifact.

use crate::artifact::{char_narrow, is_artifact_for, payload, DeclarationArtifact};
use crate::input::{extract_literal, is_string_literal, literal_chars, Arg, ArgKind, Span};
use vstd::prelude::*;

verus! {

/// Why an invocation produced no artifact.
#[derive(Debug, Clone, Copy, PartialEq, Eq, Structural)]
pub enum EncodingError {
    /// Other than exactly two inputs were supplied; `found` is how many.
    WrongArity { found: usize, span: Span },
    /// The input at `position` (1 or 2) is not a string literal.
    NotALiteral { position: usize, span: Span },
}

/// Narrow one character to a signed 8-bit element, the equivalent of an
/// explicit cast expression in the emitted initializer.
pub fn encode_char(c: char) -> (b: i8)
    ensures
        b == char_narrow(c),
{
    let v: u32 = (c as u32) % 256;
    if v < 128 {
        v as i8
    } else {
        (v as i32 - 256) as i8
    }
}

/// Build the completed declaration for a validated name and text: each
/// character narrowed in order, the zero terminator appended, and every
/// marker of the declaration set.
pub fn build_artifact(sp: Span, name: &str, text: &str) -> (a: DeclarationArtifact)
    ensures
        is_artifact_for(a, sp, name@, text@),
{
    let n: usize = text.unicode_len();
    let mut initializer: Vec<i8> = Vec::new();
    let mut i: usize = 0;
    while i < n
        invariant
            i <= n,
            n == text@.len(),
            initializer@.len() == i,
            forall|j: int| 0 <= j < i ==> initializer@[j] == char_narrow(text@[j]),
        decreases n - i,
    {
        let c = text.get_char(i);
        initializer.push(encode_char(c));
        i = i + 1;
    }
    initializer.push(0i8);
    proof {
        assert(initializer@ =~= payload(text@));
    }
    let length = initializer.len();
    DeclarationArtifact {
        name: String::from_str(name),
        length,
        initializer,
        no_mangle: true,
        allow_dead_code: true,
        allow_non_upper_case_globals: true,
        exported: true,
        immutable: true,
        span: sp,
    }
}

/// Encode an invocation: exactly two string-literal arguments yield the
/// declaration artifact; any other arity yields `WrongArity` with the exact
/// count, and a non-literal argument yields `NotALiteral` naming its
/// position, each error carrying the offending source location.
pub fn encode(sp: Span, args: &Vec<Arg>) -> (r: Result<DeclarationArtifact, EncodingError>)
    ensures
        args@.len() != 2 ==> r == Err::<DeclarationArtifact, EncodingError>(
            EncodingError::WrongArity { found: args@.len() as usize, span: sp },
        ),
        args@.len() == 2 && !is_string_literal(args@[0]) ==> r == Err::<
            DeclarationArtifact,
            EncodingError,
        >(EncodingError::NotALiteral { position: 1, span: args@[0].span }),
        args@.len() == 2 && is_string_literal(args@[0]) && !is_string_literal(args@[1]) ==> r
            == Err::<DeclarationArtifact, EncodingError>(
            EncodingError::NotALiteral { position: 2, span: args@[1].span },
        ),
        args@.len() == 2 && is_string_literal(args@[0]) && is_string_literal(args@[1]) ==> (
        r matches Ok(a) && is_artifact_for(
            a,
            sp,
            literal_chars(args@[0]),
            literal_chars(args@[1]),
        )),
{
    if args.len() != 2 {
        return Err(EncodingError::WrongArity { found: args.len(), span: sp });
    }
    let name = match extract_literal(&args[0]) {
        Some(s) => s,
        None => {
            return Err(EncodingError::NotALiteral { position: 1, span: args[0].span });
        },
    };
    let text = match extract_literal(&args[1]) {
        Some(s) => s,
        None => {
            return Err(EncodingError::NotALiteral { position: 2, span: args[1].span });
        },
    };
    Ok(build_artifact(sp, name.as_str(), text.as_str()))
}

/// The convenience forwarding form: the symbol name is the spelling of a
/// bare identifier, and the invocation is delegated to [`encode`], so the
/// artifact is always exported whatever the caller's context.
pub fn export_cstr(sp: Span, ident: &str, text: Arg) -> (r: Result<
    DeclarationArtifact,
    EncodingError,
>)
    ensures
        !is_string_literal(text) ==> r == Err::<DeclarationArtifact, EncodingError>(
            EncodingError::NotALiteral { position: 2, span: text.span },
        ),
        is_string_literal(text) ==> (r matches Ok(a) && is_artifact_for(
            a,
            sp,
            ident@,
            literal_chars(text),
        ) && a.exported),
{
    let name_arg = Arg { span: sp, kind: ArgKind::StringLiteral(String::from_str(ident)) };
    let mut args: Vec<Arg> = Vec::new();
    args.push(name_arg);
    args.push(text);
    encode(sp, &args)
}

} // verus!
