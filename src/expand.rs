//! The generator's entry points: source text and token stream.
use proc_macro2::{LexError, TokenStream};
use vstd::prelude::*;

use crate::decl::{enabled_variants, TypeDecl};
use crate::generate::{accessors_of, generate, none_rejected, Accessor, ExpandError};
use crate::naming::Access;
use crate::render::{impl_text, render_impl};

verus! {

#[verifier::external_type_specification]
#[verifier::external_body]
pub struct ExTokenStream(TokenStream);

#[verifier::external_type_specification]
#[verifier::external_body]
pub struct ExLexError(LexError);

/// Relies on `proc_macro2`'s `FromStr` impl for `TokenStream`, which lexes
/// the text or fails with a `LexError`. Inside a procedural macro the
/// compiler's lexer does the work and elsewhere `proc_macro2`'s own, so
/// nothing is promised of the outcome.
#[verifier::external_body]
fn lex(src: &str) -> (r: Result<TokenStream, LexError>) {
    src.parse::<TokenStream>()
}

/// Whether accessors can be generated for `decl`: it is an enum and none of
/// its enabled variants has named fields.
pub open spec fn expands(decl: TypeDecl) -> bool {
    decl.data is Enum && none_rejected(decl.ignore, decl.variants())
}

/// Whether `s` is the `impl` block of accessors for the enabled variants of
/// `decl`.
pub open spec fn is_expansion(decl: TypeDecl, access: Access, s: Seq<char>) -> bool {
    exists|accs: Seq<Accessor>|
        #[trigger] accessors_of(accs, enabled_variants(decl.ignore, decl.variants()), access)
            && s == impl_text(decl, accs, access)
}

/// The error that generation reports for `decl`, where it does not expand.
pub open spec fn is_expand_error(decl: TypeDecl, e: ExpandError) -> bool {
    let vs = decl.variants();
    match e {
        ExpandError::WrongShape => !(decl.data is Enum),
        ExpandError::NamedFields(k) => {
            &&& decl.data is Enum
            &&& k < vs.len()
            &&& crate::decl::is_rejected(decl.ignore, vs[k as int])
            &&& none_rejected(decl.ignore, vs.subrange(0, k as int))
        },
        ExpandError::InvalidTokens => false,
    }
}

/// Renders the accessor `impl` block of `decl` as source text.
pub fn expand_source(decl: &TypeDecl, access: Access) -> (r: Result<String, ExpandError>)
    requires
        decl.names_ascii(),
    ensures
        r is Ok <==> expands(*decl),
        r matches Ok(s) ==> is_expansion(*decl, access, s@),
        r matches Err(e) ==> is_expand_error(*decl, e),
{
    match generate(decl, access) {
        Ok(accs) => {
            let s = render_impl(decl, &accs, access);
            assert(accessors_of(accs@, enabled_variants(decl.ignore, decl.variants()), access));
            Ok(s)
        },
        Err(e) => {
            proof {
                if let ExpandError::NamedFields(k) = e {
                    let vs = decl.variants();
                    assert(!none_rejected(decl.ignore, vs)) by {
                        assert(crate::decl::is_rejected(decl.ignore, vs[k as int]));
                    }
                }
            }
            Err(e)
        },
    }
}

/// Generates the accessor `impl` block of `decl` as a token stream: the text
/// of [`expand_source`], lexed. Where the declaration does not expand, the
/// generation error is returned; where it does, the outcome is the lexer's:
/// the tokens, or `InvalidTokens`.
pub fn expand(input: &TypeDecl, access: Access) -> (r: Result<TokenStream, ExpandError>)
    requires
        input.names_ascii(),
    ensures
        r is Ok ==> expands(*input),
        r matches Err(e) ==> if expands(*input) {
            e == ExpandError::InvalidTokens
        } else {
            is_expand_error(*input, e)
        },
{
    let src = expand_source(input, access)?;
    match lex(src.as_str()) {
        Ok(tokens) => Ok(tokens),
        Err(_) => Err(ExpandError::InvalidTokens),
    }
}

} // verus!
