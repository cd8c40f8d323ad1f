use proc_macro2::{LexError, Span, TokenStream};
use std::str::FromStr;
use vstd::prelude::*;

verus! {

#[verifier::external_type_specification]
#[verifier::external_body]
pub struct ExSpan(proc_macro2::Span);

#[verifier::external_type_specification]
#[verifier::external_body]
pub struct ExTokenStream(proc_macro2::TokenStream);

#[verifier::external_type_specification]
#[verifier::external_body]
pub struct ExLexError(proc_macro2::LexError);

#[verifier::external_type_specification]
#[verifier::external_body]
pub struct ExError(syn::Error);

/// The messages that a `syn::Error` holds, in the order they are reported.
pub uninterp spec fn error_messages(e: syn::Error) -> Seq<Seq<char>>;

/// The spans at which the messages of a `syn::Error` start, in the same order.
pub uninterp spec fn error_spans(e: syn::Error) -> Seq<Span>;

/// Relies on `<proc_macro2::TokenStream as FromStr>::from_str`, which breaks
/// Rust source text into tokens or reports where it cannot.
#[verifier::external_body]
pub(crate) fn lex(src: &str) -> Result<TokenStream, LexError> {
    TokenStream::from_str(src)
}

/// Relies on `syn::Error::new`, which makes an error holding the one message
/// `message`, reported from `span` to `span`.
#[verifier::external_body]
pub(crate) fn error_at(span: Span, message: String) -> (r: syn::Error)
    ensures
        error_messages(r) == seq![message@],
        error_spans(r) == seq![span],
{
    syn::Error::new(span, message)
}

/// Relies on `<syn::Error as From<proc_macro2::LexError>>::from`, which
/// reports a lexing failure, as one message, where it was found.
#[verifier::external_body]
pub(crate) fn lex_failure(e: LexError) -> (r: syn::Error)
    ensures
        error_messages(r).len() == 1,
        error_spans(r).len() == 1,
{
    syn::Error::from(e)
}

} // verus!
