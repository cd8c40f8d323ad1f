use crate::decimal::{decimal_text, push_decimal};
use crate::codegen::accessor_source;
use crate::model::{
    all_unit, decl_names, first_with_fields, Body, Declaration, ParseError, VariantDecl, Variants,
};
use crate::parse::{parse, parse_spec};
use crate::tokens::{error_at, error_messages, error_spans, lex, lex_failure};
use proc_macro2::{Span, TokenStream};
use vstd::prelude::*;

verus! {

/// `d` is an enum whose variants are all bare labels: the declarations that the
/// generator accepts.
pub open spec fn accepts(d: Declaration) -> bool {
    d.body matches Body::Enum(vs) && all_unit(vs@)
}

/// The message reported for a declaration that is not an enum.
pub open spec fn not_an_enum_message() -> Seq<char> {
    "derive macro only works on enums"@
}

/// The message reported for the variant `name` with `count` fields.
pub open spec fn has_fields_message(name: Seq<char>, count: nat) -> Seq<char> {
    "variant("@ + name + ") expects exactly 0 fields, got "@ + decimal_text(count)
}

impl ParseError {
    /// What this error reports, as given by [`not_an_enum_message`] and
    /// [`has_fields_message`].
    pub open spec fn message_spec(&self) -> Seq<char> {
        match self {
            ParseError::NotAnEnum { .. } => not_an_enum_message(),
            ParseError::VariantHasFields { name, count, .. } => has_fields_message(name@, *count as nat),
        }
    }

    /// The human-readable text of this error.
    pub fn message(&self) -> (r: String)
        ensures
            r@ == self.message_spec(),
    {
        match self {
            ParseError::NotAnEnum { .. } => String::from_str("derive macro only works on enums"),
            ParseError::VariantHasFields { name, count, .. } => {
                let mut out = String::from_str("variant(");
                out.append(name.as_str());
                out.append(") expects exactly 0 fields, got ");
                push_decimal(&mut out, *count);
                assert(out@ =~= self.message_spec());
                out
            },
        }
    }

    /// Where this error is reported: the declaration for `NotAnEnum`, the
    /// variant for `VariantHasFields`.
    pub open spec fn span_spec(&self) -> Span {
        match self {
            ParseError::NotAnEnum { span } => *span,
            ParseError::VariantHasFields { span, .. } => *span,
        }
    }

    /// This error as a compiler diagnostic: the one message
    /// [`ParseError::message`], reported where the error was found.
    pub fn into_error(self) -> (r: syn::Error)
        ensures
            error_messages(r) == seq![self.message_spec()],
            error_spans(r) == seq![self.span_spec()],
    {
        let message = self.message();
        match self {
            ParseError::NotAnEnum { span } => error_at(span, message),
            ParseError::VariantHasFields { span, .. } => error_at(span, message),
        }
    }
}

/// The message of the error that [`crate::parse`] gives for a refused
/// declaration `d`.
pub open spec fn refusal_message(d: Declaration) -> Seq<char> {
    match d.body {
        Body::Enum(vs) => {
            let i = choose|i: int| first_with_fields(vs@, i);
            has_fields_message(vs@[i].ident@, vs@[i].fields.count())
        },
        _ => not_an_enum_message(),
    }
}

/// Where the error that [`crate::parse`] gives for a refused declaration `d`
/// is reported.
pub open spec fn refusal_span(d: Declaration) -> Span {
    match d.body {
        Body::Enum(vs) => {
            let i = choose|i: int| first_with_fields(vs@, i);
            vs@[i].span
        },
        _ => d.span,
    }
}

/// Breaks `src` into tokens; a lexing failure becomes a one-message error.
fn tokenize(src: &str) -> (r: syn::Result<TokenStream>)
    ensures
        r is Err ==> error_messages(r->Err_0).len() == 1,
{
    match lex(src) {
        Ok(tokens) => Ok(tokens),
        Err(e) => Err(lex_failure(e)),
    }
}

/// Writes the accessor for `variants` as source text, as
/// [`Variants::source_text`] gives it, and breaks it into tokens. Whether the
/// text lexes is up to the lexer; a failure is reported as one message.
pub fn codegen(variants: Variants) -> (r: syn::Result<TokenStream>)
    ensures
        r is Err ==> error_messages(r->Err_0).len() == 1,
{
    let src = variants.source_text();
    tokenize(src.as_str())
}

/// The source of the accessor for `input`, or the reason it is refused: the
/// text that [`generate_variant_iter`] lexes.
pub fn generate_source(input: Declaration) -> (r: Result<String, ParseError>)
    ensures
        r is Ok <==> accepts(input),
        r is Ok ==> r->Ok_0@ == accessor_source(input.ident@, decl_names(input.body->Enum_0@)),
        r is Err ==> parse_spec(input, Err(r->Err_0)),
        r is Err ==> r->Err_0.message_spec() == refusal_message(input),
        r is Err ==> r->Err_0.span_spec() == refusal_span(input),
{
    let ghost d = input;
    let parsed = parse(input);
    proof {
        lemma_parse_ok_iff_accepts(d, parsed);
    }
    match parsed {
        Ok(variants) => {
            let src = variants.source_text();
            assert(variants.names() =~= decl_names(d.body->Enum_0@));
            Ok(src)
        },
        Err(e) => {
            proof {
                lemma_refusal(d, e);
            }
            Err(e)
        },
    }
}

/// Parses `input` and, where it is accepted, lexes the source that
/// [`generate_source`] gives. A refused declaration gives exactly one
/// message, that of its [`ParseError`], reported where the error was found.
/// An accepted one gives tokens, or one message where the lexer fails.
pub fn generate_variant_iter(input: Declaration) -> (r: syn::Result<TokenStream>)
    ensures
        r is Ok ==> accepts(input),
        !accepts(input) ==> r is Err && error_messages(r->Err_0) == seq![refusal_message(input)]
            && error_spans(r->Err_0) == seq![refusal_span(input)],
        r is Err ==> error_messages(r->Err_0).len() == 1,
{
    match generate_source(input) {
        Ok(src) => tokenize(src.as_str()),
        Err(e) => Err(e.into_error()),
    }
}

/// [`parse`] succeeds exactly on the declarations that [`accepts`] holds of.
pub proof fn lemma_parse_ok_iff_accepts(d: Declaration, r: Result<Variants, ParseError>)
    requires
        parse_spec(d, r),
    ensures
        r is Ok <==> accepts(d),
{
    if let Body::Enum(vs) = d.body {
        if let Err(ParseError::VariantHasFields { .. }) = r {
            let i = choose|i: int| #[trigger] first_with_fields(vs@, i);
            assert(!all_unit(vs@));
        }
    }
}

/// Only one variant of `vs` is the first that is not a bare label.
pub proof fn lemma_first_with_fields_unique(vs: Seq<VariantDecl>, i: int, j: int)
    requires
        first_with_fields(vs, i),
        first_with_fields(vs, j),
    ensures
        i == j,
{
    if i < j {
        assert(vs.take(j)[i] == vs[i]);
    }
    if j < i {
        assert(vs.take(i)[j] == vs[j]);
    }
}

/// The error that [`parse`] gives carries the message and the place that
/// [`refusal_message`] and [`refusal_span`] give.
pub proof fn lemma_refusal(d: Declaration, e: ParseError)
    requires
        parse_spec(d, Err(e)),
    ensures
        e.message_spec() == refusal_message(d),
        e.span_spec() == refusal_span(d),
{
    if let Body::Enum(vs) = d.body {
        if let ParseError::VariantHasFields { name, count, span } = e {
            let j = choose|j: int| #[trigger] first_with_fields(vs@, j) && span == vs@[j].span
                && name@ == vs@[j].ident@ && count == vs@[j].fields.count();
            let i = choose|i: int| first_with_fields(vs@, i);
            lemma_first_with_fields_unique(vs@, i, j);
        }
    }
}

} // verus!
