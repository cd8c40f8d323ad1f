use proc_macro2::Span;
use crate::model::{
    all_unit, first_with_fields, Body, Fields, Declaration, ParseError, VariantDecl, VariantMetadata,
    Variants,
};
use vstd::prelude::*;

verus! {

/// What [`parse`] returns for the variants `vs` of an enum declared at
/// `span` with the name `ident`.
pub open spec fn parse_enum_ok(span: Span, ident: Seq<char>, vs: Seq<VariantDecl>, r: Variants) -> bool {
    &&& r.span == span
    &&& r.enum_ident@ == ident
    &&& r.variant_metadata@.len() == vs.len()
    &&& forall|i: int| 0 <= i < vs.len() ==> {
        &&& (#[trigger] r.variant_metadata@[i]).ident@ == vs[i].ident@
        &&& r.variant_metadata@[i].span == vs[i].span
    }
}

/// What [`parse`] returns for `d`.
pub open spec fn parse_spec(d: Declaration, r: Result<Variants, ParseError>) -> bool {
    match d.body {
        Body::Enum(vs) => match r {
            Ok(v) => all_unit(vs@) && parse_enum_ok(d.span, d.ident@, vs@, v),
            Err(ParseError::VariantHasFields { span, name, count }) => exists|i: int| {
                &&& #[trigger] first_with_fields(vs@, i)
                &&& span == vs@[i].span
                &&& name@ == vs@[i].ident@
                &&& count == vs@[i].fields.count()
            },
            Err(ParseError::NotAnEnum { .. }) => false,
        },
        _ => match r {
            Err(ParseError::NotAnEnum { span }) => span == d.span,
            _ => false,
        },
    }
}

/// Checks that `input` is an enum whose variants are bare labels, and keeps
/// its name and its variants in declaration order. A struct or a union gives
/// `NotAnEnum`; otherwise the first variant that is not a bare label (one
/// with a field list, even an empty one) gives `VariantHasFields`, with its
/// name and its number of fields.
pub fn parse(input: Declaration) -> (r: Result<Variants, ParseError>)
    ensures
        parse_spec(input, r),
{
    let input_span = input.span;
    let tok_enum_name = input.ident;
    let enum_variants = match input.body {
        Body::Enum(variants) => variants,
        _ => {
            return Err(ParseError::NotAnEnum { span: input_span });
        },
    };
    let ghost vs = enum_variants@;
    let mut accepted: Vec<VariantMetadata> = Vec::new();
    let mut i: usize = 0;
    while i < enum_variants.len()
        invariant
            vs == enum_variants@,
            input.body matches Body::Enum(v) && v@ == vs,
            input.span == input_span,
            input.ident@ == tok_enum_name@,
            i <= vs.len(),
            accepted@.len() == i,
            all_unit(vs.take(i as int)),
            forall|k: int| 0 <= k < i ==> {
                &&& (#[trigger] accepted@[k]).ident@ == vs[k].ident@
                &&& accepted@[k].span == vs[k].span
            },
        decreases vs.len() - i,
    {
        let variant = &enum_variants[i];
        if !matches!(variant.fields, Fields::Unit) {
            let name = variant.ident.clone();
            assert(first_with_fields(vs, i as int));
            return Err(ParseError::VariantHasFields { span: variant.span, name, count: variant.fields.len() });
        }
        accepted.push(VariantMetadata::new(variant.span, variant.ident.clone()));
        assert(vs.take(i + 1).drop_last() =~= vs.take(i as int));
        i = i + 1;
    }
    assert(vs.take(vs.len() as int) =~= vs);
    Ok(Variants::new(input_span, tok_enum_name, accepted))
}

} // verus!
