use proc_macro2::Span;
use vstd::prelude::*;

verus! {

/// The fields of a variant as written: none (`A`), positional (`A(..)`) or
/// named (`A { .. }`), with how many there are.
#[derive(Debug)]
pub enum Fields {
    Unit,
    Unnamed(usize),
    Named(usize),
}

impl Fields {
    /// How many fields are written.
    pub open spec fn count(&self) -> nat {
        match self {
            Fields::Unit => 0,
            Fields::Unnamed(n) => *n as nat,
            Fields::Named(n) => *n as nat,
        }
    }

    /// How many fields are written.
    pub fn len(&self) -> (r: usize)
        ensures
            r == self.count(),
    {
        match self {
            Fields::Unit => 0,
            Fields::Unnamed(n) => *n,
            Fields::Named(n) => *n,
        }
    }
}

/// One variant as declared: where it stands, its name, and its fields.
#[derive(Debug)]
pub struct VariantDecl {
    pub span: Span,
    pub ident: String,
    pub fields: Fields,
}

/// What a declaration defines.
#[derive(Debug)]
pub enum Body {
    /// An enum, with its variants in declaration order.
    Enum(Vec<VariantDecl>),
    Struct,
    Union,
}

/// A type declaration handed to the generator.
#[derive(Debug)]
pub struct Declaration {
    pub span: Span,
    pub ident: String,
    pub body: Body,
}

/// A variant accepted by [`crate::parse`]: one without fields.
#[derive(Debug)]
pub struct VariantMetadata {
    pub span: Span,
    pub ident: String,
}

impl VariantMetadata {
    pub fn new(span: Span, ident: String) -> (r: Self)
        ensures
            r.span == span,
            r.ident@ == ident@,
    {
        VariantMetadata { span, ident }
    }
}

/// An enum accepted by [`crate::parse`]: its name and its variants, in
/// declaration order.
#[derive(Debug)]
pub struct Variants {
    pub span: Span,
    pub enum_ident: String,
    pub variant_metadata: Vec<VariantMetadata>,
}

impl Variants {
    pub fn new(span: Span, enum_ident: String, variant_metadata: Vec<VariantMetadata>) -> (r: Self)
        ensures
            r.span == span,
            r.enum_ident@ == enum_ident@,
            r.variant_metadata@ == variant_metadata@,
    {
        Variants { span, enum_ident, variant_metadata }
    }

    /// The variant names, in declaration order.
    pub open spec fn names(&self) -> Seq<Seq<char>> {
        self.variant_metadata@.map_values(|m: VariantMetadata| m.ident@)
    }
}

/// Why a declaration was refused.
#[derive(Debug)]
pub enum ParseError {
    /// The declaration is a struct or a union.
    NotAnEnum { span: Span },
    /// A variant has a field list, here with `count` fields.
    VariantHasFields { span: Span, name: String, count: usize },
}

/// The names of `vs`, in order.
pub open spec fn decl_names(vs: Seq<VariantDecl>) -> Seq<Seq<char>> {
    vs.map_values(|v: VariantDecl| v.ident@)
}

/// Every variant of `vs` is a bare label: it has no field list at all.
pub open spec fn all_unit(vs: Seq<VariantDecl>) -> bool {
    forall|i: int| 0 <= i < vs.len() ==> #[trigger] vs[i].fields is Unit
}

/// `vs[i]` is the first variant of `vs` that is not a bare label.
pub open spec fn first_with_fields(vs: Seq<VariantDecl>, i: int) -> bool {
    &&& 0 <= i < vs.len()
    &&& !(vs[i].fields is Unit)
    &&& all_unit(vs.take(i))
}

} // verus!
