//! Builds, for an enum whose variants carry no data, an associated function
//! `enumerate_variants` that yields every variant in declaration order.
//!
//! The pipeline has three stages: [`parse`] checks a declaration and keeps
//! its variant names, [`codegen`] writes the accessor as Rust source and
//! lexes it, and [`generate_variant_iter`] runs both, through
//! [`generate_source`].

mod codegen;
mod decimal;
mod driver;
mod laws;
mod model;
mod parse;
mod tokens;

pub use codegen::{accessor_source, path_list, variant_path};
pub use decimal::{decimal, decimal_text, digit_char, push_decimal};
pub use driver::{
    accepts, codegen, generate_source, generate_variant_iter, has_fields_message,
    lemma_first_with_fields_unique, lemma_parse_ok_iff_accepts, lemma_refusal,
    not_an_enum_message, refusal_message, refusal_span,
};
pub use laws::{
    all_comma_free, comma_free, joined, lemma_accessor_items, lemma_accessor_lists_variants,
    lemma_empty_enum, lemma_generation_deterministic, lemma_non_enum_refused, lemma_path_list_injective,
    lemma_variant_with_fields_refused, variant_paths,
};
pub use model::{
    all_unit, decl_names, first_with_fields, Body, Declaration, Fields, ParseError, VariantDecl,
    VariantMetadata, Variants,
};
pub use parse::{parse, parse_enum_ok, parse_spec};
pub use tokens::{error_messages, error_spans};
