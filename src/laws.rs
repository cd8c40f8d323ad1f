use crate::codegen::{accessor_source, path_list, variant_path};
use crate::decimal::decimal_text;
use crate::driver::{accepts, lemma_first_with_fields_unique, has_fields_message, not_an_enum_message};
use crate::model::{all_unit, decl_names, first_with_fields, Body, Declaration, ParseError, Variants};
use crate::parse::parse_spec;
use vstd::prelude::*;

verus! {

/// `s` holds no comma, as no Rust identifier does.
pub open spec fn comma_free(s: Seq<char>) -> bool {
    forall|k: int| 0 <= k < s.len() ==> #[trigger] s[k] != ','
}

/// Every name of `vs` is [`comma_free`].
pub open spec fn all_comma_free(vs: Seq<Seq<char>>) -> bool {
    forall|i: int| 0 <= i < vs.len() ==> comma_free(#[trigger] vs[i])
}

/// For an enum whose variants are all bare labels, parsing keeps every variant
/// name in declaration order, and the generated accessor lists exactly those
/// variants: one per declared variant, in that order, with the variant count
/// as the array's length.
pub proof fn lemma_accessor_lists_variants(d: Declaration, r: Result<Variants, ParseError>)
    requires
        parse_spec(d, r),
        accepts(d),
    ensures
        r matches Ok(v) && v.enum_ident@ == d.ident@ && v.names() == decl_names(
            d.body->Enum_0@,
        ) && v.names().len() == d.body->Enum_0@.len() && accessor_source(v.enum_ident@, v.names())
            == accessor_source(d.ident@, decl_names(d.body->Enum_0@)),
{
    let vs = d.body->Enum_0@;
    let v = r->Ok_0;
    assert(v.names() =~= decl_names(vs));
}

/// The paths `e::v` of the variants `vs` of the enum `e`, in order.
pub open spec fn variant_paths(e: Seq<char>, vs: Seq<Seq<char>>) -> Seq<Seq<char>> {
    vs.map_values(|v: Seq<char>| variant_path(e, v))
}

/// `items` written one after another, separated by `", "`.
pub open spec fn joined(items: Seq<Seq<char>>) -> Seq<char>
    decreases items.len(),
{
    if items.len() == 0 {
        Seq::empty()
    } else if items.len() == 1 {
        items[0]
    } else {
        joined(items.drop_last()) + ", "@ + items.last()
    }
}

/// The array literal of the accessor on the enum `e` with the variants `vs`
/// is `vs.len()` items separated by `", "`, the `i`-th being the path
/// `e::vs[i]`, and the accessor gives `vs.len()` as the array's length.
pub proof fn lemma_accessor_items(e: Seq<char>, vs: Seq<Seq<char>>)
    ensures
        path_list(e, vs) == joined(variant_paths(e, vs)),
        variant_paths(e, vs).len() == vs.len(),
        forall|i: int| 0 <= i < vs.len() ==> #[trigger] variant_paths(e, vs)[i] == e + "::"@ + vs[i],
        accessor_source(e, vs) == "impl "@ + e + " { pub fn enumerate_variants() -> std::array::IntoIter<"@
            + e + ", "@ + decimal_text(vs.len()) + "usize> { ["@ + joined(
            variant_paths(e, vs),
        ) + "].into_iter() } }"@,
    decreases vs.len(),
{
    let items = variant_paths(e, vs);
    if vs.len() > 1 {
        lemma_accessor_items(e, vs.drop_last());
        assert(items.drop_last() =~= variant_paths(e, vs.drop_last()));
    }
}

/// The array literal of the accessor determines the variants: for names that
/// hold no comma, two lists of variants give the same literal only when they
/// are the same list, in the same order.
pub proof fn lemma_path_list_injective(e: Seq<char>, vs: Seq<Seq<char>>, ws: Seq<Seq<char>>)
    requires
        comma_free(e),
        all_comma_free(vs),
        all_comma_free(ws),
        path_list(e, vs) == path_list(e, ws),
    ensures
        vs == ws,
    decreases vs.len(),
{
    reveal_strlit("::");
    reveal_strlit(", ");
    if vs.len() == 0 || ws.len() == 0 {
        if vs.len() != 0 {
            assert(path_list(e, vs).len() > 0);
        }
        if ws.len() != 0 {
            assert(path_list(e, ws).len() > 0);
        }
        assert(vs =~= ws);
    } else {
        lemma_last_path_comma_free(e, vs);
        lemma_last_path_comma_free(e, ws);
        let s = path_list(e, vs);
        let pv = variant_path(e, vs.last());
        let pw = variant_path(e, ws.last());
        // The last path is what follows the last comma, or the whole text.
        if pv.len() < pw.len() {
            lemma_comma_before_last(e, vs);
            let k = s.len() - pv.len() - 2;
            assert(s[k] == ',');
            assert(s.subrange(s.len() - pw.len(), s.len() as int) == pw);
            assert(pw[k - (s.len() - pw.len())] == s[k]);
            assert(false);
        } else if pw.len() < pv.len() {
            lemma_comma_before_last(e, ws);
            let k = s.len() - pw.len() - 2;
            assert(s[k] == ',');
            assert(s.subrange(s.len() - pv.len(), s.len() as int) == pv);
            assert(pv[k - (s.len() - pv.len())] == s[k]);
            assert(false);
        }
        assert(pv =~= s.subrange(s.len() - pv.len(), s.len() as int));
        assert(pw =~= s.subrange(s.len() - pw.len(), s.len() as int));
        assert(vs.last() =~= pv.subrange(e.len() as int + 2, pv.len() as int));
        assert(ws.last() =~= pw.subrange(e.len() as int + 2, pw.len() as int));
        if vs.len() == 1 || ws.len() == 1 {
            if vs.len() > 1 {
                lemma_comma_before_last(e, vs);
                assert(s.len() == pw.len());
                assert(false);
            }
            if ws.len() > 1 {
                lemma_comma_before_last(e, ws);
                assert(s.len() == pv.len());
                assert(false);
            }
            assert(vs =~= ws);
        } else {
            let hv = path_list(e, vs.drop_last());
            let hw = path_list(e, ws.drop_last());
            assert(hv =~= s.subrange(0, s.len() - pv.len() - 2));
            assert(hw =~= s.subrange(0, s.len() - pw.len() - 2));
            lemma_path_list_injective(e, vs.drop_last(), ws.drop_last());
            assert(vs =~= vs.drop_last().push(vs.last()));
            assert(ws =~= ws.drop_last().push(ws.last()));
        }
    }
}

proof fn lemma_last_path_comma_free(e: Seq<char>, vs: Seq<Seq<char>>)
    requires
        comma_free(e),
        all_comma_free(vs),
        vs.len() > 0,
    ensures
        comma_free(variant_path(e, vs.last())),
        variant_path(e, vs.last()).len() == e.len() + 2 + vs.last().len(),
{
    reveal_strlit("::");
    let p = variant_path(e, vs.last());
    assert(comma_free(vs[vs.len() - 1]));
    assert forall|k: int| 0 <= k < p.len() implies #[trigger] p[k] != ',' by {
        if k >= e.len() + 2 {
            assert(p[k] == vs.last()[k - e.len() - 2]);
        }
    }
}

proof fn lemma_comma_before_last(e: Seq<char>, vs: Seq<Seq<char>>)
    requires
        vs.len() > 1,
    ensures
        path_list(e, vs).len() >= variant_path(e, vs.last()).len() + 2,
        path_list(e, vs)[path_list(e, vs).len() - variant_path(e, vs.last()).len() - 2] == ',',
{
    reveal_strlit(", ");
    let h = path_list(e, vs.drop_last());
    assert(path_list(e, vs) == h + ", "@ + variant_path(e, vs.last()));
    assert(path_list(e, vs)[h.len() as int] == ',');
}

/// An enum without variants gets an accessor over an empty array of length
/// zero.
pub proof fn lemma_empty_enum(d: Declaration, r: Result<Variants, ParseError>)
    requires
        parse_spec(d, r),
        d.body matches Body::Enum(vs) && vs@.len() == 0,
    ensures
        r matches Ok(v) && v.names().len() == 0 && accessor_source(v.enum_ident@, v.names()) == "impl "@
            + d.ident@ + " { pub fn enumerate_variants() -> std::array::IntoIter<"@ + d.ident@
            + ", "@ + "0"@ + "usize> { ["@ + "].into_iter() } }"@,
{
    reveal_strlit("0");
    let v = r->Ok_0;
    assert(path_list(v.enum_ident@, v.names()) =~= Seq::<char>::empty());
    assert(decimal_text(0) =~= "0"@);
    assert(accessor_source(v.enum_ident@, v.names()) =~= "impl "@ + d.ident@
        + " { pub fn enumerate_variants() -> std::array::IntoIter<"@ + d.ident@ + ", "@ + "0"@
        + "usize> { ["@ + "].into_iter() } }"@);
}

/// An enum with a variant that is not a bare label (a positional or named
/// field list, even an empty one) is refused with `VariantHasFields`; the
/// error names the first such variant and its exact number of fields, and its message holds that name and that number.
pub proof fn lemma_variant_with_fields_refused(
    d: Declaration,
    r: Result<Variants, ParseError>,
    i: int,
)
    requires
        parse_spec(d, r),
        d.body matches Body::Enum(vs) && 0 <= i < vs@.len() && !(vs@[i].fields is Unit),
    ensures
        r matches Err(ParseError::VariantHasFields { name, count, .. }) && exists|j: int|
            #![trigger d.body->Enum_0@[j]]
            0 <= j <= i && first_with_fields(d.body->Enum_0@, j) && name@
                == d.body->Enum_0@[j].ident@ && count == d.body->Enum_0@[j].fields.count(),
        r matches Err(e) && e.message_spec().subrange(
            "variant("@.len() as int,
            "variant("@.len() as int + r->Err_0->name@.len(),
        ) == r->Err_0->name@ && e.message_spec().subrange(
            e.message_spec().len() - decimal_text(r->Err_0->count as nat).len(),
            e.message_spec().len() as int,
        ) == decimal_text(r->Err_0->count as nat),
{
    let vs = d.body->Enum_0@;
    assert(!(vs[i].fields is Unit));
    assert(!all_unit(vs));
    match r {
        Ok(_) => {},
        Err(ParseError::NotAnEnum { .. }) => {},
        Err(ParseError::VariantHasFields { name, count, .. }) => {
            let j = choose|j: int| #[trigger] first_with_fields(vs, j) && name@ == vs[j].ident@ && count == vs[j].fields.count();
            if j > i {
                assert(vs.take(j)[i] == vs[i]);
            }
            let m = has_fields_message(name@, count as nat);
            let a = "variant("@;
            let b = ") expects exactly 0 fields, got "@;
            assert(m == a + name@ + b + decimal_text(count as nat));
            assert(m.subrange(a.len() as int, a.len() as int + name@.len()) =~= name@);
            assert(m.subrange(m.len() - decimal_text(count as nat).len(), m.len() as int)
                =~= decimal_text(count as nat));
        },
    }
}

/// A struct or a union is refused with `NotAnEnum`, reported at the
/// declaration, whose message says that only enums are accepted.
pub proof fn lemma_non_enum_refused(d: Declaration, r: Result<Variants, ParseError>)
    requires
        parse_spec(d, r),
        !(d.body is Enum),
    ensures
        r matches Err(ParseError::NotAnEnum { span }) && span == d.span,
        r matches Err(e) && e.message_spec() == not_an_enum_message(),
{
}

/// Parsing and generation are a function of the declaration: two runs on the
/// same declaration agree on success, on the error and its message, and on
/// every character of the generated source.
pub proof fn lemma_generation_deterministic(
    d: Declaration,
    r1: Result<Variants, ParseError>,
    r2: Result<Variants, ParseError>,
)
    requires
        parse_spec(d, r1),
        parse_spec(d, r2),
    ensures
        r1 is Ok <==> r2 is Ok,
        (r1 is Ok && r2 is Ok) ==> accessor_source(r1->Ok_0.enum_ident@, r1->Ok_0.names())
            == accessor_source(r2->Ok_0.enum_ident@, r2->Ok_0.names()),
        (r1 is Err && r2 is Err) ==> r1->Err_0.message_spec() == r2->Err_0.message_spec(),
{
    match d.body {
        Body::Enum(vs) => {
            match (r1, r2) {
                (Ok(v1), Ok(v2)) => {
                    assert(v1.names() =~= v2.names());
                },
                (Err(ParseError::VariantHasFields { .. }), Ok(_)) => {
                    let i = choose|i: int| #[trigger] first_with_fields(vs@, i);
                    assert(!(vs@[i].fields is Unit));
                },
                (Ok(_), Err(ParseError::VariantHasFields { .. })) => {
                    let i = choose|i: int| #[trigger] first_with_fields(vs@, i);
                    assert(!(vs@[i].fields is Unit));
                },
                (
                    Err(ParseError::VariantHasFields { name: n1, count: c1, .. }),
                    Err(ParseError::VariantHasFields { name: n2, count: c2, .. }),
                ) => {
                    let i = choose|i: int| #[trigger] first_with_fields(vs@, i) && n1@ == vs@[i].ident@ && c1 == vs@[i].fields.count();
                    let j = choose|j: int| #[trigger] first_with_fields(vs@, j) && n2@ == vs@[j].ident@ && c2 == vs@[j].fields.count();
                    lemma_first_with_fields_unique(vs@, i, j);
                },
                _ => {},
            }
        },
        _ => {},
    }
}

} // verus!
