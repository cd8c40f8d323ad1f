use crate::decimal::{decimal_text, push_decimal};
use crate::model::{VariantMetadata, Variants};
use vstd::prelude::*;

verus! {

/// The path of variant `v` of the enum `e`: `e::v`.
pub open spec fn variant_path(e: Seq<char>, v: Seq<char>) -> Seq<char> {
    e + "::"@ + v
}

/// The paths of the variants `vs` of the enum `e`, in order, separated by
/// `", "`.
pub open spec fn path_list(e: Seq<char>, vs: Seq<Seq<char>>) -> Seq<char>
    decreases vs.len(),
{
    if vs.len() == 0 {
        Seq::empty()
    } else if vs.len() == 1 {
        variant_path(e, vs[0])
    } else {
        path_list(e, vs.drop_last()) + ", "@ + variant_path(e, vs.last())
    }
}

/// The source of the accessor on the enum `e` with the variants `vs`: an
/// `impl` block whose `enumerate_variants` returns an iterator over an array
/// of `vs.len()` values, one per variant, in order.
pub open spec fn accessor_source(e: Seq<char>, vs: Seq<Seq<char>>) -> Seq<char> {
    "impl "@ + e + " { pub fn enumerate_variants() -> std::array::IntoIter<"@ + e + ", "@
        + decimal_text(vs.len()) + "usize> { ["@ + path_list(e, vs) + "].into_iter() } }"@
}

/// Appends the paths of `variants` on the enum `e`, separated by `", "`.
fn push_path_list(out: &mut String, e: &String, variants: &Vec<VariantMetadata>)
    ensures
        final(out)@ == old(out)@ + path_list(
            e@,
            variants@.map_values(|m: VariantMetadata| m.ident@),
        ),
{
    let ghost names = variants@.map_values(|m: VariantMetadata| m.ident@);
    let ghost start = out@;
    let mut i: usize = 0;
    while i < variants.len()
        invariant
            names == variants@.map_values(|m: VariantMetadata| m.ident@),
            i <= variants@.len(),
            out@ == start + path_list(e@, names.take(i as int)),
        decreases variants@.len() - i,
    {
        if i > 0 {
            out.append(", ");
        }
        out.append(e.as_str());
        out.append("::");
        out.append(variants[i].ident.as_str());
        proof {
            let t = names.take(i + 1);
            assert(t.drop_last() =~= names.take(i as int));
            assert(t.last() == variants@[i as int].ident@);
            if i == 0 {
                assert(names.take(0) =~= Seq::<Seq<char>>::empty());
            }
        }
        i = i + 1;
    }
    assert(names.take(variants@.len() as int) =~= names);
}

impl Variants {
    /// The source of the accessor for this enum, exactly as
    /// [`accessor_source`] gives it.
    pub fn source_text(&self) -> (r: String)
        ensures
            r@ == accessor_source(self.enum_ident@, self.names()),
    {
        let e = &self.enum_ident;
        let mut out = String::new();
        out.append("impl ");
        out.append(e.as_str());
        out.append(" { pub fn enumerate_variants() -> std::array::IntoIter<");
        out.append(e.as_str());
        out.append(", ");
        push_decimal(&mut out, self.variant_metadata.len());
        out.append("usize> { [");
        push_path_list(&mut out, e, &self.variant_metadata);
        out.append("].into_iter() } }");
        assert(self.names().len() == self.variant_metadata@.len());
        assert(out@ =~= accessor_source(self.enum_ident@, self.names()));
        out
    }
}

} // verus!
