//! The structured description of a type declaration that accessors are
//! generated from.
use vstd::prelude::*;

use crate::naming::all_ascii;

verus! {

/// The field list of one enum variant.
#[derive(Debug)]
pub enum Fields {
    /// `Variant`
    Unit,
    /// `Variant(T1, ..., Tn)`: the source text of each field type, in order.
    Unnamed(Vec<String>),
    /// `Variant { a: T1, ... }`: the field names, in order.
    Named(Vec<String>),
}

/// One arm of an enum declaration.
#[derive(Debug)]
pub struct Variant {
    /// The variant's identifier.
    pub name: String,
    /// Its field list.
    pub fields: Fields,
    /// The variant's own `ignore` setting: `Some(true)` skips it,
    /// `Some(false)` keeps it even on an ignored type, `None` follows the type.
    pub ignore: Option<bool>,
}

/// The body of a declaration.
#[derive(Debug)]
pub enum Data {
    /// An enum with its variants in declared order.
    Enum(Vec<Variant>),
    /// A struct of any form.
    Struct,
    /// A union.
    Union,
}

/// A type declaration together with its attribute configuration.
///
/// The three generics strings are the source text of the declaration's
/// generic parameters as they appear after `impl`, after the type name, and
/// as the `where` clause; each may be empty. A field-level `ignore` has no
/// effect on per-variant accessors and is therefore not recorded.
#[derive(Debug)]
pub struct TypeDecl {
    /// The type's identifier.
    pub name: String,
    /// Generic parameters with their bounds, e.g. `<'a, T: Copy>`.
    pub impl_generics: String,
    /// Generic arguments of the type itself, e.g. `<'a, T>`.
    pub type_generics: String,
    /// The `where` clause, e.g. `where T: Copy`.
    pub where_clause: String,
    /// The type-level `ignore` setting.
    pub ignore: bool,
    /// What the declaration declares.
    pub data: Data,
}

/// The text of each string in `v`, in order.
pub open spec fn texts(v: Seq<String>) -> Seq<Seq<char>> {
    v.map_values(|s: String| s@)
}

/// Whether a variant with the setting `variant_ignore` gets an accessor on a
/// type whose own setting is `type_ignore`: the variant's setting wins.
pub open spec fn is_enabled(type_ignore: bool, variant_ignore: Option<bool>) -> bool {
    match variant_ignore {
        Some(ignored) => !ignored,
        None => !type_ignore,
    }
}

/// Whether `v` is an enabled variant whose fields are named, which no
/// accessor can be generated for.
pub open spec fn is_rejected(type_ignore: bool, v: Variant) -> bool {
    is_enabled(type_ignore, v.ignore) && v.fields is Named
}

/// The enabled variants of `vs`, in declared order.
pub open spec fn enabled_variants(type_ignore: bool, vs: Seq<Variant>) -> Seq<Variant>
    decreases vs.len(),
{
    if vs.len() == 0 {
        Seq::empty()
    } else {
        let rest = enabled_variants(type_ignore, vs.drop_last());
        if is_enabled(type_ignore, vs.last().ignore) {
            rest.push(vs.last())
        } else {
            rest
        }
    }
}

impl TypeDecl {
    /// The declared variants, or none where the declaration is no enum.
    pub open spec fn variants(&self) -> Seq<Variant> {
        match self.data {
            Data::Enum(vs) => vs@,
            _ => Seq::empty(),
        }
    }

    /// Every enabled variant is named in ASCII.
    pub open spec fn names_ascii(&self) -> bool {
        forall|i: int|
            0 <= i < self.variants().len() && is_enabled(self.ignore, #[trigger] self.variants()[i].ignore)
                ==> all_ascii(self.variants()[i].name@)
    }
}

/// Returns whether a variant with the setting `variant_ignore` is enabled on a
/// type with the setting `type_ignore`.
pub fn enabled(type_ignore: bool, variant_ignore: Option<bool>) -> (r: bool)
    ensures
        r == is_enabled(type_ignore, variant_ignore),
{
    match variant_ignore {
        Some(ignored) => !ignored,
        None => !type_ignore,
    }
}

/// Copies a list of strings.
pub fn copy_texts(v: &Vec<String>) -> (r: Vec<String>)
    ensures
        texts(r@) == texts(v@),
{
    let mut r: Vec<String> = Vec::new();
    let mut i: usize = 0;
    while i < v.len()
        invariant
            i <= v@.len(),
            r@.len() == i,
            texts(r@) == texts(v@.subrange(0, i as int)),
        decreases v@.len() - i,
    {
        let ghost before = r@;
        r.push(v[i].clone());
        proof {
            assert forall|j: int| 0 <= j < i implies #[trigger] r@[j]@ == v@[j]@ by {
                assert(r@[j] == before[j]);
                assert(texts(before)[j] == texts(v@.subrange(0, i as int))[j]);
            }
        }
        i = i + 1;
        assert(texts(r@) =~= texts(v@.subrange(0, i as int)));
    }
    assert(v@.subrange(0, v@.len() as int) =~= v@);
    r
}

} // verus!
