//! Properties that hold across calls of the generator.
use vstd::prelude::*;

use crate::decl::{enabled_variants, is_enabled, is_rejected, TypeDecl, Variant};
use crate::expand::is_expansion;
use crate::generate::{accessor_of, accessors_of, generated, Accessor, ExpandError};
use crate::naming::Access;
use crate::render::{impl_text, method_text, methods_text};

verus! {

proof fn lemma_method_text_determined(enum_name: Seq<char>, a: Accessor, b: Accessor, v: Variant, access: Access)
    requires
        accessor_of(a, v, access),
        accessor_of(b, v, access),
    ensures
        method_text(enum_name, a, access) == method_text(enum_name, b, access),
{
}

proof fn lemma_methods_text_determined(
    enum_name: Seq<char>,
    accs_a: Seq<Accessor>,
    accs_b: Seq<Accessor>,
    vs: Seq<Variant>,
    access: Access,
)
    requires
        accessors_of(accs_a, vs, access),
        accessors_of(accs_b, vs, access),
    ensures
        methods_text(enum_name, accs_a, access) == methods_text(enum_name, accs_b, access),
    decreases vs.len(),
{
    if vs.len() > 0 {
        let n = vs.len() - 1;
        assert(accessor_of(accs_a[n], vs[n], access));
        assert(accessor_of(accs_b[n], vs[n], access));
        lemma_method_text_determined(enum_name, accs_a[n], accs_b[n], vs[n], access);
        assert forall|i: int| 0 <= i < n implies accessor_of(
            #[trigger] accs_a.drop_last()[i],
            vs.drop_last()[i],
            access,
        ) && accessor_of(accs_b.drop_last()[i], vs.drop_last()[i], access) by {
            assert(accessor_of(accs_a[i], vs[i], access));
            assert(accessor_of(accs_b[i], vs[i], access));
        }
        lemma_methods_text_determined(
            enum_name,
            accs_a.drop_last(),
            accs_b.drop_last(),
            vs.drop_last(),
            access,
        );
    }
}

/// Generation is deterministic: one declaration, generated for one kind of
/// access, has exactly one expansion text, so regenerating it yields the
/// same methods with the same names, signatures and bodies.
pub proof fn lemma_expansion_unique(decl: TypeDecl, access: Access, s1: Seq<char>, s2: Seq<char>)
    requires
        is_expansion(decl, access, s1),
        is_expansion(decl, access, s2),
    ensures
        s1 == s2,
{
    let vs = enabled_variants(decl.ignore, decl.variants());
    let a = choose|accs: Seq<Accessor>|
        #[trigger] accessors_of(accs, vs, access) && s1 == impl_text(decl, accs, access);
    let b = choose|accs: Seq<Accessor>|
        #[trigger] accessors_of(accs, vs, access) && s2 == impl_text(decl, accs, access);
    lemma_methods_text_determined(decl.name@, a, b, vs, access);
}

/// Generating twice from one declaration gives the same outcome: both
/// succeed or both fail; failures carry the same error, and successes the
/// same accessors in the same order, method text for method text.
pub proof fn lemma_generation_deterministic(
    decl: TypeDecl,
    access: Access,
    r1: Result<Vec<Accessor>, ExpandError>,
    r2: Result<Vec<Accessor>, ExpandError>,
)
    requires
        generated(decl, access, r1),
        generated(decl, access, r2),
    ensures
        r1 is Ok <==> r2 is Ok,
        r1 matches Err(e1) ==> (r2 matches Err(e2) ==> e1 == e2),
        r1 matches Ok(a1) ==> (r2 matches Ok(a2) ==> {
            &&& a1@.len() == a2@.len()
            &&& forall|i: int|
                0 <= i < a1@.len() ==> method_text(decl.name@, #[trigger] a1@[i], access)
                    == method_text(decl.name@, a2@[i], access)
        }),
{
    let vs = decl.variants();
    match (r1, r2) {
        (Ok(a1), Ok(a2)) => {
            let ev = enabled_variants(decl.ignore, vs);
            assert forall|i: int| 0 <= i < a1@.len() implies method_text(
                decl.name@,
                #[trigger] a1@[i],
                access,
            ) == method_text(decl.name@, a2@[i], access) by {
                assert(accessor_of(a1@[i], ev[i], access));
                assert(accessor_of(a2@[i], ev[i], access));
                lemma_method_text_determined(decl.name@, a1@[i], a2@[i], ev[i], access);
            }
        },
        (Ok(_), Err(ExpandError::NamedFields(k))) => {
            assert(!is_rejected(decl.ignore, vs[k as int]));
        },
        (Err(ExpandError::NamedFields(k)), Ok(_)) => {
            assert(!is_rejected(decl.ignore, vs[k as int]));
        },
        (Err(ExpandError::NamedFields(k1)), Err(ExpandError::NamedFields(k2))) => {
            if k1 < k2 {
                assert(vs.subrange(0, k2 as int)[k1 as int] == vs[k1 as int]);
            } else if k2 < k1 {
                assert(vs.subrange(0, k1 as int)[k2 as int] == vs[k2 as int]);
            }
        },
        _ => {},
    }
}

/// Whether the variant `v` is enabled on a type with the setting `type_ignore`.
pub open spec fn enabled_pred(type_ignore: bool) -> spec_fn(Variant) -> bool {
    |v: Variant| is_enabled(type_ignore, v.ignore)
}

proof fn lemma_enabled_is_filter(type_ignore: bool, vs: Seq<Variant>)
    ensures
        enabled_variants(type_ignore, vs) == vs.filter(enabled_pred(type_ignore)),
    decreases vs.len(),
{
    reveal_with_fuel(Seq::filter, 1);
    if vs.len() > 0 {
        lemma_enabled_is_filter(type_ignore, vs.drop_last());
    }
}

proof fn lemma_enabled_from(type_ignore: bool, vs: Seq<Variant>)
    ensures
        forall|j: int|
            0 <= j < enabled_variants(type_ignore, vs).len() ==> vs.contains(
                #[trigger] enabled_variants(type_ignore, vs)[j],
            ) && is_enabled(type_ignore, enabled_variants(type_ignore, vs)[j].ignore),
    decreases vs.len(),
{
    if vs.len() > 0 {
        let rest = vs.drop_last();
        lemma_enabled_from(type_ignore, rest);
        let ev = enabled_variants(type_ignore, vs);
        assert forall|j: int| 0 <= j < ev.len() implies vs.contains(#[trigger] ev[j]) && is_enabled(
            type_ignore,
            ev[j].ignore,
        ) by {
            if j < enabled_variants(type_ignore, rest).len() {
                let x = enabled_variants(type_ignore, rest)[j];
                assert(rest.contains(x));
                let i = choose|i: int| 0 <= i < rest.len() && rest[i] == x;
                assert(vs[i] == x);
                assert(ev[j] == x);
            } else {
                let last = vs.len() - 1;
                assert(ev[j] == vs[last]);
            }
        }
    }
}

/// One accessor is generated for each variant that is not ignored: on
/// success their number is the number of enabled variants.
pub proof fn lemma_accessor_count(decl: TypeDecl, access: Access, accs: Vec<Accessor>)
    requires
        generated(decl, access, Ok(accs)),
    ensures
        accs@.len() == decl.variants().filter(enabled_pred(decl.ignore)).len(),
{
    lemma_enabled_is_filter(decl.ignore, decl.variants());
}

/// An ignored variant gets no accessor: where variant names are distinct, as
/// they are in any enum, no generated accessor matches on an ignored variant.
pub proof fn lemma_ignored_variant_absent(decl: TypeDecl, access: Access, accs: Vec<Accessor>, k: int)
    requires
        generated(decl, access, Ok(accs)),
        0 <= k < decl.variants().len(),
        !is_enabled(decl.ignore, decl.variants()[k].ignore),
        forall|i: int, j: int|
            0 <= i < decl.variants().len() && 0 <= j < decl.variants().len() && i != j
                ==> #[trigger] decl.variants()[i].name@ != #[trigger] decl.variants()[j].name@,
    ensures
        forall|j: int| 0 <= j < accs@.len() ==> #[trigger] accs@[j].variant@ != decl.variants()[k].name@,
{
    let vs = decl.variants();
    let ev = enabled_variants(decl.ignore, vs);
    lemma_enabled_from(decl.ignore, vs);
    assert forall|j: int| 0 <= j < accs@.len() implies #[trigger] accs@[j].variant@ != vs[k].name@ by {
        assert(accessor_of(accs@[j], ev[j], access));
        assert(vs.contains(ev[j]));
        let i = choose|i: int| 0 <= i < vs.len() && vs[i] == ev[j];
        assert(i != k);
        assert(vs[i].name@ != vs[k].name@);
    }
}

/// A declaration with an enabled named-field variant never generates,
/// whatever its other variants are; the error names the first such variant.
pub proof fn lemma_named_fields_rejected(
    decl: TypeDecl,
    access: Access,
    r: Result<Vec<Accessor>, ExpandError>,
    k: int,
)
    requires
        generated(decl, access, r),
        decl.data is Enum,
        0 <= k < decl.variants().len(),
        is_rejected(decl.ignore, decl.variants()[k]),
    ensures
        r matches Err(ExpandError::NamedFields(j)) && j <= k,
{
    let vs = decl.variants();
    match r {
        Ok(_) => {
            assert(!is_rejected(decl.ignore, vs[k]));
        },
        Err(ExpandError::NamedFields(j)) => {
            if j > k {
                assert(vs.subrange(0, j as int)[k] == vs[k]);
            }
        },
        Err(_) => {},
    }
}

} // verus!
