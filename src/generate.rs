//! From a declaration to the list of accessors it gets.
use vstd::prelude::*;

use crate::decl::{
    copy_texts, enabled, enabled_variants, is_enabled, is_rejected, texts, Data, Fields, TypeDecl,
    Variant,
};
use crate::naming::{all_ascii, method_name, method_name_of, Access};

verus! {

/// What an accessor returns when its variant matches.
#[derive(Debug)]
pub enum Shape {
    /// The unit value `()`, for a variant without fields.
    Unit,
    /// A reference to the single field, whose type text is held here.
    Single(String),
    /// A tuple of references, one per field, with the field type texts in
    /// order; an empty list renders as `()`.
    Tuple(Vec<String>),
}

/// One generated accessor method.
#[derive(Debug)]
pub struct Accessor {
    /// The method's name.
    pub name: String,
    /// The variant it matches on.
    pub variant: String,
    /// What it returns on a match.
    pub shape: Shape,
}

/// Why no accessors could be generated for a declaration.
#[derive(Debug, PartialEq, Eq, Structural)]
pub enum ExpandError {
    /// The declaration is not an enum.
    WrongShape,
    /// The enabled variant at this position in the declaration has named fields.
    NamedFields(usize),
    /// The rendered source text could not be lexed into tokens.
    InvalidTokens,
}

impl ExpandError {
    /// The diagnostic text for this error, for a derive named `trait_name`.
    pub open spec fn message_text(self, trait_name: Seq<char>) -> Seq<char> {
        match self {
            ExpandError::WrongShape => trait_name + " can only be derived for enums"@,
            ExpandError::NamedFields(_) => trait_name
                + " cannot be derived on enums with variants that have named fields"@,
            ExpandError::InvalidTokens => trait_name + " generated text that is not valid tokens"@,
        }
    }

    /// The diagnostic text for this error, for a derive named `trait_name`.
    pub fn message(&self, trait_name: &str) -> (r: String)
        ensures
            r@ == self.message_text(trait_name@),
    {
        let mut r = String::from_str(trait_name);
        match self {
            ExpandError::WrongShape => r.append(" can only be derived for enums"),
            ExpandError::NamedFields(_) => r.append(
                " cannot be derived on enums with variants that have named fields",
            ),
            ExpandError::InvalidTokens => r.append(" generated text that is not valid tokens"),
        }
        r
    }
}

/// Whether `s` is the return shape for a variant with the fields `f`: unit
/// for no fields, the field itself for exactly one unnamed field, and a tuple
/// of all fields in order for any other number of unnamed fields.
pub open spec fn shape_for(s: Shape, f: Fields) -> bool {
    match f {
        Fields::Unit => s is Unit,
        Fields::Unnamed(tys) => if tys@.len() == 1 {
            match s {
                Shape::Single(t) => t@ == tys@[0]@,
                _ => false,
            }
        } else {
            match s {
                Shape::Tuple(ts) => texts(ts@) == texts(tys@),
                _ => false,
            }
        },
        Fields::Named(_) => false,
    }
}

/// Whether `a` is the accessor generated for the variant `v`.
pub open spec fn accessor_of(a: Accessor, v: Variant, access: Access) -> bool {
    &&& a.name@ == method_name_of(v.name@, access)
    &&& a.variant@ == v.name@
    &&& shape_for(a.shape, v.fields)
}

/// Whether `accs` holds, in order, one accessor for each variant of `vs`.
pub open spec fn accessors_of(accs: Seq<Accessor>, vs: Seq<Variant>, access: Access) -> bool {
    &&& accs.len() == vs.len()
    &&& forall|i: int| 0 <= i < vs.len() ==> accessor_of(#[trigger] accs[i], vs[i], access)
}

/// Whether no enabled variant of `vs` has named fields.
pub open spec fn none_rejected(type_ignore: bool, vs: Seq<Variant>) -> bool {
    forall|i: int| 0 <= i < vs.len() ==> !is_rejected(type_ignore, #[trigger] vs[i])
}

/// The outcome that generation owes for `decl`: the accessors of its enabled
/// variants in order; `WrongShape` for anything but an enum; `NamedFields(k)`
/// where `k` is the first enabled variant with named fields.
pub open spec fn generated(decl: TypeDecl, access: Access, r: Result<Vec<Accessor>, ExpandError>) -> bool {
    let vs = decl.variants();
    match r {
        Ok(accs) => {
            &&& decl.data is Enum
            &&& none_rejected(decl.ignore, vs)
            &&& accessors_of(accs@, enabled_variants(decl.ignore, vs), access)
        },
        Err(ExpandError::WrongShape) => !(decl.data is Enum),
        Err(ExpandError::NamedFields(k)) => {
            &&& decl.data is Enum
            &&& k < vs.len()
            &&& is_rejected(decl.ignore, vs[k as int])
            &&& none_rejected(decl.ignore, vs.subrange(0, k as int))
        },
        Err(ExpandError::InvalidTokens) => false,
    }
}

/// Builds the accessor for one variant without named fields.
pub fn accessor_for(v: &Variant, access: Access) -> (a: Accessor)
    requires
        !(v.fields is Named),
        all_ascii(v.name@),
    ensures
        accessor_of(a, *v, access),
{
    let shape = match &v.fields {
        Fields::Unit => Shape::Unit,
        Fields::Unnamed(tys) => if tys.len() == 1 {
            Shape::Single(tys[0].clone())
        } else {
            Shape::Tuple(copy_texts(tys))
        },
        Fields::Named(_) => Shape::Unit,
    };
    Accessor { name: method_name(v.name.as_str(), access), variant: v.name.clone(), shape }
}

/// Generates the accessors of `decl`: one for each enabled variant, in
/// declared order, or the reason why there are none.
pub fn generate(decl: &TypeDecl, access: Access) -> (r: Result<Vec<Accessor>, ExpandError>)
    requires
        decl.names_ascii(),
    ensures
        generated(*decl, access, r),
{
    let vs = match &decl.data {
        Data::Enum(vs) => vs,
        _ => {
            return Err(ExpandError::WrongShape);
        },
    };
    let mut accs: Vec<Accessor> = Vec::new();
    let mut i: usize = 0;
    while i < vs.len()
        invariant
            decl.data == Data::Enum(*vs),
            decl.names_ascii(),
            i <= vs@.len(),
            none_rejected(decl.ignore, vs@.subrange(0, i as int)),
            accessors_of(accs@, enabled_variants(decl.ignore, vs@.subrange(0, i as int)), access),
        decreases vs@.len() - i,
    {
        let v = &vs[i];
        let ghost prefix = vs@.subrange(0, i as int);
        let ghost next = vs@.subrange(0, i + 1);
        assert(next.drop_last() =~= prefix);
        assert(next.last() == *v);
        if enabled(decl.ignore, v.ignore) {
            if matches!(v.fields, Fields::Named(_)) {
                return Err(ExpandError::NamedFields(i));
            }
            assert(decl.variants()[i as int] == *v);
            let a = accessor_for(v, access);
            accs.push(a);
        }
        assert(forall|j: int| 0 <= j < i ==> next[j] == #[trigger] prefix[j]);
        i = i + 1;
    }
    assert(vs@.subrange(0, vs@.len() as int) =~= vs@);
    Ok(accs)
}

} // verus!
