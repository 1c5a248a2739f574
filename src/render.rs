//! Rust source text of generated accessors.
use vstd::prelude::*;

use crate::decl::{texts, TypeDecl};
use crate::generate::{Accessor, Shape};
use crate::naming::Access;

verus! {

/// The decimal digit `d` as a character.
pub open spec fn digit_char(d: nat) -> char {
    if d == 0 { '0' } else if d == 1 { '1' } else if d == 2 { '2' } else if d == 3 { '3' }
    else if d == 4 { '4' } else if d == 5 { '5' } else if d == 6 { '6' } else if d == 7 { '7' }
    else if d == 8 { '8' } else { '9' }
}

/// The decimal spelling of `n`, without leading zeros.
pub open spec fn decimal(n: nat) -> Seq<char>
    decreases n,
{
    if n < 10 {
        seq![digit_char(n)]
    } else {
        decimal(n / 10) + seq![digit_char(n % 10)]
    }
}

/// The items of `parts` separated by `", "`.
pub open spec fn comma_list(parts: Seq<Seq<char>>) -> Seq<char>
    decreases parts.len(),
{
    if parts.len() == 0 {
        Seq::empty()
    } else if parts.len() == 1 {
        parts[0]
    } else {
        comma_list(parts.drop_last()) + ", "@ + parts.last()
    }
}

/// The name bound to the field at position `i`: `_i`.
pub open spec fn binding(i: nat) -> Seq<char> {
    "_"@ + decimal(i)
}

/// The bindings `_0, ..., _{n-1}` of `n` fields.
pub open spec fn bindings(n: nat) -> Seq<Seq<char>> {
    Seq::new(n, |i: int| binding(i as nat))
}

/// The reference prefix for a field type.
pub open spec fn ref_prefix(access: Access) -> Seq<char> {
    match access {
        Access::Shared => "& "@,
        Access::Exclusive => "&mut "@,
    }
}

/// The receiver of an accessor method.
pub open spec fn receiver(access: Access) -> Seq<char> {
    match access {
        Access::Shared => "&self"@,
        Access::Exclusive => "&mut self"@,
    }
}

/// A reference type to each of the types `ts`, in order.
pub open spec fn ref_types(ts: Seq<Seq<char>>, access: Access) -> Seq<Seq<char>> {
    ts.map_values(|t: Seq<char>| ref_prefix(access) + t)
}

/// The pattern that binds the variant's fields, after the variant's path.
pub open spec fn pattern_text(s: Shape) -> Seq<char> {
    match s {
        Shape::Unit => Seq::empty(),
        Shape::Single(_) => "("@ + binding(0) + ")"@,
        Shape::Tuple(ts) => "("@ + comma_list(bindings(ts@.len())) + ")"@,
    }
}

/// The expression wrapped in `Some` on a match.
pub open spec fn value_text(s: Shape) -> Seq<char> {
    match s {
        Shape::Unit => "()"@,
        _ => pattern_text(s),
    }
}

/// The type wrapped in `Option` by the accessor.
pub open spec fn return_type_text(s: Shape, access: Access) -> Seq<char> {
    match s {
        Shape::Unit => "()"@,
        Shape::Single(t) => ref_prefix(access) + t@,
        Shape::Tuple(ts) => "("@ + comma_list(ref_types(texts(ts@), access)) + ")"@,
    }
}

/// The documentation attribute of the accessor `a`.
pub open spec fn doc_text(a: Accessor) -> Seq<char> {
    "#[doc = \"Returns `Some` if this value is the `"@ + a.variant@
        + "` variant, `None` otherwise.\"] "@
}

/// The signature of the accessor `a`.
pub open spec fn signature_text(a: Accessor, access: Access) -> Seq<char> {
    "pub fn "@ + a.name@ + "("@ + receiver(access) + ") -> Option<"@ + return_type_text(
        a.shape,
        access,
    ) + "> "@
}

/// The body of the accessor `a` of the enum `enum_name`: a match on the
/// variant that returns `Some` of the bound fields, and `None` otherwise.
pub open spec fn body_text(enum_name: Seq<char>, a: Accessor) -> Seq<char> {
    "{ match self { "@ + enum_name + "::"@ + a.variant@ + pattern_text(a.shape) + " => Some("@
        + value_text(a.shape) + "), _ => None } }"@
}

/// The full text of the accessor method `a` of the enum `enum_name`.
pub open spec fn method_text(enum_name: Seq<char>, a: Accessor, access: Access) -> Seq<char> {
    doc_text(a) + signature_text(a, access) + body_text(enum_name, a)
}

/// The texts of the methods `accs`, each followed by a space.
pub open spec fn methods_text(enum_name: Seq<char>, accs: Seq<Accessor>, access: Access) -> Seq<char>
    decreases accs.len(),
{
    if accs.len() == 0 {
        Seq::empty()
    } else {
        methods_text(enum_name, accs.drop_last(), access) + method_text(enum_name, accs.last(), access)
            + " "@
    }
}

/// The `impl` block that holds the accessors `accs` of `decl`, carrying the
/// declaration's generics and `where` clause.
pub open spec fn impl_text(decl: TypeDecl, accs: Seq<Accessor>, access: Access) -> Seq<char> {
    "#[automatically_derived] impl"@ + decl.impl_generics@ + " "@ + decl.name@ + decl.type_generics@
        + " "@ + decl.where_clause@ + " { "@ + methods_text(decl.name@, accs, access) + "}"@
}

proof fn lemma_comma_list_push(parts: Seq<Seq<char>>, p: Seq<char>)
    ensures
        comma_list(parts.push(p)) == if parts.len() == 0 {
            p
        } else {
            comma_list(parts) + ", "@ + p
        },
{
    assert(parts.push(p).drop_last() =~= parts);
}

fn digit_str(d: usize) -> (r: &'static str)
    requires
        d < 10,
    ensures
        r@ == seq![digit_char(d as nat)],
{
    proof {
        reveal_strlit("0");
        reveal_strlit("1");
        reveal_strlit("2");
        reveal_strlit("3");
        reveal_strlit("4");
        reveal_strlit("5");
        reveal_strlit("6");
        reveal_strlit("7");
        reveal_strlit("8");
        reveal_strlit("9");
    }
    match d {
        0 => "0",
        1 => "1",
        2 => "2",
        3 => "3",
        4 => "4",
        5 => "5",
        6 => "6",
        7 => "7",
        8 => "8",
        _ => "9",
    }
}

/// Appends the decimal spelling of `n` to `out`.
pub fn push_decimal(out: &mut String, n: usize)
    ensures
        final(out)@ == old(out)@ + decimal(n as nat),
    decreases n,
{
    if n < 10 {
        out.append(digit_str(n));
    } else {
        push_decimal(out, n / 10);
        out.append(digit_str(n % 10));
        assert(final(out)@ =~= old(out)@ + decimal(n as nat));
    }
}

/// Appends the bindings of `n` fields, separated by commas.
fn push_bindings(out: &mut String, n: usize)
    ensures
        final(out)@ == old(out)@ + comma_list(bindings(n as nat)),
{
    let ghost start = out@;
    let mut i: usize = 0;
    while i < n
        invariant
            i <= n,
            out@ == start + comma_list(bindings(i as nat)),
        decreases n - i,
    {
        let ghost before = out@;
        if i > 0 {
            out.append(", ");
        }
        out.append("_");
        push_decimal(out, i);
        proof {
            assert(bindings((i + 1) as nat) =~= bindings(i as nat).push(binding(i as nat)));
            lemma_comma_list_push(bindings(i as nat), binding(i as nat));
        }
        i = i + 1;
        assert(out@ =~= start + comma_list(bindings(i as nat)));
    }
}

fn push_ref_prefix(out: &mut String, access: Access)
    ensures
        final(out)@ == old(out)@ + ref_prefix(access),
{
    match access {
        Access::Shared => out.append("& "),
        Access::Exclusive => out.append("&mut "),
    }
}

/// Appends a reference type to each of `ts`, separated by commas.
fn push_ref_types(out: &mut String, ts: &Vec<String>, access: Access)
    ensures
        final(out)@ == old(out)@ + comma_list(ref_types(texts(ts@), access)),
{
    let ghost start = out@;
    let mut i: usize = 0;
    while i < ts.len()
        invariant
            i <= ts@.len(),
            out@ == start + comma_list(ref_types(texts(ts@.subrange(0, i as int)), access)),
        decreases ts@.len() - i,
    {
        let ghost part = ref_prefix(access) + ts@[i as int]@;
        let ghost done = ref_types(texts(ts@.subrange(0, i as int)), access);
        if i > 0 {
            out.append(", ");
        }
        push_ref_prefix(out, access);
        out.append(ts[i].as_str());
        proof {
            assert(ref_types(texts(ts@.subrange(0, i + 1)), access) =~= done.push(part));
            lemma_comma_list_push(done, part);
        }
        i = i + 1;
        assert(out@ =~= start + comma_list(ref_types(texts(ts@.subrange(0, i as int)), access)));
    }
    assert(ts@.subrange(0, ts@.len() as int) =~= ts@);
}

fn push_pattern(out: &mut String, s: &Shape)
    ensures
        final(out)@ == old(out)@ + pattern_text(*s),
{
    match s {
        Shape::Unit => {
            assert(out@ =~= out@ + Seq::<char>::empty());
        },
        Shape::Single(_) => {
            out.append("(");
            out.append("_");
            push_decimal(out, 0);
            out.append(")");
            assert(final(out)@ =~= old(out)@ + pattern_text(*s));
        },
        Shape::Tuple(ts) => {
            out.append("(");
            push_bindings(out, ts.len());
            out.append(")");
            assert(final(out)@ =~= old(out)@ + pattern_text(*s));
        },
    }
}

fn push_doc(out: &mut String, a: &Accessor)
    ensures
        final(out)@ == old(out)@ + doc_text(*a),
{
    out.append("#[doc = \"Returns `Some` if this value is the `");
    out.append(a.variant.as_str());
    out.append("` variant, `None` otherwise.\"] ");
    assert(final(out)@ =~= old(out)@ + doc_text(*a));
}

fn push_return_type(out: &mut String, s: &Shape, access: Access)
    ensures
        final(out)@ == old(out)@ + return_type_text(*s, access),
{
    match s {
        Shape::Unit => out.append("()"),
        Shape::Single(t) => {
            push_ref_prefix(out, access);
            out.append(t.as_str());
        },
        Shape::Tuple(ts) => {
            out.append("(");
            push_ref_types(out, ts, access);
            out.append(")");
        },
    }
    assert(final(out)@ =~= old(out)@ + return_type_text(*s, access));
}

fn push_signature(out: &mut String, a: &Accessor, access: Access)
    ensures
        final(out)@ == old(out)@ + signature_text(*a, access),
{
    out.append("pub fn ");
    out.append(a.name.as_str());
    out.append("(");
    match access {
        Access::Shared => out.append("&self"),
        Access::Exclusive => out.append("&mut self"),
    }
    out.append(") -> Option<");
    push_return_type(out, &a.shape, access);
    out.append("> ");
    assert(final(out)@ =~= old(out)@ + signature_text(*a, access));
}

fn push_body(out: &mut String, enum_name: &str, a: &Accessor)
    ensures
        final(out)@ == old(out)@ + body_text(enum_name@, *a),
{
    out.append("{ match self { ");
    out.append(enum_name);
    out.append("::");
    out.append(a.variant.as_str());
    push_pattern(out, &a.shape);
    out.append(" => Some(");
    match &a.shape {
        Shape::Unit => out.append("()"),
        _ => push_pattern(out, &a.shape),
    }
    out.append("), _ => None } }");
    assert(final(out)@ =~= old(out)@ + body_text(enum_name@, *a));
}

/// Appends the text of the accessor method `a` of the enum `enum_name`.
pub fn push_method(out: &mut String, enum_name: &str, a: &Accessor, access: Access)
    ensures
        final(out)@ == old(out)@ + method_text(enum_name@, *a, access),
{
    push_doc(out, a);
    push_signature(out, a, access);
    push_body(out, enum_name, a);
    assert(final(out)@ =~= old(out)@ + method_text(enum_name@, *a, access));
}

/// Renders the `impl` block holding the accessors `accs` of `decl`.
pub fn render_impl(decl: &TypeDecl, accs: &Vec<Accessor>, access: Access) -> (r: String)
    ensures
        r@ == impl_text(*decl, accs@, access),
{
    let mut out = String::from_str("#[automatically_derived] impl");
    out.append(decl.impl_generics.as_str());
    out.append(" ");
    out.append(decl.name.as_str());
    out.append(decl.type_generics.as_str());
    out.append(" ");
    out.append(decl.where_clause.as_str());
    out.append(" { ");
    let ghost head = out@;
    let mut i: usize = 0;
    while i < accs.len()
        invariant
            i <= accs@.len(),
            out@ == head + methods_text(decl.name@, accs@.subrange(0, i as int), access),
        decreases accs@.len() - i,
    {
        let ghost before = out@;
        push_method(&mut out, decl.name.as_str(), &accs[i], access);
        out.append(" ");
        proof {
            let next = accs@.subrange(0, i + 1);
            assert(next.drop_last() =~= accs@.subrange(0, i as int));
            assert(next.last() == accs@[i as int]);
        }
        i = i + 1;
        assert(out@ =~= head + methods_text(decl.name@, accs@.subrange(0, i as int), access));
    }
    out.append("}");
    assert(accs@.subrange(0, accs@.len() as int) =~= accs@);
    assert(out@ =~= impl_text(*decl, accs@, access));
    out
}

} // verus!
