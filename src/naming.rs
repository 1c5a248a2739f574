//! Method names derived from variant names.
use convert_case::{Case, Casing};
use vstd::prelude::*;

verus! {

/// The snake-case spelling of an identifier, as `convert_case` computes it.
pub uninterp spec fn snake_case_of(s: Seq<char>) -> Seq<char>;

/// Whether every character of `s` is ASCII.
pub open spec fn all_ascii(s: Seq<char>) -> bool {
    forall|i: int| 0 <= i < s.len() ==> (s[i] as u32) < 128
}

/// Relies on `convert_case`'s `Casing::to_case` with `Case::Snake`: the words of
/// the identifier, lower-cased and joined by underscores. The result depends on
/// the characters alone; an empty identifier has no words and gives an empty
/// result. The splitting indexes bytes by character positions, so only ASCII
/// input is handed over.
#[verifier::external_body]
fn to_snake_case(s: &str) -> (r: String)
    requires
        all_ascii(s@),
    ensures
        r@ == snake_case_of(s@),
        s@.len() == 0 ==> r@.len() == 0,
{
    s.to_case(Case::Snake)
}

/// Which kind of reference an accessor hands out.
#[derive(Clone, Copy, Debug, PartialEq, Eq, Structural)]
pub enum Access {
    /// `&self` receivers returning shared references (`as_<variant>`).
    Shared,
    /// `&mut self` receivers returning mutable references (`as_<variant>_mut`).
    Exclusive,
}

/// The accessor name built from the snake-case spelling `snake` of a variant:
/// `as_<snake>` for shared access, `as_<snake>_mut` for exclusive access.
pub open spec fn name_text(snake: Seq<char>, access: Access) -> Seq<char> {
    match access {
        Access::Shared => "as_"@ + snake,
        Access::Exclusive => "as_"@ + snake + "_mut"@,
    }
}

/// The name of the accessor generated for a variant called `variant`.
pub open spec fn method_name_of(variant: Seq<char>, access: Access) -> Seq<char> {
    name_text(snake_case_of(variant), access)
}

/// Builds the accessor name from the snake-case spelling of a variant.
pub fn name_from_snake(snake: &str, access: Access) -> (r: String)
    ensures
        r@ == name_text(snake@, access),
{
    let mut r = String::from_str("as_");
    r.append(snake);
    match access {
        Access::Shared => {},
        Access::Exclusive => {
            r.append("_mut");
        },
    }
    r
}

/// Computes the accessor name of the variant `variant`.
pub fn method_name(variant: &str, access: Access) -> (r: String)
    requires
        all_ascii(variant@),
    ensures
        r@ == method_name_of(variant@, access),
{
    let snake = to_snake_case(variant);
    name_from_snake(snake.as_str(), access)
}

} // verus!
