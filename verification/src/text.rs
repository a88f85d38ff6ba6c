//! What the compiler asks of text: whether two names are the same, and
//! the snake_case form under which a field or an argument is known in
//! Rust.

use vstd::prelude::*;
use vstd::string::StringExecFns;

verus! {

/// The snake_case form of a name, as `heck` computes it: words are cut at
/// underscores, at other characters that belong to no word, and where
/// lower case is followed by upper case; they are written in lower case
/// and joined by single underscores. It depends on the characters of the
/// name alone.
pub uninterp spec fn snake_case(name: Seq<char>) -> Seq<char>;

/// `heck::SnakeCase::to_snake_case` for `str`. Trusted: the result is the
/// snake_case form of `name`, which this crate names and does not define.
#[verifier::external_body]
pub(crate) fn to_snake_case(name: &str) -> (snake: String)
    ensures
        snake@ == snake_case(name@),
{
    heck::SnakeCase::to_snake_case(name)
}

/// `str`'s equality. Trusted: two string slices are equal exactly when
/// they hold the same characters.
pub assume_specification[ <str as PartialEq>::eq ](a: &str, b: &str) -> (same: bool)
    ensures
        same == (a@ == b@),
;

/// The prefix of every resolver method.
pub open spec fn method_prefix() -> Seq<char> {
    "field_"@
}

/// The name of the method that resolves the field whose name has the
/// snake_case form `snake`.
pub fn field_method_name(snake: &str) -> (method: String)
    ensures
        method@ == method_prefix() + snake@,
{
    String::from_str("field_").concat(snake)
}

} // verus!
