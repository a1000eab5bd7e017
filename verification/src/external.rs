//! The outside type the builder carries (Bolt values) and the trusted
//! wrappers around the outside calls it makes.
use vstd::prelude::*;
use heck::ToShoutySnakeCase;
use heck::ToPascalCase;

verus! {

/// A Bolt value from `neo4rs`, carried through query parameters unread.
#[verifier::external_type_specification]
#[verifier::external_body]
pub struct ExBoltType(neo4rs::BoltType);

/// A Bolt string from `neo4rs`: a text as the database stores it.
#[verifier::external_type_specification]
#[verifier::external_body]
pub struct ExBoltString(neo4rs::BoltString);

/// The text a Bolt string holds, which its `Display` writes.
pub uninterp spec fn bolt_string_text(b: neo4rs::BoltString) -> Seq<char>;

/// What `str::to_lowercase` returns for a given text.
pub uninterp spec fn lowercase_of(s: Seq<char>) -> Seq<char>;

/// Whether every character of `s` is ASCII.
pub open spec fn is_ascii_text(s: Seq<char>) -> bool {
    forall|i: int| 0 <= i < s.len() ==> (s[i] as u32) < 128
}

/// An ASCII letter `A` to `Z` lowered to `a` to `z`; any other character as
/// it is.
pub open spec fn ascii_lower_char(c: char) -> char {
    if 'A' <= c && c <= 'Z' {
        ((c as u32) + 32) as char
    } else {
        c
    }
}

/// `s` with each ASCII capital letter lowered.
pub open spec fn ascii_lower(s: Seq<char>) -> Seq<char> {
    s.map_values(|c: char| ascii_lower_char(c))
}

/// The lower case `str::to_lowercase` gives a text: for an ASCII text each
/// capital letter lowered, for any other text what the name says.
pub open spec fn lower_form(s: Seq<char>) -> Seq<char> {
    if is_ascii_text(s) {
        ascii_lower(s)
    } else {
        lowercase_of(s)
    }
}

/// What `heck::ToShoutySnakeCase::to_shouty_snake_case` returns for a given text.
pub uninterp spec fn shouty_snake_of(s: Seq<char>) -> Seq<char>;

/// What `heck::ToPascalCase::to_pascal_case` returns for a given text.
pub uninterp spec fn pascal_case_of(s: Seq<char>) -> Seq<char>;

/// What `char::to_uppercase` gives for a character, as a text.
pub uninterp spec fn uppercase_of_char(c: char) -> Seq<char>;

/// The Bolt value `BoltType::from(String)` makes of a text.
pub uninterp spec fn bolt_string(s: Seq<char>) -> neo4rs::BoltType;

/// The Bolt value `BoltType::from(i32)` makes of an integer.
pub uninterp spec fn bolt_integer(i: i32) -> neo4rs::BoltType;

/// The Bolt value `BoltType::from(bool)` makes of a boolean.
pub uninterp spec fn bolt_boolean(b: bool) -> neo4rs::BoltType;

/// The Bolt list `BoltType::from(Vec<BoltType>)` makes of a sequence of values.
pub uninterp spec fn bolt_list(items: Seq<neo4rs::BoltType>) -> neo4rs::BoltType;

/// Whether `c` is a lower-case hexadecimal digit.
pub open spec fn is_lower_hex(c: char) -> bool {
    ('0' <= c && c <= '9') || ('a' <= c && c <= 'f')
}

/// Calls `str::to_lowercase`. The contract names its result, and says that
/// on an ASCII text it lowers `A` to `Z` and keeps every other character, as
/// the documentation's example and Unicode's lower-case mapping of ASCII give.
#[verifier::external_body]
pub(crate) fn to_lowercase_text(s: &str) -> (r: String)
    ensures
        r@ == lowercase_of(s@),
        is_ascii_text(s@) ==> r@ == ascii_lower(s@),
{
    s.to_lowercase()
}

/// Calls `heck::ToShoutySnakeCase::to_shouty_snake_case`; the contract names
/// its result and says no more.
#[verifier::external_body]
pub(crate) fn to_shouty_snake_text(s: &str) -> (r: String)
    ensures
        r@ == shouty_snake_of(s@),
{
    s.to_shouty_snake_case()
}

/// Calls `heck::ToPascalCase::to_pascal_case`; the contract names its result
/// and says no more.
#[verifier::external_body]
pub(crate) fn to_pascal_case_text(s: &str) -> (r: String)
    ensures
        r@ == pascal_case_of(s@),
{
    s.to_pascal_case()
}

/// Calls `uuid::Uuid::new_v4` and returns its 128 bits (`Uuid::as_u128`).
/// The value is random: nothing is claimed of it.
#[verifier::external_body]
pub(crate) fn new_id() -> (r: u128) {
    uuid::Uuid::new_v4().as_u128()
}

/// Calls `uuid::Uuid::new_v4` and renders it with `ToString`. The uuid is
/// random; the rendering is the 36-character hyphenated lower-case form, so
/// the first eight characters are lower-case hexadecimal digits. Which
/// digits they are is not stated.
#[verifier::external_body]
pub(crate) fn new_id_text() -> (r: String)
    ensures
        r@.len() == 36,
        forall|i: int| 0 <= i < 8 ==> is_lower_hex(#[trigger] r@[i]),
{
    uuid::Uuid::new_v4().to_string()
}

/// Calls `char::to_uppercase` and collects the characters it yields; the
/// contract names the result and says no more.
#[verifier::external_body]
pub(crate) fn char_to_uppercase_text(c: char) -> (r: String)
    ensures
        r@ == uppercase_of_char(c),
{
    c.to_uppercase().collect::<String>()
}

/// Calls `BoltType::from(String)`.
#[verifier::external_body]
pub(crate) fn bolt_from_string(s: String) -> (r: neo4rs::BoltType)
    ensures
        r == bolt_string(s@),
{
    neo4rs::BoltType::from(s)
}

/// Calls `BoltType::from(i32)`; the contract names its result and says no
/// more.
#[verifier::external_body]
pub(crate) fn bolt_from_i32(i: i32) -> (r: neo4rs::BoltType)
    ensures
        r == bolt_integer(i),
{
    neo4rs::BoltType::from(i)
}

/// Calls `BoltType::from(bool)`.
#[verifier::external_body]
pub(crate) fn bolt_from_bool(b: bool) -> (r: neo4rs::BoltType)
    ensures
        r == bolt_boolean(b),
{
    neo4rs::BoltType::from(b)
}

/// Calls `BoltType::from(Vec<BoltType>)` on a copy of `items`.
#[verifier::external_body]
pub(crate) fn bolt_from_list(items: &Vec<neo4rs::BoltType>) -> (r: neo4rs::BoltType)
    ensures
        r == bolt_list(items@),
{
    neo4rs::BoltType::from(items.clone())
}

/// `BoltType` derives `Clone`: a copy equals its original.
pub assume_specification[ <neo4rs::BoltType as Clone>::clone ](b: &neo4rs::BoltType) -> (r: neo4rs::BoltType)
    ensures
        r == *b,
;

} // verus!
