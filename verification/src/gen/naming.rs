//! Dart identifiers derived from interface names.
use vstd::prelude::*;
use crate::gen::text::{replace_all, replace_all_spec};

verus! {

/// What `heck::ToUpperCamelCase::to_upper_camel_case` returns for a string.
pub uninterp spec fn upper_camel_case(s: Seq<char>) -> Seq<char>;

/// What `heck::ToLowerCamelCase::to_lower_camel_case` returns for a string.
pub uninterp spec fn lower_camel_case(s: Seq<char>) -> Seq<char>;

/// What `str::to_lowercase` returns for a string.
pub uninterp spec fn lowercase(s: Seq<char>) -> Seq<char>;

/// Calls `heck::ToUpperCamelCase::to_upper_camel_case`. Its result depends on
/// the string alone and is named `upper_camel_case`; nothing more of it is
/// stated.
#[verifier::external_body]
pub(crate) fn to_upper_camel(s: &str) -> (r: String)
    ensures
        r@ == upper_camel_case(s@),
{
    heck::ToUpperCamelCase::to_upper_camel_case(s)
}

/// Calls `heck::ToLowerCamelCase::to_lower_camel_case`. Its result depends on
/// the string alone and is named `lower_camel_case`; nothing more of it is
/// stated.
#[verifier::external_body]
pub(crate) fn to_lower_camel(s: &str) -> (r: String)
    ensures
        r@ == lower_camel_case(s@),
{
    heck::ToLowerCamelCase::to_lower_camel_case(s)
}

/// Calls `str::to_lowercase`. Its result depends on the string alone and is
/// named `lowercase`; the Unicode case mapping is not written out.
#[verifier::external_body]
pub(crate) fn to_lowercase(s: &str) -> (r: String)
    ensures
        r@ == lowercase(s@),
{
    s.to_lowercase()
}

/// The Dart class name of an interface name.
pub open spec fn class_name_spec(nm: Seq<char>) -> Seq<char> {
    upper_camel_case(nm)
}

/// The Dart function, variable and enum-variant name of an interface name.
pub open spec fn member_name_spec(nm: Seq<char>) -> Seq<char> {
    lower_camel_case(nm)
}

/// The name with each `Error` turned into `Exception`, as Dart error classes
/// are named.
pub open spec fn exception_safe_spec(nm: Seq<char>) -> Seq<char> {
    replace_all_spec(nm, seq!['E', 'r', 'r', 'o', 'r'], seq!['E', 'x', 'c', 'e', 'p', 't', 'i', 'o', 'n'])
}

/// Dart class name: upper camel case.
pub fn class_name(nm: &str) -> (r: String)
    ensures
        r@ == class_name_spec(nm@),
{
    to_upper_camel(nm)
}

/// Dart function name: lower camel case.
pub fn fn_name(nm: &str) -> (r: String)
    ensures
        r@ == member_name_spec(nm@),
{
    to_lower_camel(nm)
}

/// Dart variable name: lower camel case.
pub fn var_name(nm: &str) -> (r: String)
    ensures
        r@ == member_name_spec(nm@),
{
    to_lower_camel(nm)
}

/// Dart enum variant name: lower camel case.
pub fn enum_variant_name(nm: &str) -> (r: String)
    ensures
        r@ == member_name_spec(nm@),
{
    to_lower_camel(nm)
}

/// The name with each `Error` replaced by `Exception`.
pub fn exception_safe_name(nm: &str) -> (r: String)
    ensures
        r@ == exception_safe_spec(nm@),
{
    proof {
        reveal_strlit("Error");
        reveal_strlit("Exception");
    }
    let r = replace_all(nm, "Error", "Exception");
    assert("Error"@ =~= seq!['E', 'r', 'r', 'o', 'r']);
    assert("Exception"@ =~= seq!['E', 'x', 'c', 'e', 'p', 't', 'i', 'o', 'n']);
    r
}

} // verus!
