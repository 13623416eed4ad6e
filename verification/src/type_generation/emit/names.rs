//! How the code generator names what it generates from a variant: the
//! spellings are facet-generate's and heck's, so the generated shell API
//! refers to the declarations the generator writes.
use vstd::prelude::*;

verus! {

/// facet-generate's Swift `case` name for a variant named `s`: a function
/// of the name alone.
pub uninterp spec fn swift_case_name(s: Seq<char>) -> Seq<char>;

/// facet-generate's Kotlin class name for a variant named `s`.
pub uninterp spec fn kotlin_class_name(s: Seq<char>) -> Seq<char>;

/// facet-generate's C# spelling of the identifier `s`, escaped if it is a
/// keyword.
pub uninterp spec fn csharp_identifier(s: Seq<char>) -> Seq<char>;

/// heck's shouty snake case of `s`.
pub uninterp spec fn heck_shouty_snake(s: Seq<char>) -> Seq<char>;

/// Calls `facet_generate::generation::swift::case_name`; its result is named
/// `swift_case_name` of the variant name, and nothing more is claimed of it.
#[verifier::external_body]
pub(crate) fn case_name(variant: &str) -> (s: String)
    ensures
        s@ == swift_case_name(variant@),
{
    facet_generate::generation::swift::case_name(variant)
}

/// Calls `facet_generate::generation::kotlin::variant_class_name`; its
/// result is named `kotlin_class_name` of the variant name.
#[verifier::external_body]
pub(crate) fn variant_class_name(variant: &str) -> (s: String)
    ensures
        s@ == kotlin_class_name(variant@),
{
    facet_generate::generation::kotlin::variant_class_name(variant)
}

/// Calls `facet_generate::generation::csharp::escape_identifier`, owning the
/// result; it is named `csharp_identifier` of the identifier.
#[verifier::external_body]
pub(crate) fn csharp_escape(identifier: &str) -> (s: String)
    ensures
        s@ == csharp_identifier(identifier@),
{
    facet_generate::generation::csharp::escape_identifier(identifier).into_owned()
}

/// Calls `heck::ToShoutySnakeCase::to_shouty_snake_case`; its result is
/// named `heck_shouty_snake` of the input.
#[verifier::external_body]
pub(crate) fn shouty_snake(s: &str) -> (r: String)
    ensures
        r@ == heck_shouty_snake(s@),
{
    heck::ToShoutySnakeCase::to_shouty_snake_case(s)
}

} // verus!
