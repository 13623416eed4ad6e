//! How each language's generated accessor spells the request kind an
//! effect's operation declares, or its absence.
use vstd::prelude::*;

use crate::capability::RequestKind;
use super::shell_handler_plugin::Language;

verus! {

/// The kind as the Swift and TypeScript enums name their cases.
pub open spec fn lower_name(kind: RequestKind) -> Seq<char> {
    match kind {
        RequestKind::Notify => "notify"@,
        RequestKind::Request => "request"@,
        RequestKind::Stream => "stream"@,
    }
}

/// The kind as the Kotlin enum names its entries.
pub open spec fn upper_name(kind: RequestKind) -> Seq<char> {
    match kind {
        RequestKind::Notify => "NOTIFY"@,
        RequestKind::Request => "REQUEST"@,
        RequestKind::Stream => "STREAM"@,
    }
}

/// The kind as the C# enum names its members.
pub open spec fn member_name(kind: RequestKind) -> Seq<char> {
    match kind {
        RequestKind::Notify => "Notify"@,
        RequestKind::Request => "Request"@,
        RequestKind::Stream => "Stream"@,
    }
}

/// The expression the accessor in `language` returns for a variant whose
/// operation declares `kind`; `namespace` is the C# namespace the
/// `RequestKind` enum is declared in.
pub open spec fn kind_literal_spec(language: Language, kind: Option<RequestKind>, namespace: Seq<char>) -> Seq<char> {
    match kind {
        None => match language {
            Language::Swift => "nil"@,
            Language::TypeScript => "undefined"@,
            Language::Kotlin => "null"@,
            Language::CSharp => "null"@,
        },
        Some(k) => match language {
            Language::Swift => "."@ + lower_name(k),
            Language::TypeScript => "\""@ + lower_name(k) + "\""@,
            Language::Kotlin => "RequestKind."@ + upper_name(k),
            Language::CSharp => namespace + ".RequestKind."@ + member_name(k),
        },
    }
}

fn lower(kind: RequestKind) -> (s: &'static str)
    ensures
        s@ == lower_name(kind),
{
    match kind {
        RequestKind::Notify => "notify",
        RequestKind::Request => "request",
        RequestKind::Stream => "stream",
    }
}

fn upper(kind: RequestKind) -> (s: &'static str)
    ensures
        s@ == upper_name(kind),
{
    match kind {
        RequestKind::Notify => "NOTIFY",
        RequestKind::Request => "REQUEST",
        RequestKind::Stream => "STREAM",
    }
}

fn member(kind: RequestKind) -> (s: &'static str)
    ensures
        s@ == member_name(kind),
{
    match kind {
        RequestKind::Notify => "Notify",
        RequestKind::Request => "Request",
        RequestKind::Stream => "Stream",
    }
}

/// The expression the accessor in `language` returns for a variant whose
/// operation declares `kind`: the language's spelling of the kind, or of
/// nothing when the operation leaves the kind to the call site.
pub fn kind_literal(language: Language, kind: Option<RequestKind>, namespace: &str) -> (s: String)
    ensures
        s@ == kind_literal_spec(language, kind, namespace@),
{
    match kind {
        None => match language {
            Language::Swift => String::from_str("nil"),
            Language::TypeScript => String::from_str("undefined"),
            Language::Kotlin => String::from_str("null"),
            Language::CSharp => String::from_str("null"),
        },
        Some(k) => match language {
            Language::Swift => String::from_str(".").concat(lower(k)),
            Language::TypeScript => String::from_str("\"").concat(lower(k)).concat("\""),
            Language::Kotlin => String::from_str("RequestKind.").concat(upper(k)),
            Language::CSharp => String::from_str(namespace).concat(".RequestKind.").concat(member(k)),
        },
    }
}

} // verus!
