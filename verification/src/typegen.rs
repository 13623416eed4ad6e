//! What the serde-reflection type generator decides besides tracing the
//! app's types and writing the generated files: when types may still be
//! registered, how a tracing failure is reported, and how the generated
//! sources are patched before they are written.
use vstd::prelude::*;

use crate::type_generation::text::{replace_all, replaced};

verus! {

/// Where the generator is: registering types, or generating code from the
/// registry that registration produced.
#[derive(Debug, Clone, Copy, PartialEq, Eq, Structural)]
pub enum Phase {
    Registering,
    Generating,
}

pub open spec fn too_late_message() -> Seq<char> {
    "code has been generated, too late to register types"@
}

/// The advice appended to a failure to trace a type.
pub open spec fn hint() -> Seq<char> {
    "\nThis might be because you attempted to pass types with custom serialization across the FFI boundary. Make sure that:\n1. Types you use in Event, ViewModel and Capabilities serialize as a container, otherwise wrap them in a new type struct,\n    e.g. MyUuid(uuid::Uuid)\n2. Sample values of such types have been provided to the type generator using TypeGen::register_samples, before any type registration."@
}

fn hint_text() -> (s: &'static str)
    ensures
        s@ == hint(),
{
    "\nThis might be because you attempted to pass types with custom serialization across the FFI boundary. Make sure that:\n1. Types you use in Event, ViewModel and Capabilities serialize as a container, otherwise wrap them in a new type struct,\n    e.g. MyUuid(uuid::Uuid)\n2. Sample values of such types have been provided to the type generator using TypeGen::register_samples, before any type registration."
}

/// Whether types can be registered in phase `p`.
pub open spec fn registers(p: Phase) -> bool {
    p is Registering
}

/// The phase after generation has started from phase `p`.
pub open spec fn generated(p: Phase) -> Phase {
    Phase::Generating
}

impl Phase {
    /// Whether a type may be registered now: only until code is generated.
    pub fn check_registering(&self) -> (res: Result<(), String>)
        ensures
            registers(*self) <==> res is Ok,
            res matches Err(m) ==> m@ == too_late_message(),
    {
        match self {
            Phase::Registering => Ok(()),
            Phase::Generating => Err(String::from_str("code has been generated, too late to register types")),
        }
    }

    /// Move on to generating. Returns whether the registry has to be built
    /// from what was traced, which is the case on the first call only.
    pub fn start_generating(&mut self) -> (build: bool)
        ensures
            build == registers(*old(self)),
            *final(self) == generated(*old(self)),
    {
        let build = match self {
            Phase::Registering => true,
            Phase::Generating => false,
        };
        *self = Phase::Generating;
        build
    }
}

/// Generating closes registration for good: from either phase, after
/// [`Phase::start_generating`] types can no longer be registered, and
/// generating again leaves the phase as it is and builds nothing.
pub proof fn law_generating_closes_registration(p: Phase)
    ensures
        !registers(generated(p)),
        generated(generated(p)) == generated(p),
{
}

/// What tracing a type or a value reported: a failure to deserialize the
/// traced value, with its text, or any other failure, as displayed.
#[derive(Debug, Clone)]
pub enum TraceFailure {
    Deserialization(String),
    Other(String),
}

/// The message for a failure to trace a type: a deserialization failure
/// comes with advice on custom serialization.
pub fn type_tracing_error(failure: &TraceFailure) -> (m: String)
    ensures
        match failure {
            TraceFailure::Deserialization(t) => m@ == "Type tracing failed: "@ + t@ + ". "@ + hint(),
            TraceFailure::Other(e) => m@ == "type tracing failed: "@ + e@,
        },
{
    match failure {
        TraceFailure::Deserialization(t) => String::from_str("Type tracing failed: ").concat(t.as_str()).concat(
            ". ",
        ).concat(hint_text()),
        TraceFailure::Other(e) => String::from_str("type tracing failed: ").concat(e.as_str()),
    }
}

/// The message for a failure to trace a sample value of a type being
/// registered: a deserialization failure comes with the same advice.
pub fn value_tracing_error(failure: &TraceFailure) -> (m: String)
    ensures
        match failure {
            TraceFailure::Deserialization(t) => m@ == "Type tracing failed: "@ + t@ + ". "@ + hint(),
            TraceFailure::Other(e) => m@ == "value tracing failed: "@ + e@,
        },
{
    match failure {
        TraceFailure::Deserialization(t) => String::from_str("Type tracing failed: ").concat(t.as_str()).concat(
            ". ",
        ).concat(hint_text()),
        TraceFailure::Other(e) => String::from_str("value tracing failed: ").concat(e.as_str()),
    }
}

/// The message for a failure to trace a registered sample, displayed as
/// `error`.
pub fn sample_tracing_error(error: &str) -> (m: String)
    ensures
        m@ == "value tracing failed: "@ + error@,
{
    String::from_str("value tracing failed: ").concat(error)
}

/// The message for a failure to trace a type after its samples were traced,
/// displayed as `error`, with the advice on custom serialization.
pub fn sampled_type_error(error: &str) -> (m: String)
    ensures
        m@ == "Type tracing failed: "@ + error@ + ". "@ + hint(),
{
    String::from_str("Type tracing failed: ").concat(error).concat(". ").concat(hint_text())
}

/// The Swift source to write: the generated declarations without the
/// `shared.` namespace prefix, which Swift does not resolve, followed by a
/// blank line and the request helpers.
pub fn swift_source(generated: &str, requests: &str) -> (s: String)
    ensures
        s@ == replaced(generated@, "shared."@, ""@) + "\n\n"@ + requests@,
{
    proof {
        reveal_strlit("shared.");
    }
    replace_all(generated, "shared.", "").concat("\n\n").concat(requests)
}

/// The TypeScript source to write: the generated declarations with the
/// `.ts` dropped from their relative imports.
pub fn typescript_source(generated: &str) -> (s: String)
    ensures
        s@ == replaced(generated@, ".ts'"@, "'"@),
{
    proof {
        reveal_strlit(".ts'");
    }
    replace_all(generated, ".ts'", "'")
}

/// The directory a Java package is written into, relative to the output
/// root: its dotted segments as path segments.
pub fn java_package_path(package_name: &str) -> (s: String)
    ensures
        s@ == replaced(package_name@, "."@, "/"@),
{
    proof {
        reveal_strlit(".");
    }
    replace_all(package_name, ".", "/")
}

/// The Java request helpers, declared in the package `package_name`.
pub fn java_requests(package_name: &str, requests: &str) -> (s: String)
    ensures
        s@ == "package "@ + package_name@ + ";\n\n"@ + requests@,
{
    String::from_str("package ").concat(package_name).concat(";\n\n").concat(requests)
}

} // verus!
