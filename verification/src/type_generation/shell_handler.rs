//! Shell handlers a capability crate ships with its types: source written by
//! the capability's author, emitted verbatim into the app's generated module
//! when the app asks for it.
use vstd::prelude::*;

verus! {

/// One language's shipped source, and what it needs beyond the platform's
/// standard library.
#[derive(Debug, Clone, Copy)]
#[non_exhaustive]
pub struct ShellSource {
    /// The source text, emitted verbatim into the generated module.
    pub source: &'static str,
    /// Manifest entries the source needs beyond the platform standard library.
    pub dependencies: &'static [&'static str],
    /// Edges the generated Swift build target needs, written verbatim into
    /// the target's `dependencies:` array.
    pub target_dependencies: &'static [&'static str],
}

impl ShellSource {
    /// Source that needs nothing but the platform's standard library.
    pub fn stdlib(source: &'static str) -> (s: Self)
        ensures
            s.source == source,
            s.dependencies@.len() == 0,
            s.target_dependencies@.len() == 0,
    {
        ShellSource { source, dependencies: &[], target_dependencies: &[] }
    }

    /// What the source needs in the generated package's manifest.
    pub fn dependencies(self, dependencies: &'static [&'static str]) -> (s: Self)
        ensures
            s.source == self.source,
            s.dependencies == dependencies,
            s.target_dependencies == self.target_dependencies,
    {
        ShellSource { dependencies, ..self }
    }

    /// What the source needs on the generated Swift target.
    pub fn target_dependencies(self, target_dependencies: &'static [&'static str]) -> (s: Self)
        ensures
            s.source == self.source,
            s.dependencies == self.dependencies,
            s.target_dependencies == target_dependencies,
    {
        ShellSource { target_dependencies, ..self }
    }
}

/// The shell handlers one capability ships, in the languages it ships them
/// for.
#[derive(Debug, Clone, Copy)]
#[non_exhaustive]
pub struct ShellHandler {
    /// `UpperCamelCase`. Names the companion file (`Http.swift`) and the
    /// protocol the source is expected to declare (`HttpHandler`, and
    /// `IHttpHandler` in C#).
    pub name: &'static str,
    pub swift: Option<ShellSource>,
    pub kotlin: Option<ShellSource>,
    pub typescript: Option<ShellSource>,
    pub csharp: Option<ShellSource>,
}

/// The protocol a handler named `name` is expected to declare.
pub open spec fn protocol_name_of(name: Seq<char>) -> Seq<char> {
    name + "Handler"@
}

/// The C# interface a handler named `name` is expected to declare.
pub open spec fn csharp_interface_name_of(name: Seq<char>) -> Seq<char> {
    "I"@ + name + "Handler"@
}

impl ShellHandler {
    /// A handler that ships no language yet, named for the capability.
    pub fn new(name: &'static str) -> (h: Self)
        ensures
            h.name == name,
            h.swift is None,
            h.kotlin is None,
            h.typescript is None,
            h.csharp is None,
    {
        ShellHandler { name, swift: None, kotlin: None, typescript: None, csharp: None }
    }

    /// The Swift source this capability ships.
    pub fn swift(self, source: ShellSource) -> (h: Self)
        ensures
            h == (ShellHandler { swift: Some(source), ..self }),
    {
        ShellHandler { swift: Some(source), ..self }
    }

    /// The Kotlin source this capability ships.
    pub fn kotlin(self, source: ShellSource) -> (h: Self)
        ensures
            h == (ShellHandler { kotlin: Some(source), ..self }),
    {
        ShellHandler { kotlin: Some(source), ..self }
    }

    /// The TypeScript source this capability ships.
    pub fn typescript(self, source: ShellSource) -> (h: Self)
        ensures
            h == (ShellHandler { typescript: Some(source), ..self }),
    {
        ShellHandler { typescript: Some(source), ..self }
    }

    /// The C# source this capability ships.
    pub fn csharp(self, source: ShellSource) -> (h: Self)
        ensures
            h == (ShellHandler { csharp: Some(source), ..self }),
    {
        ShellHandler { csharp: Some(source), ..self }
    }

    /// The protocol the source is expected to declare, e.g. `HttpHandler`.
    pub fn protocol_name(&self) -> (s: String)
        ensures
            s@ == protocol_name_of(self.name@),
    {
        String::from_str(self.name).concat("Handler")
    }

    /// The same, in C#, where an interface is conventionally `I`-prefixed.
    pub fn csharp_interface_name(&self) -> (s: String)
        ensures
            s@ == csharp_interface_name_of(self.name@),
    {
        String::from_str("I").concat(self.name).concat("Handler")
    }
}

} // verus!
