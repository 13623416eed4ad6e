//! Naming the FFI bindings the generated `Core` should bridge to, per
//! language. A language left unconfigured is generated as if there were no
//! bindings at all.
use vstd::prelude::*;

verus! {

/// Where an external package can be found.
#[derive(Debug, Clone)]
pub enum PackageLocation {
    /// A local file path (or, for Kotlin, a dot-separated package name).
    Path(String),
    /// The URL of a remote package.
    Url(String),
}

/// A location as plain values: whether it is a path, and the text.
pub type LocationView = (bool, Seq<char>);

impl View for PackageLocation {
    type V = LocationView;

    open spec fn view(&self) -> LocationView {
        match self {
            PackageLocation::Path(p) => (true, p@),
            PackageLocation::Url(u) => (false, u@),
        }
    }
}

/// A package providing types from another namespace.
#[derive(Debug, Clone)]
pub struct ExternalPackage {
    /// The namespace the package provides.
    pub for_namespace: String,
    /// Where the package is.
    pub location: PackageLocation,
    /// The module to import from the package, if not its root.
    pub module_name: Option<String>,
    /// The version range of a published package.
    pub version: Option<String>,
}

/// Where the Swift bindings live: a separate SPM package the generated one
/// has to depend on.
#[derive(Debug, Clone)]
pub struct SwiftFfi {
    /// The module the FFI class is imported from, e.g. `Shared`.
    pub module: String,
    /// The library product that vends the module.
    pub product: String,
    /// The path to the package, relative to the generated one.
    pub package_path: String,
}

/// Where the Kotlin bindings live. `None` is the generated package itself.
#[derive(Debug, Clone)]
pub struct KotlinFfi {
    pub package: Option<String>,
}

/// Where the TypeScript bindings live: an npm package the generated one has
/// to depend on.
#[derive(Debug, Clone)]
pub struct TypeScriptFfi {
    /// The npm package name, e.g. `shared`.
    pub package: String,
    /// Where npm should resolve it from.
    pub location: PackageLocation,
    /// The version range, for a published package. Ignored for a path.
    pub version: Option<String>,
}

/// Where the C# bindings live. `None` is the generated namespace itself.
#[derive(Debug, Clone)]
pub struct CSharpFfi {
    pub namespace: Option<String>,
}

pub open spec fn opt_view(o: Option<String>) -> Option<Seq<char>> {
    match o {
        Some(s) => Some(s@),
        None => None,
    }
}

impl View for SwiftFfi {
    type V = (Seq<char>, Seq<char>, Seq<char>);

    open spec fn view(&self) -> (Seq<char>, Seq<char>, Seq<char>) {
        (self.module@, self.product@, self.package_path@)
    }
}

impl View for TypeScriptFfi {
    type V = (Seq<char>, LocationView, Option<Seq<char>>);

    open spec fn view(&self) -> (Seq<char>, LocationView, Option<Seq<char>>) {
        (self.package@, self.location@, opt_view(self.version))
    }
}

/// Which FFI bindings the generated `FfiBridge` should call, per language.
#[derive(Debug, Clone)]
pub struct BoltFfi {
    class: Option<String>,
    swift: Option<SwiftFfi>,
    kotlin: Option<KotlinFfi>,
    typescript: Option<TypeScriptFfi>,
    csharp: Option<CSharpFfi>,
}

/// A [`BoltFfi`] as plain values: the class name, if renamed, and each
/// language's configuration, if named.
pub struct BoltFfiView {
    pub class: Option<Seq<char>>,
    pub swift: Option<(Seq<char>, Seq<char>, Seq<char>)>,
    pub kotlin: Option<Option<Seq<char>>>,
    pub typescript: Option<(Seq<char>, LocationView, Option<Seq<char>>)>,
    pub csharp: Option<Option<Seq<char>>>,
}

impl View for BoltFfi {
    type V = BoltFfiView;

    closed spec fn view(&self) -> BoltFfiView {
        BoltFfiView {
            class: opt_view(self.class),
            swift: match self.swift {
                Some(s) => Some(s@),
                None => None,
            },
            kotlin: match self.kotlin {
                Some(k) => Some(opt_view(k.package)),
                None => None,
            },
            typescript: match self.typescript {
                Some(t) => Some(t@),
                None => None,
            },
            csharp: match self.csharp {
                Some(c) => Some(opt_view(c.namespace)),
                None => None,
            },
        }
    }
}

/// The class the FFI bindings export when it is not renamed.
pub open spec fn default_class() -> Seq<char> {
    "CoreFfi"@
}

impl BoltFfi {
    /// A configuration that names no language yet.
    pub fn new() -> (b: Self)
        ensures
            b@ == (BoltFfiView { class: None, swift: None, kotlin: None, typescript: None, csharp: None }),
    {
        BoltFfi { class: None, swift: None, kotlin: None, typescript: None, csharp: None }
    }

    /// The class the FFI bindings export, if it is not called `CoreFfi`.
    pub fn class(self, name: &str) -> (b: Self)
        ensures
            b@ == (BoltFfiView { class: Some(name@), ..self@ }),
    {
        BoltFfi { class: Some(String::from_str(name)), ..self }
    }

    /// Bridge Swift to the bindings in `module`, assuming a package of the
    /// same name one directory up from the generated one.
    pub fn swift(self, module: &str) -> (b: Self)
        ensures
            b@ == (BoltFfiView { swift: Some((module@, module@, "../"@ + module@)), ..self@ }),
    {
        let package_path = String::from_str("../").concat(module);
        self.swift_package(module, module, package_path.as_str())
    }

    /// Bridge Swift to a package that is laid out differently.
    pub fn swift_package(self, module: &str, product: &str, package_path: &str) -> (b: Self)
        ensures
            b@ == (BoltFfiView { swift: Some((module@, product@, package_path@)), ..self@ }),
    {
        BoltFfi {
            swift: Some(
                SwiftFfi {
                    module: String::from_str(module),
                    product: String::from_str(product),
                    package_path: String::from_str(package_path),
                },
            ),
            ..self
        }
    }

    /// Bridge Kotlin to the bindings in the generated package.
    pub fn kotlin(self) -> (b: Self)
        ensures
            b@ == (BoltFfiView { kotlin: Some(None), ..self@ }),
    {
        BoltFfi { kotlin: Some(KotlinFfi { package: None }), ..self }
    }

    /// Bridge Kotlin to bindings generated into another package.
    pub fn kotlin_package(self, package: &str) -> (b: Self)
        ensures
            b@ == (BoltFfiView { kotlin: Some(Some(package@)), ..self@ }),
    {
        BoltFfi { kotlin: Some(KotlinFfi { package: Some(String::from_str(package)) }), ..self }
    }

    /// Bridge TypeScript to the bindings in the npm package `package`.
    pub fn typescript(self, package: &str, location: PackageLocation) -> (b: Self)
        ensures
            b@ == (BoltFfiView { typescript: Some((package@, location@, None)), ..self@ }),
    {
        self.typescript_package(package, location, None)
    }

    /// Bridge TypeScript, pinning a published package to a version range.
    pub fn typescript_package(self, package: &str, location: PackageLocation, version: Option<&str>) -> (b: Self)
        ensures
            b@ == (BoltFfiView {
                typescript: Some((
                    package@,
                    location@,
                    match version {
                        Some(v) => Some(v@),
                        None => None,
                    },
                )),
                ..self@
            }),
    {
        let version = match version {
            Some(v) => Some(String::from_str(v)),
            None => None,
        };
        BoltFfi {
            typescript: Some(TypeScriptFfi { package: String::from_str(package), location, version }),
            ..self
        }
    }

    /// Bridge C# to the bindings in the generated namespace.
    pub fn csharp(self) -> (b: Self)
        ensures
            b@ == (BoltFfiView { csharp: Some(None), ..self@ }),
    {
        BoltFfi { csharp: Some(CSharpFfi { namespace: None }), ..self }
    }

    /// Bridge C# to bindings generated into another namespace.
    pub fn csharp_namespace(self, ns: &str) -> (b: Self)
        ensures
            b@ == (BoltFfiView { csharp: Some(Some(ns@)), ..self@ }),
    {
        BoltFfi { csharp: Some(CSharpFfi { namespace: Some(String::from_str(ns)) }), ..self }
    }

    /// The name of the FFI class, defaulting to `CoreFfi`.
    pub fn class_name(&self) -> (s: &str)
        ensures
            s@ == match self@.class {
                Some(c) => c,
                None => default_class(),
            },
    {
        match &self.class {
            Some(c) => c.as_str(),
            None => "CoreFfi",
        }
    }

    /// The Swift bindings, if Swift was named.
    pub fn swift_ffi(&self) -> (res: Option<&SwiftFfi>)
        ensures
            match res {
                Some(s) => self@.swift == Some(s@),
                None => self@.swift is None,
            },
    {
        self.swift.as_ref()
    }

    /// The Kotlin bindings, if Kotlin was named.
    pub fn kotlin_ffi(&self) -> (res: Option<&KotlinFfi>)
        ensures
            match res {
                Some(k) => self@.kotlin == Some(opt_view(k.package)),
                None => self@.kotlin is None,
            },
    {
        self.kotlin.as_ref()
    }

    /// The TypeScript bindings, if TypeScript was named.
    pub fn typescript_ffi(&self) -> (res: Option<&TypeScriptFfi>)
        ensures
            match res {
                Some(t) => self@.typescript == Some(t@),
                None => self@.typescript is None,
            },
    {
        self.typescript.as_ref()
    }

    /// The C# bindings, if C# was named.
    pub fn csharp_ffi(&self) -> (res: Option<&CSharpFfi>)
        ensures
            match res {
                Some(c) => self@.csharp == Some(opt_view(c.namespace)),
                None => self@.csharp is None,
            },
    {
        self.csharp.as_ref()
    }
}

fn copy_text(o: &Option<String>) -> (r: Option<String>)
    ensures
        opt_view(r) == opt_view(*o),
{
    match o {
        Some(s) => Some(s.clone()),
        None => None,
    }
}

impl PackageLocation {
    /// An owned copy of the location.
    pub fn copy(&self) -> (l: Self)
        ensures
            l@ == self@,
    {
        match self {
            PackageLocation::Path(p) => PackageLocation::Path(p.clone()),
            PackageLocation::Url(u) => PackageLocation::Url(u.clone()),
        }
    }
}

impl BoltFfi {
    /// An owned copy of the configuration, naming the same bindings.
    pub fn copy(&self) -> (b: Self)
        ensures
            b@ == self@,
    {
        let swift = match &self.swift {
            Some(s) => Some(
                SwiftFfi { module: s.module.clone(), product: s.product.clone(), package_path: s.package_path.clone() },
            ),
            None => None,
        };
        let kotlin = match &self.kotlin {
            Some(k) => Some(KotlinFfi { package: copy_text(&k.package) }),
            None => None,
        };
        let typescript = match &self.typescript {
            Some(t) => Some(
                TypeScriptFfi { package: t.package.clone(), location: t.location.copy(), version: copy_text(&t.version) },
            ),
            None => None,
        };
        let csharp = match &self.csharp {
            Some(c) => Some(CSharpFfi { namespace: copy_text(&c.namespace) }),
            None => None,
        };
        BoltFfi { class: copy_text(&self.class), swift, kotlin, typescript, csharp }
    }
}

impl Default for BoltFfi {
    fn default() -> (b: Self)
        ensures
            b@ == (BoltFfiView { class: None, swift: None, kotlin: None, typescript: None, csharp: None }),
    {
        Self::new()
    }
}

/// The version a TypeScript dependency is pinned to: `file:<path>` for a
/// path, and the version range — or else the URL — for a published package.
pub open spec fn dependency_version(t: (Seq<char>, LocationView, Option<Seq<char>>)) -> Seq<char> {
    if t.1.0 {
        "file:"@ + t.1.1
    } else {
        match t.2 {
            Some(v) => v,
            None => t.1.1,
        }
    }
}

impl TypeScriptFfi {
    /// The `package.json` dependency pair the generated package needs:
    /// `"shared": "file:../pkg"`.
    pub fn manifest_dependency(&self) -> (s: String)
        ensures
            s@ == "\""@ + self.package@ + "\": \""@ + dependency_version(self@) + "\""@,
    {
        let version = match &self.location {
            PackageLocation::Path(path) => String::from_str("file:").concat(path.as_str()),
            PackageLocation::Url(url) => match &self.version {
                Some(v) => v.clone(),
                None => url.clone(),
            },
        };
        String::from_str("\"").concat(self.package.as_str()).concat("\": \"").concat(version.as_str()).concat(
            "\"",
        )
    }
}

/// Where the TypeScript bincode runtime is imported from, given the external
/// package registered for `bincode`, if any.
pub open spec fn bincode_import_path_spec(bincode: Option<ExternalPackage>) -> Seq<char> {
    match bincode {
        None => "./bincode"@,
        Some(p) => match p.location {
            PackageLocation::Path(_) => match p.module_name {
                Some(m) => p.for_namespace@ + "/"@ + m@,
                None => p.for_namespace@,
            },
            PackageLocation::Url(_) => p.for_namespace@,
        },
    }
}

/// Where the TypeScript bincode runtime lives, resolved the same way the
/// bincode plugin resolves the serde runtime: beside the module unless a
/// package is registered for it.
pub fn bincode_import_path(bincode: Option<&ExternalPackage>) -> (s: String)
    ensures
        s@ == bincode_import_path_spec(
            match bincode {
                Some(p) => Some(*p),
                None => None,
            },
        ),
{
    match bincode {
        None => String::from_str("./bincode"),
        Some(package) => match &package.location {
            PackageLocation::Path(_) => match &package.module_name {
                Some(module) => package.for_namespace.clone().concat("/").concat(module.as_str()),
                None => package.for_namespace.clone(),
            },
            PackageLocation::Url(_) => package.for_namespace.clone(),
        },
    }
}

} // verus!
