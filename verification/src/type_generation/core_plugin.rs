//! What the `Core` plugin adds to a generated package besides the
//! declarations themselves: imports, manifest entries, and the companion file
//! holding the FFI bridge.
use vstd::prelude::*;

use super::boltffi::{dependency_version, BoltFfi, BoltFfiView, default_class};
use super::effects::EffectMeta;
use super::naming::{last_segment, package_name, trim_end};
use super::handler_plugin::{handler_typescript_imports, serializer_import};
use super::plugins::{emits_core, emits_core_spec, serializes_output, serializes_output_spec};
use super::text::{lemma_texts_push, same_text, texts};

verus! {

/// A companion file to write beside the module: its name and the imports
/// its contents need on top of the module's own.
#[derive(Debug)]
pub struct CompanionPlan {
    pub file_name: String,
    pub imports: Vec<String>,
}

/// The facts the `Core` plugin decides from: whether a `Core` is emitted at
/// all, whether the handler API already imports the serializer, the bridge
/// configuration, and the package the app's own types are in.
#[derive(Debug)]
pub struct CorePlugin {
    emits_core: bool,
    serializes_output: bool,
    ffi: Option<BoltFfi>,
    package: String,
}

/// A [`CorePlugin`] as plain values.
pub struct CorePluginView {
    pub emits_core: bool,
    pub serializes_output: bool,
    pub ffi: Option<BoltFfiView>,
    pub package: Seq<char>,
}

impl View for CorePlugin {
    type V = CorePluginView;

    closed spec fn view(&self) -> CorePluginView {
        CorePluginView {
            emits_core: self.emits_core,
            serializes_output: self.serializes_output,
            ffi: match self.ffi {
                Some(b) => Some(b@),
                None => None,
            },
            package: self.package@,
        }
    }
}

impl CorePluginView {
    /// The bridge configuration, if there is a `Core` for a bridge to belong
    /// to.
    pub open spec fn bridge(self) -> Option<BoltFfiView> {
        if self.emits_core { self.ffi } else { None }
    }
}

pub open spec fn kotlin_coroutine_imports() -> Seq<Seq<char>> {
    seq![
        "import kotlinx.coroutines.CoroutineScope"@,
        "import kotlinx.coroutines.launch"@,
        "import kotlinx.coroutines.flow.MutableStateFlow"@,
        "import kotlinx.coroutines.flow.StateFlow"@,
        "import kotlinx.coroutines.flow.asStateFlow"@,
    ]
}

pub open spec fn kotlin_coroutines_dependency() -> Seq<char> {
    "    implementation(\"org.jetbrains.kotlinx:kotlinx-coroutines-core:1.10.2\")"@
}

/// The TypeScript import of the bincode deserializer from `path`.
pub open spec fn deserializer_import(path: Seq<char>) -> Seq<char> {
    "import { BincodeDeserializer } from \""@ + path + "\";"@
}

/// The TypeScript import of the bindings' package `package`.
pub open spec fn bindings_import(package: Seq<char>) -> Seq<char> {
    "import * as boltffi from \""@ + package + "\";"@
}

/// What the `Core` plugin imports into the TypeScript module `module`, with
/// the bincode runtime at `path`: nothing outside the app's module or
/// without a `Core`; else the deserializer, the serializer unless the
/// handler API imports it, and the bindings' package when named.
pub open spec fn core_typescript_imports(p: CorePluginView, module: Seq<char>, path: Seq<char>) -> Seq<Seq<char>> {
    if p.emits_core && module == p.package {
        seq![deserializer_import(path)] + (if !p.serializes_output {
            seq![serializer_import(path)]
        } else {
            Seq::empty()
        }) + match p.bridge() {
            Some(b) => match b.typescript {
                Some(t) => seq![bindings_import(t.0)],
                None => Seq::empty(),
            },
            None => Seq::empty(),
        }
    } else {
        Seq::empty()
    }
}

/// With a `Core` in the app's TypeScript module, the serializer is imported
/// exactly once: by the effect handler plugin when the dispatcher serializes
/// an output, and by the `Core` plugin otherwise.
pub proof fn law_serializer_imported_once(
    effects: Seq<EffectMeta>,
    ffi: Option<BoltFfiView>,
    package: Seq<char>,
    path: Seq<char>,
)
    requires
        emits_core_spec(effects),
    ensures
        handler_typescript_imports(serializes_output_spec(effects), path).contains(serializer_import(path))
            != core_typescript_imports(
            CorePluginView {
                emits_core: emits_core_spec(effects),
                serializes_output: serializes_output_spec(effects),
                ffi,
                package,
            },
            package,
            path,
        ).contains(serializer_import(path)),
{
    let ser = serializer_import(path);
    let p = CorePluginView {
        emits_core: emits_core_spec(effects),
        serializes_output: serializes_output_spec(effects),
        ffi,
        package,
    };
    reveal_strlit("import { BincodeSerializer } from \"");
    reveal_strlit("import { BincodeDeserializer } from \"");
    reveal_strlit("import * as boltffi from \"");
    assert(deserializer_import(path)[16] != ser[16]);
    assert forall|pkg: Seq<char>| bindings_import(pkg) != ser by {
        assert(bindings_import(pkg)[7] != ser[7]);
    }
    let core = core_typescript_imports(p, package, path);
    let handler = handler_typescript_imports(p.serializes_output, path);
    if p.serializes_output {
        assert(handler.contains(ser)) by {
            assert(handler[0] == ser);
        }
        assert(!core.contains(ser)) by {
            if core.contains(ser) {
                let i = choose|i: int| 0 <= i < core.len() && core[i] == ser;
                assert(i == 0 || core[i] == core[core.len() - 1]);
            }
        }
    } else {
        assert(!handler.contains(ser));
        assert(core[1] == ser);
        assert(core.contains(ser));
    }
}

impl CorePlugin {
    /// The plugin for a package named `package`, whose first registered
    /// effect is `effects[0]`, bridging to `ffi` if given.
    pub fn new(effects: &Vec<EffectMeta>, ffi: Option<BoltFfi>, package: &str) -> (p: Self)
        ensures
            p@ == (CorePluginView {
                emits_core: emits_core_spec(effects@),
                serializes_output: serializes_output_spec(effects@),
                ffi: match ffi {
                    Some(b) => Some(b@),
                    None => None,
                },
                package: package@,
            }),
    {
        CorePlugin {
            emits_core: emits_core(effects),
            serializes_output: serializes_output(effects),
            ffi,
            package: String::from_str(package),
        }
    }

    /// Whether a `Core` is emitted.
    pub fn emits_core(&self) -> (b: bool)
        ensures
            b == self@.emits_core,
    {
        self.emits_core
    }

    /// Whether `module_name` is the module the app's types are in, rather
    /// than one generated for a namespace of theirs.
    pub fn is_app_module(&self, module_name: &str) -> (b: bool)
        ensures
            b == (module_name@ == self@.package),
    {
        same_text(module_name, self.package.as_str())
    }

    /// The bridge configuration, if there is a `Core` for a bridge to belong
    /// to.
    pub fn ffi(&self) -> (res: Option<&BoltFfi>)
        ensures
            match res {
                Some(b) => self@.bridge() == Some(b@),
                None => self@.bridge() is None,
            },
    {
        if self.emits_core {
            self.ffi.as_ref()
        } else {
            None
        }
    }

    /// Swift: `Core` is `@Observable`, which needs the `Observation`
    /// framework imported, in the app's module.
    pub fn swift_imports(&self, module_name: &str) -> (res: Vec<String>)
        ensures
            texts(res@) == if self@.emits_core && module_name@ == self@.package {
                seq!["Observation"@]
            } else {
                Seq::empty()
            },
    {
        let mut res: Vec<String> = Vec::new();
        if self.emits_core && self.is_app_module(module_name) {
            res.push(String::from_str("Observation"));
        }
        assert(texts(res@) =~= if self@.emits_core && module_name@ == self@.package {
            seq!["Observation"@]
        } else {
            Seq::empty()
        });
        res
    }

    /// Swift: the bridge's own file, which imports Foundation and the FFI
    /// module, written into the app's module when Swift bindings are named.
    pub fn swift_companion(&self, module_name: &str) -> (res: Option<CompanionPlan>)
        ensures
            match res {
                Some(plan) => {
                    &&& module_name@ == self@.package
                    &&& self@.bridge() matches Some(b)
                    &&& b.swift matches Some(s)
                    &&& plan.file_name@ == "FfiBridge.swift"@
                    &&& texts(plan.imports@) == seq!["Foundation"@, s.0]
                },
                None => !({
                    &&& module_name@ == self@.package
                    &&& self@.bridge() matches Some(b)
                    &&& b.swift is Some
                }),
            },
    {
        if !self.is_app_module(module_name) {
            return None;
        }
        let ffi = match self.ffi() {
            Some(ffi) => ffi,
            None => return None,
        };
        let swift = match ffi.swift_ffi() {
            Some(swift) => swift,
            None => return None,
        };
        let mut imports: Vec<String> = Vec::new();
        imports.push(String::from_str("Foundation"));
        imports.push(swift.module.clone());
        assert(texts(imports@) =~= seq!["Foundation"@, swift.module@]);
        Some(CompanionPlan { file_name: String::from_str("FfiBridge.swift"), imports })
    }

    /// Swift: the generated package depends on the package the bindings are
    /// in.
    pub fn swift_manifest_dependencies(&self) -> (res: Vec<String>)
        ensures
            texts(res@) == match self@.bridge() {
                Some(b) => match b.swift {
                    Some(s) => seq![".package(path: \""@ + s.2 + "\")"@],
                    None => Seq::empty(),
                },
                None => Seq::empty(),
            },
    {
        let mut res: Vec<String> = Vec::new();
        match self.ffi() {
            Some(ffi) => match ffi.swift_ffi() {
                Some(swift) => {
                    res.push(String::from_str(".package(path: \"").concat(swift.package_path.as_str()).concat("\")"));
                },
                None => {},
            },
            None => {},
        }
        proof {
            if res@.len() == 1 {
                lemma_texts_push(Seq::empty(), res@[0]);
                assert(res@ == Seq::<String>::empty().push(res@[0]));
            } else {
                assert(texts(res@) =~= Seq::empty());
            }
        }
        res
    }

    /// Swift: the app's target depends on the bindings' product.
    pub fn swift_target_dependencies(&self, module_name: &str) -> (res: Vec<String>)
        ensures
            texts(res@) == if module_name@ == self@.package {
                match self@.bridge() {
                    Some(b) => match b.swift {
                        Some(s) => seq![
                            ".product(name: \""@ + s.1 + "\", package: \""@
                                + last_segment(trim_end(s.2, '/'), '/') + "\")"@,
                        ],
                        None => Seq::empty(),
                    },
                    None => Seq::empty(),
                }
            } else {
                Seq::empty()
            },
    {
        let mut res: Vec<String> = Vec::new();
        if self.is_app_module(module_name) {
            match self.ffi() {
                Some(ffi) => match ffi.swift_ffi() {
                    Some(swift) => {
                        res.push(String::from_str(".product(name: \"").concat(swift.product.as_str()).concat(
                            "\", package: \"",
                        ).concat(package_name(swift.package_path.as_str())).concat("\")"));
                    },
                    None => {},
                },
                None => {},
            }
        }
        proof {
            if res@.len() == 1 {
                lemma_texts_push(Seq::empty(), res@[0]);
                assert(res@ == Seq::<String>::empty().push(res@[0]));
            } else {
                assert(texts(res@) =~= Seq::empty());
            }
        }
        res
    }

    /// Kotlin: `Core` uses coroutines and state flows, imported in the app's
    /// module.
    pub fn kotlin_imports(&self, module_name: &str) -> (res: Vec<String>)
        ensures
            texts(res@) == if self@.emits_core && module_name@ == self@.package {
                kotlin_coroutine_imports()
            } else {
                Seq::empty()
            },
    {
        let mut res: Vec<String> = Vec::new();
        if self.emits_core && self.is_app_module(module_name) {
            res.push(String::from_str("import kotlinx.coroutines.CoroutineScope"));
            res.push(String::from_str("import kotlinx.coroutines.launch"));
            res.push(String::from_str("import kotlinx.coroutines.flow.MutableStateFlow"));
            res.push(String::from_str("import kotlinx.coroutines.flow.StateFlow"));
            res.push(String::from_str("import kotlinx.coroutines.flow.asStateFlow"));
        }
        assert(texts(res@) =~= if self@.emits_core && module_name@ == self@.package {
            kotlin_coroutine_imports()
        } else {
            Seq::empty()
        });
        res
    }

    /// Kotlin: the coroutines library, whenever a `Core` is emitted.
    pub fn kotlin_manifest_dependencies(&self) -> (res: Vec<String>)
        ensures
            texts(res@) == if self@.emits_core {
                seq![kotlin_coroutines_dependency()]
            } else {
                Seq::empty()
            },
    {
        let mut res: Vec<String> = Vec::new();
        if self.emits_core {
            res.push(
                String::from_str(
                    "    implementation(\"org.jetbrains.kotlinx:kotlinx-coroutines-core:1.10.2\")",
                ),
            );
        }
        assert(texts(res@) =~= if self@.emits_core {
            seq![kotlin_coroutines_dependency()]
        } else {
            Seq::empty()
        });
        res
    }

    /// Kotlin: the bridge's own file, which imports the FFI class only when
    /// it is declared in a package other than the module's.
    pub fn kotlin_companion(&self, module_name: &str) -> (res: Option<CompanionPlan>)
        ensures
            match res {
                Some(plan) => {
                    &&& module_name@ == self@.package
                    &&& self@.bridge() matches Some(b)
                    &&& b.kotlin matches Some(k)
                    &&& plan.file_name@ == "FfiBridge.kt"@
                    &&& texts(plan.imports@) == match k {
                        Some(pkg) => if pkg != module_name@ {
                            seq!["import "@ + pkg + "."@ + match b.class {
                                Some(c) => c,
                                None => default_class(),
                            }]
                        } else {
                            Seq::empty()
                        },
                        None => Seq::empty(),
                    }
                },
                None => !({
                    &&& module_name@ == self@.package
                    &&& self@.bridge() matches Some(b)
                    &&& b.kotlin is Some
                }),
            },
    {
        if !self.is_app_module(module_name) {
            return None;
        }
        let ffi = match self.ffi() {
            Some(ffi) => ffi,
            None => return None,
        };
        let kotlin = match ffi.kotlin_ffi() {
            Some(kotlin) => kotlin,
            None => return None,
        };
        let mut imports: Vec<String> = Vec::new();
        match &kotlin.package {
            Some(package) => {
                if !same_text(package.as_str(), module_name) {
                    imports.push(String::from_str("import ").concat(package.as_str()).concat(".").concat(
                        ffi.class_name(),
                    ));
                }
            },
            None => {},
        }
        proof {
            if imports@.len() == 1 {
                lemma_texts_push(Seq::empty(), imports@[0]);
                assert(imports@ == Seq::<String>::empty().push(imports@[0]));
            } else {
                assert(texts(imports@) =~= Seq::empty());
            }
        }
        Some(CompanionPlan { file_name: String::from_str("FfiBridge.kt"), imports })
    }

    /// TypeScript: the deserializer always, the serializer when the handler
    /// API has not imported it already, and the bindings' package when named.
    pub fn typescript_imports(&self, module_name: &str, bincode_path: &str) -> (res: Vec<String>)
        ensures
            texts(res@) == core_typescript_imports(self@, module_name@, bincode_path@),
    {
        let mut res: Vec<String> = Vec::new();
        if !self.emits_core || !self.is_app_module(module_name) {
            assert(texts(res@) =~= Seq::empty());
            return res;
        }
        res.push(String::from_str("import { BincodeDeserializer } from \"").concat(bincode_path).concat("\";"));
        let ghost first = texts(res@);
        assert(first =~= seq!["import { BincodeDeserializer } from \""@ + bincode_path@ + "\";"@]);
        if !self.serializes_output {
            res.push(String::from_str("import { BincodeSerializer } from \"").concat(bincode_path).concat("\";"));
        }
        let ghost second = texts(res@);
        assert(second =~= first + (if !self@.serializes_output {
            seq!["import { BincodeSerializer } from \""@ + bincode_path@ + "\";"@]
        } else {
            Seq::empty()
        }));
        match self.ffi() {
            Some(ffi) => match ffi.typescript_ffi() {
                Some(ts) => {
                    res.push(String::from_str("import * as boltffi from \"").concat(ts.package.as_str()).concat(
                        "\";",
                    ));
                },
                None => {},
            },
            None => {},
        }
        assert(texts(res@) =~= second + match self@.bridge() {
            Some(b) => match b.typescript {
                Some(t) => seq!["import * as boltffi from \""@ + t.0 + "\";"@],
                None => Seq::empty(),
            },
            None => Seq::empty(),
        });
        res
    }

    /// TypeScript: the generated package depends on the bindings' package.
    pub fn typescript_manifest_dependencies(&self) -> (res: Vec<String>)
        ensures
            texts(res@) == match self@.bridge() {
                Some(b) => match b.typescript {
                    Some(t) => seq!["\""@ + t.0 + "\": \""@ + dependency_version(t) + "\""@],
                    None => Seq::empty(),
                },
                None => Seq::empty(),
            },
    {
        let mut res: Vec<String> = Vec::new();
        match self.ffi() {
            Some(ffi) => match ffi.typescript_ffi() {
                Some(ts) => {
                    res.push(ts.manifest_dependency());
                },
                None => {},
            },
            None => {},
        }
        proof {
            if res@.len() == 1 {
                lemma_texts_push(Seq::empty(), res@[0]);
                assert(res@ == Seq::<String>::empty().push(res@[0]));
            } else {
                assert(texts(res@) =~= Seq::empty());
            }
        }
        res
    }

    /// C#: `Core` raises `PropertyChanged`, which needs
    /// `System.ComponentModel`, in the app's module.
    pub fn csharp_imports(&self, module_name: &str) -> (res: Vec<String>)
        ensures
            texts(res@) == if self@.emits_core && module_name@ == self@.package {
                seq!["using System.ComponentModel;"@]
            } else {
                Seq::empty()
            },
    {
        let mut res: Vec<String> = Vec::new();
        if self.emits_core && self.is_app_module(module_name) {
            res.push(String::from_str("using System.ComponentModel;"));
        }
        assert(texts(res@) =~= if self@.emits_core && module_name@ == self@.package {
            seq!["using System.ComponentModel;"@]
        } else {
            Seq::empty()
        });
        res
    }

    /// C#: the bridge's own file, with a `using` only for a namespace other
    /// than the module's.
    pub fn csharp_companion(&self, module_name: &str) -> (res: Option<CompanionPlan>)
        ensures
            match res {
                Some(plan) => {
                    &&& module_name@ == self@.package
                    &&& self@.bridge() matches Some(b)
                    &&& b.csharp matches Some(c)
                    &&& plan.file_name@ == "FfiBridge.cs"@
                    &&& texts(plan.imports@) == match c {
                        Some(ns) => if ns != module_name@ {
                            seq!["using "@ + ns + ";"@]
                        } else {
                            Seq::empty()
                        },
                        None => Seq::empty(),
                    }
                },
                None => !({
                    &&& module_name@ == self@.package
                    &&& self@.bridge() matches Some(b)
                    &&& b.csharp is Some
                }),
            },
    {
        if !self.is_app_module(module_name) {
            return None;
        }
        let ffi = match self.ffi() {
            Some(ffi) => ffi,
            None => return None,
        };
        let csharp = match ffi.csharp_ffi() {
            Some(csharp) => csharp,
            None => return None,
        };
        let mut imports: Vec<String> = Vec::new();
        match &csharp.namespace {
            Some(ns) => {
                if !same_text(ns.as_str(), module_name) {
                    imports.push(String::from_str("using ").concat(ns.as_str()).concat(";"));
                }
            },
            None => {},
        }
        proof {
            if imports@.len() == 1 {
                lemma_texts_push(Seq::empty(), imports@[0]);
                assert(imports@ == Seq::<String>::empty().push(imports@[0]));
            } else {
                assert(texts(imports@) =~= Seq::empty());
            }
        }
        Some(CompanionPlan { file_name: String::from_str("FfiBridge.cs"), imports })
    }
}

} // verus!
