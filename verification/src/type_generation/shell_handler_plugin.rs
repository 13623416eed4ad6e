//! Where the shell handlers a capability ships are put in the generated
//! package: one companion file per handler beside the module in Swift,
//! Kotlin and C#, appended after the module's last type in TypeScript, and
//! the union of what they need in the manifest.
use vstd::prelude::*;

use super::format::{add_new, lemma_add_new_concat, lemma_add_new_one};
use super::naming::QualifiedTypeName;
use super::shell_handler::{ShellHandler, ShellSource};
use super::text::{contains_text, lemma_texts_push, same_text, texts};

verus! {

/// A language the shell can be generated in.
#[derive(Debug, Clone, Copy, PartialEq, Eq, Structural)]
pub enum Language {
    Swift,
    Kotlin,
    TypeScript,
    CSharp,
}

/// The source a handler ships for `language`, if any.
pub open spec fn source_of(handler: ShellHandler, language: Language) -> Option<ShellSource> {
    match language {
        Language::Swift => handler.swift,
        Language::Kotlin => handler.kotlin,
        Language::TypeScript => handler.typescript,
        Language::CSharp => handler.csharp,
    }
}

/// The extension of a companion file in `language`; TypeScript has none.
pub open spec fn extension_of(language: Language) -> Option<Seq<char>> {
    match language {
        Language::Swift => Some("swift"@),
        Language::Kotlin => Some("kt"@),
        Language::CSharp => Some("cs"@),
        Language::TypeScript => None,
    }
}

/// A file to write beside the module: its name, its extra imports and its
/// contents.
#[derive(Debug)]
pub struct CompanionFile {
    pub file_name: String,
    pub imports: Vec<String>,
    pub contents: String,
}

/// The companion files the handlers in `handlers` that ship `language`
/// produce, in order: `<Name>.<ext>`, no extra imports, the source verbatim.
pub open spec fn companions(handlers: Seq<ShellHandler>, language: Language) -> Seq<(Seq<char>, Seq<char>)>
    decreases handlers.len(),
{
    if handlers.len() == 0 {
        Seq::empty()
    } else {
        companions(handlers.drop_last(), language) + match source_of(handlers.last(), language) {
            Some(src) => seq![(handlers.last().name@ + "."@ + extension_of(language)->Some_0, src.source@)],
            None => Seq::empty(),
        }
    }
}

/// The entries a shipped source lists: its manifest dependencies, or its
/// target dependencies.
pub open spec fn entries_of(src: ShellSource, target: bool) -> Seq<Seq<char>> {
    if target {
        src.target_dependencies@.map_values(|e: &str| e@)
    } else {
        src.dependencies@.map_values(|e: &str| e@)
    }
}

/// Every entry the handlers that ship `language` list, in order, repeats
/// included.
pub open spec fn all_entries(handlers: Seq<ShellHandler>, language: Language, target: bool) -> Seq<Seq<char>>
    decreases handlers.len(),
{
    if handlers.len() == 0 {
        Seq::empty()
    } else {
        all_entries(handlers.drop_last(), language, target) + match source_of(handlers.last(), language) {
            Some(src) => entries_of(src, target),
            None => Seq::empty(),
        }
    }
}

/// The TypeScript sources of the handlers that ship one, in order.
pub open spec fn typescript_sources(handlers: Seq<ShellHandler>) -> Seq<Seq<char>>
    decreases handlers.len(),
{
    if handlers.len() == 0 {
        Seq::empty()
    } else {
        typescript_sources(handlers.drop_last()) + match handlers.last().typescript {
            Some(src) => seq![src.source@],
            None => Seq::empty(),
        }
    }
}

/// Emits the registered shell handlers' sources into the module the app's
/// own types are in.
#[derive(Debug)]
pub struct ShellHandlerPlugin {
    pub handlers: Vec<ShellHandler>,
    /// The module the app's own types are in.
    pub package: String,
    /// The last type that module writes, which TypeScript appends after.
    pub last_type: Option<QualifiedTypeName>,
}

fn source_for(handler: &ShellHandler, language: Language) -> (res: Option<ShellSource>)
    ensures
        res == source_of(*handler, language),
{
    match language {
        Language::Swift => handler.swift,
        Language::Kotlin => handler.kotlin,
        Language::TypeScript => handler.typescript,
        Language::CSharp => handler.csharp,
    }
}

impl ShellHandlerPlugin {
    /// Whether `module_name` is the module the app's types are in.
    pub fn is_app_module(&self, module_name: &str) -> (b: bool)
        ensures
            b == (module_name@ == self.package@),
    {
        same_text(module_name, self.package.as_str())
    }

    /// One companion file per handler that ships `language`, named after
    /// the handler, in the app's module only. TypeScript gets none: its
    /// sources are appended to the module instead.
    pub fn companion_sources(&self, module_name: &str, language: Language) -> (res: Vec<CompanionFile>)
        ensures
            res@.map_values(|f: CompanionFile| (f.file_name@, f.contents@)) == if module_name@ == self.package@
                && extension_of(language) is Some {
                companions(self.handlers@, language)
            } else {
                Seq::empty()
            },
            forall|i: int| 0 <= i < res@.len() ==> (#[trigger] res@[i]).imports@.len() == 0,
    {
        let mut res: Vec<CompanionFile> = Vec::new();
        let extension = match language {
            Language::Swift => "swift",
            Language::Kotlin => "kt",
            Language::CSharp => "cs",
            Language::TypeScript => {
                assert(res@.map_values(|f: CompanionFile| (f.file_name@, f.contents@)) =~= Seq::empty());
                return res;
            },
        };
        if !self.is_app_module(module_name) {
            assert(res@.map_values(|f: CompanionFile| (f.file_name@, f.contents@)) =~= Seq::empty());
            return res;
        }
        let mut i: usize = 0;
        proof {
            assert(self.handlers@.subrange(0, 0) == Seq::<ShellHandler>::empty());
            assert(res@.map_values(|f: CompanionFile| (f.file_name@, f.contents@)) =~= Seq::empty());
        }
        while i < self.handlers.len()
            invariant
                0 <= i <= self.handlers@.len(),
                extension_of(language) == Some(extension@),
                res@.map_values(|f: CompanionFile| (f.file_name@, f.contents@))
                    == companions(self.handlers@.subrange(0, i as int), language),
                forall|k: int| 0 <= k < res@.len() ==> (#[trigger] res@[k]).imports@.len() == 0,
            decreases self.handlers.len() - i,
        {
            let ghost before = res@;
            proof {
                assert(self.handlers@.subrange(0, i + 1).drop_last() == self.handlers@.subrange(0, i as int));
                assert(self.handlers@.subrange(0, i + 1).last() == self.handlers@[i as int]);
            }
            let handler = &self.handlers[i];
            match source_for(handler, language) {
                Some(shipped) => {
                    let file = CompanionFile {
                        file_name: String::from_str(handler.name).concat(".").concat(extension),
                        imports: Vec::new(),
                        contents: String::from_str(shipped.source),
                    };
                    res.push(file);
                    assert(res@.map_values(|f: CompanionFile| (f.file_name@, f.contents@)) =~= before.map_values(
                        |f: CompanionFile| (f.file_name@, f.contents@),
                    ).push((handler.name@ + "."@ + extension@, shipped.source@)));
                },
                None => {},
            }
            i = i + 1;
        }
        assert(self.handlers@.subrange(0, self.handlers@.len() as int) == self.handlers@);
        res
    }

    /// The union of the entries the handlers that ship `language` list (the
    /// target dependencies when `target`, else the manifest dependencies), in
    /// registration order and without repeats.
    pub fn union(&self, language: Language, target: bool) -> (res: Vec<String>)
        ensures
            texts(res@) == add_new(Seq::empty(), all_entries(self.handlers@, language, target)),
    {
        let mut res: Vec<String> = Vec::new();
        let mut i: usize = 0;
        proof {
            assert(self.handlers@.subrange(0, 0) == Seq::<ShellHandler>::empty());
            assert(texts(res@) =~= Seq::empty());
        }
        while i < self.handlers.len()
            invariant
                0 <= i <= self.handlers@.len(),
                texts(res@) == add_new(Seq::empty(), all_entries(self.handlers@.subrange(0, i as int), language, target)),
            decreases self.handlers.len() - i,
        {
            let ghost pre = all_entries(self.handlers@.subrange(0, i as int), language, target);
            proof {
                assert(self.handlers@.subrange(0, i + 1).drop_last() == self.handlers@.subrange(0, i as int));
                assert(self.handlers@.subrange(0, i + 1).last() == self.handlers@[i as int]);
            }
            match source_for(&self.handlers[i], language) {
                Some(shipped) => {
                    let entries: &'static [&'static str] = if target {
                        shipped.target_dependencies
                    } else {
                        shipped.dependencies
                    };
                    let ghost listed = entries@.map_values(|e: &str| e@);
                    proof {
                        assert(listed == entries_of(shipped, target));
                        assert(entries@.map_values(|e: &str| e@).subrange(0, 0) == Seq::<Seq<char>>::empty());
                    }
                    let mut j: usize = 0;
                    while j < entries.len()
                        invariant
                            0 <= j <= entries@.len(),
                            listed == entries@.map_values(|e: &str| e@),
                            texts(res@) == add_new(add_new(Seq::empty(), pre), listed.subrange(0, j as int)),
                        decreases entries.len() - j,
                    {
                        let entry = entries[j];
                        proof {
                            assert(listed.subrange(0, j + 1) == listed.subrange(0, j as int) + seq![entry@]);
                            lemma_add_new_concat(add_new(Seq::empty(), pre), listed.subrange(0, j as int), seq![entry@]);
                            lemma_add_new_one(texts(res@), entry@);
                        }
                        let present = contains_text(&res, entry);
                        proof {
                            assert(present == texts(res@).contains(entry@)) by {
                                if present {
                                    let k = choose|k: int| 0 <= k < res@.len() && #[trigger] res@[k]@ == entry@;
                                    assert(texts(res@)[k] == entry@);
                                }
                                if texts(res@).contains(entry@) {
                                    let k = choose|k: int| 0 <= k < texts(res@).len() && texts(res@)[k] == entry@;
                                    assert(res@[k]@ == entry@);
                                }
                            }
                        }
                        if !present {
                            let ghost old_res = res@;
                            res.push(String::from_str(entry));
                            proof {
                                lemma_texts_push(old_res, res@.last());
                                assert(res@ == old_res.push(res@.last()));
                            }
                        }
                        j = j + 1;
                    }
                    proof {
                        assert(listed.subrange(0, listed.len() as int) == listed);
                        lemma_add_new_concat(Seq::empty(), pre, listed);
                    }
                },
                None => {
                    assert(pre + Seq::<Seq<char>>::empty() == pre);
                },
            }
            i = i + 1;
        }
        assert(self.handlers@.subrange(0, self.handlers@.len() as int) == self.handlers@);
        res
    }

    /// The TypeScript sources to write after the container named
    /// `container`: every handler's that ships one, in order, when this is
    /// the app's module and the container is its last type; none otherwise.
    pub fn typescript_after(&self, module_name: &str, container: &QualifiedTypeName) -> (res: Vec<&'static str>)
        ensures
            res@.map_values(|s: &str| s@) == if module_name@ == self.package@ && (self.last_type matches Some(t)
                && t@ == container@) {
                typescript_sources(self.handlers@)
            } else {
                Seq::empty()
            },
    {
        let mut res: Vec<&'static str> = Vec::new();
        let is_last = match &self.last_type {
            Some(t) => t.same_as(container),
            None => false,
        };
        if !self.is_app_module(module_name) || !is_last {
            assert(res@.map_values(|s: &str| s@) =~= Seq::empty());
            return res;
        }
        let mut i: usize = 0;
        proof {
            assert(self.handlers@.subrange(0, 0) == Seq::<ShellHandler>::empty());
            assert(res@.map_values(|s: &str| s@) =~= Seq::empty());
        }
        while i < self.handlers.len()
            invariant
                0 <= i <= self.handlers@.len(),
                res@.map_values(|s: &str| s@) == typescript_sources(self.handlers@.subrange(0, i as int)),
            decreases self.handlers.len() - i,
        {
            let ghost before = res@;
            proof {
                assert(self.handlers@.subrange(0, i + 1).drop_last() == self.handlers@.subrange(0, i as int));
                assert(self.handlers@.subrange(0, i + 1).last() == self.handlers@[i as int]);
            }
            match &self.handlers[i].typescript {
                Some(shipped) => {
                    res.push(shipped.source);
                    assert(res@.map_values(|s: &str| s@) =~= before.map_values(|s: &str| s@).push(shipped.source@));
                },
                None => {},
            }
            i = i + 1;
        }
        assert(self.handlers@.subrange(0, self.handlers@.len() as int) == self.handlers@);
        res
    }
}

} // verus!
