//! What the code generator decides before it writes anything: which parts
//! of the shell API are generated, and whether the configuration can work.
use vstd::prelude::*;

use super::boltffi::{BoltFfi, BoltFfiView};
use super::effects::{AppMeta, EffectMeta};
use super::error::TypeGenError;
use super::boltffi::opt_view;
use super::core_plugin::{CorePlugin, CorePluginView};
use super::naming::{heck_upper_camel, last_segment, module_file_stem, QualifiedNameView, QualifiedTypeName};
use super::plugins::{emits_core, emits_core_spec, serializes_output_spec};
use super::shell_handler_plugin::{Language, ShellHandlerPlugin};
use super::shell_handler::ShellHandler;
use super::text::same_text;
use super::validation::reports;

verus! {

/// Everything the code generator holds besides the registry itself.
pub struct CodeGenerator {
    effects: Vec<EffectMeta>,
    app: Option<AppMeta>,
    handlers: bool,
    core: bool,
    boltffi: Option<BoltFfi>,
    shell_handlers: Vec<ShellHandler>,
}

/// A [`CodeGenerator`] as plain values.
pub struct GeneratorView {
    pub effects: Seq<EffectMeta>,
    /// The registered app's event and view model, if an app was registered.
    pub app: Option<(QualifiedNameView, QualifiedNameView)>,
    pub handlers: bool,
    pub core: bool,
    pub boltffi: Option<BoltFfiView>,
    pub shell_handlers: Seq<ShellHandler>,
}

impl View for CodeGenerator {
    type V = GeneratorView;

    closed spec fn view(&self) -> GeneratorView {
        GeneratorView {
            effects: self.effects@,
            app: match self.app {
                Some(a) => Some((a.event@, a.view_model@)),
                None => None,
            },
            handlers: self.handlers,
            core: self.core,
            boltffi: match self.boltffi {
                Some(b) => Some(b@),
                None => None,
            },
            shell_handlers: self.shell_handlers@,
        }
    }
}

pub open spec fn boltffi_message(reason: Seq<char>) -> Seq<char> {
    "`boltffi` generates the bridge the generated `Core` is built with, but "@ + reason
}

/// Why a bridge was asked for that cannot be generated, if it was.
pub open spec fn boltffi_problem(g: GeneratorView) -> Option<Seq<char>> {
    if g.boltffi is None {
        None
    } else if !g.handlers {
        Some(boltffi_message("`without_effect_handlers()` turns the generated `Core` off"@))
    } else if !g.core {
        Some(boltffi_message("`without_core()` turns the generated `Core` off"@))
    } else if g.app is None {
        Some(boltffi_message("no app was registered, so there is no `Core` to construct"@))
    } else if !emits_core_spec(g.effects) {
        Some(boltffi_message(
            "the first registered effect has no render variant, so no `Core` is generated"@,
        ))
    } else {
        None
    }
}

pub open spec fn handler_file_message(name: Seq<char>) -> Seq<char> {
    "the `"@ + name + "` shell handler is written beside the generated module, which names its own file `"@
        + name + "` too — the package or namespace ends in `"@ + name
        + "`. Generate into a package of another name, or use a capability whose handler is named differently."@
}

/// The first registered handler whose companion file would take the
/// module's own file name.
pub open spec fn handler_file_problem(handlers: Seq<ShellHandler>, module_file: Seq<char>) -> Option<Seq<char>>
    decreases handlers.len(),
{
    if handlers.len() == 0 {
        None
    } else if handlers[0].name@ == module_file {
        Some(handler_file_message(module_file))
    } else {
        handler_file_problem(handlers.drop_first(), module_file)
    }
}

/// Everything a configuration is checked for before a language is
/// generated: the bridge first, then, when the module has a file of its own,
/// the handlers' files.
pub open spec fn config_problem(g: GeneratorView, module_file: Option<Seq<char>>) -> Option<Seq<char>> {
    match boltffi_problem(g) {
        Some(m) => Some(m),
        None => match module_file {
            Some(f) => handler_file_problem(g.shell_handlers, f),
            None => None,
        },
    }
}

impl CodeGenerator {
    /// The generator for a registry built from these effects, app and shell
    /// handlers, with the whole shell API turned on and no bridge named.
    pub fn new(effects: Vec<EffectMeta>, app: Option<AppMeta>, shell_handlers: Vec<ShellHandler>) -> (g: Self)
        ensures
            g@ == (GeneratorView {
                effects: effects@,
                app: match app {
                    Some(a) => Some((a.event@, a.view_model@)),
                    None => None,
                },
                handlers: true,
                core: true,
                boltffi: None,
                shell_handlers: shell_handlers@,
            }),
    {
        CodeGenerator { effects, app, handlers: true, core: true, boltffi: None, shell_handlers }
    }

    /// What was recorded about each registered effect enum, in registration
    /// order.
    pub fn effects(&self) -> (res: &Vec<EffectMeta>)
        ensures
            res@ == self@.effects,
    {
        &self.effects
    }

    /// The event and view model of the first registered app, if any.
    pub fn app(&self) -> (res: Option<&AppMeta>)
        ensures
            match res {
                Some(a) => self@.app == Some((a.event@, a.view_model@)),
                None => self@.app is None,
            },
    {
        self.app.as_ref()
    }

    /// The bridge configuration, if one was named.
    pub fn boltffi_config(&self) -> (res: Option<&BoltFfi>)
        ensures
            match res {
                Some(b) => self@.boltffi == Some(b@),
                None => self@.boltffi is None,
            },
    {
        self.boltffi.as_ref()
    }

    /// The registered shell handlers, in registration order.
    pub fn shell_handlers(&self) -> (res: &Vec<ShellHandler>)
        ensures
            res@ == self@.shell_handlers,
    {
        &self.shell_handlers
    }

    /// Whether the effect handler API is generated.
    pub fn handlers_enabled(&self) -> (b: bool)
        ensures
            b == self@.handlers,
    {
        self.handlers
    }

    /// Turns off the effect handler API and, because they are built on the
    /// dispatcher, the generated `CoreBridge` and `Core`.
    pub fn without_effect_handlers(self) -> (g: Self)
        ensures
            g@ == (GeneratorView { handlers: false, ..self@ }),
    {
        CodeGenerator { handlers: false, ..self }
    }

    /// Turns off `CoreBridge` and `Core`, keeping the effect handler API.
    pub fn without_core(self) -> (g: Self)
        ensures
            g@ == (GeneratorView { core: false, ..self@ }),
    {
        CodeGenerator { core: false, ..self }
    }

    /// Names the FFI bindings the generated `Core` should bridge to.
    pub fn boltffi(self, boltffi: BoltFfi) -> (g: Self)
        ensures
            g@ == (GeneratorView { boltffi: Some(boltffi@), ..self@ }),
    {
        CodeGenerator { boltffi: Some(boltffi), ..self }
    }

    /// Whether the first registered effect has a render variant.
    pub fn emits_core(&self) -> (b: bool)
        ensures
            b == emits_core_spec(self@.effects),
    {
        emits_core(&self.effects)
    }

    /// Whether the `Core` plugin is installed: it needs the handler API, the
    /// core turned on and a registered app.
    pub fn installs_core(&self) -> (b: bool)
        ensures
            b == (self@.handlers && self@.core && self@.app is Some),
    {
        self.handlers && self.core && self.app.is_some()
    }

    /// A bridge asked for without a `Core` to put it in is reported, with
    /// the reason there is none.
    pub fn check_boltffi(&self) -> (res: Result<(), TypeGenError>)
        ensures
            reports(res, boltffi_problem(self@)),
    {
        if self.boltffi.is_none() {
            return Ok(());
        }
        let reason = if !self.handlers {
            "`without_effect_handlers()` turns the generated `Core` off"
        } else if !self.core {
            "`without_core()` turns the generated `Core` off"
        } else if self.app.is_none() {
            "no app was registered, so there is no `Core` to construct"
        } else if !self.emits_core() {
            "the first registered effect has no render variant, so no `Core` is generated"
        } else {
            return Ok(());
        };
        let msg = String::from_str("`boltffi` generates the bridge the generated `Core` is built with, but ").concat(
            reason,
        );
        Err(TypeGenError::Generation(msg))
    }

    /// A handler whose companion file would overwrite the module's own file
    /// (named `module_file`) is reported.
    pub fn check_shell_handler_files(&self, module_file: &str) -> (res: Result<(), TypeGenError>)
        ensures
            reports(res, handler_file_problem(self@.shell_handlers, module_file@)),
    {
        let mut i: usize = 0;
        proof {
            assert(self.shell_handlers@.skip(0) == self.shell_handlers@);
        }
        while i < self.shell_handlers.len()
            invariant
                0 <= i <= self.shell_handlers@.len(),
                handler_file_problem(self@.shell_handlers, module_file@) == handler_file_problem(
                    self.shell_handlers@.skip(i as int),
                    module_file@,
                ),
            decreases self.shell_handlers.len() - i,
        {
            proof {
                assert(self.shell_handlers@.skip(i as int).drop_first() == self.shell_handlers@.skip(i + 1));
            }
            let name = self.shell_handlers[i].name;
            if same_text(name, module_file) {
                let msg = String::from_str("the `").concat(name).concat(
                    "` shell handler is written beside the generated module, which names its own file `",
                ).concat(name).concat("` too — the package or namespace ends in `").concat(name).concat(
                    "`. Generate into a package of another name, or use a capability whose handler is named differently.",
                );
                return Err(TypeGenError::Generation(msg));
            }
            i = i + 1;
        }
        Ok(())
    }

    /// Everything the configuration is checked for before a language is
    /// generated. `module_file` is what the module calls its own source file,
    /// or `None` for TypeScript, whose module has no companion files.
    pub fn check(&self, module_file: Option<&str>) -> (res: Result<(), TypeGenError>)
        ensures
            reports(
                res,
                config_problem(
                    self@,
                    match module_file {
                        Some(f) => Some(f@),
                        None => None,
                    },
                ),
            ),
    {
        self.check_boltffi()?;
        match module_file {
            Some(module_file) => self.check_shell_handler_files(module_file),
            None => Ok(()),
        }
    }
}

/// The last name in `keys` that is in the root namespace.
pub open spec fn last_root(keys: Seq<QualifiedTypeName>) -> Option<QualifiedNameView>
    decreases keys.len(),
{
    if keys.len() == 0 {
        None
    } else if keys.last().namespace@ is None {
        Some(keys.last()@)
    } else {
        last_root(keys.drop_last())
    }
}

/// The last registered type in the root namespace, which is where the
/// TypeScript handler sources are appended.
pub fn last_root_type(keys: &Vec<QualifiedTypeName>) -> (res: Option<QualifiedTypeName>)
    ensures
        match res {
            Some(n) => last_root(keys@) == Some(n@),
            None => last_root(keys@) is None,
        },
{
    let mut i: usize = keys.len();
    proof {
        assert(keys@.subrange(0, i as int) == keys@);
    }
    while i > 0
        invariant
            0 <= i <= keys@.len(),
            last_root(keys@.subrange(0, i as int)) == last_root(keys@),
        decreases i,
    {
        proof {
            assert(keys@.subrange(0, i as int).drop_last() == keys@.subrange(0, i - 1));
            assert(keys@.subrange(0, i as int).last() == keys@[i - 1]);
        }
        if keys[i - 1].namespace.is_root() {
            return Some(keys[i - 1].copy());
        }
        i = i - 1;
    }
    None
}

/// The file the generated module names for itself in `language`: the
/// package's own name in Swift, whose module is a directory of that name;
/// the last dotted segment, upper camel cased, in Kotlin and C#; none in
/// TypeScript, whose module takes no companion files.
pub open spec fn module_file_spec(language: Language, package_name: Seq<char>) -> Option<Seq<char>> {
    match language {
        Language::Swift => Some(package_name),
        Language::Kotlin => Some(heck_upper_camel(last_segment(package_name, '.'))),
        Language::CSharp => Some(heck_upper_camel(last_segment(package_name, '.'))),
        Language::TypeScript => None,
    }
}

/// The file the generated module names for itself in `language`.
pub fn module_file(language: Language, package_name: &str) -> (res: Option<String>)
    ensures
        opt_view(res) == module_file_spec(language, package_name@),
{
    match language {
        Language::Swift => Some(String::from_str(package_name)),
        Language::Kotlin => Some(module_file_stem(package_name)),
        Language::CSharp => Some(module_file_stem(package_name)),
        Language::TypeScript => None,
    }
}

/// The `Core` plugin a generator installs for the package `package`: one
/// needs the handler API, the core turned on and a registered app.
pub open spec fn core_plugin_spec(g: GeneratorView, package: Seq<char>) -> Option<CorePluginView> {
    if g.handlers && g.core && g.app is Some {
        Some(
            CorePluginView {
                emits_core: emits_core_spec(g.effects),
                serializes_output: serializes_output_spec(g.effects),
                ffi: g.boltffi,
                package,
            },
        )
    } else {
        None
    }
}

/// Whether `p` is the shell handler plugin a generator installs for the
/// package `package` of a registry whose names are `keys`: every registered
/// handler, appended after the last root type.
pub open spec fn shell_plugin_spec(
    g: GeneratorView,
    package: Seq<char>,
    keys: Seq<QualifiedTypeName>,
    p: ShellHandlerPlugin,
) -> bool {
    &&& p.handlers@ == g.shell_handlers
    &&& p.package@ == package
    &&& match p.last_type {
        Some(t) => last_root(keys) == Some(t@),
        None => last_root(keys) is None,
    }
}

/// The plugins a language is generated with besides the bincode and the
/// operation kind plugins, which are always installed.
pub struct PluginPlan {
    /// Whether the effect handler API is generated.
    pub effect_handlers: bool,
    /// The `Core` plugin, if a `Core` is generated.
    pub core: Option<CorePlugin>,
    /// The shell handler plugin, if any handler is registered.
    pub shell_handlers: Option<ShellHandlerPlugin>,
}

impl CodeGenerator {
    /// The `Core` plugin for the package `package_name`, if it is installed.
    pub fn core_plugin(&self, package_name: &str) -> (res: Option<CorePlugin>)
        ensures
            match res {
                Some(p) => core_plugin_spec(self@, package_name@) == Some(p@),
                None => core_plugin_spec(self@, package_name@) is None,
            },
    {
        if !self.installs_core() {
            return None;
        }
        let ffi = match &self.boltffi {
            Some(b) => Some(b.copy()),
            None => None,
        };
        let plugin = CorePlugin::new(&self.effects, ffi, package_name);
        Some(plugin)
    }

    /// The plugin writing the registered shell handlers into the package
    /// `package_name`, whose registry names are `keys`, if any handler is
    /// registered. It is installed whether or not the effect handler API is.
    pub fn shell_handler_plugin(&self, package_name: &str, keys: &Vec<QualifiedTypeName>) -> (res: Option<
        ShellHandlerPlugin,
    >)
        ensures
            res is Some <==> self@.shell_handlers.len() > 0,
            res matches Some(p) ==> shell_plugin_spec(self@, package_name@, keys@, p),
    {
        if self.shell_handlers.len() == 0 {
            return None;
        }
        let mut handlers: Vec<ShellHandler> = Vec::new();
        let mut i: usize = 0;
        while i < self.shell_handlers.len()
            invariant
                0 <= i <= self.shell_handlers@.len(),
                handlers@ == self.shell_handlers@.subrange(0, i as int),
            decreases self.shell_handlers.len() - i,
        {
            let h = self.shell_handlers[i];
            handlers.push(h);
            proof {
                assert(handlers@ == self.shell_handlers@.subrange(0, i + 1));
            }
            i = i + 1;
        }
        proof {
            assert(self.shell_handlers@.subrange(0, i as int) == self.shell_handlers@);
        }
        Some(ShellHandlerPlugin { handlers, package: String::from_str(package_name), last_type: last_root_type(keys) })
    }

    /// Check the configuration for generating `language` into the package
    /// `package_name`, whose registry names are `keys`, and decide the
    /// plugins it is generated with.
    pub fn plan(&self, language: Language, package_name: &str, keys: &Vec<QualifiedTypeName>) -> (res: Result<
        PluginPlan,
        TypeGenError,
    >)
        ensures
            match config_problem(self@, module_file_spec(language, package_name@)) {
                Some(m) => res matches Err(e) && e.is_generation(m),
                None => res matches Ok(p) && {
                    &&& p.effect_handlers == self@.handlers
                    &&& match p.core {
                        Some(c) => core_plugin_spec(self@, package_name@) == Some(c@),
                        None => core_plugin_spec(self@, package_name@) is None,
                    }
                    &&& (p.shell_handlers is Some <==> self@.shell_handlers.len() > 0)
                    &&& (p.shell_handlers matches Some(s) ==> shell_plugin_spec(self@, package_name@, keys@, s))
                },
            },
    {
        let file = module_file(language, package_name);
        let checked = match &file {
            Some(f) => self.check(Some(f.as_str())),
            None => self.check(None),
        };
        match checked {
            Err(e) => Err(e),
            Ok(()) => Ok(
                PluginPlan {
                    effect_handlers: self.handlers,
                    core: self.core_plugin(package_name),
                    shell_handlers: self.shell_handler_plugin(package_name, keys),
                },
            ),
        }
    }
}

} // verus!
