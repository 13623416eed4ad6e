use crux_core::capability::RequestKind;
use crux_core::type_generation::boltffi::BoltFfi;
use crux_core::type_generation::effects::{AppMeta, EffectBuilder, EffectMeta};
use crux_core::type_generation::error::TypeGenError;
use crux_core::type_generation::generator::{last_root_type, module_file, CodeGenerator};
use crux_core::type_generation::shell_handler_plugin::Language;
use crux_core::type_generation::naming::QualifiedTypeName;
use crux_core::type_generation::shell_handler::ShellHandler;

fn message(res: Result<(), TypeGenError>) -> String {
    match res {
        Err(TypeGenError::Generation(m)) => m,
        other => panic!("expected a generation error, got {other:?}"),
    }
}

fn effects(render: bool) -> Vec<EffectMeta> {
    let mut effects = Vec::new();
    EffectBuilder::new(QualifiedTypeName::root("Effect"))
        .variant("Render", Some(RequestKind::Notify), None, render)
        .finish(&mut effects);
    effects
}

fn app() -> Option<AppMeta> {
    Some(AppMeta {
        event: QualifiedTypeName::root("Event"),
        view_model: QualifiedTypeName::root("ViewModel"),
    })
}

#[test]
fn a_bridge_needs_a_core() {
    let g = CodeGenerator::new(effects(true), app(), Vec::new());
    assert!(g.emits_core());
    assert!(g.installs_core());
    assert!(g.check_boltffi().is_ok());
    let g = g.boltffi(BoltFfi::new().swift("Shared"));
    assert!(g.check_boltffi().is_ok());
    assert!(g.boltffi_config().is_some());

    let prefix = "`boltffi` generates the bridge the generated `Core` is built with, but ";

    let g = CodeGenerator::new(effects(true), app(), Vec::new())
        .boltffi(BoltFfi::new())
        .without_effect_handlers();
    assert!(!g.handlers_enabled());
    assert_eq!(
        message(g.check_boltffi()),
        format!("{prefix}`without_effect_handlers()` turns the generated `Core` off")
    );

    let g = CodeGenerator::new(effects(true), app(), Vec::new())
        .boltffi(BoltFfi::new())
        .without_core();
    assert!(!g.installs_core());
    assert_eq!(message(g.check_boltffi()), format!("{prefix}`without_core()` turns the generated `Core` off"));

    let g = CodeGenerator::new(effects(true), None, Vec::new()).boltffi(BoltFfi::new());
    assert_eq!(
        message(g.check_boltffi()),
        format!("{prefix}no app was registered, so there is no `Core` to construct")
    );

    let g = CodeGenerator::new(effects(false), app(), Vec::new()).boltffi(BoltFfi::new());
    assert!(!g.emits_core());
    assert_eq!(
        message(g.check_boltffi()),
        format!("{prefix}the first registered effect has no render variant, so no `Core` is generated")
    );
}

#[test]
fn a_handler_cannot_overwrite_the_module_file() {
    let g = CodeGenerator::new(effects(true), app(), vec![ShellHandler::new("Http"), ShellHandler::new("Shared")]);
    assert!(g.check_shell_handler_files("Other").is_ok());
    assert_eq!(
        message(g.check_shell_handler_files("Shared")),
        "the `Shared` shell handler is written beside the generated module, which names its own file `Shared` too — the package or namespace ends in `Shared`. Generate into a package of another name, or use a capability whose handler is named differently."
    );
    assert!(g.check(None).is_ok());
    assert!(g.check(Some("Shared")).is_err());
    assert_eq!(g.shell_handlers().len(), 2);
    assert_eq!(g.effects().len(), 1);
    assert!(g.app().is_some());
}

#[test]
fn the_handlers_are_appended_after_the_last_root_type() {
    let keys = vec![
        QualifiedTypeName::root("Event"),
        QualifiedTypeName::root("ViewModel"),
        QualifiedTypeName::named("Other", "Thing"),
    ];
    let last = last_root_type(&keys).expect("there is a root type");
    assert_eq!(last.name, "ViewModel");

    assert!(last_root_type(&vec![QualifiedTypeName::named("Other", "Thing")]).is_none());
    assert!(last_root_type(&Vec::new()).is_none());
}

#[test]
fn each_language_is_planned_with_its_module_file() {
    assert_eq!(module_file(Language::Swift, "com.crux.example").as_deref(), Some("com.crux.example"));
    assert_eq!(module_file(Language::Kotlin, "com.crux.example").as_deref(), Some("Example"));
    assert_eq!(module_file(Language::CSharp, "CounterApp.Shared").as_deref(), Some("Shared"));
    assert_eq!(module_file(Language::TypeScript, "app"), None);

    let keys = vec![QualifiedTypeName::root("Event"), QualifiedTypeName::root("ViewModel")];
    let g = CodeGenerator::new(effects(true), app(), vec![ShellHandler::new("Shared")]);

    // The handler would overwrite `Shared/Shared.cs`, but TypeScript has no
    // companion files.
    assert!(g.plan(Language::CSharp, "CounterApp.Shared", &keys).is_err());
    let plan = g.plan(Language::TypeScript, "CounterApp.Shared", &keys).expect("typescript has no companion files");
    assert!(plan.effect_handlers);
    let core = plan.core.expect("a core is generated");
    assert!(core.emits_core());
    let shell = plan.shell_handlers.expect("a handler is registered");
    assert_eq!(shell.package, "CounterApp.Shared");
    assert_eq!(shell.last_type.expect("there is a root type").name, "ViewModel");
    assert_eq!(shell.handlers.len(), 1);
}

#[test]
fn the_handler_api_can_be_turned_off() {
    let keys = vec![QualifiedTypeName::root("Event")];
    let g = CodeGenerator::new(effects(true), app(), Vec::new()).without_effect_handlers();
    let plan = g.plan(Language::Swift, "Shared", &keys).expect("nothing to object to");
    assert!(!plan.effect_handlers);
    assert!(plan.core.is_none());
    assert!(plan.shell_handlers.is_none());

    let g = CodeGenerator::new(effects(true), app(), Vec::new()).without_core();
    let plan = g.plan(Language::Kotlin, "com.example", &keys).expect("nothing to object to");
    assert!(plan.effect_handlers);
    assert!(plan.core.is_none());

    let g = CodeGenerator::new(effects(true), None, Vec::new());
    assert!(g.core_plugin("Shared").is_none());
    let g = CodeGenerator::new(effects(true), app(), Vec::new()).boltffi(BoltFfi::new().swift("Shared"));
    let core = g.core_plugin("Shared").expect("a core is generated");
    assert!(core.ffi().is_some());
    assert_eq!(core.swift_manifest_dependencies(), vec![r#".package(path: "../Shared")"#.to_string()]);
}

#[test]
fn a_missing_pnpm_is_reported_as_such() {
    let missing = std::io::Error::new(std::io::ErrorKind::NotFound, "pnpm");
    assert!(matches!(TypeGenError::pnpm_failure(missing, true), TypeGenError::PnpmNotFound(_)));
    let denied = std::io::Error::new(std::io::ErrorKind::PermissionDenied, "pnpm");
    assert!(matches!(TypeGenError::pnpm_failure(denied, false), TypeGenError::Io(_)));
}
