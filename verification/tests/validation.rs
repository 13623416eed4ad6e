use crux_core::capability::RequestKind;
use crux_core::type_generation::effects::{EffectBuilder, EffectMeta};
use crux_core::type_generation::error::TypeGenError;
use crux_core::type_generation::naming::QualifiedTypeName;
use crux_core::type_generation::shell_handler::ShellHandler;
use crux_core::type_generation::validation::{
    is_reserved_name, validate_names, validate_registry, validate_shell_handlers,
};

fn message(res: Result<(), TypeGenError>) -> String {
    match res {
        Err(TypeGenError::Generation(m)) => m,
        other => panic!("expected a generation error, got {other:?}"),
    }
}

fn effect(name: &str, variants: &[&str]) -> Vec<EffectMeta> {
    let mut builder = EffectBuilder::new(QualifiedTypeName::root(name));
    for v in variants {
        builder = builder.variant(v, Some(RequestKind::Notify), None, false);
    }
    let mut effects = Vec::new();
    builder.finish(&mut effects);
    effects
}

#[test]
fn the_reserved_names() {
    for name in [
        "OperationKind", "EffectHandler", "IEffectHandler", "EffectSink", "IEffectSink",
        "EffectDispatcher", "Core", "CoreBridge", "ICoreBridge", "FfiBridge",
    ] {
        assert!(is_reserved_name(name), "{name} should be reserved");
    }
    assert!(!is_reserved_name("Event"));
    assert!(!is_reserved_name("core"));
}

#[test]
fn a_shared_type_cannot_take_a_generated_name() {
    let keys = vec![QualifiedTypeName::root("Event"), QualifiedTypeName::root("Core")];
    assert_eq!(
        message(validate_names(&keys, &effect("Effect", &["Render"]))),
        "`Core` is generated for the shell API, so a shared type cannot be called that. Rename the type with `#[facet(rename = \"...\")]`."
    );

    // Only the root namespace is claimed.
    let keys = vec![QualifiedTypeName::named("Other", "Core")];
    assert!(validate_names(&keys, &effect("Effect", &["Render"])).is_ok());
}

#[test]
fn an_effect_variant_cannot_be_called_operation_kind() {
    let keys = vec![QualifiedTypeName::root("Event")];
    assert_eq!(
        message(validate_names(&keys, &effect("Effect", &["Render", "OperationKind"]))),
        "effect `Effect` has a variant called `OperationKind`, which collides with the generated operation kind accessor. Rename the variant."
    );
}

#[test]
fn a_reserved_type_is_reported_before_a_colliding_variant() {
    let keys = vec![QualifiedTypeName::root("EffectSink")];
    let m = message(validate_names(&keys, &effect("Effect", &["OperationKind"])));
    assert!(m.starts_with("`EffectSink` is generated"));
}

#[test]
fn handlers_are_registered_once() {
    let handlers = vec![ShellHandler::new("Http"), ShellHandler::new("Http")];
    assert_eq!(
        message(validate_shell_handlers(&Vec::new(), &handlers)),
        "two shell handlers are called `Http`. Register each capability's handler once."
    );
}

#[test]
fn a_handler_cannot_take_a_generated_name() {
    let handlers = vec![ShellHandler::new("Effect")];
    assert_eq!(
        message(validate_shell_handlers(&Vec::new(), &handlers)),
        "shell handler `Effect` needs the name `EffectHandler`, which is generated for the shell API. Rename the handler."
    );

    let handlers = vec![ShellHandler::new("Core")];
    assert_eq!(
        message(validate_shell_handlers(&Vec::new(), &handlers)),
        "shell handler `Core` needs the name `Core`, which is generated for the shell API. Rename the handler."
    );
}

#[test]
fn a_shared_type_cannot_take_a_handler_name() {
    let keys = vec![QualifiedTypeName::root("HttpHandler")];
    let handlers = vec![ShellHandler::new("Http")];
    assert_eq!(
        message(validate_shell_handlers(&keys, &handlers)),
        "`HttpHandler` is claimed by the `Http` shell handler, so a shared type cannot be called that. Rename the type with `#[facet(rename = \"...\")]`."
    );

    let keys = vec![QualifiedTypeName::root("IHttpHandler")];
    assert!(validate_shell_handlers(&keys, &handlers).is_err());

    let keys = vec![QualifiedTypeName::root("Event")];
    assert!(validate_shell_handlers(&keys, &handlers).is_ok());
}

#[test]
fn the_registry_checks_names_with_or_without_an_effect() {
    let keys = vec![QualifiedTypeName::root("Core")];
    assert!(validate_registry(&keys, &Vec::new(), &Vec::new()).is_err());
    assert!(validate_registry(&vec![QualifiedTypeName::root("Event")], &Vec::new(), &Vec::new()).is_ok());
    assert!(validate_registry(&keys, &effect("Effect", &["Render"]), &Vec::new()).is_err());

    let handlers = vec![ShellHandler::new("Http"), ShellHandler::new("Http")];
    assert!(validate_registry(&Vec::new(), &Vec::new(), &handlers).is_err());
}
