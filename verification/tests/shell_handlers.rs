use crux_core::type_generation::naming::QualifiedTypeName;
use crux_core::type_generation::shell_handler::{ShellHandler, ShellSource};
use crux_core::type_generation::shell_handler_plugin::{Language, ShellHandlerPlugin};

const HTTP_SWIFT: &str = "struct HttpHandler {}";
const HTTP_TS: &str = "export class HttpHandler {}";
const TIME_SWIFT: &str = "struct TimeHandler {}";
const TIME_TS: &str = "export class TimeHandler {}";

fn plugin() -> ShellHandlerPlugin {
    let http = ShellHandler::new("Http")
        .swift(ShellSource::stdlib(HTTP_SWIFT).dependencies(&["dep-a", "dep-b"]).target_dependencies(&["t-a"]))
        .typescript(ShellSource::stdlib(HTTP_TS));
    let time = ShellHandler::new("Time")
        .swift(ShellSource::stdlib(TIME_SWIFT).dependencies(&["dep-b", "dep-c"]).target_dependencies(&["t-a"]))
        .typescript(ShellSource::stdlib(TIME_TS));
    ShellHandlerPlugin {
        handlers: vec![http, time],
        package: "Shared".to_string(),
        last_type: Some(QualifiedTypeName::root("ViewModel")),
    }
}

#[test]
fn a_handler_is_named_after_its_capability() {
    let h = ShellHandler::new("Http");
    assert_eq!(h.protocol_name(), "HttpHandler");
    assert_eq!(h.csharp_interface_name(), "IHttpHandler");
    assert!(h.swift.is_none() && h.kotlin.is_none() && h.typescript.is_none() && h.csharp.is_none());

    let src = ShellSource::stdlib("source");
    assert_eq!(src.source, "source");
    assert!(src.dependencies.is_empty());
    assert!(src.target_dependencies.is_empty());
}

#[test]
fn each_handler_gets_a_companion_file_in_the_app_module() {
    let p = plugin();
    let files = p.companion_sources("Shared", Language::Swift);
    let names: Vec<_> = files.iter().map(|f| f.file_name.as_str()).collect();
    assert_eq!(names, vec!["Http.swift", "Time.swift"]);
    assert_eq!(files[0].contents, HTTP_SWIFT);
    assert!(files[0].imports.is_empty());

    assert!(p.companion_sources("Other", Language::Swift).is_empty());
    assert!(p.companion_sources("Shared", Language::Kotlin).is_empty());
    assert!(p.companion_sources("Shared", Language::TypeScript).is_empty());
    assert!(p.is_app_module("Shared"));
    assert!(!p.is_app_module("Other"));
}

#[test]
fn the_manifest_lists_each_dependency_once_in_order() {
    let p = plugin();
    assert_eq!(p.union(Language::Swift, false), vec!["dep-a", "dep-b", "dep-c"]);
    assert_eq!(p.union(Language::Swift, true), vec!["t-a"]);
    assert!(p.union(Language::CSharp, false).is_empty());
}

#[test]
fn typescript_sources_follow_the_last_type() {
    let p = plugin();
    assert_eq!(
        p.typescript_after("Shared", &QualifiedTypeName::root("ViewModel")),
        vec![HTTP_TS, TIME_TS]
    );
    assert!(p.typescript_after("Shared", &QualifiedTypeName::root("Event")).is_empty());
    assert!(p.typescript_after("Other", &QualifiedTypeName::root("ViewModel")).is_empty());
}
