use crux_core::type_generation::text::replace_all;
use crux_core::typegen::{
    java_package_path, java_requests, sample_tracing_error, sampled_type_error, swift_source,
    type_tracing_error, typescript_source, value_tracing_error, Phase, TraceFailure,
};

const HINT: &str = r#"
This might be because you attempted to pass types with custom serialization across the FFI boundary. Make sure that:
1. Types you use in Event, ViewModel and Capabilities serialize as a container, otherwise wrap them in a new type struct,
    e.g. MyUuid(uuid::Uuid)
2. Sample values of such types have been provided to the type generator using TypeGen::register_samples, before any type registration."#;

#[test]
fn registration_closes_when_code_is_generated() {
    let mut phase = Phase::Registering;
    assert!(phase.check_registering().is_ok());
    assert!(phase.start_generating());
    assert_eq!(phase, Phase::Generating);
    assert_eq!(
        phase.check_registering(),
        Err("code has been generated, too late to register types".to_string())
    );
    assert!(!phase.start_generating());
    assert_eq!(phase, Phase::Generating);
}

#[test]
fn tracing_failures_are_reported() {
    let failure = TraceFailure::Deserialization("bad uuid".to_string());
    assert_eq!(type_tracing_error(&failure), format!("Type tracing failed: bad uuid. {HINT}"));
    assert_eq!(value_tracing_error(&failure), format!("Type tracing failed: bad uuid. {HINT}"));

    let failure = TraceFailure::Other("not supported".to_string());
    assert_eq!(type_tracing_error(&failure), "type tracing failed: not supported");
    assert_eq!(value_tracing_error(&failure), "value tracing failed: not supported");

    assert_eq!(sample_tracing_error("boom"), "value tracing failed: boom");
    assert_eq!(sampled_type_error("boom"), format!("Type tracing failed: boom. {HINT}"));
}

#[test]
fn generated_sources_are_patched() {
    assert_eq!(
        swift_source("let x: shared.Event = shared.Event.a", "// requests"),
        "let x: Event = Event.a\n\n// requests"
    );
    assert_eq!(
        typescript_source("import { A } from './a.ts';\nimport { B } from './b.ts';"),
        "import { A } from './a';\nimport { B } from './b';"
    );
    assert_eq!(typescript_source("no imports"), "no imports");
    assert_eq!(java_package_path("com.example.app"), "com/example/app");
    assert_eq!(java_package_path("app"), "app");
    assert_eq!(java_requests("com.example", "class Requests {}"), "package com.example;\n\nclass Requests {}");
}

#[test]
fn replacement_does_not_overlap_and_keeps_other_text() {
    assert_eq!(replace_all("aaa", "aa", "b"), "ba");
    assert_eq!(replace_all("ünïcödé.ts'", ".ts'", "'"), "ünïcödé'");
    assert_eq!(replace_all("", "x", "y"), "");
    assert_eq!(replace_all("abc", "abcd", "y"), "abc");
    assert_eq!(replace_all("a.b.c", ".", "::"), "a::b::c");
}
