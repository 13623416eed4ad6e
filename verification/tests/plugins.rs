use crux_core::capability::Operation;
use crux_core::render::RenderOperation;
use crux_core::bridge::{EffectId, EFFECT_SHIFT, SEQUENCE_MASK, STREAM_BIT};
use crux_core::capability::{OperationKind, RequestKind};
use crux_core::type_generation::boltffi::{BoltFfi, PackageLocation};
use crux_core::type_generation::core_plugin::CorePlugin;
use crux_core::type_generation::effects::{EffectBuilder, EffectMeta};
use crux_core::type_generation::format::Format;
use crux_core::type_generation::handler_plugin::EffectHandlerPlugin;
use crux_core::type_generation::kind_spelling::kind_literal;
use crux_core::type_generation::shell_handler_plugin::Language;
use crux_core::type_generation::naming::QualifiedTypeName;
use crux_core::type_generation::plugins::{
    has_request, matched, output_of, output_types, serializes_output, Container, ContainerShape,
    RegistryVariant, VariantPayload,
};

const PACKAGE: &str = "Shared";
const BINCODE: &str = "./bincode";

fn named_type(name: &str) -> Format {
    Format::TypeName(QualifiedTypeName::root(name))
}

/// The fixture effect, covering all four shapes a variant can have: the
/// render notification, a request, a stream, and a legacy operation.
fn fixture() -> Vec<EffectMeta> {
    let mut effects = Vec::new();
    EffectBuilder::new(QualifiedTypeName::root("Effect"))
        .variant("Render", RenderOperation::kind(), None, true)
        .variant("Http", Some(RequestKind::Request), Some(named_type("HttpResult")), false)
        .variant("Subscribe", Some(RequestKind::Stream), Some(named_type("Message")), false)
        .variant("Legacy", None, Some(named_type("Message")), false)
        .finish(&mut effects);
    effects
}

/// The effect enum as the registry has it.
fn effect_container() -> Container {
    let variant = |index: u32, name: &str, operation: &str| RegistryVariant {
        index,
        name: name.to_string(),
        payload: VariantPayload::NewType(named_type(operation)),
    };
    Container {
        name: QualifiedTypeName::root("Effect"),
        shape: ContainerShape::Enum(vec![
            variant(0, "Render", "RenderOperation"),
            variant(1, "Http", "HttpRequest"),
            variant(2, "Subscribe", "Subscribe"),
            variant(3, "Legacy", "LegacyOperation"),
        ]),
    }
}

/// The fixture with `keep` applied to the first effect's variants.
fn retain(keep: impl Fn(&crux_core::type_generation::effects::EffectVariantMeta) -> bool) -> Vec<EffectMeta> {
    let mut effects = fixture();
    effects[0].variants.retain(|v| keep(v));
    effects
}

fn boltffi() -> BoltFfi {
    BoltFfi::new()
        .swift("Shared")
        .kotlin()
        .typescript("shared", PackageLocation::Path("../pkg".to_string()))
        .csharp()
}

#[test]
fn a_render_variant_is_recorded() {
    let effects = fixture();
    let flags: Vec<_> = effects[0]
        .variants
        .iter()
        .map(|variant| (variant.ident.as_str(), variant.render))
        .collect();

    assert_eq!(
        flags,
        vec![
            ("Render", true),
            ("Http", false),
            ("Subscribe", false),
            ("Legacy", false),
        ]
    );
}

#[test]
fn ffi_bridge_swift() {
    let plugin = CorePlugin::new(&fixture(), Some(boltffi()), PACKAGE);
    let file = plugin.swift_companion(PACKAGE).expect("expected exactly one companion file");

    assert_eq!(file.file_name, "FfiBridge.swift");
    assert_eq!(file.imports, vec!["Foundation", "Shared"]);
}

#[test]
fn ffi_bridge_kotlin() {
    let plugin = CorePlugin::new(&fixture(), Some(boltffi()), PACKAGE);
    let file = plugin.kotlin_companion(PACKAGE).expect("expected exactly one companion file");

    assert_eq!(file.file_name, "FfiBridge.kt");
    assert!(file.imports.is_empty(), "unexpected imports: {:?}", file.imports);
}

#[test]
fn ffi_bridge_csharp() {
    let plugin = CorePlugin::new(&fixture(), Some(boltffi()), PACKAGE);
    let file = plugin.csharp_companion(PACKAGE).expect("expected exactly one companion file");

    assert_eq!(file.file_name, "FfiBridge.cs");
    assert!(file.imports.is_empty(), "unexpected imports: {:?}", file.imports);
}

#[test]
fn typescript_has_no_companion_and_imports_the_package() {
    let plugin = CorePlugin::new(&fixture(), Some(boltffi()), PACKAGE);

    assert!(plugin
        .typescript_imports(PACKAGE, BINCODE)
        .contains(&r#"import * as boltffi from "shared";"#.to_string()));
    assert_eq!(
        plugin.typescript_manifest_dependencies(),
        vec![r#""shared": "file:../pkg""#.to_string()]
    );
}

#[test]
fn swift_depends_on_the_package_the_bindings_are_in() {
    let effects = fixture();

    let plugin = CorePlugin::new(&effects, Some(boltffi()), PACKAGE);
    assert_eq!(
        plugin.swift_manifest_dependencies(),
        vec![r#".package(path: "../Shared")"#.to_string()]
    );
    assert_eq!(
        plugin.swift_target_dependencies(PACKAGE),
        vec![r#".product(name: "Shared", package: "Shared")"#.to_string()]
    );

    // SPM names the package by the last component of the path, whatever the
    // module is called.
    let ffi = BoltFfi::new().swift_package("Shared", "SharedLib", "../generated/Shared");
    let plugin = CorePlugin::new(&effects, Some(ffi), PACKAGE);
    assert_eq!(
        plugin.swift_manifest_dependencies(),
        vec![r#".package(path: "../generated/Shared")"#.to_string()]
    );
    assert_eq!(
        plugin.swift_target_dependencies(PACKAGE),
        vec![r#".product(name: "SharedLib", package: "Shared")"#.to_string()]
    );
}

#[test]
fn kotlin_ffi_bridge_imports_a_foreign_package() {
    let plugin = CorePlugin::new(&fixture(), Some(BoltFfi::new().kotlin_package("com.example.ffi")), PACKAGE);
    let file = plugin.kotlin_companion(PACKAGE).expect("expected exactly one companion file");
    assert_eq!(file.imports, vec!["import com.example.ffi.CoreFfi"]);

    // Naming the package the types are generated into is not a foreign
    // package, so it needs no import.
    let plugin = CorePlugin::new(&fixture(), Some(BoltFfi::new().kotlin_package("Shared")), PACKAGE);
    let file = plugin.kotlin_companion(PACKAGE).expect("expected exactly one companion file");
    assert!(file.imports.is_empty(), "unexpected imports: {:?}", file.imports);
}

#[test]
fn csharp_ffi_bridge_uses_a_foreign_namespace() {
    let plugin = CorePlugin::new(&fixture(), Some(BoltFfi::new().csharp_namespace("Example.Ffi")), PACKAGE);
    let file = plugin.csharp_companion(PACKAGE).expect("expected exactly one companion file");
    assert_eq!(file.imports, vec!["using Example.Ffi;"]);

    let plugin = CorePlugin::new(&fixture(), Some(BoltFfi::new().csharp_namespace("Shared")), PACKAGE);
    let file = plugin.csharp_companion(PACKAGE).expect("expected exactly one companion file");
    assert!(file.imports.is_empty(), "unexpected imports: {:?}", file.imports);
}

#[test]
fn a_renamed_class_is_imported_by_its_name() {
    let ffi = BoltFfi::new().kotlin_package("com.example.ffi").class("MyCore");
    let plugin = CorePlugin::new(&fixture(), Some(ffi), PACKAGE);
    let file = plugin.kotlin_companion(PACKAGE).expect("expected exactly one companion file");
    assert_eq!(file.imports, vec!["import com.example.ffi.MyCore"]);
}

#[test]
fn an_unnamed_language_gets_no_bridge() {
    // Swift only.
    let plugin = CorePlugin::new(&fixture(), Some(BoltFfi::new().swift("Shared")), PACKAGE);

    assert!(plugin.kotlin_companion(PACKAGE).is_none());
    assert!(plugin.csharp_companion(PACKAGE).is_none());
    assert!(plugin.typescript_manifest_dependencies().is_empty());
    assert!(plugin.swift_companion(PACKAGE).is_some());
}

#[test]
fn a_namespaced_module_gets_no_bridge() {
    let plugin = CorePlugin::new(&fixture(), Some(boltffi()), PACKAGE);
    assert!(plugin.swift_companion("Other").is_none());
    assert!(plugin.kotlin_companion("Other").is_none());
    assert!(plugin.csharp_companion("Other").is_none());
    assert!(plugin.swift_imports("Other").is_empty());
    assert!(plugin.swift_target_dependencies("Other").is_empty());
}

#[test]
fn no_core_is_emitted_without_a_render_variant() {
    let effects = retain(|variant| !variant.render);

    // The registry still has four variants, so the effect no longer lines up.
    let container = effect_container();
    assert!(matched(&effects, &container).is_none());

    let plugin = CorePlugin::new(&effects, None, PACKAGE);
    assert!(!plugin.emits_core());
    assert!(plugin.swift_companion(PACKAGE).is_none());
}

#[test]
fn typescript_imports_the_serializer_only_when_the_handler_does_not() {
    // The fixture has a request and a stream, so the handler serializes.
    let plugin = CorePlugin::new(&fixture(), None, PACKAGE);
    assert_eq!(
        plugin.typescript_imports(PACKAGE, BINCODE),
        vec![r#"import { BincodeDeserializer } from "./bincode";"#.to_string()]
    );

    // With only notifications left, nothing else imports the serializer.
    let notifications = retain(|variant| variant.kind == Some(OperationKind::Notify));
    let plugin = CorePlugin::new(&notifications, None, PACKAGE);
    assert_eq!(
        plugin.typescript_imports(PACKAGE, BINCODE),
        vec![
            r#"import { BincodeDeserializer } from "./bincode";"#.to_string(),
            r#"import { BincodeSerializer } from "./bincode";"#.to_string(),
        ]
    );
}

#[test]
fn observation_is_imported_only_when_a_core_is_emitted() {
    let plugin = CorePlugin::new(&fixture(), None, PACKAGE);
    assert_eq!(plugin.swift_imports(PACKAGE), vec!["Observation".to_string()]);
    assert_eq!(
        plugin.csharp_imports(PACKAGE),
        vec!["using System.ComponentModel;".to_string()]
    );

    let without_render = retain(|variant| !variant.render);
    let plugin = CorePlugin::new(&without_render, None, PACKAGE);
    assert!(plugin.swift_imports(PACKAGE).is_empty());
    assert!(plugin.csharp_imports(PACKAGE).is_empty());
}

#[test]
fn kotlin_asks_for_coroutines_only_when_it_emits_a_core() {
    let plugin = CorePlugin::new(&fixture(), None, PACKAGE);
    assert!(plugin
        .kotlin_imports(PACKAGE)
        .contains(&"import kotlinx.coroutines.flow.StateFlow".to_string()));
    assert_eq!(
        plugin.kotlin_manifest_dependencies(),
        vec![
            r#"    implementation("org.jetbrains.kotlinx:kotlinx-coroutines-core:1.10.2")"#
                .to_string()
        ]
    );

    let without_render = retain(|variant| !variant.render);
    let plugin = CorePlugin::new(&without_render, None, PACKAGE);
    assert!(plugin.kotlin_imports(PACKAGE).is_empty());
    assert!(plugin.kotlin_manifest_dependencies().is_empty());
}

#[test]
fn the_emitted_layout_matches_the_ids_the_bridge_issues() {
    let stream = EffectId(0x0300_0001 | STREAM_BIT);

    assert_eq!(u32::from(stream.effect_index()), stream.0 >> EFFECT_SHIFT);
    assert_eq!(stream.kind(), OperationKind::Stream);
    assert_eq!(stream.sequence(), stream.0 & SEQUENCE_MASK);

    let request = EffectId(0x0300_0001);
    assert_eq!(request.kind(), OperationKind::Request);
    assert_eq!(request.0 & STREAM_BIT, 0);
}

#[test]
fn nothing_is_emitted_for_a_type_that_is_not_the_effect() {
    let effects = fixture();
    let container = Container {
        name: QualifiedTypeName::root("HttpResult"),
        shape: ContainerShape::Enum(vec![
            RegistryVariant { index: 0, name: "Ok".to_string(), payload: VariantPayload::NewType(Format::U16) },
            RegistryVariant { index: 1, name: "Err".to_string(), payload: VariantPayload::NewType(Format::Str) },
        ]),
    };
    assert!(matched(&effects, &container).is_none());
}

#[test]
fn the_effect_lines_up_with_the_registry() {
    let effects = fixture();
    let container = effect_container();
    let m = matched(&effects, &container).expect("the effect should line up");

    assert_eq!(m.name, "Effect");
    assert!(m.primary);
    let names: Vec<_> = m.variants.iter().map(|v| v.name).collect();
    assert_eq!(names, vec!["Render", "Http", "Subscribe", "Legacy"]);

    let render = m.render_variant().expect("the fixture renders");
    assert_eq!(render.name, "Render");
    assert!(m.variants[1].is_request());
    assert!(m.variants[2].is_stream());
    assert!(m.variants[3].is_legacy());
    assert!(m.variants[0].output.is_none());
    assert!(m.variants[1].output.is_some());
    // A legacy operation is resolved with raw bytes, so it has no output.
    assert!(m.variants[3].output.is_none());
}

#[test]
fn a_variant_that_is_not_a_newtype_does_not_line_up() {
    let effects = fixture();
    let mut container = effect_container();
    if let ContainerShape::Enum(variants) = &mut container.shape {
        variants[1].payload = VariantPayload::Other;
    }
    assert!(matched(&effects, &container).is_none());
}

#[test]
fn only_the_first_effect_is_primary() {
    let mut effects = fixture();
    EffectBuilder::new(QualifiedTypeName::root("Other"))
        .variant("Render", Some(RequestKind::Notify), None, true)
        .finish(&mut effects);
    let container = Container {
        name: QualifiedTypeName::root("Other"),
        shape: ContainerShape::Enum(vec![RegistryVariant {
            index: 0,
            name: "Render".to_string(),
            payload: VariantPayload::NewType(named_type("RenderOperation")),
        }]),
    };
    let m = matched(&effects, &container).expect("the second effect should line up");
    assert!(!m.primary);
}

#[test]
fn finishing_an_effect_again_replaces_it() {
    let mut effects = fixture();
    EffectBuilder::new(QualifiedTypeName::root("Effect"))
        .variant("Only", Some(RequestKind::Request), Some(named_type("Message")), false)
        .finish(&mut effects);
    assert_eq!(effects.len(), 1);
    assert_eq!(effects[0].variants.len(), 1);
    assert_eq!(effects[0].variants[0].ident, "Only");
    assert_eq!(effects[0].variants[0].index, 0);
}

#[test]
fn a_notification_keeps_no_output() {
    let builder = EffectBuilder::new(QualifiedTypeName::root("Effect"))
        .variant("Notify", Some(RequestKind::Notify), Some(named_type("Message")), false);
    assert!(builder.meta.variants[0].output.is_none());
    assert!(!EffectBuilder::records_output(Some(RequestKind::Notify)));
    assert!(EffectBuilder::records_output(None));
}

#[test]
fn outputs_are_named_once_in_the_order_they_are_met() {
    let effects = fixture();
    let names: Vec<String> = output_types(&effects[0]).into_iter().map(|n| n.name).collect();
    assert_eq!(names, vec!["HttpResult".to_string(), "Message".to_string()]);

    assert!(output_of(&effects[0].variants[0]).is_none());
    assert!(output_of(&effects[0].variants[3]).is_none());

    let mut nested = Vec::new();
    EffectBuilder::new(QualifiedTypeName::root("Effect"))
        .variant(
            "Presence",
            Some(RequestKind::Request),
            Some(Format::Option(Box::new(Format::Tuple(vec![named_type("Presence"), named_type("User"), named_type("Presence")])))),
            false,
        )
        .finish(&mut nested);
    let names: Vec<String> = output_types(&nested[0]).into_iter().map(|n| n.name).collect();
    assert_eq!(names, vec!["Presence".to_string(), "User".to_string()]);
}

#[test]
fn the_handler_plugin_reads_the_first_effect() {
    let effects = fixture();
    assert!(serializes_output(&effects));
    assert!(has_request(&effects));

    let plugin = EffectHandlerPlugin::new(&effects);
    assert!(plugin.any_effect);
    assert!(plugin.serializes_output);

    let notifications = retain(|variant| variant.kind == Some(OperationKind::Notify));
    assert!(!serializes_output(&notifications));
    assert!(!has_request(&notifications));
    assert!(!serializes_output(&Vec::new()));
}

#[test]
fn the_handler_plugin_asks_for_what_its_api_uses() {
    let plugin = EffectHandlerPlugin::new(&fixture());
    assert_eq!(
        plugin.typescript_imports(BINCODE),
        vec![r#"import { BincodeSerializer } from "./bincode";"#.to_string()]
    );
    assert_eq!(
        plugin.csharp_imports(),
        vec!["using System;".to_string(), "using System.Threading.Tasks;".to_string()]
    );

    let plugin = EffectHandlerPlugin::new(&retain(|variant| variant.kind != Some(OperationKind::Request)));
    assert_eq!(plugin.csharp_imports(), vec!["using System;".to_string()]);

    let plugin = EffectHandlerPlugin::new(&Vec::new());
    assert!(plugin.csharp_imports().is_empty());
    assert!(plugin.typescript_imports(BINCODE).is_empty());
}

#[test]
fn each_language_spells_the_request_kind() {
    assert_eq!(kind_literal(Language::Swift, Some(RequestKind::Notify), "App"), ".notify");
    assert_eq!(kind_literal(Language::Swift, None, "App"), "nil");
    assert_eq!(kind_literal(Language::Kotlin, Some(RequestKind::Stream), "App"), "RequestKind.STREAM");
    assert_eq!(kind_literal(Language::Kotlin, None, "App"), "null");
    assert_eq!(kind_literal(Language::TypeScript, Some(RequestKind::Request), "App"), "\"request\"");
    assert_eq!(kind_literal(Language::TypeScript, None, "App"), "undefined");
    assert_eq!(kind_literal(Language::CSharp, Some(RequestKind::Request), "App.Shared"), "App.Shared.RequestKind.Request");
    assert_eq!(kind_literal(Language::CSharp, None, "App.Shared"), "null");
}

#[test]
fn a_core_is_written_only_for_the_primary_effect_with_a_render_variant() {
    let effects = fixture();
    let container = effect_container();
    let mut m = matched(&effects, &container).expect("the effect should match");
    assert!(m.writes_core());

    m.primary = false;
    assert!(!m.writes_core());

    m.primary = true;
    for v in m.variants.iter_mut() {
        v.render = false;
    }
    assert!(!m.writes_core());
}
