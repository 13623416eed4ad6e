use crux_core::capability::{Operation, RequestKind};
use crux_core::render::RenderOperation;
use crux_core::type_generation::boltffi::{BoltFfi, PackageLocation};
use crux_core::type_generation::effects::{EffectBuilder, EffectMeta};
use crux_core::type_generation::emit::core_api::{self, view_read, CoreApi};
use crux_core::type_generation::emit::handler::{self, output_value, HandlerVariant};
use crux_core::type_generation::emit::lines::{decimal_text, hex_text, Line};
use crux_core::type_generation::emit::{request_id, request_kind};
use crux_core::type_generation::format::Format;
use crux_core::type_generation::naming::QualifiedTypeName;
use crux_core::type_generation::plugins::{matched, Container, ContainerShape, Matched, RegistryVariant, Variant, VariantPayload};
use crux_core::type_generation::shell_handler_plugin::Language;

/// The lines as the generator writes them, four spaces a level.
fn rendered(lines: &[Line]) -> String {
    let mut out = String::new();
    let mut level: usize = 0;
    for l in lines {
        match l {
            Line::Text(t) if t.is_empty() => out.push('\n'),
            Line::Text(t) => {
                out.push_str(&"    ".repeat(level));
                out.push_str(t);
                out.push('\n');
            }
            Line::Indent => level += 1,
            Line::Unindent => level -= 1,
        }
    }
    out
}

fn named_type(name: &str) -> Format {
    Format::TypeName(QualifiedTypeName::root(name))
}

/// The fixture effect, with all four shapes a variant can have.
fn fixture() -> Vec<EffectMeta> {
    let mut effects = Vec::new();
    EffectBuilder::new(QualifiedTypeName::root("Effect"))
        .variant("Render", RenderOperation::kind(), None, true)
        .variant("Http", Some(RequestKind::Request), Some(named_type("HttpResult")), false)
        .variant("Subscribe", Some(RequestKind::Stream), Some(named_type("Message")), false)
        .variant("Legacy", None, Some(named_type("Message")), false)
        .finish(&mut effects);
    effects
}

fn container() -> Container {
    let variant = |index: u32, name: &str, operation: &str| RegistryVariant {
        index,
        name: name.to_string(),
        payload: VariantPayload::NewType(named_type(operation)),
    };
    Container {
        name: QualifiedTypeName::root("Effect"),
        shape: ContainerShape::Enum(vec![
            variant(0, "Render", "RenderOperation"),
            variant(1, "Http", "HttpRequest"),
            variant(2, "Subscribe", "Subscribe"),
            variant(3, "Legacy", "LegacyOperation"),
        ]),
    }
}

fn request_kind_for(language: Language) -> String {
    let effects = fixture();
    let container = container();
    let m = matched(&effects, &container).expect("the effect should match");
    let mut lines = Vec::new();
    request_kind::after_effect(&mut lines, language, &m);
    if language == Language::CSharp {
        request_kind::csharp_accessor(&mut lines, &m, "Shared");
    }
    rendered(&lines)
}

const NAMES: [&str; 4] = ["Render", "Http", "Subscribe", "Legacy"];

fn request_id_for(language: Language) -> String {
    let names: Vec<&str> = NAMES.to_vec();
    let mut lines = Vec::new();
    match language {
        Language::Swift => request_id::swift(&mut lines, "Effect", &names),
        Language::Kotlin => request_id::kotlin(&mut lines, "Effect", &names),
        Language::TypeScript => request_id::typescript(&mut lines, "Effect", &names),
        Language::CSharp => request_id::csharp(&mut lines, "Effect", &names, "Shared"),
    }
    rendered(&lines)
}

/// The fixture's variants as the handler API is written from them, with a
/// stand-in for the serializer's lines.
fn handler_variants() -> Vec<HandlerVariant> {
    let variant = |name: &str, kind: Option<RequestKind>, render: bool, operation: &str, output: Option<&str>| HandlerVariant {
        name: name.to_string(),
        kind,
        render,
        operation: operation.to_string(),
        output: output.map(str::to_string),
        serialize: match output {
            Some(_) => vec![format!("{}.serialize(serializer)", output_value(kind))],
            None => Vec::new(),
        },
    };
    vec![
        variant("Render", Some(RequestKind::Notify), true, "RenderOperation", None),
        variant("Http", Some(RequestKind::Request), false, "HttpRequest", Some("HttpResult")),
        variant("Subscribe", Some(RequestKind::Stream), false, "Subscribe", Some("Message")),
        variant("Legacy", None, false, "LegacyOperation", Some("Message")),
    ]
}

fn handler_for(language: Language) -> String {
    let vars = handler_variants();
    let mut lines = Vec::new();
    match language {
        Language::Swift => handler::swift(&mut lines, "Effect", &vars),
        Language::Kotlin => handler::kotlin(&mut lines, "Effect", &vars),
        Language::TypeScript => handler::typescript(&mut lines, "Effect", &vars),
        Language::CSharp => handler::csharp(&mut lines, "Effect", &vars, "Shared"),
    }
    rendered(&lines)
}

fn api(class: Option<&str>) -> CoreApi {
    CoreApi {
        effect: "Effect".to_string(),
        render: "Render".to_string(),
        event: "Event".to_string(),
        view_model: "ViewModel".to_string(),
        ffi_class: class.map(str::to_string),
    }
}

fn core_for(language: Language, class: Option<&str>) -> String {
    let api = api(class);
    let event = vec!["event.serialize(serializer);".to_string()];
    let mut lines = Vec::new();
    match language {
        Language::Swift => core_api::swift(&mut lines, &api),
        Language::Kotlin => core_api::kotlin(&mut lines, &api),
        Language::TypeScript => core_api::typescript(&mut lines, &api, &event, &QualifiedTypeName::root("ViewModel"), false),
        Language::CSharp => core_api::csharp(&mut lines, &api, "Shared", &event, false),
    }
    rendered(&lines)
}

// Numbers ---------------------------------------------------------------------

#[test]
fn numbers_are_written_in_decimal_and_hex() {
    assert_eq!(decimal_text(0), "0");
    assert_eq!(decimal_text(24), "24");
    assert_eq!(decimal_text(u64::MAX), "18446744073709551615");
    assert_eq!(hex_text(0), "0x0");
    assert_eq!(hex_text(0x800000), "0x800000");
    assert_eq!(hex_text(0x7fffff), "0x7fffff");
}

// Operation kind -------------------------------------------------------------

#[test]
fn operation_kind_swift() {
    let out = request_kind_for(Language::Swift);
    assert!(out.contains("public enum RequestKind: Hashable, Sendable {\n    /// Never"), "{out}");
    assert!(out.contains(
        "extension Effect {\n    /// How many times the shell resolves a request carrying this effect,\n    /// or `nil` when the operation leaves that to the call site.\n    public var requestKind: RequestKind? {\n        switch self {\n        case .render: return .notify\n        case .http: return .request\n        case .subscribe: return .stream\n        case .legacy: return nil\n        }\n    }\n}\n"
    ), "{out}");
}

#[test]
fn operation_kind_kotlin() {
    let out = request_kind_for(Language::Kotlin);
    assert!(out.contains("enum class RequestKind {\n    /// Never — the core is not waiting for an answer.\n    NOTIFY,"), "{out}");
    assert!(out.contains(
        "val Effect.requestKind: RequestKind?\n    get() = when (this) {\n        is Effect.Render -> RequestKind.NOTIFY\n        is Effect.Http -> RequestKind.REQUEST\n        is Effect.Subscribe -> RequestKind.STREAM\n        is Effect.Legacy -> null\n    }\n"
    ), "{out}");
}

#[test]
fn operation_kind_typescript() {
    let out = request_kind_for(Language::TypeScript);
    assert!(out.contains("export type RequestKind = \"notify\" | \"request\" | \"stream\";\n"), "{out}");
    assert!(out.contains(
        "export function effectRequestKind(effect: Effect): RequestKind | undefined {\n    switch (effect.kind) {\n        case \"Render\": return \"notify\";\n        case \"Http\": return \"request\";\n        case \"Subscribe\": return \"stream\";\n        case \"Legacy\": return undefined;\n        default: return undefined;\n    }\n}\n"
    ), "{out}");
}

#[test]
fn operation_kind_csharp() {
    let out = request_kind_for(Language::CSharp);
    assert!(out.contains("public enum RequestKind\n{\n"), "{out}");
    assert!(out.contains(
        "public Shared.RequestKind? RequestKind => this switch\n{\n    Shared.Effect.Render => Shared.RequestKind.Notify,\n    Shared.Effect.Http => Shared.RequestKind.Request,\n    Shared.Effect.Subscribe => Shared.RequestKind.Stream,\n    Shared.Effect.Legacy => null,\n    _ => null,\n};\n"
    ), "{out}");
}

#[test]
fn only_the_primary_effect_declares_the_request_kind() {
    let mut effects = Vec::new();
    EffectBuilder::new(QualifiedTypeName::root("Other"))
        .variant("Render", RenderOperation::kind(), None, true)
        .finish(&mut effects);
    EffectBuilder::new(QualifiedTypeName::root("Effect"))
        .variant("Render", RenderOperation::kind(), None, true)
        .variant("Http", Some(RequestKind::Request), Some(named_type("HttpResult")), false)
        .variant("Subscribe", Some(RequestKind::Stream), Some(named_type("Message")), false)
        .variant("Legacy", None, Some(named_type("Message")), false)
        .finish(&mut effects);
    let container = container();
    let m = matched(&effects, &container).expect("the effect should match");
    assert!(!m.primary);
    let mut lines = Vec::new();
    request_kind::after_effect(&mut lines, Language::Swift, &m);
    let out = rendered(&lines);
    assert!(!out.contains("public enum RequestKind"), "{out}");
    assert!(out.contains("case .http: return .request"), "{out}");
    let mut lines = Vec::new();
    request_kind::after_effect(&mut lines, Language::CSharp, &m);
    assert!(lines.is_empty());
}

#[test]
fn a_variant_name_is_spelled_as_the_kotlin_emitter_spells_it() {
    let operation = named_type("Hold");
    let m = Matched {
        name: "Effect",
        primary: false,
        variants: vec![Variant { index: 0, name: "on-hold", kind: None, output: None, operation: &operation, render: false }],
    };
    let mut lines = Vec::new();
    request_kind::after_effect(&mut lines, Language::Kotlin, &m);
    let out = rendered(&lines);
    assert!(out.contains("        is Effect.on_hold -> null\n"), "{out}");
}

// Effect handler -------------------------------------------------------------

#[test]
fn handler_swift() {
    let out = handler_for(Language::Swift);
    assert!(out.contains("public struct EffectSink<Item>: Sendable {"), "{out}");
    assert!(out.contains("private func serializeEffectOutput(_ body: (BincodeSerializer) throws -> Void) -> [UInt8] {"), "{out}");
    assert!(out.contains(
        "/// Handles every effect `Effect` can carry.\n///\n/// `EffectDispatcher` resolves each request for you, so there is no\n/// `resolve` to call at the wrong time or with the wrong bytes.\n@available(macOS 10.15, iOS 13.0, tvOS 13.0, watchOS 6.0, *)\npublic protocol EffectHandler: Sendable {\n    func render(_ operation: RenderOperation)\n    func http(_ operation: HttpRequest) async -> HttpResult\n    func subscribe(_ operation: Subscribe, into sink: EffectSink<Message>)\n    func legacy(_ operation: LegacyOperation, requestId: UInt32, resolve: @escaping @Sendable ([UInt8]) -> Void)\n}\n"
    ), "{out}");
    assert!(out.contains(
        "        switch request.effect {\n        case .render(let operation):\n            handler.render(operation)\n        case .http(let operation):\n            Task {\n                let output = await handler.http(operation)\n                resolve(id, serializeEffectOutput { serializer in\n                    output.serialize(serializer)\n                })\n            }\n        case .subscribe(let operation):\n            handler.subscribe(operation, into: EffectSink { item in\n                resolve(id, serializeEffectOutput { serializer in\n                    item.serialize(serializer)\n                })\n            })\n        case .legacy(let operation):\n            handler.legacy(operation, requestId: id) { bytes in\n                resolve(id, bytes)\n            }\n        }\n"
    ), "{out}");
}

#[test]
fn handler_kotlin() {
    let out = handler_for(Language::Kotlin);
    assert!(out.contains("fun interface EffectSink<in T> {\n    fun send(item: T)\n}\n"), "{out}");
    assert!(out.contains(
        "interface EffectHandler {\n    /// `Core` handles `Render` itself, so this does nothing; implement it\n    /// only if you drive `EffectDispatcher` yourself.\n    fun render(operation: RenderOperation) {}\n    suspend fun http(operation: HttpRequest): HttpResult\n    fun subscribe(operation: Subscribe, sink: EffectSink<Message>)\n    fun legacy(operation: LegacyOperation, requestId: UInt, resolve: (ByteArray) -> Unit)\n}\n"
    ), "{out}");
    assert!(out.contains(
        "        when (val effect = request.effect) {\n            is Effect.Render -> handler.render(effect.value)\n            is Effect.Http -> {\n                val output = handler.http(effect.value)\n                resolve(id, effectOutputBytes { serializer ->\n                    output.serialize(serializer)\n                })\n            }\n            is Effect.Subscribe -> handler.subscribe(effect.value) { item ->\n                resolve(id, effectOutputBytes { serializer ->\n                    item.serialize(serializer)\n                })\n            }\n            is Effect.Legacy -> handler.legacy(effect.value, id) { bytes -> resolve(id, bytes) }\n        }\n"
    ), "{out}");
}

#[test]
fn handler_typescript() {
    let out = handler_for(Language::TypeScript);
    assert!(out.contains("export interface EffectSink<T> {\n    send(item: T): void;\n}\n"), "{out}");
    assert!(out.contains(
        "export interface EffectHandler {\n    render(operation: RenderOperation): void;\n    http(operation: HttpRequest): Promise<HttpResult>;\n    subscribe(operation: Subscribe, sink: EffectSink<Message>): void;\n    legacy(operation: LegacyOperation, requestId: uint32, resolve: (bytes: Uint8Array) => void): void;\n}\n"
    ), "{out}");
    assert!(out.contains(
        "            case \"Subscribe\": {\n                this.handler.subscribe(effect.value, {\n                    send: (item) => {\n                        const serializer = new BincodeSerializer();\n                        item.serialize(serializer)\n                        this.resolve(id, serializer.getBytes());\n                    },\n                });\n                break;\n            }\n"
    ), "{out}");
    assert!(out.contains("void this.handler.http(effect.value).then((output) => {"), "{out}");
}

#[test]
fn handler_csharp() {
    let out = handler_for(Language::CSharp);
    assert!(out.contains("public interface IEffectSink<in T>\n{\n    void Send(T item);\n}\n"), "{out}");
    assert!(out.contains(
        "public interface IEffectHandler\n{\n    void Render(RenderOperation operation);\n    Task<HttpResult> Http(HttpRequest operation);\n    void Subscribe(Subscribe operation, IEffectSink<Message> sink);\n    void Legacy(LegacyOperation operation, uint requestId, Action<byte[]> resolve);\n}\n"
    ), "{out}");
    assert!(out.contains("            case Shared.Effect.Http http:\n                _ = DispatchHttp(http.Value, id);\n                break;\n"), "{out}");
    assert!(out.contains(
        "    private async Task DispatchHttp(HttpRequest operation, uint id)\n    {\n        var output = await _handler.Http(operation);\n        var serializer = new BincodeSerializer();\n        output.serialize(serializer)\n        _resolve(id, serializer.GetBytes());\n    }\n"
    ), "{out}");
    assert_eq!(out.matches("private async Task Dispatch").count(), 1, "{out}");
    assert!(out.contains("private sealed class DelegateEffectSink<T> : IEffectSink<T>"), "{out}");
}

#[test]
fn a_stream_is_resolved_from_its_item_and_a_request_from_its_output() {
    assert_eq!(output_value(Some(RequestKind::Stream)), "item");
    assert_eq!(output_value(Some(RequestKind::Request)), "output");
}

// Request id -----------------------------------------------------------------

#[test]
fn request_id_swift() {
    let out = request_id_for(Language::Swift);
    assert!(out.contains(
        "public enum EffectKind: UInt8, Hashable, Sendable {\n    case render = 0\n    case http = 1\n    case subscribe = 2\n    case legacy = 3\n}\n"
    ), "{out}");
    assert!(out.contains("return EffectKind(rawValue: UInt8(truncatingIfNeeded: self.rawValue >> 24))"), "{out}");
    assert!(out.contains("return (self.rawValue & 0x800000) == 0 ? .request : .stream"), "{out}");
    assert!(out.contains("self.rawValue & 0x7fffff\n"), "{out}");
}

#[test]
fn request_id_kotlin() {
    let out = request_id_for(Language::Kotlin);
    assert!(out.contains("    RENDER(0u),\n    HTTP(1u),\n    SUBSCRIBE(2u),\n    LEGACY(3u);\n"), "{out}");
}

#[test]
fn request_id_typescript() {
    let out = request_id_for(Language::TypeScript);
    assert!(out.contains("\"Render\" | \"Http\" | \"Subscribe\" | \"Legacy\""), "{out}");
    assert!(out.contains("\"Render\", \"Http\", \"Subscribe\", \"Legacy\""), "{out}");
}

#[test]
fn request_id_csharp() {
    let out = request_id_for(Language::CSharp);
    assert!(out.contains("    Render = 0,\n    Http = 1,\n    Subscribe = 2,\n    Legacy = 3,\n"), "{out}");
    assert!(out.contains("1u => Shared.EffectKind.Http,"), "{out}");
}

// Core -----------------------------------------------------------------------

#[test]
fn core_swift() {
    let out = core_for(Language::Swift, None);
    assert!(out.contains("public protocol CoreBridge: Sendable {"), "{out}");
    assert!(out.contains("@available(macOS 14.0, iOS 17.0, tvOS 17.0, watchOS 10.0, *)\n@Observable\n@MainActor\npublic final class Core {\n"), "{out}");
    assert!(out.contains("    public private(set) var view: ViewModel\n"), "{out}");
    assert!(out.contains("    public func update(_ event: Event) {\n"), "{out}");
    assert!(out.contains("            if case .render = request.effect {\n"), "{out}");
    assert!(!out.contains("convenience init"), "{out}");
}

#[test]
fn core_kotlin() {
    let out = core_for(Language::Kotlin, None);
    assert!(out.contains("interface CoreBridge {"), "{out}");
    assert!(out.contains("    private val _view = MutableStateFlow(ViewModel.bincodeDeserialize(bridge.view()))\n"), "{out}");
    assert!(out.contains("            if (request.effect is Effect.Render) {\n"), "{out}");
    assert!(!out.contains("constructor("), "{out}");
}

#[test]
fn core_typescript() {
    let out = core_for(Language::TypeScript, None);
    assert!(out.contains("export interface CoreBridge {"), "{out}");
    assert!(!out.contains("FfiBridge"), "{out}");
    assert!(out.contains(
        "    public update(event: Event): void {\n        const serializer = new BincodeSerializer();\n        event.serialize(serializer);\n        this.processBytes(this.bridge.update(serializer.getBytes()));\n    }\n"
    ), "{out}");
    assert!(out.contains("            if (request.effect.kind === \"Render\") {\n"), "{out}");
    assert!(out.contains("        return ViewModel.deserialize(deserializer);\n"), "{out}");
}

#[test]
fn core_csharp() {
    let out = core_for(Language::CSharp, None);
    assert!(out.contains("public interface ICoreBridge\n{\n    byte[] Update(byte[] @event);\n"), "{out}");
    assert!(out.contains("    public void Update(Event @event)\n    {\n        var serializer = new BincodeSerializer();\n        event.serialize(serializer);\n"), "{out}");
    assert!(out.contains("            if (request.Effect is Shared.Effect.Render)\n"), "{out}");
    assert!(out.contains("    private ViewModel ReadView() => ViewModel.BincodeDeserialize(_bridge.View());\n"), "{out}");
}

#[test]
fn a_unit_enum_view_model_is_read_through_its_companion_class() {
    let api = api(None);
    let mut lines = Vec::new();
    core_api::csharp(&mut lines, &api, "Shared", &Vec::new(), true);
    let out = rendered(&lines);
    assert!(out.contains("private ViewModel ReadView() => ViewModelBincode.BincodeDeserialize(_bridge.View());"), "{out}");
}

#[test]
fn the_view_is_read_the_way_the_bincode_emitter_spells_it() {
    assert_eq!(view_read(&QualifiedTypeName::root("ViewModel"), false), "ViewModel.deserialize(deserializer)");
    assert_eq!(view_read(&QualifiedTypeName::root("ViewModel"), true), "deserializeViewModel(deserializer)");
    assert_eq!(view_read(&QualifiedTypeName::named("kit_ns", "View"), false), "KitNs.View.deserialize(deserializer)");
    assert_eq!(view_read(&QualifiedTypeName::named("kit_ns", "View"), true), "KitNs.deserializeView(deserializer)");
}

#[test]
fn core_swift_with_boltffi() {
    let out = core_for(Language::Swift, Some("CoreFfi"));
    assert!(out.contains(
        "    /// Build a `Core` over the `CoreFfi` the Rust crate exports — the shell\n    /// writes the handler and never sees the bridge.\n    public convenience init(handler: any EffectHandler) {\n        self.init(bridge: FfiBridge(), handler: handler)\n    }\n"
    ), "{out}");
}

#[test]
fn core_kotlin_with_boltffi() {
    let out = core_for(Language::Kotlin, Some("CoreFfi"));
    assert!(out.contains("    constructor(handler: EffectHandler, scope: CoroutineScope) : this(FfiBridge(), handler, scope)\n"), "{out}");
}

#[test]
fn core_typescript_with_boltffi() {
    let out = core_for(Language::TypeScript, Some("CoreFfi"));
    assert!(out.contains("export class FfiBridge implements CoreBridge {\n    private readonly ffi = boltffi.CoreFfi.new();\n"), "{out}");
    assert!(out.contains("    public static async create(\n"), "{out}");
    assert!(out.contains("        return new Core(new FfiBridge(), handler, onView);\n"), "{out}");
}

#[test]
fn core_csharp_with_boltffi() {
    let out = core_for(Language::CSharp, Some("CoreFfi"));
    assert!(out.contains("    public Core(IEffectHandler handler) : this(new FfiBridge(), handler) {}\n"), "{out}");
}

#[test]
fn the_bridges_name_the_bindings_class() {
    let mut lines = Vec::new();
    core_api::swift_ffi_bridge(&mut lines, "Shared", "CoreFfi");
    let out = rendered(&lines);
    assert!(out.contains("    private let ffi = Shared.CoreFfi()\n"), "{out}");
    let mut lines = Vec::new();
    core_api::kotlin_ffi_bridge(&mut lines, "CoreFfi");
    let out = rendered(&lines);
    assert!(out.contains("class FfiBridge(private val ffi: CoreFfi = CoreFfi()) : CoreBridge, AutoCloseable {\n"), "{out}");
    let mut lines = Vec::new();
    core_api::csharp_ffi_bridge(&mut lines, "CoreFfi");
    let out = rendered(&lines);
    assert!(out.contains("    private readonly CoreFfi _ffi = new();\n"), "{out}");
    assert!(out.contains("    public byte[] Update(byte[] @event) => _ffi.Update(@event);\n"), "{out}");
}

#[test]
fn boltffi_class_can_be_renamed() {
    let ffi = BoltFfi::new()
        .swift("Shared")
        .kotlin()
        .typescript("shared", PackageLocation::Path("../pkg".to_string()))
        .csharp()
        .class("MyCore");
    let swift = ffi.swift_ffi().expect("the Swift bindings are named");

    let mut lines = Vec::new();
    core_api::swift_ffi_bridge(&mut lines, &swift.module, ffi.class_name());
    assert!(rendered(&lines).contains("private let ffi = Shared.MyCore()"));

    let mut lines = Vec::new();
    core_api::kotlin_ffi_bridge(&mut lines, ffi.class_name());
    assert!(rendered(&lines).contains("class FfiBridge(private val ffi: MyCore = MyCore()) :"));

    let mut lines = Vec::new();
    core_api::csharp_ffi_bridge(&mut lines, ffi.class_name());
    assert!(rendered(&lines).contains("private readonly MyCore _ffi = new();"));

    // TypeScript has no companion, so read it out of the module instead.
    let typescript = core_for(Language::TypeScript, Some(ffi.class_name()));
    assert!(typescript.contains("private readonly ffi = boltffi.MyCore.new();"));
}
