//! The shell's side of the core loop, in each language: a byte-level
//! `CoreBridge` the shell implements around its FFI bindings, a `Core` that
//! drives the loop through it, and — when the bindings are named — an
//! `FfiBridge` implementing the bridge over them. The loop is the same in
//! every shell: serialize the event, cross the FFI, deserialize the
//! requests, re-read the view for the render variant and dispatch every
//! other request, resolve with what comes back, and go round again.
use vstd::prelude::*;

use super::super::text::texts;
use super::lines::{append_lines, blank, blank_view, line, t, text, text_lines, text_views, views, Line, LineView};
use super::super::naming::{heck_upper_camel, upper_camel, Namespace, QualifiedNameView, QualifiedTypeName};
use super::names::{case_name, csharp_escape, csharp_identifier, kotlin_class_name, swift_case_name, variant_class_name};

verus! {

/// What a generated `Core` names, as the language spells it.
#[derive(Debug)]
pub struct CoreApi {
    /// The effect enum's emitted name.
    pub effect: String,
    /// The name of its variant carrying the render operation.
    pub render: String,
    /// The app's event type.
    pub event: String,
    /// The app's view model type.
    pub view_model: String,
    /// The class the FFI bindings export, when the bindings for this
    /// language are named, so that `FfiBridge` is written beside the module.
    pub ffi_class: Option<String>,
}

/// A [`CoreApi`] as plain values.
pub struct CoreApiView {
    pub effect: Seq<char>,
    pub render: Seq<char>,
    pub event: Seq<char>,
    pub view_model: Seq<char>,
    pub ffi_class: Option<Seq<char>>,
}

impl View for CoreApi {
    type V = CoreApiView;

    open spec fn view(&self) -> CoreApiView {
        CoreApiView {
            effect: self.effect@,
            render: self.render@,
            event: self.event@,
            view_model: self.view_model@,
            ffi_class: match self.ffi_class {
                Some(c) => Some(c@),
                None => None,
            },
        }
    }
}

// Swift ---------------------------------------------------------------------

/// A run of fixed lines of [`swift_bridge`].
pub open spec fn swift_bridge_part1() -> Seq<LineView> {
    seq![
        blank_view(),
        t("/// The core's FFI surface, as bytes. Implement it around the `CoreFfi` your"@),
        t("/// Rust crate exports, or with a fake for previews and tests."@),
        t("public protocol CoreBridge: Sendable {"@),
        LineView::Indent,
        t("func update(_ event: [UInt8]) -> [UInt8]"@),
        t("func resolve(_ id: UInt32, _ output: [UInt8]) -> [UInt8]"@),
        t("func view() -> [UInt8]"@),
        LineView::Unindent,
        t("}"@),
    ]
}

/// Swift: the `CoreBridge` protocol.
pub open spec fn swift_bridge_lines() -> Seq<LineView> {
    swift_bridge_part1()
}

/// Swift: the `CoreBridge` protocol.
pub fn swift_bridge(out: &mut Vec<Line>)
    ensures
        views(final(out)@) == views(old(out)@) + swift_bridge_lines(),
{
    let ghost s0 = views(out@);
    let chunk = vec![
        blank(),
        text("/// The core's FFI surface, as bytes. Implement it around the `CoreFfi` your"),
        text("/// Rust crate exports, or with a fake for previews and tests."),
        text("public protocol CoreBridge: Sendable {"),
        Line::Indent,
        text("func update(_ event: [UInt8]) -> [UInt8]"),
        text("func resolve(_ id: UInt32, _ output: [UInt8]) -> [UInt8]"),
        text("func view() -> [UInt8]"),
        Line::Unindent,
        text("}"),
    ];
    assert(views(chunk@) =~= swift_bridge_part1());
    append_lines(out, chunk);
    assert(views(out@) =~= s0 + swift_bridge_lines());
}

/// A run of fixed lines of [`swift_ffi_bridge`].
pub open spec fn swift_ffi_bridge_part1(module_v: Seq<char>, class_v: Seq<char>) -> Seq<LineView> {
    seq![
        t("/// The generated `CoreBridge`, implemented over BoltFFI's `"@ + class_v + "`: bytes"@),
        t("/// in, bytes out, nothing else. It is the only generated type that knows"@),
        t("/// the Rust core exists — pass a fake to `Core(bridge:handler:)` instead"@),
        t("/// for previews and tests."@),
        t("///"@),
        t("/// `@unchecked Sendable` because `"@ + class_v + "` is a class Swift cannot prove"@),
        t("/// `Sendable`; its state is a handle into a mutex-guarded bridge on the"@),
        t("/// Rust side, so calling it from any task is safe."@),
        t("public struct FfiBridge: CoreBridge, @unchecked Sendable {"@),
        LineView::Indent,
        t("private let ffi = "@ + module_v + "."@ + class_v + "()"@),
        blank_view(),
        t("public init() {}"@),
        blank_view(),
        t("public func update(_ event: [UInt8]) -> [UInt8] {"@),
        LineView::Indent,
        t("[UInt8](ffi.update(data: Data(event)))"@),
        LineView::Unindent,
        t("}"@),
        blank_view(),
        t("public func resolve(_ id: UInt32, _ output: [UInt8]) -> [UInt8] {"@),
        LineView::Indent,
        t("[UInt8](ffi.resolve(id: id, data: Data(output)))"@),
        LineView::Unindent,
        t("}"@),
        blank_view(),
        t("public func view() -> [UInt8] {"@),
        LineView::Indent,
        t("[UInt8](ffi.view())"@),
        LineView::Unindent,
        t("}"@),
        LineView::Unindent,
        t("}"@),
    ]
}

/// Swift: `FfiBridge`, the `CoreBridge` over the class `class` of the FFI
/// module `module`, for its own file beside the generated module.
pub open spec fn swift_ffi_bridge_lines(module_v: Seq<char>, class_v: Seq<char>) -> Seq<LineView> {
    swift_ffi_bridge_part1(module_v, class_v)
}

/// Swift: `FfiBridge`, the `CoreBridge` over the class `class` of the FFI
/// module `module`, for its own file beside the generated module.
pub fn swift_ffi_bridge(out: &mut Vec<Line>, module: &str, class: &str)
    ensures
        views(final(out)@) == views(old(out)@) + swift_ffi_bridge_lines(module@, class@),
{
    let ghost s0 = views(out@);
    let ghost module_v = module@;
    let ghost class_v = class@;
    let chunk = vec![
        Line::Text(String::from_str("/// The generated `CoreBridge`, implemented over BoltFFI's `").concat(class).concat("`: bytes")),
        text("/// in, bytes out, nothing else. It is the only generated type that knows"),
        text("/// the Rust core exists — pass a fake to `Core(bridge:handler:)` instead"),
        text("/// for previews and tests."),
        text("///"),
        Line::Text(String::from_str("/// `@unchecked Sendable` because `").concat(class).concat("` is a class Swift cannot prove")),
        text("/// `Sendable`; its state is a handle into a mutex-guarded bridge on the"),
        text("/// Rust side, so calling it from any task is safe."),
        text("public struct FfiBridge: CoreBridge, @unchecked Sendable {"),
        Line::Indent,
        Line::Text(String::from_str("private let ffi = ").concat(module).concat(".").concat(class).concat("()")),
        blank(),
        text("public init() {}"),
        blank(),
        text("public func update(_ event: [UInt8]) -> [UInt8] {"),
        Line::Indent,
        text("[UInt8](ffi.update(data: Data(event)))"),
        Line::Unindent,
        text("}"),
        blank(),
        text("public func resolve(_ id: UInt32, _ output: [UInt8]) -> [UInt8] {"),
        Line::Indent,
        text("[UInt8](ffi.resolve(id: id, data: Data(output)))"),
        Line::Unindent,
        text("}"),
        blank(),
        text("public func view() -> [UInt8] {"),
        Line::Indent,
        text("[UInt8](ffi.view())"),
        Line::Unindent,
        text("}"),
        Line::Unindent,
        text("}"),
    ];
    assert(views(chunk@) =~= swift_ffi_bridge_part1(module_v, class_v));
    append_lines(out, chunk);
    assert(views(out@) =~= s0 + swift_ffi_bridge_lines(module@, class@));
}

/// Swift: the convenience initializer over `FfiBridge`, when the bindings
/// are named.
pub open spec fn swift_convenience_init(api_v: CoreApiView) -> Seq<LineView> {
    match api_v.ffi_class {
        Some(class_v) => seq![
            blank_view(),
            t("/// Build a `Core` over the `"@ + class_v + "` the Rust crate exports — the shell"@),
            t("/// writes the handler and never sees the bridge."@),
            t("public convenience init(handler: any EffectHandler) {"@),
            LineView::Indent,
            t("self.init(bridge: FfiBridge(), handler: handler)"@),
            LineView::Unindent,
            t("}"@),
        ],
        None => Seq::empty(),
    }
}

/// A run of fixed lines of [`swift_core`].
pub open spec fn swift_core_part1(api_v: CoreApiView) -> Seq<LineView> {
    seq![
        blank_view(),
        t("/// The shell's side of the core: it serializes events, dispatches the"@),
        t("/// requests that come back, and resolves them through the bridge."@),
        t("///"@),
        t("/// `"@ + api_v.render + "` is handled here, so an `EffectHandler` need not implement it."@),
        t("///"@),
        t("/// `view` is observable, so a SwiftUI view that reads it is invalidated"@),
        t("/// whenever the core renders."@),
        t("@available(macOS 14.0, iOS 17.0, tvOS 17.0, watchOS 10.0, *)"@),
        t("@Observable"@),
        t("@MainActor"@),
        t("public final class Core {"@),
        LineView::Indent,
        t("/// The view model as of the last `"@ + api_v.render + "`."@),
        t("public private(set) var view: "@ + api_v.view_model),
        t("@ObservationIgnored private let bridge: any CoreBridge"@),
        t("@ObservationIgnored private var dispatcher: EffectDispatcher!"@),
        blank_view(),
        t("public init(bridge: any CoreBridge, handler: any EffectHandler) {"@),
        LineView::Indent,
        t("self.bridge = bridge"@),
        t("self.view = try! "@ + api_v.view_model + ".bincodeDeserialize(input: bridge.view())"@),
        t("self.dispatcher = EffectDispatcher(handler: handler) { [weak self] id, bytes in"@),
        LineView::Indent,
        t("Task { @MainActor in"@),
        LineView::Indent,
        t("guard let self else { return }"@),
        t("self.process(bytes: self.bridge.resolve(id, bytes))"@),
        LineView::Unindent,
        t("}"@),
        LineView::Unindent,
        t("}"@),
        LineView::Unindent,
        t("}"@),
    ]
}

/// A run of fixed lines of [`swift_core`].
pub open spec fn swift_core_part2(api_v: CoreApiView) -> Seq<LineView> {
    seq![
        blank_view(),
        t("/// Send an event to the core and run the loop it starts."@),
        t("public func update(_ event: "@ + api_v.event + ") {"@),
        LineView::Indent,
        t("process(bytes: bridge.update(try! event.bincodeSerialize()))"@),
        LineView::Unindent,
        t("}"@),
        blank_view(),
        t("/// Serialized requests, as returned by the bridge or pushed by middleware."@),
        t("public func process(bytes: [UInt8]) {"@),
        LineView::Indent,
        t("if bytes.isEmpty { return }"@),
        t("process(try! Requests.bincodeDeserialize(input: bytes).value)"@),
        LineView::Unindent,
        t("}"@),
        blank_view(),
        t("public func process(_ requests: [Request]) {"@),
        LineView::Indent,
        t("for request in requests {"@),
        LineView::Indent,
        t("if case ."@ + swift_case_name(api_v.render) + " = request.effect {"@),
        LineView::Indent,
        t("view = try! "@ + api_v.view_model + ".bincodeDeserialize(input: bridge.view())"@),
        t("continue"@),
        LineView::Unindent,
        t("}"@),
        t("dispatcher.dispatch(request)"@),
        LineView::Unindent,
        t("}"@),
        LineView::Unindent,
        t("}"@),
    ]
}

/// A run of fixed lines of [`swift_core`].
pub open spec fn swift_core_part3(api_v: CoreApiView) -> Seq<LineView> {
    seq![
        LineView::Unindent,
        t("}"@),
    ]
}

/// Swift: the `Core` class, for the API `api`: observable, on the main
/// actor, re-reading the view for the render variant and dispatching every
/// other request.
pub open spec fn swift_core_lines(api_v: CoreApiView) -> Seq<LineView> {
    swift_core_part1(api_v) + swift_convenience_init(api_v) + swift_core_part2(api_v) + swift_core_part3(api_v)
}

/// Swift: the `Core` class, for the API `api`: observable, on the main
/// actor, re-reading the view for the render variant and dispatching every
/// other request.
pub fn swift_core(out: &mut Vec<Line>, api: &CoreApi)
    ensures
        views(final(out)@) == views(old(out)@) + swift_core_lines(api@),
{
    let ghost s0 = views(out@);
    let ghost api_v = api@;
    let render_case = case_name(api.render.as_str());
    let chunk = vec![
        blank(),
        text("/// The shell's side of the core: it serializes events, dispatches the"),
        text("/// requests that come back, and resolves them through the bridge."),
        text("///"),
        Line::Text(String::from_str("/// `").concat(api.render.as_str()).concat("` is handled here, so an `EffectHandler` need not implement it.")),
        text("///"),
        text("/// `view` is observable, so a SwiftUI view that reads it is invalidated"),
        text("/// whenever the core renders."),
        text("@available(macOS 14.0, iOS 17.0, tvOS 17.0, watchOS 10.0, *)"),
        text("@Observable"),
        text("@MainActor"),
        text("public final class Core {"),
        Line::Indent,
        Line::Text(String::from_str("/// The view model as of the last `").concat(api.render.as_str()).concat("`.")),
        Line::Text(String::from_str("public private(set) var view: ").concat(api.view_model.as_str())),
        text("@ObservationIgnored private let bridge: any CoreBridge"),
        text("@ObservationIgnored private var dispatcher: EffectDispatcher!"),
        blank(),
        text("public init(bridge: any CoreBridge, handler: any EffectHandler) {"),
        Line::Indent,
        text("self.bridge = bridge"),
        Line::Text(String::from_str("self.view = try! ").concat(api.view_model.as_str()).concat(".bincodeDeserialize(input: bridge.view())")),
        text("self.dispatcher = EffectDispatcher(handler: handler) { [weak self] id, bytes in"),
        Line::Indent,
        text("Task { @MainActor in"),
        Line::Indent,
        text("guard let self else { return }"),
        text("self.process(bytes: self.bridge.resolve(id, bytes))"),
        Line::Unindent,
        text("}"),
        Line::Unindent,
        text("}"),
        Line::Unindent,
        text("}"),
    ];
    assert(views(chunk@) =~= swift_core_part1(api_v));
    append_lines(out, chunk);
    let ghost before = views(out@);
    match &api.ffi_class {
        Some(class) => {
            let chunk = vec![
                blank(),
                Line::Text(String::from_str("/// Build a `Core` over the `").concat(class.as_str()).concat("` the Rust crate exports — the shell")),
                text("/// writes the handler and never sees the bridge."),
                text("public convenience init(handler: any EffectHandler) {"),
                Line::Indent,
                text("self.init(bridge: FfiBridge(), handler: handler)"),
                Line::Unindent,
                text("}"),
            ];
            assert(views(chunk@) =~= swift_convenience_init(api_v));
            append_lines(out, chunk);
        },
        None => {},
    }
    assert(views(out@) == before + (swift_convenience_init(api_v)));
    let chunk = vec![
        blank(),
        text("/// Send an event to the core and run the loop it starts."),
        Line::Text(String::from_str("public func update(_ event: ").concat(api.event.as_str()).concat(") {")),
        Line::Indent,
        text("process(bytes: bridge.update(try! event.bincodeSerialize()))"),
        Line::Unindent,
        text("}"),
        blank(),
        text("/// Serialized requests, as returned by the bridge or pushed by middleware."),
        text("public func process(bytes: [UInt8]) {"),
        Line::Indent,
        text("if bytes.isEmpty { return }"),
        text("process(try! Requests.bincodeDeserialize(input: bytes).value)"),
        Line::Unindent,
        text("}"),
        blank(),
        text("public func process(_ requests: [Request]) {"),
        Line::Indent,
        text("for request in requests {"),
        Line::Indent,
        Line::Text(String::from_str("if case .").concat(render_case.as_str()).concat(" = request.effect {")),
        Line::Indent,
        Line::Text(String::from_str("view = try! ").concat(api.view_model.as_str()).concat(".bincodeDeserialize(input: bridge.view())")),
        text("continue"),
        Line::Unindent,
        text("}"),
        text("dispatcher.dispatch(request)"),
        Line::Unindent,
        text("}"),
        Line::Unindent,
        text("}"),
    ];
    assert(views(chunk@) =~= swift_core_part2(api_v));
    append_lines(out, chunk);
    let chunk = vec![
        Line::Unindent,
        text("}"),
    ];
    assert(views(chunk@) =~= swift_core_part3(api_v));
    append_lines(out, chunk);
    assert(views(out@) =~= s0 + swift_core_lines(api@));
}

// Kotlin --------------------------------------------------------------------

/// A run of fixed lines of [`kotlin_bridge`].
pub open spec fn kotlin_bridge_part1() -> Seq<LineView> {
    seq![
        blank_view(),
        t("/// The core's FFI surface, as bytes. Implement it around the `CoreFfi` your"@),
        t("/// Rust crate exports, or with a fake for tests."@),
        t("interface CoreBridge {"@),
        LineView::Indent,
        t("fun update(event: ByteArray): ByteArray"@),
        t("fun resolve(id: UInt, output: ByteArray): ByteArray"@),
        t("fun view(): ByteArray"@),
        LineView::Unindent,
        t("}"@),
    ]
}

/// Kotlin: the `CoreBridge` interface.
pub open spec fn kotlin_bridge_lines() -> Seq<LineView> {
    kotlin_bridge_part1()
}

/// Kotlin: the `CoreBridge` interface.
pub fn kotlin_bridge(out: &mut Vec<Line>)
    ensures
        views(final(out)@) == views(old(out)@) + kotlin_bridge_lines(),
{
    let ghost s0 = views(out@);
    let chunk = vec![
        blank(),
        text("/// The core's FFI surface, as bytes. Implement it around the `CoreFfi` your"),
        text("/// Rust crate exports, or with a fake for tests."),
        text("interface CoreBridge {"),
        Line::Indent,
        text("fun update(event: ByteArray): ByteArray"),
        text("fun resolve(id: UInt, output: ByteArray): ByteArray"),
        text("fun view(): ByteArray"),
        Line::Unindent,
        text("}"),
    ];
    assert(views(chunk@) =~= kotlin_bridge_part1());
    append_lines(out, chunk);
    assert(views(out@) =~= s0 + kotlin_bridge_lines());
}

/// A run of fixed lines of [`kotlin_ffi_bridge`].
pub open spec fn kotlin_ffi_bridge_part1(class_v: Seq<char>) -> Seq<LineView> {
    seq![
        t("/// The generated `CoreBridge`, implemented over BoltFFI's `"@ + class_v + "`: bytes"@),
        t("/// in, bytes out, nothing else. It is the only generated type that knows"@),
        t("/// the Rust core exists — pass a fake to `Core(bridge, handler, scope)`"@),
        t("/// instead for tests."@),
        t("///"@),
        t("/// `"@ + class_v + "` holds a handle to the Rust side, so closing an `FfiBridge`"@),
        t("/// releases the core it wraps."@),
        t("class FfiBridge(private val ffi: "@ + class_v + " = "@ + class_v + "()) : CoreBridge, AutoCloseable {"@),
        LineView::Indent,
        t("override fun update(event: ByteArray): ByteArray = ffi.update(event)"@),
        blank_view(),
        t("override fun resolve(id: UInt, output: ByteArray): ByteArray = ffi.resolve(id, output)"@),
        blank_view(),
        t("override fun view(): ByteArray = ffi.view()"@),
        blank_view(),
        t("override fun close() = ffi.close()"@),
        LineView::Unindent,
        t("}"@),
    ]
}

/// Kotlin: `FfiBridge`, the `CoreBridge` over the class `class`, for its
/// own file in the generated package.
pub open spec fn kotlin_ffi_bridge_lines(class_v: Seq<char>) -> Seq<LineView> {
    kotlin_ffi_bridge_part1(class_v)
}

/// Kotlin: `FfiBridge`, the `CoreBridge` over the class `class`, for its
/// own file in the generated package.
pub fn kotlin_ffi_bridge(out: &mut Vec<Line>, class: &str)
    ensures
        views(final(out)@) == views(old(out)@) + kotlin_ffi_bridge_lines(class@),
{
    let ghost s0 = views(out@);
    let ghost class_v = class@;
    let chunk = vec![
        Line::Text(String::from_str("/// The generated `CoreBridge`, implemented over BoltFFI's `").concat(class).concat("`: bytes")),
        text("/// in, bytes out, nothing else. It is the only generated type that knows"),
        text("/// the Rust core exists — pass a fake to `Core(bridge, handler, scope)`"),
        text("/// instead for tests."),
        text("///"),
        Line::Text(String::from_str("/// `").concat(class).concat("` holds a handle to the Rust side, so closing an `FfiBridge`")),
        text("/// releases the core it wraps."),
        Line::Text(String::from_str("class FfiBridge(private val ffi: ").concat(class).concat(" = ").concat(class).concat("()) : CoreBridge, AutoCloseable {")),
        Line::Indent,
        text("override fun update(event: ByteArray): ByteArray = ffi.update(event)"),
        blank(),
        text("override fun resolve(id: UInt, output: ByteArray): ByteArray = ffi.resolve(id, output)"),
        blank(),
        text("override fun view(): ByteArray = ffi.view()"),
        blank(),
        text("override fun close() = ffi.close()"),
        Line::Unindent,
        text("}"),
    ];
    assert(views(chunk@) =~= kotlin_ffi_bridge_part1(class_v));
    append_lines(out, chunk);
    assert(views(out@) =~= s0 + kotlin_ffi_bridge_lines(class@));
}

/// Kotlin: the secondary constructor over `FfiBridge`, when the bindings
/// are named.
pub open spec fn kotlin_ffi_constructor(api_v: CoreApiView) -> Seq<LineView> {
    match api_v.ffi_class {
        Some(class_v) => seq![
            blank_view(),
            t("/// Build a `Core` over the `"@ + class_v + "` the Rust crate exports — the shell"@),
            t("/// writes the handler and never sees the bridge."@),
            t("constructor(handler: EffectHandler, scope: CoroutineScope) : this(FfiBridge(), handler, scope)"@),
        ],
        None => Seq::empty(),
    }
}

/// A run of fixed lines of [`kotlin_core`].
pub open spec fn kotlin_core_part1(api_v: CoreApiView) -> Seq<LineView> {
    seq![
        blank_view(),
        t("/// The shell's side of the core: it serializes events, dispatches the"@),
        t("/// requests that come back, and resolves them through the bridge."@),
        t("///"@),
        t("/// `"@ + api_v.render + "` is handled here, so an `EffectHandler` need not implement it."@),
        t("/// Each request is dispatched in its own coroutine on `scope`."@),
        t("class Core("@),
        LineView::Indent,
        t("private val bridge: CoreBridge,"@),
        t("handler: EffectHandler,"@),
        t("private val scope: CoroutineScope,"@),
        LineView::Unindent,
        t(") {"@),
        LineView::Indent,
        t("private val _view = MutableStateFlow("@ + api_v.view_model + ".bincodeDeserialize(bridge.view()))"@),
        t("/// The view model as of the last `"@ + api_v.render + "`."@),
        t("val view: StateFlow<"@ + api_v.view_model + "> = _view.asStateFlow()"@),
        t("private val dispatcher = EffectDispatcher(handler) { id, bytes ->"@),
        LineView::Indent,
        t("scope.launch { process(bridge.resolve(id, bytes)) }"@),
        LineView::Unindent,
        t("}"@),
    ]
}

/// A run of fixed lines of [`kotlin_core`].
pub open spec fn kotlin_core_part2(api_v: CoreApiView) -> Seq<LineView> {
    seq![
        blank_view(),
        t("/// Send an event to the core and run the loop it starts."@),
        t("fun update(event: "@ + api_v.event + ") {"@),
        LineView::Indent,
        t("process(bridge.update(event.bincodeSerialize()))"@),
        LineView::Unindent,
        t("}"@),
        blank_view(),
        t("/// Serialized requests, as returned by the bridge or pushed by middleware."@),
        t("fun process(bytes: ByteArray) {"@),
        LineView::Indent,
        t("if (bytes.isEmpty()) return"@),
        t("process(Requests.bincodeDeserialize(bytes).value)"@),
        LineView::Unindent,
        t("}"@),
        blank_view(),
        t("fun process(requests: List<Request>) {"@),
        LineView::Indent,
        t("for (request in requests) {"@),
        LineView::Indent,
        t("if (request.effect is "@ + api_v.effect + "."@ + kotlin_class_name(api_v.render) + ") {"@),
        LineView::Indent,
        t("_view.value = "@ + api_v.view_model + ".bincodeDeserialize(bridge.view())"@),
        t("continue"@),
        LineView::Unindent,
        t("}"@),
        t("scope.launch { dispatcher.dispatch(request) }"@),
        LineView::Unindent,
        t("}"@),
        LineView::Unindent,
        t("}"@),
        LineView::Unindent,
        t("}"@),
    ]
}

/// Kotlin: the `Core` class, for the API `api`: its view a `StateFlow`,
/// each request dispatched in its own coroutine on `scope`.
pub open spec fn kotlin_core_lines(api_v: CoreApiView) -> Seq<LineView> {
    kotlin_core_part1(api_v) + kotlin_ffi_constructor(api_v) + kotlin_core_part2(api_v)
}

/// Kotlin: the `Core` class, for the API `api`: its view a `StateFlow`,
/// each request dispatched in its own coroutine on `scope`.
pub fn kotlin_core(out: &mut Vec<Line>, api: &CoreApi)
    ensures
        views(final(out)@) == views(old(out)@) + kotlin_core_lines(api@),
{
    let ghost s0 = views(out@);
    let ghost api_v = api@;
    let render_class = variant_class_name(api.render.as_str());
    let chunk = vec![
        blank(),
        text("/// The shell's side of the core: it serializes events, dispatches the"),
        text("/// requests that come back, and resolves them through the bridge."),
        text("///"),
        Line::Text(String::from_str("/// `").concat(api.render.as_str()).concat("` is handled here, so an `EffectHandler` need not implement it.")),
        text("/// Each request is dispatched in its own coroutine on `scope`."),
        text("class Core("),
        Line::Indent,
        text("private val bridge: CoreBridge,"),
        text("handler: EffectHandler,"),
        text("private val scope: CoroutineScope,"),
        Line::Unindent,
        text(") {"),
        Line::Indent,
        Line::Text(String::from_str("private val _view = MutableStateFlow(").concat(api.view_model.as_str()).concat(".bincodeDeserialize(bridge.view()))")),
        Line::Text(String::from_str("/// The view model as of the last `").concat(api.render.as_str()).concat("`.")),
        Line::Text(String::from_str("val view: StateFlow<").concat(api.view_model.as_str()).concat("> = _view.asStateFlow()")),
        text("private val dispatcher = EffectDispatcher(handler) { id, bytes ->"),
        Line::Indent,
        text("scope.launch { process(bridge.resolve(id, bytes)) }"),
        Line::Unindent,
        text("}"),
    ];
    assert(views(chunk@) =~= kotlin_core_part1(api_v));
    append_lines(out, chunk);
    let ghost before = views(out@);
    match &api.ffi_class {
        Some(class) => {
            let chunk = vec![
                blank(),
                Line::Text(String::from_str("/// Build a `Core` over the `").concat(class.as_str()).concat("` the Rust crate exports — the shell")),
                text("/// writes the handler and never sees the bridge."),
                text("constructor(handler: EffectHandler, scope: CoroutineScope) : this(FfiBridge(), handler, scope)"),
            ];
            assert(views(chunk@) =~= kotlin_ffi_constructor(api_v));
            append_lines(out, chunk);
        },
        None => {},
    }
    assert(views(out@) == before + (kotlin_ffi_constructor(api_v)));
    let chunk = vec![
        blank(),
        text("/// Send an event to the core and run the loop it starts."),
        Line::Text(String::from_str("fun update(event: ").concat(api.event.as_str()).concat(") {")),
        Line::Indent,
        text("process(bridge.update(event.bincodeSerialize()))"),
        Line::Unindent,
        text("}"),
        blank(),
        text("/// Serialized requests, as returned by the bridge or pushed by middleware."),
        text("fun process(bytes: ByteArray) {"),
        Line::Indent,
        text("if (bytes.isEmpty()) return"),
        text("process(Requests.bincodeDeserialize(bytes).value)"),
        Line::Unindent,
        text("}"),
        blank(),
        text("fun process(requests: List<Request>) {"),
        Line::Indent,
        text("for (request in requests) {"),
        Line::Indent,
        Line::Text(String::from_str("if (request.effect is ").concat(api.effect.as_str()).concat(".").concat(render_class.as_str()).concat(") {")),
        Line::Indent,
        Line::Text(String::from_str("_view.value = ").concat(api.view_model.as_str()).concat(".bincodeDeserialize(bridge.view())")),
        text("continue"),
        Line::Unindent,
        text("}"),
        text("scope.launch { dispatcher.dispatch(request) }"),
        Line::Unindent,
        text("}"),
        Line::Unindent,
        text("}"),
        Line::Unindent,
        text("}"),
    ];
    assert(views(chunk@) =~= kotlin_core_part2(api_v));
    append_lines(out, chunk);
    assert(views(out@) =~= s0 + kotlin_core_lines(api@));
}

// TypeScript ----------------------------------------------------------------

/// `name`, spelled the way the bincode emitter refers to it: its namespace,
/// if it has one, upper camel cased and joined to the name with a dot.
pub open spec fn bincode_name(name: QualifiedNameView) -> Seq<char> {
    match name.0 {
        Some(ns) => heck_upper_camel(ns) + "."@ + name.1,
        None => name.1,
    }
}

/// How the bincode emitter spells reading a value of the type `name` from
/// `deserializer`: an enum has a free function, reached through its
/// namespace like the type itself, and any other type a static method.
pub open spec fn view_read_spec(name: QualifiedNameView, is_enum: bool) -> Seq<char> {
    if is_enum {
        bincode_name((name.0, "deserialize"@ + name.1)) + "(deserializer)"@
    } else {
        bincode_name(name) + ".deserialize(deserializer)"@
    }
}

/// How the bincode emitter spells reading a value of the type `name` from
/// `deserializer`; `is_enum` says whether the type is an enum.
pub fn view_read(name: &QualifiedTypeName, is_enum: bool) -> (s: String)
    ensures
        s@ == view_read_spec(name@, is_enum),
{
    let simple = if is_enum {
        String::from_str("deserialize").concat(name.name.as_str())
    } else {
        name.name.clone()
    };
    let qualified = match &name.namespace {
        Namespace::Named(ns) => upper_camel(ns.as_str()).concat(".").concat(simple.as_str()),
        Namespace::Root => simple,
    };
    if is_enum {
        qualified.concat("(deserializer)")
    } else {
        qualified.concat(".deserialize(deserializer)")
    }
}

/// A run of fixed lines of [`typescript_bridge`].
pub open spec fn typescript_bridge_part1() -> Seq<LineView> {
    seq![
        blank_view(),
        t("/// The core's FFI surface, as bytes. Implement it around the bindings your"@),
        t("/// Rust crate exports, or with a fake for tests."@),
        t("export interface CoreBridge {"@),
        LineView::Indent,
        t("update(event: Uint8Array): Uint8Array;"@),
        t("resolve(id: uint32, output: Uint8Array): Uint8Array;"@),
        t("view(): Uint8Array;"@),
        LineView::Unindent,
        t("}"@),
    ]
}

/// TypeScript: the `CoreBridge` interface.
pub open spec fn typescript_bridge_lines() -> Seq<LineView> {
    typescript_bridge_part1()
}

/// TypeScript: the `CoreBridge` interface.
pub fn typescript_bridge(out: &mut Vec<Line>)
    ensures
        views(final(out)@) == views(old(out)@) + typescript_bridge_lines(),
{
    let ghost s0 = views(out@);
    let chunk = vec![
        blank(),
        text("/// The core's FFI surface, as bytes. Implement it around the bindings your"),
        text("/// Rust crate exports, or with a fake for tests."),
        text("export interface CoreBridge {"),
        Line::Indent,
        text("update(event: Uint8Array): Uint8Array;"),
        text("resolve(id: uint32, output: Uint8Array): Uint8Array;"),
        text("view(): Uint8Array;"),
        Line::Unindent,
        text("}"),
    ];
    assert(views(chunk@) =~= typescript_bridge_part1());
    append_lines(out, chunk);
    assert(views(out@) =~= s0 + typescript_bridge_lines());
}

/// TypeScript: `FfiBridge`, the `CoreBridge` over the wasm bindings\' class,
/// when the bindings are named; it goes in beside `Core`, since TypeScript
/// generates one file per module.
pub open spec fn typescript_ffi_bridge(api_v: CoreApiView) -> Seq<LineView> {
    match api_v.ffi_class {
        Some(class_v) => seq![
            blank_view(),
            t("/// The generated `CoreBridge`, implemented over BoltFFI's `"@ + class_v + "`: bytes"@),
            t("/// in, bytes out, nothing else. `"@ + class_v + ".new()` reaches into the wasm"@),
            t("/// module, so build one only once the package has loaded — `Core.create`"@),
            t("/// waits for that."@),
            t("export class FfiBridge implements CoreBridge {"@),
            LineView::Indent,
            t("private readonly ffi = boltffi."@ + class_v + ".new();"@),
            blank_view(),
            t("update(event: Uint8Array): Uint8Array {"@),
            LineView::Indent,
            t("return this.ffi.update(event);"@),
            LineView::Unindent,
            t("}"@),
            blank_view(),
            t("resolve(id: uint32, output: Uint8Array): Uint8Array {"@),
            LineView::Indent,
            t("return this.ffi.resolve(id, output);"@),
            LineView::Unindent,
            t("}"@),
            blank_view(),
            t("view(): Uint8Array {"@),
            LineView::Indent,
            t("return this.ffi.view();"@),
            LineView::Unindent,
            t("}"@),
            LineView::Unindent,
            t("}"@),
        ],
        None => Seq::empty(),
    }
}

/// TypeScript: `Core.create`, which builds a `Core` over `FfiBridge` once
/// the wasm module has loaded, when the bindings are named.
pub open spec fn typescript_create(api_v: CoreApiView) -> Seq<LineView> {
    match api_v.ffi_class {
        Some(class_v) => seq![
            blank_view(),
            t("/// Build a `Core` over the `"@ + class_v + "` the Rust crate exports, once the"@),
            t("/// wasm module has loaded."@),
            t("public static async create("@),
            LineView::Indent,
            t("handler: EffectHandler,"@),
            t("onView: (view: "@ + api_v.view_model + ") => void,"@),
            LineView::Unindent,
            t("): Promise<Core> {"@),
            LineView::Indent,
            t("await (boltffi as unknown as { initialized: Promise<void> }).initialized;"@),
            t("return new Core(new FfiBridge(), handler, onView);"@),
            LineView::Unindent,
            t("}"@),
        ],
        None => Seq::empty(),
    }
}

/// A run of fixed lines of [`typescript_core`].
pub open spec fn typescript_core_part1(api_v: CoreApiView, event_serialize_v: Seq<Seq<char>>, view_model_v: QualifiedNameView, view_model_enum: bool) -> Seq<LineView> {
    seq![
        blank_view(),
        t("/// The shell's side of the core: it serializes events, dispatches the"@),
        t("/// requests that come back, and resolves them through the bridge."@),
        t("///"@),
        t("/// `"@ + api_v.render + "` is handled here, so an `EffectHandler` need not implement it."@),
        t("export class Core {"@),
        LineView::Indent,
        t("/// The view model as of the last `"@ + api_v.render + "`."@),
        t("public view: "@ + api_v.view_model + ";"@),
        t("private readonly dispatcher: EffectDispatcher;"@),
        blank_view(),
        t("constructor("@),
        LineView::Indent,
        t("private readonly bridge: CoreBridge,"@),
        t("handler: EffectHandler,"@),
        t("private readonly onView: (view: "@ + api_v.view_model + ") => void,"@),
        LineView::Unindent,
        t(") {"@),
        LineView::Indent,
        t("this.view = this.readView();"@),
        t("this.dispatcher = new EffectDispatcher(handler, (id, bytes) => {"@),
        LineView::Indent,
        t("this.processBytes(this.bridge.resolve(id, bytes));"@),
        LineView::Unindent,
        t("});"@),
        LineView::Unindent,
        t("}"@),
    ]
}

/// A run of fixed lines of [`typescript_core`].
pub open spec fn typescript_core_part2(api_v: CoreApiView, event_serialize_v: Seq<Seq<char>>, view_model_v: QualifiedNameView, view_model_enum: bool) -> Seq<LineView> {
    seq![
        blank_view(),
        t("/// Send an event to the core and run the loop it starts."@),
        t("public update(event: "@ + api_v.event + "): void {"@),
        LineView::Indent,
        t("const serializer = new BincodeSerializer();"@),
    ]
}

/// A run of fixed lines of [`typescript_core`].
pub open spec fn typescript_core_part3(api_v: CoreApiView, event_serialize_v: Seq<Seq<char>>, view_model_v: QualifiedNameView, view_model_enum: bool) -> Seq<LineView> {
    seq![
        t("this.processBytes(this.bridge.update(serializer.getBytes()));"@),
        LineView::Unindent,
        t("}"@),
        blank_view(),
        t("/// Serialized requests, as returned by the bridge or pushed by middleware."@),
        t("public processBytes(bytes: Uint8Array): void {"@),
        LineView::Indent,
        t("if (bytes.length === 0) { return; }"@),
        t("const deserializer = new BincodeDeserializer(bytes);"@),
        t("this.process(Requests.deserialize(deserializer).value);"@),
        LineView::Unindent,
        t("}"@),
        blank_view(),
        t("public process(requests: Request[]): void {"@),
        LineView::Indent,
        t("for (const request of requests) {"@),
        LineView::Indent,
        t("if (request.effect.kind === \""@ + api_v.render + "\") {"@),
        LineView::Indent,
        t("this.view = this.readView();"@),
        t("this.onView(this.view);"@),
        t("continue;"@),
        LineView::Unindent,
        t("}"@),
        t("this.dispatcher.dispatch(request);"@),
        LineView::Unindent,
        t("}"@),
        LineView::Unindent,
        t("}"@),
        blank_view(),
        t("private readView(): "@ + api_v.view_model + " {"@),
        LineView::Indent,
        t("const deserializer = new BincodeDeserializer(this.bridge.view());"@),
        t("return "@ + view_read_spec(view_model_v, view_model_enum) + ";"@),
        LineView::Unindent,
        t("}"@),
    ]
}

/// A run of fixed lines of [`typescript_core`].
pub open spec fn typescript_core_part4(api_v: CoreApiView, event_serialize_v: Seq<Seq<char>>, view_model_v: QualifiedNameView, view_model_enum: bool) -> Seq<LineView> {
    seq![
        LineView::Unindent,
        t("}"@),
    ]
}

/// TypeScript: the `Core` class, for the API `api`; `event_serialize`
/// writes `event` into `serializer`, `view_model` names the view model
/// type and `view_model_enum` says whether it is an enum.
pub open spec fn typescript_core_lines(api_v: CoreApiView, event_serialize_v: Seq<Seq<char>>, view_model_v: QualifiedNameView, view_model_enum: bool) -> Seq<LineView> {
    typescript_core_part1(api_v, event_serialize_v, view_model_v, view_model_enum) + typescript_create(api_v) + typescript_core_part2(api_v, event_serialize_v, view_model_v, view_model_enum) + text_views(event_serialize_v) + typescript_core_part3(api_v, event_serialize_v, view_model_v, view_model_enum) + typescript_core_part4(api_v, event_serialize_v, view_model_v, view_model_enum)
}

/// TypeScript: the `Core` class, for the API `api`; `event_serialize`
/// writes `event` into `serializer`, `view_model` names the view model
/// type and `view_model_enum` says whether it is an enum.
pub fn typescript_core(out: &mut Vec<Line>, api: &CoreApi, event_serialize: &Vec<String>, view_model: &QualifiedTypeName, view_model_enum: bool)
    ensures
        views(final(out)@) == views(old(out)@) + typescript_core_lines(api@, texts(event_serialize@), view_model@, view_model_enum),
{
    let ghost s0 = views(out@);
    let ghost api_v = api@;
    let ghost event_serialize_v = texts(event_serialize@);
    let ghost view_model_v = view_model@;
    let read = view_read(view_model, view_model_enum);
    let chunk = vec![
        blank(),
        text("/// The shell's side of the core: it serializes events, dispatches the"),
        text("/// requests that come back, and resolves them through the bridge."),
        text("///"),
        Line::Text(String::from_str("/// `").concat(api.render.as_str()).concat("` is handled here, so an `EffectHandler` need not implement it.")),
        text("export class Core {"),
        Line::Indent,
        Line::Text(String::from_str("/// The view model as of the last `").concat(api.render.as_str()).concat("`.")),
        Line::Text(String::from_str("public view: ").concat(api.view_model.as_str()).concat(";")),
        text("private readonly dispatcher: EffectDispatcher;"),
        blank(),
        text("constructor("),
        Line::Indent,
        text("private readonly bridge: CoreBridge,"),
        text("handler: EffectHandler,"),
        Line::Text(String::from_str("private readonly onView: (view: ").concat(api.view_model.as_str()).concat(") => void,")),
        Line::Unindent,
        text(") {"),
        Line::Indent,
        text("this.view = this.readView();"),
        text("this.dispatcher = new EffectDispatcher(handler, (id, bytes) => {"),
        Line::Indent,
        text("this.processBytes(this.bridge.resolve(id, bytes));"),
        Line::Unindent,
        text("});"),
        Line::Unindent,
        text("}"),
    ];
    assert(views(chunk@) =~= typescript_core_part1(api_v, event_serialize_v, view_model_v, view_model_enum));
    append_lines(out, chunk);
    let ghost before = views(out@);
    match &api.ffi_class {
        Some(class) => {
            let chunk = vec![
                blank(),
                Line::Text(String::from_str("/// Build a `Core` over the `").concat(class.as_str()).concat("` the Rust crate exports, once the")),
                text("/// wasm module has loaded."),
                text("public static async create("),
                Line::Indent,
                text("handler: EffectHandler,"),
                Line::Text(String::from_str("onView: (view: ").concat(api.view_model.as_str()).concat(") => void,")),
                Line::Unindent,
                text("): Promise<Core> {"),
                Line::Indent,
                text("await (boltffi as unknown as { initialized: Promise<void> }).initialized;"),
                text("return new Core(new FfiBridge(), handler, onView);"),
                Line::Unindent,
                text("}"),
            ];
            assert(views(chunk@) =~= typescript_create(api_v));
            append_lines(out, chunk);
        },
        None => {},
    }
    assert(views(out@) == before + (typescript_create(api_v)));
    let chunk = vec![
        blank(),
        text("/// Send an event to the core and run the loop it starts."),
        Line::Text(String::from_str("public update(event: ").concat(api.event.as_str()).concat("): void {")),
        Line::Indent,
        text("const serializer = new BincodeSerializer();"),
    ];
    assert(views(chunk@) =~= typescript_core_part2(api_v, event_serialize_v, view_model_v, view_model_enum));
    append_lines(out, chunk);
    let ghost before = views(out@);
    append_lines(out, text_lines(event_serialize));
    assert(views(out@) == before + (text_views(event_serialize_v)));
    let chunk = vec![
        text("this.processBytes(this.bridge.update(serializer.getBytes()));"),
        Line::Unindent,
        text("}"),
        blank(),
        text("/// Serialized requests, as returned by the bridge or pushed by middleware."),
        text("public processBytes(bytes: Uint8Array): void {"),
        Line::Indent,
        text("if (bytes.length === 0) { return; }"),
        text("const deserializer = new BincodeDeserializer(bytes);"),
        text("this.process(Requests.deserialize(deserializer).value);"),
        Line::Unindent,
        text("}"),
        blank(),
        text("public process(requests: Request[]): void {"),
        Line::Indent,
        text("for (const request of requests) {"),
        Line::Indent,
        Line::Text(String::from_str("if (request.effect.kind === \"").concat(api.render.as_str()).concat("\") {")),
        Line::Indent,
        text("this.view = this.readView();"),
        text("this.onView(this.view);"),
        text("continue;"),
        Line::Unindent,
        text("}"),
        text("this.dispatcher.dispatch(request);"),
        Line::Unindent,
        text("}"),
        Line::Unindent,
        text("}"),
        blank(),
        Line::Text(String::from_str("private readView(): ").concat(api.view_model.as_str()).concat(" {")),
        Line::Indent,
        text("const deserializer = new BincodeDeserializer(this.bridge.view());"),
        Line::Text(String::from_str("return ").concat(read.as_str()).concat(";")),
        Line::Unindent,
        text("}"),
    ];
    assert(views(chunk@) =~= typescript_core_part3(api_v, event_serialize_v, view_model_v, view_model_enum));
    append_lines(out, chunk);
    let chunk = vec![
        Line::Unindent,
        text("}"),
    ];
    assert(views(chunk@) =~= typescript_core_part4(api_v, event_serialize_v, view_model_v, view_model_enum));
    append_lines(out, chunk);
    assert(views(out@) =~= s0 + typescript_core_lines(api@, texts(event_serialize@), view_model@, view_model_enum));
}

// C# ------------------------------------------------------------------------

/// A run of fixed lines of [`csharp_bridge`].
pub open spec fn csharp_bridge_part1() -> Seq<LineView> {
    seq![
        blank_view(),
        t("/// <summary>"@),
        t("/// The core's FFI surface, as bytes. Implement it around the bindings your"@),
        t("/// Rust crate exports, or with a fake for tests."@),
        t("/// </summary>"@),
        t("public interface ICoreBridge"@),
        t("{"@),
        LineView::Indent,
        t("byte[] Update(byte[] "@ + csharp_identifier("event"@) + ");"@),
        t("byte[] Resolve(uint id, byte[] output);"@),
        t("byte[] View();"@),
        LineView::Unindent,
        t("}"@),
    ]
}

/// C#: the `ICoreBridge` interface.
pub open spec fn csharp_bridge_lines() -> Seq<LineView> {
    csharp_bridge_part1()
}

/// C#: the `ICoreBridge` interface.
pub fn csharp_bridge(out: &mut Vec<Line>)
    ensures
        views(final(out)@) == views(old(out)@) + csharp_bridge_lines(),
{
    let ghost s0 = views(out@);
    let event = csharp_escape("event");
    let chunk = vec![
        blank(),
        text("/// <summary>"),
        text("/// The core's FFI surface, as bytes. Implement it around the bindings your"),
        text("/// Rust crate exports, or with a fake for tests."),
        text("/// </summary>"),
        text("public interface ICoreBridge"),
        text("{"),
        Line::Indent,
        Line::Text(String::from_str("byte[] Update(byte[] ").concat(event.as_str()).concat(");")),
        text("byte[] Resolve(uint id, byte[] output);"),
        text("byte[] View();"),
        Line::Unindent,
        text("}"),
    ];
    assert(views(chunk@) =~= csharp_bridge_part1());
    append_lines(out, chunk);
    assert(views(out@) =~= s0 + csharp_bridge_lines());
}

/// A run of fixed lines of [`csharp_ffi_bridge`].
pub open spec fn csharp_ffi_bridge_part1(class_v: Seq<char>) -> Seq<LineView> {
    seq![
        t("/// <summary>"@),
        t("/// The generated <c>ICoreBridge</c>, implemented over BoltFFI's"@),
        t("/// <c>"@ + class_v + "</c>: bytes in, bytes out, nothing else. It is the only"@),
        t("/// generated type that knows the Rust core exists — pass a fake to"@),
        t("/// <c>Core(ICoreBridge, IEffectHandler)</c> instead for tests."@),
        t("///"@),
        t("/// Disposing an <c>FfiBridge</c> releases the core it wraps."@),
        t("/// </summary>"@),
        t("public sealed class FfiBridge : ICoreBridge, IDisposable"@),
        t("{"@),
        LineView::Indent,
        t("private readonly "@ + class_v + " _ffi = new();"@),
        blank_view(),
        t("public byte[] Update(byte[] "@ + csharp_identifier("event"@) + ") => _ffi.Update("@ + csharp_identifier("event"@) + ");"@),
        blank_view(),
        t("public byte[] Resolve(uint id, byte[] output) => _ffi.Resolve(id, output);"@),
        blank_view(),
        t("public byte[] View() => _ffi.View();"@),
        blank_view(),
        t("public void Dispose() => _ffi.Dispose();"@),
        LineView::Unindent,
        t("}"@),
    ]
}

/// C#: `FfiBridge`, the `ICoreBridge` over the class `class`, for its own
/// file in the generated namespace.
pub open spec fn csharp_ffi_bridge_lines(class_v: Seq<char>) -> Seq<LineView> {
    csharp_ffi_bridge_part1(class_v)
}

/// C#: `FfiBridge`, the `ICoreBridge` over the class `class`, for its own
/// file in the generated namespace.
pub fn csharp_ffi_bridge(out: &mut Vec<Line>, class: &str)
    ensures
        views(final(out)@) == views(old(out)@) + csharp_ffi_bridge_lines(class@),
{
    let ghost s0 = views(out@);
    let ghost class_v = class@;
    let event = csharp_escape("event");
    let chunk = vec![
        text("/// <summary>"),
        text("/// The generated <c>ICoreBridge</c>, implemented over BoltFFI's"),
        Line::Text(String::from_str("/// <c>").concat(class).concat("</c>: bytes in, bytes out, nothing else. It is the only")),
        text("/// generated type that knows the Rust core exists — pass a fake to"),
        text("/// <c>Core(ICoreBridge, IEffectHandler)</c> instead for tests."),
        text("///"),
        text("/// Disposing an <c>FfiBridge</c> releases the core it wraps."),
        text("/// </summary>"),
        text("public sealed class FfiBridge : ICoreBridge, IDisposable"),
        text("{"),
        Line::Indent,
        Line::Text(String::from_str("private readonly ").concat(class).concat(" _ffi = new();")),
        blank(),
        Line::Text(String::from_str("public byte[] Update(byte[] ").concat(event.as_str()).concat(") => _ffi.Update(").concat(event.as_str()).concat(");")),
        blank(),
        text("public byte[] Resolve(uint id, byte[] output) => _ffi.Resolve(id, output);"),
        blank(),
        text("public byte[] View() => _ffi.View();"),
        blank(),
        text("public void Dispose() => _ffi.Dispose();"),
        Line::Unindent,
        text("}"),
    ];
    assert(views(chunk@) =~= csharp_ffi_bridge_part1(class_v));
    append_lines(out, chunk);
    assert(views(out@) =~= s0 + csharp_ffi_bridge_lines(class@));
}

/// C#: the one-argument constructor over `FfiBridge`, when the bindings
/// are named.
pub open spec fn csharp_ffi_constructor(api_v: CoreApiView) -> Seq<LineView> {
    match api_v.ffi_class {
        Some(class_v) => seq![
            blank_view(),
            t("/// <summary>"@),
            t("/// Build a <c>Core</c> over the <c>"@ + class_v + "</c> the Rust crate exports — the"@),
            t("/// shell writes the handler and never sees the bridge."@),
            t("/// </summary>"@),
            t("public Core(IEffectHandler handler) : this(new FfiBridge(), handler) {}"@),
        ],
        None => Seq::empty(),
    }
}

/// Where the bincode entry points of a view model type named `view_model`
/// are: a C-style enum keeps them in a companion static class, as the
/// bincode emitter spells it; any other type has them itself.
pub open spec fn view_model_bincode_spec(view_model: Seq<char>, unit_enum: bool) -> Seq<char> {
    if unit_enum {
        view_model + "Bincode"@
    } else {
        view_model
    }
}

/// A run of fixed lines of [`csharp_core`].
pub open spec fn csharp_core_part1(api_v: CoreApiView, ns_v: Seq<char>, event_serialize_v: Seq<Seq<char>>, unit_enum: bool) -> Seq<LineView> {
    seq![
        blank_view(),
        t("/// <summary>"@),
        t("/// The shell's side of the core: it serializes events, dispatches the"@),
        t("/// requests that come back, and resolves them through the bridge."@),
        t("///"@),
        t("/// <c>"@ + api_v.render + "</c> is handled here, so an <c>IEffectHandler</c> need not"@),
        t("/// implement it. <c>PropertyChanged</c> may be raised on a thread-pool"@),
        t("/// thread after an asynchronous request, so marshal to your UI thread in"@),
        t("/// the handler."@),
        t("/// </summary>"@),
        t("public sealed class Core : INotifyPropertyChanged"@),
        t("{"@),
        LineView::Indent,
        t("private readonly ICoreBridge _bridge;"@),
        t("private readonly EffectDispatcher _dispatcher;"@),
        t("private "@ + api_v.view_model + " _view;"@),
        blank_view(),
        t("public event PropertyChangedEventHandler? PropertyChanged;"@),
    ]
}

/// A run of fixed lines of [`csharp_core`].
pub open spec fn csharp_core_part2(api_v: CoreApiView, ns_v: Seq<char>, event_serialize_v: Seq<Seq<char>>, unit_enum: bool) -> Seq<LineView> {
    seq![
        blank_view(),
        t("/// <summary>"@),
        t("/// The view model as of the last <c>"@ + api_v.render + "</c>."@),
        t("/// </summary>"@),
        t("public "@ + api_v.view_model + " View"@),
        t("{"@),
        LineView::Indent,
        t("get => _view;"@),
        t("private set"@),
        t("{"@),
        LineView::Indent,
        t("_view = value;"@),
        t("PropertyChanged?.Invoke(this, new PropertyChangedEventArgs(nameof(View)));"@),
        LineView::Unindent,
        t("}"@),
        LineView::Unindent,
        t("}"@),
    ]
}

/// A run of fixed lines of [`csharp_core`].
pub open spec fn csharp_core_part3(api_v: CoreApiView, ns_v: Seq<char>, event_serialize_v: Seq<Seq<char>>, unit_enum: bool) -> Seq<LineView> {
    seq![
        blank_view(),
        t("public Core(ICoreBridge bridge, IEffectHandler handler)"@),
        t("{"@),
        LineView::Indent,
        t("_bridge = bridge;"@),
        t("_view = ReadView();"@),
        t("_dispatcher = new EffectDispatcher(handler, (id, bytes) => Process(_bridge.Resolve(id, bytes)));"@),
        LineView::Unindent,
        t("}"@),
    ]
}

/// A run of fixed lines of [`csharp_core`].
pub open spec fn csharp_core_part4(api_v: CoreApiView, ns_v: Seq<char>, event_serialize_v: Seq<Seq<char>>, unit_enum: bool) -> Seq<LineView> {
    seq![
        blank_view(),
        t("/// <summary>"@),
        t("/// Send an event to the core and run the loop it starts."@),
        t("/// </summary>"@),
        t("public void Update("@ + api_v.event + " "@ + csharp_identifier("event"@) + ")"@),
        t("{"@),
        LineView::Indent,
        t("var serializer = new BincodeSerializer();"@),
    ]
}

/// A run of fixed lines of [`csharp_core`].
pub open spec fn csharp_core_part5(api_v: CoreApiView, ns_v: Seq<char>, event_serialize_v: Seq<Seq<char>>, unit_enum: bool) -> Seq<LineView> {
    seq![
        t("Process(_bridge.Update(serializer.GetBytes()));"@),
        LineView::Unindent,
        t("}"@),
        blank_view(),
        t("/// <summary>"@),
        t("/// Serialized requests, as returned by the bridge or pushed by middleware."@),
        t("/// </summary>"@),
        t("public void Process(byte[] bytes)"@),
        t("{"@),
        LineView::Indent,
        t("if (bytes.Length == 0) { return; }"@),
        t("Process("@ + ns_v + ".Requests.BincodeDeserialize(bytes).Value);"@),
        LineView::Unindent,
        t("}"@),
        blank_view(),
        t("public void Process(IReadOnlyList<"@ + ns_v + ".Request> requests)"@),
        t("{"@),
        LineView::Indent,
        t("foreach (var request in requests)"@),
        t("{"@),
        LineView::Indent,
        t("if (request.Effect is "@ + ns_v + "."@ + api_v.effect + "."@ + api_v.render + ")"@),
        t("{"@),
        LineView::Indent,
        t("View = ReadView();"@),
        t("continue;"@),
        LineView::Unindent,
        t("}"@),
        t("_dispatcher.Dispatch(request);"@),
        LineView::Unindent,
        t("}"@),
        LineView::Unindent,
        t("}"@),
        blank_view(),
        t("private "@ + api_v.view_model + " ReadView() => "@ + view_model_bincode_spec(api_v.view_model, unit_enum) + ".BincodeDeserialize(_bridge.View());"@),
    ]
}

/// A run of fixed lines of [`csharp_core`].
pub open spec fn csharp_core_part6(api_v: CoreApiView, ns_v: Seq<char>, event_serialize_v: Seq<Seq<char>>, unit_enum: bool) -> Seq<LineView> {
    seq![
        LineView::Unindent,
        t("}"@),
    ]
}

/// C#: the `Core` class, for the API `api` in the namespace `ns`; it raises
/// `PropertyChanged` when the view is replaced. `event_serialize` writes the
/// event into `serializer`; `unit_enum` says whether the view model is a
/// C-style enum.
pub open spec fn csharp_core_lines(api_v: CoreApiView, ns_v: Seq<char>, event_serialize_v: Seq<Seq<char>>, unit_enum: bool) -> Seq<LineView> {
    csharp_core_part1(api_v, ns_v, event_serialize_v, unit_enum) + csharp_core_part2(api_v, ns_v, event_serialize_v, unit_enum) + csharp_core_part3(api_v, ns_v, event_serialize_v, unit_enum) + csharp_ffi_constructor(api_v) + csharp_core_part4(api_v, ns_v, event_serialize_v, unit_enum) + text_views(event_serialize_v) + csharp_core_part5(api_v, ns_v, event_serialize_v, unit_enum) + csharp_core_part6(api_v, ns_v, event_serialize_v, unit_enum)
}

/// C#: the `Core` class, for the API `api` in the namespace `ns`; it raises
/// `PropertyChanged` when the view is replaced. `event_serialize` writes the
/// event into `serializer`; `unit_enum` says whether the view model is a
/// C-style enum.
pub fn csharp_core(out: &mut Vec<Line>, api: &CoreApi, ns: &str, event_serialize: &Vec<String>, unit_enum: bool)
    ensures
        views(final(out)@) == views(old(out)@) + csharp_core_lines(api@, ns@, texts(event_serialize@), unit_enum),
{
    let ghost s0 = views(out@);
    let ghost api_v = api@;
    let ghost ns_v = ns@;
    let ghost event_serialize_v = texts(event_serialize@);
    let event_param = csharp_escape("event");
    let view_model_bincode = if unit_enum { api.view_model.clone().concat("Bincode") } else { api.view_model.clone() };
    let chunk = vec![
        blank(),
        text("/// <summary>"),
        text("/// The shell's side of the core: it serializes events, dispatches the"),
        text("/// requests that come back, and resolves them through the bridge."),
        text("///"),
        Line::Text(String::from_str("/// <c>").concat(api.render.as_str()).concat("</c> is handled here, so an <c>IEffectHandler</c> need not")),
        text("/// implement it. <c>PropertyChanged</c> may be raised on a thread-pool"),
        text("/// thread after an asynchronous request, so marshal to your UI thread in"),
        text("/// the handler."),
        text("/// </summary>"),
        text("public sealed class Core : INotifyPropertyChanged"),
        text("{"),
        Line::Indent,
        text("private readonly ICoreBridge _bridge;"),
        text("private readonly EffectDispatcher _dispatcher;"),
        Line::Text(String::from_str("private ").concat(api.view_model.as_str()).concat(" _view;")),
        blank(),
        text("public event PropertyChangedEventHandler? PropertyChanged;"),
    ];
    assert(views(chunk@) =~= csharp_core_part1(api_v, ns_v, event_serialize_v, unit_enum));
    append_lines(out, chunk);
    let chunk = vec![
        blank(),
        text("/// <summary>"),
        Line::Text(String::from_str("/// The view model as of the last <c>").concat(api.render.as_str()).concat("</c>.")),
        text("/// </summary>"),
        Line::Text(String::from_str("public ").concat(api.view_model.as_str()).concat(" View")),
        text("{"),
        Line::Indent,
        text("get => _view;"),
        text("private set"),
        text("{"),
        Line::Indent,
        text("_view = value;"),
        text("PropertyChanged?.Invoke(this, new PropertyChangedEventArgs(nameof(View)));"),
        Line::Unindent,
        text("}"),
        Line::Unindent,
        text("}"),
    ];
    assert(views(chunk@) =~= csharp_core_part2(api_v, ns_v, event_serialize_v, unit_enum));
    append_lines(out, chunk);
    let chunk = vec![
        blank(),
        text("public Core(ICoreBridge bridge, IEffectHandler handler)"),
        text("{"),
        Line::Indent,
        text("_bridge = bridge;"),
        text("_view = ReadView();"),
        text("_dispatcher = new EffectDispatcher(handler, (id, bytes) => Process(_bridge.Resolve(id, bytes)));"),
        Line::Unindent,
        text("}"),
    ];
    assert(views(chunk@) =~= csharp_core_part3(api_v, ns_v, event_serialize_v, unit_enum));
    append_lines(out, chunk);
    let ghost before = views(out@);
    match &api.ffi_class {
        Some(class) => {
            let chunk = vec![
                blank(),
                text("/// <summary>"),
                Line::Text(String::from_str("/// Build a <c>Core</c> over the <c>").concat(class.as_str()).concat("</c> the Rust crate exports — the")),
                text("/// shell writes the handler and never sees the bridge."),
                text("/// </summary>"),
                text("public Core(IEffectHandler handler) : this(new FfiBridge(), handler) {}"),
            ];
            assert(views(chunk@) =~= csharp_ffi_constructor(api_v));
            append_lines(out, chunk);
        },
        None => {},
    }
    assert(views(out@) == before + (csharp_ffi_constructor(api_v)));
    let chunk = vec![
        blank(),
        text("/// <summary>"),
        text("/// Send an event to the core and run the loop it starts."),
        text("/// </summary>"),
        Line::Text(String::from_str("public void Update(").concat(api.event.as_str()).concat(" ").concat(event_param.as_str()).concat(")")),
        text("{"),
        Line::Indent,
        text("var serializer = new BincodeSerializer();"),
    ];
    assert(views(chunk@) =~= csharp_core_part4(api_v, ns_v, event_serialize_v, unit_enum));
    append_lines(out, chunk);
    let ghost before = views(out@);
    append_lines(out, text_lines(event_serialize));
    assert(views(out@) == before + (text_views(event_serialize_v)));
    let chunk = vec![
        text("Process(_bridge.Update(serializer.GetBytes()));"),
        Line::Unindent,
        text("}"),
        blank(),
        text("/// <summary>"),
        text("/// Serialized requests, as returned by the bridge or pushed by middleware."),
        text("/// </summary>"),
        text("public void Process(byte[] bytes)"),
        text("{"),
        Line::Indent,
        text("if (bytes.Length == 0) { return; }"),
        Line::Text(String::from_str("Process(").concat(ns).concat(".Requests.BincodeDeserialize(bytes).Value);")),
        Line::Unindent,
        text("}"),
        blank(),
        Line::Text(String::from_str("public void Process(IReadOnlyList<").concat(ns).concat(".Request> requests)")),
        text("{"),
        Line::Indent,
        text("foreach (var request in requests)"),
        text("{"),
        Line::Indent,
        Line::Text(String::from_str("if (request.Effect is ").concat(ns).concat(".").concat(api.effect.as_str()).concat(".").concat(api.render.as_str()).concat(")")),
        text("{"),
        Line::Indent,
        text("View = ReadView();"),
        text("continue;"),
        Line::Unindent,
        text("}"),
        text("_dispatcher.Dispatch(request);"),
        Line::Unindent,
        text("}"),
        Line::Unindent,
        text("}"),
        blank(),
        Line::Text(String::from_str("private ").concat(api.view_model.as_str()).concat(" ReadView() => ").concat(view_model_bincode.as_str()).concat(".BincodeDeserialize(_bridge.View());")),
    ];
    assert(views(chunk@) =~= csharp_core_part5(api_v, ns_v, event_serialize_v, unit_enum));
    append_lines(out, chunk);
    let chunk = vec![
        Line::Unindent,
        text("}"),
    ];
    assert(views(chunk@) =~= csharp_core_part6(api_v, ns_v, event_serialize_v, unit_enum));
    append_lines(out, chunk);
    assert(views(out@) =~= s0 + csharp_core_lines(api@, ns@, texts(event_serialize@), unit_enum));
}

// The whole of it ------------------------------------------------------------

/// Swift: `CoreBridge` and `Core`.
pub fn swift(out: &mut Vec<Line>, api: &CoreApi)
    ensures
        views(final(out)@) == views(old(out)@) + swift_bridge_lines() + swift_core_lines(api@),
{
    swift_bridge(out);
    swift_core(out, api);
}

/// Kotlin: `CoreBridge` and `Core`.
pub fn kotlin(out: &mut Vec<Line>, api: &CoreApi)
    ensures
        views(final(out)@) == views(old(out)@) + kotlin_bridge_lines() + kotlin_core_lines(api@),
{
    kotlin_bridge(out);
    kotlin_core(out, api);
}

/// TypeScript: `CoreBridge`, `FfiBridge` when the bindings are named, and
/// `Core`.
pub fn typescript(out: &mut Vec<Line>, api: &CoreApi, event_serialize: &Vec<String>, view_model: &QualifiedTypeName, view_model_enum: bool)
    ensures
        views(final(out)@) == views(old(out)@) + typescript_bridge_lines() + typescript_ffi_bridge(api@)
            + typescript_core_lines(api@, texts(event_serialize@), view_model@, view_model_enum),
{
    typescript_bridge(out);
    let ghost s0 = views(out@);
    let ghost api_v = api@;
    match &api.ffi_class {
        Some(class) => {
            let chunk = vec![
                blank(),
                Line::Text(String::from_str("/// The generated `CoreBridge`, implemented over BoltFFI's `").concat(class.as_str()).concat("`: bytes")),
                Line::Text(String::from_str("/// in, bytes out, nothing else. `").concat(class.as_str()).concat(".new()` reaches into the wasm")),
                text("/// module, so build one only once the package has loaded — `Core.create`"),
                text("/// waits for that."),
                text("export class FfiBridge implements CoreBridge {"),
                Line::Indent,
                Line::Text(String::from_str("private readonly ffi = boltffi.").concat(class.as_str()).concat(".new();")),
                blank(),
                text("update(event: Uint8Array): Uint8Array {"),
                Line::Indent,
                text("return this.ffi.update(event);"),
                Line::Unindent,
                text("}"),
                blank(),
                text("resolve(id: uint32, output: Uint8Array): Uint8Array {"),
                Line::Indent,
                text("return this.ffi.resolve(id, output);"),
                Line::Unindent,
                text("}"),
                blank(),
                text("view(): Uint8Array {"),
                Line::Indent,
                text("return this.ffi.view();"),
                Line::Unindent,
                text("}"),
                Line::Unindent,
                text("}"),
            ];
            assert(views(chunk@) =~= typescript_ffi_bridge(api_v));
            append_lines(out, chunk);
        },
        None => {},
    }
    assert(views(out@) =~= s0 + typescript_ffi_bridge(api@));
    typescript_core(out, api, event_serialize, view_model, view_model_enum);
}

/// C#: `ICoreBridge` and `Core`.
pub fn csharp(out: &mut Vec<Line>, api: &CoreApi, ns: &str, event_serialize: &Vec<String>, unit_enum: bool)
    ensures
        views(final(out)@) == views(old(out)@) + csharp_bridge_lines()
            + csharp_core_lines(api@, ns@, texts(event_serialize@), unit_enum),
{
    csharp_bridge(out);
    csharp_core(out, api, ns, event_serialize, unit_enum);
}

} // verus!
