//! The effect handler API the shell implements, in each language: a sink
//! for streams, a handler with one method per variant of the effect, and a
//! dispatcher that resolves each request for it — never for a notification,
//! once with the handler's value for a request, once per item for a stream.
//! Operations that declare no kind keep the old shape: the handler method is
//! handed the request id and a `resolve` callback taking raw bytes.
use vstd::prelude::*;

use crate::capability::RequestKind;
use super::super::naming::{heck_lower_camel, lower_camel};
use super::super::text::texts;
use super::lines::{append_lines, blank, blank_view, line, t, text, text_lines, text_views, views, Line, LineView};
use super::names::{
    case_name, csharp_escape, csharp_identifier, kotlin_class_name, swift_case_name, variant_class_name,
};

verus! {

/// A variant of the effect the handler API is written for, with the code
/// generator's rendering of what its signatures name.
#[derive(Debug)]
pub struct HandlerVariant {
    /// The variant name the emitters use, after any rename.
    pub name: String,
    /// The kind the operation declares, or `None` for a legacy operation.
    pub kind: Option<RequestKind>,
    /// Whether the operation is the render operation.
    pub render: bool,
    /// The operation type, as a type expression of the language.
    pub operation: String,
    /// The output type, as a type expression of the language; `None` when
    /// the variant declares none.
    pub output: Option<String>,
    /// The lines that write the output, held in the variable named by
    /// [`output_value`], into `serializer`.
    pub serialize: Vec<String>,
}

/// A [`HandlerVariant`] as plain values.
pub struct HandlerVariantView {
    pub name: Seq<char>,
    pub kind: Option<RequestKind>,
    pub render: bool,
    pub operation: Seq<char>,
    pub output: Option<Seq<char>>,
    pub serialize: Seq<Seq<char>>,
}

impl View for HandlerVariant {
    type V = HandlerVariantView;

    open spec fn view(&self) -> HandlerVariantView {
        HandlerVariantView {
            name: self.name@,
            kind: self.kind,
            render: self.render,
            operation: self.operation@,
            output: match self.output {
                Some(o) => Some(o@),
                None => None,
            },
            serialize: texts(self.serialize@),
        }
    }
}

/// The variants as plain values.
pub open spec fn handler_views(vars: Seq<HandlerVariant>) -> Seq<HandlerVariantView> {
    vars.map_values(|v: HandlerVariant| v@)
}

/// The name of the variable the dispatcher holds a variant's output in
/// when it resolves: a stream's `item`, a request's `output`.
pub open spec fn output_value_spec(kind: Option<RequestKind>) -> Seq<char> {
    match kind {
        Some(RequestKind::Stream) => "item"@,
        _ => "output"@,
    }
}

/// The name of the variable the dispatcher holds a variant's output in
/// when it resolves: a stream's `item`, and a request's `output`. The
/// serialization lines a [`HandlerVariant`] carries read that variable.
pub fn output_value(kind: Option<RequestKind>) -> (s: &'static str)
    ensures
        s@ == output_value_spec(kind),
{
    match kind {
        Some(RequestKind::Stream) => "item",
        _ => "output",
    }
}

/// The type a signature names for a variant's output: the rendered output,
/// or `none` when the variant declares none.
pub open spec fn output_or(v: HandlerVariantView, none: Seq<char>) -> Seq<char> {
    match v.output {
        Some(o) => o,
        None => none,
    }
}

fn output_text(v: &HandlerVariant, none: &str) -> (s: String)
    ensures
        s@ == output_or(v@, none@),
{
    match &v.output {
        Some(o) => o.clone(),
        None => String::from_str(none),
    }
}

// Swift ---------------------------------------------------------------------

/// The `EffectHandler` requirement for the variant `v`.
pub open spec fn swift_method(v: HandlerVariantView) -> Seq<LineView> {
    let m = swift_case_name(v.name);
    match v.kind {
        None => seq![t("func "@ + m + "(_ operation: "@ + v.operation + ", requestId: UInt32, resolve: @escaping @Sendable ([UInt8]) -> Void)"@)],
        Some(RequestKind::Stream) => seq![t("func "@ + m + "(_ operation: "@ + v.operation + ", into sink: EffectSink<"@ + output_or(v, "Unit"@) + ">)"@)],
        Some(RequestKind::Request) => seq![t("func "@ + m + "(_ operation: "@ + v.operation + ") async -> "@ + output_or(v, "Unit"@))],
        Some(RequestKind::Notify) => seq![t("func "@ + m + "(_ operation: "@ + v.operation + ")"@)],
    }
}

fn swift_method_lines(v: &HandlerVariant) -> (r: Vec<Line>)
    ensures
        views(r@) == swift_method(v@),
{
    let m = case_name(v.name.as_str());
    let op = v.operation.as_str();
    let l = match v.kind {
        None => String::from_str("func ").concat(m.as_str()).concat("(_ operation: ").concat(op).concat(", requestId: UInt32, resolve: @escaping @Sendable ([UInt8]) -> Void)"),
        Some(RequestKind::Stream) => String::from_str("func ").concat(m.as_str()).concat("(_ operation: ").concat(op).concat(", into sink: EffectSink<").concat(output_text(v, "Unit").as_str()).concat(">)"),
        Some(RequestKind::Request) => String::from_str("func ").concat(m.as_str()).concat("(_ operation: ").concat(op).concat(") async -> ").concat(output_text(v, "Unit").as_str()),
        Some(RequestKind::Notify) => String::from_str("func ").concat(m.as_str()).concat("(_ operation: ").concat(op).concat(")"),
    };
    let r = vec![line(l)];
    assert(views(r@) =~= swift_method(v@));
    r
}

/// Resolving the request with the variant's output, serialized.
pub open spec fn swift_resolve(v: HandlerVariantView) -> Seq<LineView> {
    seq![t("resolve(id, serializeEffectOutput { serializer in"@), LineView::Indent] + text_views(v.serialize) + seq![LineView::Unindent, t("})"@)]
}

fn swift_resolve_lines(v: &HandlerVariant) -> (r: Vec<Line>)
    ensures
        views(r@) == swift_resolve(v@),
{
    let mut r = vec![text("resolve(id, serializeEffectOutput { serializer in"), Line::Indent];
    append_lines(&mut r, text_lines(&v.serialize));
    append_lines(&mut r, vec![Line::Unindent, text("})")]);
    r
}

/// What the dispatcher does with the variant `v`'s request: hand it to
/// the handler and resolve it as its kind says.
pub open spec fn swift_arm(v: HandlerVariantView) -> Seq<LineView> {
    let m = swift_case_name(v.name);
    match v.kind {
        None => seq![
            t("handler."@ + m + "(operation, requestId: id) { bytes in"@),
            LineView::Indent,
            t("resolve(id, bytes)"@),
            LineView::Unindent,
            t("}"@),
        ],
        Some(RequestKind::Stream) => seq![t("handler."@ + m + "(operation, into: EffectSink { item in"@), LineView::Indent]
            + swift_resolve(v) + seq![LineView::Unindent, t("})"@)],
        Some(RequestKind::Request) => seq![t("Task {"@), LineView::Indent, t("let output = await handler."@ + m + "(operation)"@)]
            + swift_resolve(v) + seq![LineView::Unindent, t("}"@)],
        Some(RequestKind::Notify) => seq![t("handler."@ + m + "(operation)"@)],
    }
}

fn swift_arm_lines(v: &HandlerVariant) -> (r: Vec<Line>)
    ensures
        views(r@) == swift_arm(v@),
{
    let m = case_name(v.name.as_str());
    match v.kind {
        None => {
            let a = vec![
                line(String::from_str("handler.").concat(m.as_str()).concat("(operation, requestId: id) { bytes in")),
                Line::Indent,
                text("resolve(id, bytes)"),
                Line::Unindent,
                text("}"),
            ];
            assert(views(a@) =~= swift_arm(v@));
            a
        },
        Some(RequestKind::Stream) => {
            let mut a = vec![line(String::from_str("handler.").concat(m.as_str()).concat("(operation, into: EffectSink { item in")), Line::Indent];
            append_lines(&mut a, swift_resolve_lines(v));
            append_lines(&mut a, vec![Line::Unindent, text("})")]);
            assert(views(a@) =~= swift_arm(v@));
            a
        },
        Some(RequestKind::Request) => {
            let mut a = vec![text("Task {"), Line::Indent, line(String::from_str("let output = await handler.").concat(m.as_str()).concat("(operation)"))];
            append_lines(&mut a, swift_resolve_lines(v));
            append_lines(&mut a, vec![Line::Unindent, text("}")]);
            assert(views(a@) =~= swift_arm(v@));
            a
        },
        Some(RequestKind::Notify) => {
            let a = vec![line(String::from_str("handler.").concat(m.as_str()).concat("(operation)"))];
            assert(views(a@) =~= swift_arm(v@));
            a
        },
    }
}

/// The dispatcher's `case` for the variant `v`.
pub open spec fn swift_case(v: HandlerVariantView) -> Seq<LineView> {
    seq![t("case ."@ + swift_case_name(v.name) + "(let operation):"@), LineView::Indent] + swift_arm(v) + seq![LineView::Unindent]
}

fn swift_case_lines(v: &HandlerVariant) -> (r: Vec<Line>)
    ensures
        views(r@) == swift_case(v@),
{
    let m = case_name(v.name.as_str());
    let mut r = vec![line(String::from_str("case .").concat(m.as_str()).concat("(let operation):")), Line::Indent];
    append_lines(&mut r, swift_arm_lines(v));
    append_lines(&mut r, vec![Line::Unindent]);
    r
}

/// The requirements for the first `n` of the variants `vs`.
pub open spec fn swift_methods(vs: Seq<HandlerVariantView>, n: nat) -> Seq<LineView>
    decreases n,
{
    if n == 0 {
        Seq::empty()
    } else {
        swift_methods(vs, (n - 1) as nat) + swift_method(vs[n - 1])
    }
}

/// The `case`s for the first `n` of the variants `vs`.
pub open spec fn swift_cases(vs: Seq<HandlerVariantView>, n: nat) -> Seq<LineView>
    decreases n,
{
    if n == 0 {
        Seq::empty()
    } else {
        swift_cases(vs, (n - 1) as nat) + swift_case(vs[n - 1])
    }
}

/// A run of fixed lines of [`swift_sink`].
pub open spec fn swift_sink_part1() -> Seq<LineView> {
    seq![
        blank_view(),
        t("/// Receives the items of a streaming effect."@),
        t("///"@),
        t("/// Every item sent is one resolution of the request that started the stream."@),
        t("public struct EffectSink<Item>: Sendable {"@),
        LineView::Indent,
        t("private let _send: @Sendable (Item) -> Void"@),
        blank_view(),
        t("public init(_ send: @escaping @Sendable (Item) -> Void) {"@),
        LineView::Indent,
        t("self._send = send"@),
        LineView::Unindent,
        t("}"@),
        blank_view(),
        t("/// Send one item back to the core."@),
        t("public func send(_ item: Item) {"@),
        LineView::Indent,
        t("self._send(item)"@),
        LineView::Unindent,
        t("}"@),
        LineView::Unindent,
        t("}"@),
    ]
}

/// Swift: `EffectSink`, which receives the items of a stream.
pub open spec fn swift_sink_lines() -> Seq<LineView> {
    swift_sink_part1()
}

/// Swift: `EffectSink`, which receives the items of a stream.
pub fn swift_sink(out: &mut Vec<Line>)
    ensures
        views(final(out)@) == views(old(out)@) + swift_sink_lines(),
{
    let ghost s0 = views(out@);
    let chunk = vec![
        blank(),
        text("/// Receives the items of a streaming effect."),
        text("///"),
        text("/// Every item sent is one resolution of the request that started the stream."),
        text("public struct EffectSink<Item>: Sendable {"),
        Line::Indent,
        text("private let _send: @Sendable (Item) -> Void"),
        blank(),
        text("public init(_ send: @escaping @Sendable (Item) -> Void) {"),
        Line::Indent,
        text("self._send = send"),
        Line::Unindent,
        text("}"),
        blank(),
        text("/// Send one item back to the core."),
        text("public func send(_ item: Item) {"),
        Line::Indent,
        text("self._send(item)"),
        Line::Unindent,
        text("}"),
        Line::Unindent,
        text("}"),
    ];
    assert(views(chunk@) =~= swift_sink_part1());
    append_lines(out, chunk);
    assert(views(out@) =~= s0 + swift_sink_lines());
}

/// A run of fixed lines of [`swift_serialize_helper`].
pub open spec fn swift_serialize_helper_part1() -> Seq<LineView> {
    seq![
        blank_view(),
        t("/// Serializing an effect output cannot fail for any value the core can"@),
        t("/// accept, so the dispatcher traps rather than making every handler"@),
        t("/// method throw."@),
        t("private func serializeEffectOutput(_ body: (BincodeSerializer) throws -> Void) -> [UInt8] {"@),
        LineView::Indent,
        t("let serializer = BincodeSerializer.init()"@),
        t("try! body(serializer)"@),
        t("return serializer.get_bytes()"@),
        LineView::Unindent,
        t("}"@),
    ]
}

/// Swift: the helper the dispatcher serializes outputs with.
pub open spec fn swift_serialize_helper_lines() -> Seq<LineView> {
    swift_serialize_helper_part1()
}

/// Swift: the helper the dispatcher serializes outputs with.
pub fn swift_serialize_helper(out: &mut Vec<Line>)
    ensures
        views(final(out)@) == views(old(out)@) + swift_serialize_helper_lines(),
{
    let ghost s0 = views(out@);
    let chunk = vec![
        blank(),
        text("/// Serializing an effect output cannot fail for any value the core can"),
        text("/// accept, so the dispatcher traps rather than making every handler"),
        text("/// method throw."),
        text("private func serializeEffectOutput(_ body: (BincodeSerializer) throws -> Void) -> [UInt8] {"),
        Line::Indent,
        text("let serializer = BincodeSerializer.init()"),
        text("try! body(serializer)"),
        text("return serializer.get_bytes()"),
        Line::Unindent,
        text("}"),
    ];
    assert(views(chunk@) =~= swift_serialize_helper_part1());
    append_lines(out, chunk);
    assert(views(out@) =~= s0 + swift_serialize_helper_lines());
}

/// A run of fixed lines of [`swift_handler`].
pub open spec fn swift_handler_part1(effect_v: Seq<char>, vs: Seq<HandlerVariantView>) -> Seq<LineView> {
    seq![
        blank_view(),
        t("/// Handles every effect `"@ + effect_v + "` can carry."@),
        t("///"@),
        t("/// `EffectDispatcher` resolves each request for you, so there is no"@),
        t("/// `resolve` to call at the wrong time or with the wrong bytes."@),
        t("@available(macOS 10.15, iOS 13.0, tvOS 13.0, watchOS 6.0, *)"@),
        t("public protocol EffectHandler: Sendable {"@),
        LineView::Indent,
    ]
}

/// A run of fixed lines of [`swift_handler`].
pub open spec fn swift_handler_part2(effect_v: Seq<char>, vs: Seq<HandlerVariantView>) -> Seq<LineView> {
    seq![
        LineView::Unindent,
        t("}"@),
    ]
}

/// Swift: the `EffectHandler` protocol, one requirement per variant of the
/// effect `effect`.
pub open spec fn swift_handler_lines(effect_v: Seq<char>, vs: Seq<HandlerVariantView>) -> Seq<LineView> {
    swift_handler_part1(effect_v, vs) + swift_methods(vs, vs.len()) + swift_handler_part2(effect_v, vs)
}

/// Swift: the `EffectHandler` protocol, one requirement per variant of the
/// effect `effect`.
pub fn swift_handler(out: &mut Vec<Line>, effect: &str, vars: &Vec<HandlerVariant>)
    ensures
        views(final(out)@) == views(old(out)@) + swift_handler_lines(effect@, handler_views(vars@)),
{
    let ghost s0 = views(out@);
    let ghost effect_v = effect@;
    let ghost vs = handler_views(vars@);
    let chunk = vec![
        blank(),
        Line::Text(String::from_str("/// Handles every effect `").concat(effect).concat("` can carry.")),
        text("///"),
        text("/// `EffectDispatcher` resolves each request for you, so there is no"),
        text("/// `resolve` to call at the wrong time or with the wrong bytes."),
        text("@available(macOS 10.15, iOS 13.0, tvOS 13.0, watchOS 6.0, *)"),
        text("public protocol EffectHandler: Sendable {"),
        Line::Indent,
    ];
    assert(views(chunk@) =~= swift_handler_part1(effect_v, vs));
    append_lines(out, chunk);
    let ghost before = views(out@);
    let mut i: usize = 0;
    while i < vars.len()
        invariant
            0 <= i <= vars@.len(),
            vs == handler_views(vars@),
            views(out@) == before + swift_methods(vs, i as nat),
        decreases vars.len() - i,
    {
        let lines = swift_method_lines(&vars[i]);
        append_lines(out, lines);
        assert(swift_methods(vs, (i + 1) as nat) =~= swift_methods(vs, i as nat) + swift_method(vs[i as int]));
        i = i + 1;
    }
    assert(views(out@) == before + (swift_methods(vs, vs.len())));
    let chunk = vec![
        Line::Unindent,
        text("}"),
    ];
    assert(views(chunk@) =~= swift_handler_part2(effect_v, vs));
    append_lines(out, chunk);
    assert(views(out@) =~= s0 + swift_handler_lines(effect@, handler_views(vars@)));
}

/// A run of fixed lines of [`swift_dispatcher`].
pub open spec fn swift_dispatcher_part1(effect_v: Seq<char>, vs: Seq<HandlerVariantView>) -> Seq<LineView> {
    seq![
        blank_view(),
        t("/// Routes each request to an `EffectHandler` and resolves it for you:"@),
        t("/// never for a notification, once for a request, once per item for a"@),
        t("/// stream."@),
        t("@available(macOS 10.15, iOS 13.0, tvOS 13.0, watchOS 6.0, *)"@),
        t("public struct EffectDispatcher: Sendable {"@),
        LineView::Indent,
        t("private let handler: any EffectHandler"@),
        t("private let resolve: @Sendable (UInt32, [UInt8]) -> Void"@),
        blank_view(),
        t("public init(handler: any EffectHandler, resolve: @escaping @Sendable (UInt32, [UInt8]) -> Void) {"@),
        LineView::Indent,
        t("self.handler = handler"@),
        t("self.resolve = resolve"@),
        LineView::Unindent,
        t("}"@),
        blank_view(),
        t("public func dispatch(_ request: Request) {"@),
        LineView::Indent,
        t("let handler = self.handler"@),
        t("let resolve = self.resolve"@),
        t("let id = request.id"@),
        t("switch request.effect {"@),
    ]
}

/// A run of fixed lines of [`swift_dispatcher`].
pub open spec fn swift_dispatcher_part2(effect_v: Seq<char>, vs: Seq<HandlerVariantView>) -> Seq<LineView> {
    seq![
        t("}"@),
        LineView::Unindent,
        t("}"@),
        LineView::Unindent,
        t("}"@),
    ]
}

/// Swift: `EffectDispatcher`, which switches over the variants of the
/// effect and resolves each request.
pub open spec fn swift_dispatcher_lines(effect_v: Seq<char>, vs: Seq<HandlerVariantView>) -> Seq<LineView> {
    swift_dispatcher_part1(effect_v, vs) + swift_cases(vs, vs.len()) + swift_dispatcher_part2(effect_v, vs)
}

/// Swift: `EffectDispatcher`, which switches over the variants of the
/// effect and resolves each request.
pub fn swift_dispatcher(out: &mut Vec<Line>, effect: &str, vars: &Vec<HandlerVariant>)
    ensures
        views(final(out)@) == views(old(out)@) + swift_dispatcher_lines(effect@, handler_views(vars@)),
{
    let ghost s0 = views(out@);
    let ghost effect_v = effect@;
    let ghost vs = handler_views(vars@);
    let chunk = vec![
        blank(),
        text("/// Routes each request to an `EffectHandler` and resolves it for you:"),
        text("/// never for a notification, once for a request, once per item for a"),
        text("/// stream."),
        text("@available(macOS 10.15, iOS 13.0, tvOS 13.0, watchOS 6.0, *)"),
        text("public struct EffectDispatcher: Sendable {"),
        Line::Indent,
        text("private let handler: any EffectHandler"),
        text("private let resolve: @Sendable (UInt32, [UInt8]) -> Void"),
        blank(),
        text("public init(handler: any EffectHandler, resolve: @escaping @Sendable (UInt32, [UInt8]) -> Void) {"),
        Line::Indent,
        text("self.handler = handler"),
        text("self.resolve = resolve"),
        Line::Unindent,
        text("}"),
        blank(),
        text("public func dispatch(_ request: Request) {"),
        Line::Indent,
        text("let handler = self.handler"),
        text("let resolve = self.resolve"),
        text("let id = request.id"),
        text("switch request.effect {"),
    ];
    assert(views(chunk@) =~= swift_dispatcher_part1(effect_v, vs));
    append_lines(out, chunk);
    let ghost before = views(out@);
    let mut i: usize = 0;
    while i < vars.len()
        invariant
            0 <= i <= vars@.len(),
            vs == handler_views(vars@),
            views(out@) == before + swift_cases(vs, i as nat),
        decreases vars.len() - i,
    {
        let lines = swift_case_lines(&vars[i]);
        append_lines(out, lines);
        assert(swift_cases(vs, (i + 1) as nat) =~= swift_cases(vs, i as nat) + swift_case(vs[i as int]));
        i = i + 1;
    }
    assert(views(out@) == before + (swift_cases(vs, vs.len())));
    let chunk = vec![
        text("}"),
        Line::Unindent,
        text("}"),
        Line::Unindent,
        text("}"),
    ];
    assert(views(chunk@) =~= swift_dispatcher_part2(effect_v, vs));
    append_lines(out, chunk);
    assert(views(out@) =~= s0 + swift_dispatcher_lines(effect@, handler_views(vars@)));
}

// Kotlin --------------------------------------------------------------------

/// The `EffectHandler` member for the variant `v`.
pub open spec fn kotlin_method(v: HandlerVariantView) -> Seq<LineView> {
    let m = heck_lower_camel(v.name);
    match v.kind {
        None => seq![t("fun "@ + m + "(operation: "@ + v.operation + ", requestId: UInt, resolve: (ByteArray) -> Unit)"@)],
        Some(RequestKind::Stream) => seq![t("fun "@ + m + "(operation: "@ + v.operation + ", sink: EffectSink<"@ + output_or(v, "Unit"@) + ">)"@)],
        Some(RequestKind::Request) => seq![t("suspend fun "@ + m + "(operation: "@ + v.operation + "): "@ + output_or(v, "Unit"@))],
        Some(RequestKind::Notify) => if v.render {
            seq![
                t("/// `Core` handles `"@ + v.name + "` itself, so this does nothing; implement it"@),
                t("/// only if you drive `EffectDispatcher` yourself."@),
                t("fun "@ + m + "(operation: "@ + v.operation + ") {}"@),
            ]
        } else {
            seq![t("fun "@ + m + "(operation: "@ + v.operation + ")"@)]
        },
    }
}

fn kotlin_method_lines(v: &HandlerVariant) -> (r: Vec<Line>)
    ensures
        views(r@) == kotlin_method(v@),
{
    let m = lower_camel(v.name.as_str());
    let op = v.operation.as_str();
    let r = match v.kind {
        None => vec![line(String::from_str("fun ").concat(m.as_str()).concat("(operation: ").concat(op).concat(", requestId: UInt, resolve: (ByteArray) -> Unit)"))],
        Some(RequestKind::Stream) => vec![line(String::from_str("fun ").concat(m.as_str()).concat("(operation: ").concat(op).concat(", sink: EffectSink<").concat(output_text(v, "Unit").as_str()).concat(">)"))],
        Some(RequestKind::Request) => vec![line(String::from_str("suspend fun ").concat(m.as_str()).concat("(operation: ").concat(op).concat("): ").concat(output_text(v, "Unit").as_str()))],
        Some(RequestKind::Notify) => if v.render {
            vec![
                line(String::from_str("/// `Core` handles `").concat(v.name.as_str()).concat("` itself, so this does nothing; implement it")),
                text("/// only if you drive `EffectDispatcher` yourself."),
                line(String::from_str("fun ").concat(m.as_str()).concat("(operation: ").concat(op).concat(") {}")),
            ]
        } else {
            vec![line(String::from_str("fun ").concat(m.as_str()).concat("(operation: ").concat(op).concat(")"))]
        },
    };
    assert(views(r@) =~= kotlin_method(v@));
    r
}

/// Resolving the request with the variant's output, serialized.
pub open spec fn kotlin_resolve(v: HandlerVariantView) -> Seq<LineView> {
    seq![t("resolve(id, effectOutputBytes { serializer ->"@), LineView::Indent] + text_views(v.serialize) + seq![LineView::Unindent, t("})"@)]
}

fn kotlin_resolve_lines(v: &HandlerVariant) -> (r: Vec<Line>)
    ensures
        views(r@) == kotlin_resolve(v@),
{
    let mut r = vec![text("resolve(id, effectOutputBytes { serializer ->"), Line::Indent];
    append_lines(&mut r, text_lines(&v.serialize));
    append_lines(&mut r, vec![Line::Unindent, text("})")]);
    r
}

/// The dispatcher's `when` branch for the variant `v` of the effect
/// `effect`.
pub open spec fn kotlin_case(effect: Seq<char>, v: HandlerVariantView) -> Seq<LineView> {
    let m = heck_lower_camel(v.name);
    let is = "is "@ + effect + "."@ + kotlin_class_name(v.name) + " -> "@;
    match v.kind {
        None => seq![t(is + "handler."@ + m + "(effect.value, id) { bytes -> resolve(id, bytes) }"@)],
        Some(RequestKind::Stream) => seq![t(is + "handler."@ + m + "(effect.value) { item ->"@), LineView::Indent]
            + kotlin_resolve(v) + seq![LineView::Unindent, t("}"@)],
        Some(RequestKind::Request) => seq![t(is + "{"@), LineView::Indent, t("val output = handler."@ + m + "(effect.value)"@)]
            + kotlin_resolve(v) + seq![LineView::Unindent, t("}"@)],
        Some(RequestKind::Notify) => seq![t(is + "handler."@ + m + "(effect.value)"@)],
    }
}

fn kotlin_case_lines(effect: &str, v: &HandlerVariant) -> (r: Vec<Line>)
    ensures
        views(r@) == kotlin_case(effect@, v@),
{
    let m = lower_camel(v.name.as_str());
    let class = variant_class_name(v.name.as_str());
    let is = String::from_str("is ").concat(effect).concat(".").concat(class.as_str()).concat(" -> ");
    let r = match v.kind {
        None => vec![line(is.concat("handler.").concat(m.as_str()).concat("(effect.value, id) { bytes -> resolve(id, bytes) }"))],
        Some(RequestKind::Stream) => {
            let mut a = vec![line(is.concat("handler.").concat(m.as_str()).concat("(effect.value) { item ->")), Line::Indent];
            append_lines(&mut a, kotlin_resolve_lines(v));
            append_lines(&mut a, vec![Line::Unindent, text("}")]);
            a
        },
        Some(RequestKind::Request) => {
            let mut a = vec![line(is.concat("{")), Line::Indent, line(String::from_str("val output = handler.").concat(m.as_str()).concat("(effect.value)"))];
            append_lines(&mut a, kotlin_resolve_lines(v));
            append_lines(&mut a, vec![Line::Unindent, text("}")]);
            a
        },
        Some(RequestKind::Notify) => vec![line(is.concat("handler.").concat(m.as_str()).concat("(effect.value)"))],
    };
    assert(views(r@) =~= kotlin_case(effect@, v@));
    r
}

/// The members for the first `n` of the variants `vs`.
pub open spec fn kotlin_methods(vs: Seq<HandlerVariantView>, n: nat) -> Seq<LineView>
    decreases n,
{
    if n == 0 {
        Seq::empty()
    } else {
        kotlin_methods(vs, (n - 1) as nat) + kotlin_method(vs[n - 1])
    }
}

/// The branches for the first `n` of the variants `vs` of `effect`.
pub open spec fn kotlin_cases(effect: Seq<char>, vs: Seq<HandlerVariantView>, n: nat) -> Seq<LineView>
    decreases n,
{
    if n == 0 {
        Seq::empty()
    } else {
        kotlin_cases(effect, vs, (n - 1) as nat) + kotlin_case(effect, vs[n - 1])
    }
}

/// A run of fixed lines of [`kotlin_sink`].
pub open spec fn kotlin_sink_part1() -> Seq<LineView> {
    seq![
        blank_view(),
        t("/// Receives the items of a streaming effect."@),
        t("///"@),
        t("/// Every item sent is one resolution of the request that started the stream."@),
        t("fun interface EffectSink<in T> {"@),
        LineView::Indent,
        t("fun send(item: T)"@),
        LineView::Unindent,
        t("}"@),
    ]
}

/// Kotlin: `EffectSink`, which receives the items of a stream.
pub open spec fn kotlin_sink_lines() -> Seq<LineView> {
    kotlin_sink_part1()
}

/// Kotlin: `EffectSink`, which receives the items of a stream.
pub fn kotlin_sink(out: &mut Vec<Line>)
    ensures
        views(final(out)@) == views(old(out)@) + kotlin_sink_lines(),
{
    let ghost s0 = views(out@);
    let chunk = vec![
        blank(),
        text("/// Receives the items of a streaming effect."),
        text("///"),
        text("/// Every item sent is one resolution of the request that started the stream."),
        text("fun interface EffectSink<in T> {"),
        Line::Indent,
        text("fun send(item: T)"),
        Line::Unindent,
        text("}"),
    ];
    assert(views(chunk@) =~= kotlin_sink_part1());
    append_lines(out, chunk);
    assert(views(out@) =~= s0 + kotlin_sink_lines());
}

/// A run of fixed lines of [`kotlin_serialize_helper`].
pub open spec fn kotlin_serialize_helper_part1() -> Seq<LineView> {
    seq![
        blank_view(),
        t("private fun effectOutputBytes(body: (Serializer) -> Unit): ByteArray {"@),
        LineView::Indent,
        t("val serializer = BincodeSerializer()"@),
        t("body(serializer)"@),
        t("return serializer.get_bytes()"@),
        LineView::Unindent,
        t("}"@),
    ]
}

/// Kotlin: the helper the dispatcher serializes outputs with.
pub open spec fn kotlin_serialize_helper_lines() -> Seq<LineView> {
    kotlin_serialize_helper_part1()
}

/// Kotlin: the helper the dispatcher serializes outputs with.
pub fn kotlin_serialize_helper(out: &mut Vec<Line>)
    ensures
        views(final(out)@) == views(old(out)@) + kotlin_serialize_helper_lines(),
{
    let ghost s0 = views(out@);
    let chunk = vec![
        blank(),
        text("private fun effectOutputBytes(body: (Serializer) -> Unit): ByteArray {"),
        Line::Indent,
        text("val serializer = BincodeSerializer()"),
        text("body(serializer)"),
        text("return serializer.get_bytes()"),
        Line::Unindent,
        text("}"),
    ];
    assert(views(chunk@) =~= kotlin_serialize_helper_part1());
    append_lines(out, chunk);
    assert(views(out@) =~= s0 + kotlin_serialize_helper_lines());
}

/// A run of fixed lines of [`kotlin_handler`].
pub open spec fn kotlin_handler_part1(effect_v: Seq<char>, vs: Seq<HandlerVariantView>) -> Seq<LineView> {
    seq![
        blank_view(),
        t("/// Handles every effect `"@ + effect_v + "` can carry."@),
        t("///"@),
        t("/// `EffectDispatcher` resolves each request for you, so there is no"@),
        t("/// `resolve` to call at the wrong time or with the wrong bytes."@),
        t("interface EffectHandler {"@),
        LineView::Indent,
    ]
}

/// A run of fixed lines of [`kotlin_handler`].
pub open spec fn kotlin_handler_part2(effect_v: Seq<char>, vs: Seq<HandlerVariantView>) -> Seq<LineView> {
    seq![
        LineView::Unindent,
        t("}"@),
    ]
}

/// Kotlin: the `EffectHandler` interface, one member per variant of the
/// effect `effect`.
pub open spec fn kotlin_handler_lines(effect_v: Seq<char>, vs: Seq<HandlerVariantView>) -> Seq<LineView> {
    kotlin_handler_part1(effect_v, vs) + kotlin_methods(vs, vs.len()) + kotlin_handler_part2(effect_v, vs)
}

/// Kotlin: the `EffectHandler` interface, one member per variant of the
/// effect `effect`.
pub fn kotlin_handler(out: &mut Vec<Line>, effect: &str, vars: &Vec<HandlerVariant>)
    ensures
        views(final(out)@) == views(old(out)@) + kotlin_handler_lines(effect@, handler_views(vars@)),
{
    let ghost s0 = views(out@);
    let ghost effect_v = effect@;
    let ghost vs = handler_views(vars@);
    let chunk = vec![
        blank(),
        Line::Text(String::from_str("/// Handles every effect `").concat(effect).concat("` can carry.")),
        text("///"),
        text("/// `EffectDispatcher` resolves each request for you, so there is no"),
        text("/// `resolve` to call at the wrong time or with the wrong bytes."),
        text("interface EffectHandler {"),
        Line::Indent,
    ];
    assert(views(chunk@) =~= kotlin_handler_part1(effect_v, vs));
    append_lines(out, chunk);
    let ghost before = views(out@);
    let mut i: usize = 0;
    while i < vars.len()
        invariant
            0 <= i <= vars@.len(),
            vs == handler_views(vars@),
            views(out@) == before + kotlin_methods(vs, i as nat),
        decreases vars.len() - i,
    {
        let lines = kotlin_method_lines(&vars[i]);
        append_lines(out, lines);
        assert(kotlin_methods(vs, (i + 1) as nat) =~= kotlin_methods(vs, i as nat) + kotlin_method(vs[i as int]));
        i = i + 1;
    }
    assert(views(out@) == before + (kotlin_methods(vs, vs.len())));
    let chunk = vec![
        Line::Unindent,
        text("}"),
    ];
    assert(views(chunk@) =~= kotlin_handler_part2(effect_v, vs));
    append_lines(out, chunk);
    assert(views(out@) =~= s0 + kotlin_handler_lines(effect@, handler_views(vars@)));
}

/// A run of fixed lines of [`kotlin_dispatcher`].
pub open spec fn kotlin_dispatcher_part1(effect_v: Seq<char>, vs: Seq<HandlerVariantView>) -> Seq<LineView> {
    seq![
        blank_view(),
        t("/// Routes each request to an `EffectHandler` and resolves it for you:"@),
        t("/// never for a notification, once for a request, once per item for a"@),
        t("/// stream."@),
        t("class EffectDispatcher("@),
        LineView::Indent,
        t("private val handler: EffectHandler,"@),
        t("private val resolve: (UInt, ByteArray) -> Unit,"@),
        LineView::Unindent,
        t(") {"@),
        LineView::Indent,
        t("suspend fun dispatch(request: Request) {"@),
        LineView::Indent,
        t("val id = request.id"@),
        t("when (val effect = request.effect) {"@),
        LineView::Indent,
    ]
}

/// A run of fixed lines of [`kotlin_dispatcher`].
pub open spec fn kotlin_dispatcher_part2(effect_v: Seq<char>, vs: Seq<HandlerVariantView>) -> Seq<LineView> {
    seq![
        LineView::Unindent,
        t("}"@),
        LineView::Unindent,
        t("}"@),
        LineView::Unindent,
        t("}"@),
    ]
}

/// Kotlin: `EffectDispatcher`, which branches on the variants of the
/// effect `effect` and resolves each request.
pub open spec fn kotlin_dispatcher_lines(effect_v: Seq<char>, vs: Seq<HandlerVariantView>) -> Seq<LineView> {
    kotlin_dispatcher_part1(effect_v, vs) + kotlin_cases(effect_v, vs, vs.len()) + kotlin_dispatcher_part2(effect_v, vs)
}

/// Kotlin: `EffectDispatcher`, which branches on the variants of the
/// effect `effect` and resolves each request.
pub fn kotlin_dispatcher(out: &mut Vec<Line>, effect: &str, vars: &Vec<HandlerVariant>)
    ensures
        views(final(out)@) == views(old(out)@) + kotlin_dispatcher_lines(effect@, handler_views(vars@)),
{
    let ghost s0 = views(out@);
    let ghost effect_v = effect@;
    let ghost vs = handler_views(vars@);
    let chunk = vec![
        blank(),
        text("/// Routes each request to an `EffectHandler` and resolves it for you:"),
        text("/// never for a notification, once for a request, once per item for a"),
        text("/// stream."),
        text("class EffectDispatcher("),
        Line::Indent,
        text("private val handler: EffectHandler,"),
        text("private val resolve: (UInt, ByteArray) -> Unit,"),
        Line::Unindent,
        text(") {"),
        Line::Indent,
        text("suspend fun dispatch(request: Request) {"),
        Line::Indent,
        text("val id = request.id"),
        text("when (val effect = request.effect) {"),
        Line::Indent,
    ];
    assert(views(chunk@) =~= kotlin_dispatcher_part1(effect_v, vs));
    append_lines(out, chunk);
    let ghost before = views(out@);
    let mut i: usize = 0;
    while i < vars.len()
        invariant
            0 <= i <= vars@.len(),
            vs == handler_views(vars@),
            effect_v == effect@,
            views(out@) == before + kotlin_cases(effect_v, vs, i as nat),
        decreases vars.len() - i,
    {
        let lines = kotlin_case_lines(effect, &vars[i]);
        append_lines(out, lines);
        assert(kotlin_cases(effect_v, vs, (i + 1) as nat) =~= kotlin_cases(effect_v, vs, i as nat) + kotlin_case(effect_v, vs[i as int]));
        i = i + 1;
    }
    assert(views(out@) == before + (kotlin_cases(effect_v, vs, vs.len())));
    let chunk = vec![
        Line::Unindent,
        text("}"),
        Line::Unindent,
        text("}"),
        Line::Unindent,
        text("}"),
    ];
    assert(views(chunk@) =~= kotlin_dispatcher_part2(effect_v, vs));
    append_lines(out, chunk);
    assert(views(out@) =~= s0 + kotlin_dispatcher_lines(effect@, handler_views(vars@)));
}

// TypeScript ----------------------------------------------------------------

/// The `EffectHandler` member for the variant `v`.
pub open spec fn typescript_method(v: HandlerVariantView) -> Seq<LineView> {
    let m = heck_lower_camel(v.name);
    match v.kind {
        None => seq![t(m + "(operation: "@ + v.operation + ", requestId: uint32, resolve: (bytes: Uint8Array) => void): void;"@)],
        Some(RequestKind::Stream) => seq![t(m + "(operation: "@ + v.operation + ", sink: EffectSink<"@ + output_or(v, "void"@) + ">): void;"@)],
        Some(RequestKind::Request) => seq![t(m + "(operation: "@ + v.operation + "): Promise<"@ + output_or(v, "void"@) + ">;"@)],
        Some(RequestKind::Notify) => seq![t(m + "(operation: "@ + v.operation + "): void;"@)],
    }
}

fn typescript_method_lines(v: &HandlerVariant) -> (r: Vec<Line>)
    ensures
        views(r@) == typescript_method(v@),
{
    let m = lower_camel(v.name.as_str());
    let op = v.operation.as_str();
    let l = match v.kind {
        None => m.concat("(operation: ").concat(op).concat(", requestId: uint32, resolve: (bytes: Uint8Array) => void): void;"),
        Some(RequestKind::Stream) => m.concat("(operation: ").concat(op).concat(", sink: EffectSink<").concat(output_text(v, "void").as_str()).concat(">): void;"),
        Some(RequestKind::Request) => m.concat("(operation: ").concat(op).concat("): Promise<").concat(output_text(v, "void").as_str()).concat(">;"),
        Some(RequestKind::Notify) => m.concat("(operation: ").concat(op).concat("): void;"),
    };
    let r = vec![line(l)];
    assert(views(r@) =~= typescript_method(v@));
    r
}

/// Resolving the request with the variant's output, serialized.
pub open spec fn typescript_resolve(v: HandlerVariantView) -> Seq<LineView> {
    seq![t("const serializer = new BincodeSerializer();"@)] + text_views(v.serialize) + seq![t("this.resolve(id, serializer.getBytes());"@)]
}

fn typescript_resolve_lines(v: &HandlerVariant) -> (r: Vec<Line>)
    ensures
        views(r@) == typescript_resolve(v@),
{
    let mut r = vec![text("const serializer = new BincodeSerializer();")];
    append_lines(&mut r, text_lines(&v.serialize));
    append_lines(&mut r, vec![text("this.resolve(id, serializer.getBytes());")]);
    r
}

/// The dispatcher's `case` for the variant `v`.
pub open spec fn typescript_case(v: HandlerVariantView) -> Seq<LineView> {
    let m = heck_lower_camel(v.name);
    seq![t("case \""@ + v.name + "\": {"@), LineView::Indent] + match v.kind {
        None => seq![t("this.handler."@ + m + "(effect.value, id, (bytes) => this.resolve(id, bytes));"@)],
        Some(RequestKind::Stream) => seq![
            t("this.handler."@ + m + "(effect.value, {"@),
            LineView::Indent,
            t("send: (item) => {"@),
            LineView::Indent,
        ] + typescript_resolve(v) + seq![LineView::Unindent, t("},"@), LineView::Unindent, t("});"@)],
        Some(RequestKind::Request) => seq![t("void this.handler."@ + m + "(effect.value).then((output) => {"@), LineView::Indent]
            + typescript_resolve(v) + seq![LineView::Unindent, t("});"@)],
        Some(RequestKind::Notify) => seq![t("this.handler."@ + m + "(effect.value);"@)],
    } + seq![t("break;"@), LineView::Unindent, t("}"@)]
}

fn typescript_case_lines(v: &HandlerVariant) -> (r: Vec<Line>)
    ensures
        views(r@) == typescript_case(v@),
{
    let m = lower_camel(v.name.as_str());
    let mut r = vec![line(String::from_str("case \"").concat(v.name.as_str()).concat("\": {")), Line::Indent];
    let arm: Vec<Line> = match v.kind {
        None => vec![line(String::from_str("this.handler.").concat(m.as_str()).concat("(effect.value, id, (bytes) => this.resolve(id, bytes));"))],
        Some(RequestKind::Stream) => {
            let mut a = vec![
                line(String::from_str("this.handler.").concat(m.as_str()).concat("(effect.value, {")),
                Line::Indent,
                text("send: (item) => {"),
                Line::Indent,
            ];
            append_lines(&mut a, typescript_resolve_lines(v));
            append_lines(&mut a, vec![Line::Unindent, text("},"), Line::Unindent, text("});")]);
            a
        },
        Some(RequestKind::Request) => {
            let mut a = vec![line(String::from_str("void this.handler.").concat(m.as_str()).concat("(effect.value).then((output) => {")), Line::Indent];
            append_lines(&mut a, typescript_resolve_lines(v));
            append_lines(&mut a, vec![Line::Unindent, text("});")]);
            a
        },
        Some(RequestKind::Notify) => vec![line(String::from_str("this.handler.").concat(m.as_str()).concat("(effect.value);"))],
    };
    append_lines(&mut r, arm);
    append_lines(&mut r, vec![text("break;"), Line::Unindent, text("}")]);
    assert(views(r@) =~= typescript_case(v@));
    r
}

/// The members for the first `n` of the variants `vs`.
pub open spec fn typescript_methods(vs: Seq<HandlerVariantView>, n: nat) -> Seq<LineView>
    decreases n,
{
    if n == 0 {
        Seq::empty()
    } else {
        typescript_methods(vs, (n - 1) as nat) + typescript_method(vs[n - 1])
    }
}

/// The `case`s for the first `n` of the variants `vs`.
pub open spec fn typescript_cases(vs: Seq<HandlerVariantView>, n: nat) -> Seq<LineView>
    decreases n,
{
    if n == 0 {
        Seq::empty()
    } else {
        typescript_cases(vs, (n - 1) as nat) + typescript_case(vs[n - 1])
    }
}

/// A run of fixed lines of [`typescript_sink`].
pub open spec fn typescript_sink_part1() -> Seq<LineView> {
    seq![
        blank_view(),
        t("/// Receives the items of a streaming effect."@),
        t("///"@),
        t("/// Every item sent is one resolution of the request that started the stream."@),
        t("export interface EffectSink<T> {"@),
        LineView::Indent,
        t("send(item: T): void;"@),
        LineView::Unindent,
        t("}"@),
    ]
}

/// TypeScript: `EffectSink`, which receives the items of a stream.
pub open spec fn typescript_sink_lines() -> Seq<LineView> {
    typescript_sink_part1()
}

/// TypeScript: `EffectSink`, which receives the items of a stream.
pub fn typescript_sink(out: &mut Vec<Line>)
    ensures
        views(final(out)@) == views(old(out)@) + typescript_sink_lines(),
{
    let ghost s0 = views(out@);
    let chunk = vec![
        blank(),
        text("/// Receives the items of a streaming effect."),
        text("///"),
        text("/// Every item sent is one resolution of the request that started the stream."),
        text("export interface EffectSink<T> {"),
        Line::Indent,
        text("send(item: T): void;"),
        Line::Unindent,
        text("}"),
    ];
    assert(views(chunk@) =~= typescript_sink_part1());
    append_lines(out, chunk);
    assert(views(out@) =~= s0 + typescript_sink_lines());
}

/// A run of fixed lines of [`typescript_handler`].
pub open spec fn typescript_handler_part1(effect_v: Seq<char>, vs: Seq<HandlerVariantView>) -> Seq<LineView> {
    seq![
        blank_view(),
        t("/// Handles every effect `"@ + effect_v + "` can carry."@),
        t("///"@),
        t("/// `EffectDispatcher` resolves each request for you, so there is no"@),
        t("/// `resolve` to call at the wrong time or with the wrong bytes."@),
        t("export interface EffectHandler {"@),
        LineView::Indent,
    ]
}

/// A run of fixed lines of [`typescript_handler`].
pub open spec fn typescript_handler_part2(effect_v: Seq<char>, vs: Seq<HandlerVariantView>) -> Seq<LineView> {
    seq![
        LineView::Unindent,
        t("}"@),
    ]
}

/// TypeScript: the `EffectHandler` interface, one member per variant of
/// the effect `effect`.
pub open spec fn typescript_handler_lines(effect_v: Seq<char>, vs: Seq<HandlerVariantView>) -> Seq<LineView> {
    typescript_handler_part1(effect_v, vs) + typescript_methods(vs, vs.len()) + typescript_handler_part2(effect_v, vs)
}

/// TypeScript: the `EffectHandler` interface, one member per variant of
/// the effect `effect`.
pub fn typescript_handler(out: &mut Vec<Line>, effect: &str, vars: &Vec<HandlerVariant>)
    ensures
        views(final(out)@) == views(old(out)@) + typescript_handler_lines(effect@, handler_views(vars@)),
{
    let ghost s0 = views(out@);
    let ghost effect_v = effect@;
    let ghost vs = handler_views(vars@);
    let chunk = vec![
        blank(),
        Line::Text(String::from_str("/// Handles every effect `").concat(effect).concat("` can carry.")),
        text("///"),
        text("/// `EffectDispatcher` resolves each request for you, so there is no"),
        text("/// `resolve` to call at the wrong time or with the wrong bytes."),
        text("export interface EffectHandler {"),
        Line::Indent,
    ];
    assert(views(chunk@) =~= typescript_handler_part1(effect_v, vs));
    append_lines(out, chunk);
    let ghost before = views(out@);
    let mut i: usize = 0;
    while i < vars.len()
        invariant
            0 <= i <= vars@.len(),
            vs == handler_views(vars@),
            views(out@) == before + typescript_methods(vs, i as nat),
        decreases vars.len() - i,
    {
        let lines = typescript_method_lines(&vars[i]);
        append_lines(out, lines);
        assert(typescript_methods(vs, (i + 1) as nat) =~= typescript_methods(vs, i as nat) + typescript_method(vs[i as int]));
        i = i + 1;
    }
    assert(views(out@) == before + (typescript_methods(vs, vs.len())));
    let chunk = vec![
        Line::Unindent,
        text("}"),
    ];
    assert(views(chunk@) =~= typescript_handler_part2(effect_v, vs));
    append_lines(out, chunk);
    assert(views(out@) =~= s0 + typescript_handler_lines(effect@, handler_views(vars@)));
}

/// A run of fixed lines of [`typescript_dispatcher`].
pub open spec fn typescript_dispatcher_part1(effect_v: Seq<char>, vs: Seq<HandlerVariantView>) -> Seq<LineView> {
    seq![
        blank_view(),
        t("/// Routes each request to an `EffectHandler` and resolves it for you:"@),
        t("/// never for a notification, once for a request, once per item for a"@),
        t("/// stream."@),
        t("export class EffectDispatcher {"@),
        LineView::Indent,
        t("constructor("@),
        LineView::Indent,
        t("private readonly handler: EffectHandler,"@),
        t("private readonly resolve: (id: uint32, bytes: Uint8Array) => void,"@),
        LineView::Unindent,
        t(") {}"@),
        blank_view(),
        t("public dispatch(request: Request): void {"@),
        LineView::Indent,
        t("const id = request.id;"@),
        t("const effect = request.effect;"@),
        t("switch (effect.kind) {"@),
        LineView::Indent,
    ]
}

/// A run of fixed lines of [`typescript_dispatcher`].
pub open spec fn typescript_dispatcher_part2(effect_v: Seq<char>, vs: Seq<HandlerVariantView>) -> Seq<LineView> {
    seq![
        LineView::Unindent,
        t("}"@),
        LineView::Unindent,
        t("}"@),
        LineView::Unindent,
        t("}"@),
    ]
}

/// TypeScript: `EffectDispatcher`, which switches on the variants of the
/// effect and resolves each request.
pub open spec fn typescript_dispatcher_lines(effect_v: Seq<char>, vs: Seq<HandlerVariantView>) -> Seq<LineView> {
    typescript_dispatcher_part1(effect_v, vs) + typescript_cases(vs, vs.len()) + typescript_dispatcher_part2(effect_v, vs)
}

/// TypeScript: `EffectDispatcher`, which switches on the variants of the
/// effect and resolves each request.
pub fn typescript_dispatcher(out: &mut Vec<Line>, effect: &str, vars: &Vec<HandlerVariant>)
    ensures
        views(final(out)@) == views(old(out)@) + typescript_dispatcher_lines(effect@, handler_views(vars@)),
{
    let ghost s0 = views(out@);
    let ghost effect_v = effect@;
    let ghost vs = handler_views(vars@);
    let chunk = vec![
        blank(),
        text("/// Routes each request to an `EffectHandler` and resolves it for you:"),
        text("/// never for a notification, once for a request, once per item for a"),
        text("/// stream."),
        text("export class EffectDispatcher {"),
        Line::Indent,
        text("constructor("),
        Line::Indent,
        text("private readonly handler: EffectHandler,"),
        text("private readonly resolve: (id: uint32, bytes: Uint8Array) => void,"),
        Line::Unindent,
        text(") {}"),
        blank(),
        text("public dispatch(request: Request): void {"),
        Line::Indent,
        text("const id = request.id;"),
        text("const effect = request.effect;"),
        text("switch (effect.kind) {"),
        Line::Indent,
    ];
    assert(views(chunk@) =~= typescript_dispatcher_part1(effect_v, vs));
    append_lines(out, chunk);
    let ghost before = views(out@);
    let mut i: usize = 0;
    while i < vars.len()
        invariant
            0 <= i <= vars@.len(),
            vs == handler_views(vars@),
            views(out@) == before + typescript_cases(vs, i as nat),
        decreases vars.len() - i,
    {
        let lines = typescript_case_lines(&vars[i]);
        append_lines(out, lines);
        assert(typescript_cases(vs, (i + 1) as nat) =~= typescript_cases(vs, i as nat) + typescript_case(vs[i as int]));
        i = i + 1;
    }
    assert(views(out@) == before + (typescript_cases(vs, vs.len())));
    let chunk = vec![
        Line::Unindent,
        text("}"),
        Line::Unindent,
        text("}"),
        Line::Unindent,
        text("}"),
    ];
    assert(views(chunk@) =~= typescript_dispatcher_part2(effect_v, vs));
    append_lines(out, chunk);
    assert(views(out@) =~= s0 + typescript_dispatcher_lines(effect@, handler_views(vars@)));
}

// C# ------------------------------------------------------------------------

/// The `IEffectHandler` member for the variant `v`.
pub open spec fn csharp_method(v: HandlerVariantView) -> Seq<LineView> {
    let m = csharp_identifier(v.name);
    match v.kind {
        None => seq![t("void "@ + m + "("@ + v.operation + " operation, uint requestId, Action<byte[]> resolve);"@)],
        Some(RequestKind::Stream) => seq![t("void "@ + m + "("@ + v.operation + " operation, IEffectSink<"@ + output_or(v, "object"@) + "> sink);"@)],
        Some(RequestKind::Request) => seq![t("Task<"@ + output_or(v, "object"@) + "> "@ + m + "("@ + v.operation + " operation);"@)],
        Some(RequestKind::Notify) => seq![t("void "@ + m + "("@ + v.operation + " operation);"@)],
    }
}

fn csharp_method_lines(v: &HandlerVariant) -> (r: Vec<Line>)
    ensures
        views(r@) == csharp_method(v@),
{
    let m = csharp_escape(v.name.as_str());
    let op = v.operation.as_str();
    let l = match v.kind {
        None => String::from_str("void ").concat(m.as_str()).concat("(").concat(op).concat(" operation, uint requestId, Action<byte[]> resolve);"),
        Some(RequestKind::Stream) => String::from_str("void ").concat(m.as_str()).concat("(").concat(op).concat(" operation, IEffectSink<").concat(output_text(v, "object").as_str()).concat("> sink);"),
        Some(RequestKind::Request) => String::from_str("Task<").concat(output_text(v, "object").as_str()).concat("> ").concat(m.as_str()).concat("(").concat(op).concat(" operation);"),
        Some(RequestKind::Notify) => String::from_str("void ").concat(m.as_str()).concat("(").concat(op).concat(" operation);"),
    };
    let r = vec![line(l)];
    assert(views(r@) =~= csharp_method(v@));
    r
}

/// Resolving the request with the variant's output, serialized.
pub open spec fn csharp_resolve(v: HandlerVariantView) -> Seq<LineView> {
    seq![t("var serializer = new BincodeSerializer();"@)] + text_views(v.serialize) + seq![t("_resolve(id, serializer.GetBytes());"@)]
}

fn csharp_resolve_lines(v: &HandlerVariant) -> (r: Vec<Line>)
    ensures
        views(r@) == csharp_resolve(v@),
{
    let mut r = vec![text("var serializer = new BincodeSerializer();")];
    append_lines(&mut r, text_lines(&v.serialize));
    append_lines(&mut r, vec![text("_resolve(id, serializer.GetBytes());")]);
    r
}

/// The dispatcher's `case` for the variant `v` of the effect `effect`, in
/// the namespace `ns`. A request is handed to its own asynchronous method,
/// so that dispatching stays synchronous.
pub open spec fn csharp_case(ns: Seq<char>, effect: Seq<char>, v: HandlerVariantView) -> Seq<LineView> {
    let m = csharp_identifier(v.name);
    let b = csharp_identifier(heck_lower_camel(v.name));
    seq![t("case "@ + ns + "."@ + effect + "."@ + v.name + " "@ + b + ":"@), LineView::Indent] + match v.kind {
        None => seq![t("_handler."@ + m + "("@ + b + ".Value, id, bytes => _resolve(id, bytes));"@)],
        Some(RequestKind::Stream) => seq![
            t("_handler."@ + m + "("@ + b + ".Value, new DelegateEffectSink<"@ + output_or(v, "object"@) + ">(item =>"@),
            t("{"@),
            LineView::Indent,
        ] + csharp_resolve(v) + seq![LineView::Unindent, t("}));"@)],
        Some(RequestKind::Request) => seq![t("_ = Dispatch"@ + v.name + "("@ + b + ".Value, id);"@)],
        Some(RequestKind::Notify) => seq![t("_handler."@ + m + "("@ + b + ".Value);"@)],
    } + seq![t("break;"@), LineView::Unindent]
}

fn csharp_case_lines(ns: &str, effect: &str, v: &HandlerVariant) -> (r: Vec<Line>)
    ensures
        views(r@) == csharp_case(ns@, effect@, v@),
{
    let m = csharp_escape(v.name.as_str());
    let camel = lower_camel(v.name.as_str());
    let b = csharp_escape(camel.as_str());
    let mut r = vec![
        line(String::from_str("case ").concat(ns).concat(".").concat(effect).concat(".").concat(v.name.as_str()).concat(" ").concat(b.as_str()).concat(":")),
        Line::Indent,
    ];
    let arm: Vec<Line> = match v.kind {
        None => vec![line(String::from_str("_handler.").concat(m.as_str()).concat("(").concat(b.as_str()).concat(".Value, id, bytes => _resolve(id, bytes));"))],
        Some(RequestKind::Stream) => {
            let mut a = vec![
                line(String::from_str("_handler.").concat(m.as_str()).concat("(").concat(b.as_str()).concat(".Value, new DelegateEffectSink<").concat(output_text(v, "object").as_str()).concat(">(item =>")),
                text("{"),
                Line::Indent,
            ];
            append_lines(&mut a, csharp_resolve_lines(v));
            append_lines(&mut a, vec![Line::Unindent, text("}));")]);
            a
        },
        Some(RequestKind::Request) => vec![line(String::from_str("_ = Dispatch").concat(v.name.as_str()).concat("(").concat(b.as_str()).concat(".Value, id);"))],
        Some(RequestKind::Notify) => vec![line(String::from_str("_handler.").concat(m.as_str()).concat("(").concat(b.as_str()).concat(".Value);"))],
    };
    append_lines(&mut r, arm);
    append_lines(&mut r, vec![text("break;"), Line::Unindent]);
    assert(views(r@) =~= csharp_case(ns@, effect@, v@));
    r
}

/// The private asynchronous method a request variant `v` is dispatched
/// through; nothing for any other variant.
pub open spec fn csharp_async_helper(v: HandlerVariantView) -> Seq<LineView> {
    if v.kind == Some(RequestKind::Request) {
        seq![
            blank_view(),
            t("private async Task Dispatch"@ + v.name + "("@ + v.operation + " operation, uint id)"@),
            t("{"@),
            LineView::Indent,
            t("var output = await _handler."@ + csharp_identifier(v.name) + "(operation);"@),
        ] + csharp_resolve(v) + seq![LineView::Unindent, t("}"@)]
    } else {
        Seq::empty()
    }
}

fn csharp_async_helper_lines(v: &HandlerVariant) -> (r: Vec<Line>)
    ensures
        views(r@) == csharp_async_helper(v@),
{
    match v.kind {
        Some(RequestKind::Request) => {
            let m = csharp_escape(v.name.as_str());
            let mut a = vec![
                blank(),
                line(String::from_str("private async Task Dispatch").concat(v.name.as_str()).concat("(").concat(v.operation.as_str()).concat(" operation, uint id)")),
                text("{"),
                Line::Indent,
                line(String::from_str("var output = await _handler.").concat(m.as_str()).concat("(operation);")),
            ];
            append_lines(&mut a, csharp_resolve_lines(v));
            append_lines(&mut a, vec![Line::Unindent, text("}")]);
            assert(views(a@) =~= csharp_async_helper(v@));
            a
        },
        _ => {
            let a: Vec<Line> = Vec::new();
            assert(views(a@) =~= csharp_async_helper(v@));
            a
        },
    }
}

/// The members for the first `n` of the variants `vs`.
pub open spec fn csharp_methods(vs: Seq<HandlerVariantView>, n: nat) -> Seq<LineView>
    decreases n,
{
    if n == 0 {
        Seq::empty()
    } else {
        csharp_methods(vs, (n - 1) as nat) + csharp_method(vs[n - 1])
    }
}

/// The `case`s for the first `n` of the variants `vs` of `effect`.
pub open spec fn csharp_cases(ns: Seq<char>, effect: Seq<char>, vs: Seq<HandlerVariantView>, n: nat) -> Seq<LineView>
    decreases n,
{
    if n == 0 {
        Seq::empty()
    } else {
        csharp_cases(ns, effect, vs, (n - 1) as nat) + csharp_case(ns, effect, vs[n - 1])
    }
}

/// The asynchronous methods for the first `n` of the variants `vs`.
pub open spec fn csharp_async_helpers(vs: Seq<HandlerVariantView>, n: nat) -> Seq<LineView>
    decreases n,
{
    if n == 0 {
        Seq::empty()
    } else {
        csharp_async_helpers(vs, (n - 1) as nat) + csharp_async_helper(vs[n - 1])
    }
}

/// A run of fixed lines of [`csharp_sink`].
pub open spec fn csharp_sink_part1() -> Seq<LineView> {
    seq![
        blank_view(),
        t("/// <summary>"@),
        t("/// Receives the items of a streaming effect. Every item sent"@),
        t("/// is one resolution of the request that started the stream."@),
        t("/// </summary>"@),
        t("public interface IEffectSink<in T>"@),
        t("{"@),
        LineView::Indent,
        t("void Send(T item);"@),
        LineView::Unindent,
        t("}"@),
    ]
}

/// C#: `IEffectSink`, which receives the items of a stream.
pub open spec fn csharp_sink_lines() -> Seq<LineView> {
    csharp_sink_part1()
}

/// C#: `IEffectSink`, which receives the items of a stream.
pub fn csharp_sink(out: &mut Vec<Line>)
    ensures
        views(final(out)@) == views(old(out)@) + csharp_sink_lines(),
{
    let ghost s0 = views(out@);
    let chunk = vec![
        blank(),
        text("/// <summary>"),
        text("/// Receives the items of a streaming effect. Every item sent"),
        text("/// is one resolution of the request that started the stream."),
        text("/// </summary>"),
        text("public interface IEffectSink<in T>"),
        text("{"),
        Line::Indent,
        text("void Send(T item);"),
        Line::Unindent,
        text("}"),
    ];
    assert(views(chunk@) =~= csharp_sink_part1());
    append_lines(out, chunk);
    assert(views(out@) =~= s0 + csharp_sink_lines());
}

/// A run of fixed lines of [`csharp_handler`].
pub open spec fn csharp_handler_part1(effect_v: Seq<char>, vs: Seq<HandlerVariantView>) -> Seq<LineView> {
    seq![
        blank_view(),
        t("/// <summary>"@),
        t("/// Handles every effect <c>"@ + effect_v + "</c> can carry."@),
        t("///"@),
        t("/// <c>EffectDispatcher</c> resolves each request for you, so there is"@),
        t("/// no <c>resolve</c> to call at the wrong time or with the wrong bytes."@),
        t("/// </summary>"@),
        t("public interface IEffectHandler"@),
        t("{"@),
        LineView::Indent,
    ]
}

/// A run of fixed lines of [`csharp_handler`].
pub open spec fn csharp_handler_part2(effect_v: Seq<char>, vs: Seq<HandlerVariantView>) -> Seq<LineView> {
    seq![
        LineView::Unindent,
        t("}"@),
    ]
}

/// C#: the `IEffectHandler` interface, one member per variant of the
/// effect `effect`.
pub open spec fn csharp_handler_lines(effect_v: Seq<char>, vs: Seq<HandlerVariantView>) -> Seq<LineView> {
    csharp_handler_part1(effect_v, vs) + csharp_methods(vs, vs.len()) + csharp_handler_part2(effect_v, vs)
}

/// C#: the `IEffectHandler` interface, one member per variant of the
/// effect `effect`.
pub fn csharp_handler(out: &mut Vec<Line>, effect: &str, vars: &Vec<HandlerVariant>)
    ensures
        views(final(out)@) == views(old(out)@) + csharp_handler_lines(effect@, handler_views(vars@)),
{
    let ghost s0 = views(out@);
    let ghost effect_v = effect@;
    let ghost vs = handler_views(vars@);
    let chunk = vec![
        blank(),
        text("/// <summary>"),
        Line::Text(String::from_str("/// Handles every effect <c>").concat(effect).concat("</c> can carry.")),
        text("///"),
        text("/// <c>EffectDispatcher</c> resolves each request for you, so there is"),
        text("/// no <c>resolve</c> to call at the wrong time or with the wrong bytes."),
        text("/// </summary>"),
        text("public interface IEffectHandler"),
        text("{"),
        Line::Indent,
    ];
    assert(views(chunk@) =~= csharp_handler_part1(effect_v, vs));
    append_lines(out, chunk);
    let ghost before = views(out@);
    let mut i: usize = 0;
    while i < vars.len()
        invariant
            0 <= i <= vars@.len(),
            vs == handler_views(vars@),
            views(out@) == before + csharp_methods(vs, i as nat),
        decreases vars.len() - i,
    {
        let lines = csharp_method_lines(&vars[i]);
        append_lines(out, lines);
        assert(csharp_methods(vs, (i + 1) as nat) =~= csharp_methods(vs, i as nat) + csharp_method(vs[i as int]));
        i = i + 1;
    }
    assert(views(out@) == before + (csharp_methods(vs, vs.len())));
    let chunk = vec![
        Line::Unindent,
        text("}"),
    ];
    assert(views(chunk@) =~= csharp_handler_part2(effect_v, vs));
    append_lines(out, chunk);
    assert(views(out@) =~= s0 + csharp_handler_lines(effect@, handler_views(vars@)));
}

/// A run of fixed lines of [`csharp_dispatcher`].
pub open spec fn csharp_dispatcher_part1(effect_v: Seq<char>, vs: Seq<HandlerVariantView>, ns_v: Seq<char>) -> Seq<LineView> {
    seq![
        blank_view(),
        t("/// <summary>"@),
        t("/// Routes each request to an <c>IEffectHandler</c> and resolves it for"@),
        t("/// you: never for a notification, once for a request, once per item"@),
        t("/// for a stream."@),
        t("/// </summary>"@),
        t("public sealed class EffectDispatcher"@),
        t("{"@),
        LineView::Indent,
        t("private readonly IEffectHandler _handler;"@),
        t("private readonly Action<uint, byte[]> _resolve;"@),
        blank_view(),
        t("public EffectDispatcher(IEffectHandler handler, Action<uint, byte[]> resolve)"@),
        t("{"@),
        LineView::Indent,
        t("_handler = handler;"@),
        t("_resolve = resolve;"@),
        LineView::Unindent,
        t("}"@),
        blank_view(),
        t("public void Dispatch("@ + ns_v + ".Request request)"@),
        t("{"@),
        LineView::Indent,
        t("var id = request.Id;"@),
        t("switch (request.Effect)"@),
        t("{"@),
        LineView::Indent,
    ]
}

/// A run of fixed lines of [`csharp_dispatcher`].
pub open spec fn csharp_dispatcher_part2(effect_v: Seq<char>, vs: Seq<HandlerVariantView>, ns_v: Seq<char>) -> Seq<LineView> {
    seq![
        LineView::Unindent,
        t("}"@),
        LineView::Unindent,
        t("}"@),
    ]
}

/// A run of fixed lines of [`csharp_dispatcher`].
pub open spec fn csharp_dispatcher_part3(effect_v: Seq<char>, vs: Seq<HandlerVariantView>, ns_v: Seq<char>) -> Seq<LineView> {
    seq![
        blank_view(),
        t("private sealed class DelegateEffectSink<T> : IEffectSink<T>"@),
        t("{"@),
        LineView::Indent,
        t("private readonly Action<T> _send;"@),
        blank_view(),
        t("public DelegateEffectSink(Action<T> send)"@),
        t("{"@),
        LineView::Indent,
        t("_send = send;"@),
        LineView::Unindent,
        t("}"@),
        blank_view(),
        t("public void Send(T item)"@),
        t("{"@),
        LineView::Indent,
        t("_send(item);"@),
        LineView::Unindent,
        t("}"@),
        LineView::Unindent,
        t("}"@),
    ]
}

/// A run of fixed lines of [`csharp_dispatcher`].
pub open spec fn csharp_dispatcher_part4(effect_v: Seq<char>, vs: Seq<HandlerVariantView>, ns_v: Seq<char>) -> Seq<LineView> {
    seq![
        LineView::Unindent,
        t("}"@),
    ]
}

/// C#: `EffectDispatcher`, which switches on the variants of the effect
/// `effect` in the namespace `ns`, resolves each request, and adapts a
/// delegate into a stream's sink.
pub open spec fn csharp_dispatcher_lines(effect_v: Seq<char>, vs: Seq<HandlerVariantView>, ns_v: Seq<char>) -> Seq<LineView> {
    csharp_dispatcher_part1(effect_v, vs, ns_v) + csharp_cases(ns_v, effect_v, vs, vs.len()) + csharp_dispatcher_part2(effect_v, vs, ns_v) + csharp_async_helpers(vs, vs.len()) + csharp_dispatcher_part3(effect_v, vs, ns_v) + csharp_dispatcher_part4(effect_v, vs, ns_v)
}

/// C#: `EffectDispatcher`, which switches on the variants of the effect
/// `effect` in the namespace `ns`, resolves each request, and adapts a
/// delegate into a stream's sink.
pub fn csharp_dispatcher(out: &mut Vec<Line>, effect: &str, vars: &Vec<HandlerVariant>, ns: &str)
    ensures
        views(final(out)@) == views(old(out)@) + csharp_dispatcher_lines(effect@, handler_views(vars@), ns@),
{
    let ghost s0 = views(out@);
    let ghost effect_v = effect@;
    let ghost vs = handler_views(vars@);
    let ghost ns_v = ns@;
    let chunk = vec![
        blank(),
        text("/// <summary>"),
        text("/// Routes each request to an <c>IEffectHandler</c> and resolves it for"),
        text("/// you: never for a notification, once for a request, once per item"),
        text("/// for a stream."),
        text("/// </summary>"),
        text("public sealed class EffectDispatcher"),
        text("{"),
        Line::Indent,
        text("private readonly IEffectHandler _handler;"),
        text("private readonly Action<uint, byte[]> _resolve;"),
        blank(),
        text("public EffectDispatcher(IEffectHandler handler, Action<uint, byte[]> resolve)"),
        text("{"),
        Line::Indent,
        text("_handler = handler;"),
        text("_resolve = resolve;"),
        Line::Unindent,
        text("}"),
        blank(),
        Line::Text(String::from_str("public void Dispatch(").concat(ns).concat(".Request request)")),
        text("{"),
        Line::Indent,
        text("var id = request.Id;"),
        text("switch (request.Effect)"),
        text("{"),
        Line::Indent,
    ];
    assert(views(chunk@) =~= csharp_dispatcher_part1(effect_v, vs, ns_v));
    append_lines(out, chunk);
    let ghost before = views(out@);
    let mut i: usize = 0;
    while i < vars.len()
        invariant
            0 <= i <= vars@.len(),
            vs == handler_views(vars@),
            effect_v == effect@,
            ns_v == ns@,
            views(out@) == before + csharp_cases(ns_v, effect_v, vs, i as nat),
        decreases vars.len() - i,
    {
        let lines = csharp_case_lines(ns, effect, &vars[i]);
        append_lines(out, lines);
        assert(csharp_cases(ns_v, effect_v, vs, (i + 1) as nat) =~= csharp_cases(ns_v, effect_v, vs, i as nat) + csharp_case(ns_v, effect_v, vs[i as int]));
        i = i + 1;
    }
    assert(views(out@) == before + (csharp_cases(ns_v, effect_v, vs, vs.len())));
    let chunk = vec![
        Line::Unindent,
        text("}"),
        Line::Unindent,
        text("}"),
    ];
    assert(views(chunk@) =~= csharp_dispatcher_part2(effect_v, vs, ns_v));
    append_lines(out, chunk);
    let ghost before = views(out@);
    let mut i: usize = 0;
    while i < vars.len()
        invariant
            0 <= i <= vars@.len(),
            vs == handler_views(vars@),
            views(out@) == before + csharp_async_helpers(vs, i as nat),
        decreases vars.len() - i,
    {
        let lines = csharp_async_helper_lines(&vars[i]);
        append_lines(out, lines);
        assert(csharp_async_helpers(vs, (i + 1) as nat) =~= csharp_async_helpers(vs, i as nat) + csharp_async_helper(vs[i as int]));
        i = i + 1;
    }
    assert(views(out@) == before + (csharp_async_helpers(vs, vs.len())));
    let chunk = vec![
        blank(),
        text("private sealed class DelegateEffectSink<T> : IEffectSink<T>"),
        text("{"),
        Line::Indent,
        text("private readonly Action<T> _send;"),
        blank(),
        text("public DelegateEffectSink(Action<T> send)"),
        text("{"),
        Line::Indent,
        text("_send = send;"),
        Line::Unindent,
        text("}"),
        blank(),
        text("public void Send(T item)"),
        text("{"),
        Line::Indent,
        text("_send(item);"),
        Line::Unindent,
        text("}"),
        Line::Unindent,
        text("}"),
    ];
    assert(views(chunk@) =~= csharp_dispatcher_part3(effect_v, vs, ns_v));
    append_lines(out, chunk);
    let chunk = vec![
        Line::Unindent,
        text("}"),
    ];
    assert(views(chunk@) =~= csharp_dispatcher_part4(effect_v, vs, ns_v));
    append_lines(out, chunk);
    assert(views(out@) =~= s0 + csharp_dispatcher_lines(effect@, handler_views(vars@), ns@));
}

// The whole API -------------------------------------------------------------

/// Swift: the sink, the serialization helper, the handler protocol and the
/// dispatcher, for the effect `effect` whose variants are `vars`.
pub fn swift(out: &mut Vec<Line>, effect: &str, vars: &Vec<HandlerVariant>)
    ensures
        views(final(out)@) == views(old(out)@) + swift_sink_lines() + swift_serialize_helper_lines()
            + swift_handler_lines(effect@, handler_views(vars@)) + swift_dispatcher_lines(effect@, handler_views(vars@)),
{
    swift_sink(out);
    swift_serialize_helper(out);
    swift_handler(out, effect, vars);
    swift_dispatcher(out, effect, vars);
}

/// Kotlin: the sink, the serialization helper, the handler interface and
/// the dispatcher, for the effect `effect` whose variants are `vars`.
pub fn kotlin(out: &mut Vec<Line>, effect: &str, vars: &Vec<HandlerVariant>)
    ensures
        views(final(out)@) == views(old(out)@) + kotlin_sink_lines() + kotlin_serialize_helper_lines()
            + kotlin_handler_lines(effect@, handler_views(vars@)) + kotlin_dispatcher_lines(effect@, handler_views(vars@)),
{
    kotlin_sink(out);
    kotlin_serialize_helper(out);
    kotlin_handler(out, effect, vars);
    kotlin_dispatcher(out, effect, vars);
}

/// TypeScript: the sink, the handler interface and the dispatcher, for the
/// effect `effect` whose variants are `vars`.
pub fn typescript(out: &mut Vec<Line>, effect: &str, vars: &Vec<HandlerVariant>)
    ensures
        views(final(out)@) == views(old(out)@) + typescript_sink_lines()
            + typescript_handler_lines(effect@, handler_views(vars@)) + typescript_dispatcher_lines(effect@, handler_views(vars@)),
{
    typescript_sink(out);
    typescript_handler(out, effect, vars);
    typescript_dispatcher(out, effect, vars);
}

/// C#: the sink, the handler interface and the dispatcher, for the effect
/// `effect` whose variants are `vars`, in the namespace `ns`.
pub fn csharp(out: &mut Vec<Line>, effect: &str, vars: &Vec<HandlerVariant>, ns: &str)
    ensures
        views(final(out)@) == views(old(out)@) + csharp_sink_lines()
            + csharp_handler_lines(effect@, handler_views(vars@)) + csharp_dispatcher_lines(effect@, handler_views(vars@), ns@),
{
    csharp_sink(out);
    csharp_handler(out, effect, vars);
    csharp_dispatcher(out, effect, vars, ns);
}

} // verus!
