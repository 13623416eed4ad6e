//! What the generated shell code does, stated over the lines the emitters
//! write: each law names the lines a correct shell needs — a request
//! resolved with its serialized output, a render that refreshes the view and
//! moves on to the next request, a bridge that forwards what it is given, a
//! decoder that reads an id the way the bridge lays it out — and proves they
//! are there, contiguous and in order.
use vstd::prelude::*;

use crate::bridge::STREAM_BIT;
use super::super::naming::heck_lower_camel;
use super::core_api::{
    csharp_core_lines, csharp_ffi_bridge_lines, kotlin_core_lines, kotlin_ffi_bridge_lines, swift_core_lines,
    swift_ffi_bridge_lines, typescript_core_lines, CoreApiView,
};
use super::handler::{
    csharp_async_helper, csharp_case, kotlin_case, output_or, swift_case, typescript_case, HandlerVariantView,
};
use super::lines::{hex, t, text_views, LineView};
use super::names::{csharp_identifier, kotlin_class_name, swift_case_name};
use super::request_id::{csharp_lines, kotlin_lines, swift_lines, typescript_lines};
use crate::capability::RequestKind;
use super::super::naming::QualifiedNameView;

verus! {

/// Whether `run` stands in `lines` as consecutive lines.
pub open spec fn has_run(lines: Seq<LineView>, run: Seq<LineView>) -> bool {
    exists|i: int| 0 <= i && i + run.len() <= lines.len() && #[trigger] lines.subrange(i, i + run.len()) == run
}

proof fn lemma_run_at(lines: Seq<LineView>, run: Seq<LineView>, i: int)
    requires
        0 <= i,
        i + run.len() <= lines.len(),
        lines.subrange(i, i + run.len()) =~= run,
    ensures
        has_run(lines, run),
{
}

proof fn lemma_run_between(p: Seq<LineView>, run: Seq<LineView>, s: Seq<LineView>)
    ensures
        has_run(p + run + s, run),
{
    assert((p + run + s).subrange(p.len() as int, (p.len() + run.len()) as int) =~= run);
    lemma_run_at(p + run + s, run, p.len() as int);
}

proof fn lemma_run_after(a: Seq<LineView>, b: Seq<LineView>, run: Seq<LineView>)
    requires
        has_run(b, run),
    ensures
        has_run(a + b, run),
{
    let i = choose|i: int| 0 <= i && i + run.len() <= b.len() && #[trigger] b.subrange(i, i + run.len()) == run;
    assert((a + b).subrange(a.len() + i, a.len() + i + run.len()) =~= b.subrange(i, i + run.len()));
    lemma_run_at(a + b, run, a.len() + i);
}

proof fn lemma_run_before(a: Seq<LineView>, b: Seq<LineView>, run: Seq<LineView>)
    requires
        has_run(a, run),
    ensures
        has_run(a + b, run),
{
    let i = choose|i: int| 0 <= i && i + run.len() <= a.len() && #[trigger] a.subrange(i, i + run.len()) == run;
    assert((a + b).subrange(i, i + run.len()) =~= a.subrange(i, i + run.len()));
    lemma_run_at(a + b, run, i);
}


// The `Core` loop ----------------------------------------------------------

/// The Swift `Core` handles a batch of requests one by one: a render
/// re-reads the view and goes on with the next request (`continue`, not
/// leaving the loop), and every other request is dispatched.
pub proof fn law_swift_core_dispatches_every_other_request(api: CoreApiView)
    ensures
        has_run(swift_core_lines(api), seq![
            t("for request in requests {"@),
            LineView::Indent,
            t("if case ."@ + swift_case_name(api.render) + " = request.effect {"@),
            LineView::Indent,
            t("view = try! "@ + api.view_model + ".bincodeDeserialize(input: bridge.view())"@),
            t("continue"@),
            LineView::Unindent,
            t("}"@),
            t("dispatcher.dispatch(request)"@),
            LineView::Unindent,
            t("}"@),
        ]),
{
    let run = seq![
        t("for request in requests {"@),
        LineView::Indent,
        t("if case ."@ + swift_case_name(api.render) + " = request.effect {"@),
        LineView::Indent,
        t("view = try! "@ + api.view_model + ".bincodeDeserialize(input: bridge.view())"@),
        t("continue"@),
        LineView::Unindent,
        t("}"@),
        t("dispatcher.dispatch(request)"@),
        LineView::Unindent,
        t("}"@),
    ];
    let p2 = super::core_api::swift_core_part2(api);
    lemma_run_at(p2, run, 18);
    let a = super::core_api::swift_core_part1(api) + super::core_api::swift_convenience_init(api);
    lemma_run_after(a, p2, run);
    lemma_run_before(a + p2, super::core_api::swift_core_part3(api), run);
}

/// The Kotlin `Core` handles a batch of requests one by one: a render
/// re-reads the view and goes on with the next request (`continue`, not
/// leaving the loop), and every other request is dispatched.
pub proof fn law_kotlin_core_dispatches_every_other_request(api: CoreApiView)
    ensures
        has_run(kotlin_core_lines(api), seq![
            t("for (request in requests) {"@),
            LineView::Indent,
            t("if (request.effect is "@ + api.effect + "."@ + kotlin_class_name(api.render) + ") {"@),
            LineView::Indent,
            t("_view.value = "@ + api.view_model + ".bincodeDeserialize(bridge.view())"@),
            t("continue"@),
            LineView::Unindent,
            t("}"@),
            t("scope.launch { dispatcher.dispatch(request) }"@),
            LineView::Unindent,
            t("}"@),
        ]),
{
    let run = seq![
        t("for (request in requests) {"@),
        LineView::Indent,
        t("if (request.effect is "@ + api.effect + "."@ + kotlin_class_name(api.render) + ") {"@),
        LineView::Indent,
        t("_view.value = "@ + api.view_model + ".bincodeDeserialize(bridge.view())"@),
        t("continue"@),
        LineView::Unindent,
        t("}"@),
        t("scope.launch { dispatcher.dispatch(request) }"@),
        LineView::Unindent,
        t("}"@),
    ];
    let p2 = super::core_api::kotlin_core_part2(api);
    lemma_run_at(p2, run, 18);
    lemma_run_after(super::core_api::kotlin_core_part1(api) + super::core_api::kotlin_ffi_constructor(api), p2, run);
}

/// The TypeScript `Core` handles a batch of requests one by one: a render
/// re-reads the view, tells the shell, and goes on with the next request;
/// every other request is dispatched.
pub proof fn law_typescript_core_dispatches_every_other_request(
    api: CoreApiView,
    event_serialize: Seq<Seq<char>>,
    view_model: QualifiedNameView,
    view_model_enum: bool,
)
    ensures
        has_run(typescript_core_lines(api, event_serialize, view_model, view_model_enum), seq![
            t("for (const request of requests) {"@),
            LineView::Indent,
            t("if (request.effect.kind === \""@ + api.render + "\") {"@),
            LineView::Indent,
            t("this.view = this.readView();"@),
            t("this.onView(this.view);"@),
            t("continue;"@),
            LineView::Unindent,
            t("}"@),
            t("this.dispatcher.dispatch(request);"@),
            LineView::Unindent,
            t("}"@),
        ]),
{
    let run = seq![
        t("for (const request of requests) {"@),
        LineView::Indent,
        t("if (request.effect.kind === \""@ + api.render + "\") {"@),
        LineView::Indent,
        t("this.view = this.readView();"@),
        t("this.onView(this.view);"@),
        t("continue;"@),
        LineView::Unindent,
        t("}"@),
        t("this.dispatcher.dispatch(request);"@),
        LineView::Unindent,
        t("}"@),
    ];
    let p3 = super::core_api::typescript_core_part3(api, event_serialize, view_model, view_model_enum);
    lemma_run_at(p3, run, 15);
    let a = super::core_api::typescript_core_part1(api, event_serialize, view_model, view_model_enum)
        + super::core_api::typescript_create(api)
        + super::core_api::typescript_core_part2(api, event_serialize, view_model, view_model_enum)
        + text_views(event_serialize);
    lemma_run_after(a, p3, run);
    lemma_run_before(a + p3, super::core_api::typescript_core_part4(api, event_serialize, view_model, view_model_enum), run);
}

/// The C# `Core` handles a batch of requests one by one: a render re-reads
/// the view and goes on with the next request; every other request is
/// dispatched.
pub proof fn law_csharp_core_dispatches_every_other_request(
    api: CoreApiView,
    ns: Seq<char>,
    event_serialize: Seq<Seq<char>>,
    unit_enum: bool,
)
    ensures
        has_run(csharp_core_lines(api, ns, event_serialize, unit_enum), seq![
            t("foreach (var request in requests)"@),
            t("{"@),
            LineView::Indent,
            t("if (request.Effect is "@ + ns + "."@ + api.effect + "."@ + api.render + ")"@),
            t("{"@),
            LineView::Indent,
            t("View = ReadView();"@),
            t("continue;"@),
            LineView::Unindent,
            t("}"@),
            t("_dispatcher.Dispatch(request);"@),
            LineView::Unindent,
            t("}"@),
        ]),
{
    let run = seq![
        t("foreach (var request in requests)"@),
        t("{"@),
        LineView::Indent,
        t("if (request.Effect is "@ + ns + "."@ + api.effect + "."@ + api.render + ")"@),
        t("{"@),
        LineView::Indent,
        t("View = ReadView();"@),
        t("continue;"@),
        LineView::Unindent,
        t("}"@),
        t("_dispatcher.Dispatch(request);"@),
        LineView::Unindent,
        t("}"@),
    ];
    let p5 = super::core_api::csharp_core_part5(api, ns, event_serialize, unit_enum);
    lemma_run_at(p5, run, 18);
    let a = super::core_api::csharp_core_part1(api, ns, event_serialize, unit_enum)
        + super::core_api::csharp_core_part2(api, ns, event_serialize, unit_enum)
        + super::core_api::csharp_core_part3(api, ns, event_serialize, unit_enum)
        + super::core_api::csharp_ffi_constructor(api)
        + super::core_api::csharp_core_part4(api, ns, event_serialize, unit_enum)
        + text_views(event_serialize);
    lemma_run_after(a, p5, run);
    lemma_run_before(a + p5, super::core_api::csharp_core_part6(api, ns, event_serialize, unit_enum), run);
}

// The FFI bridges ------------------------------------------------------------

/// The Swift `FfiBridge` forwards each call to the bindings' class with the
/// arguments it was given: the event to `update`, the id and the output to
/// `resolve`.
pub proof fn law_swift_ffi_bridge_forwards(module: Seq<char>, class: Seq<char>)
    ensures
        has_run(swift_ffi_bridge_lines(module, class), seq![
            t("public func update(_ event: [UInt8]) -> [UInt8] {"@),
            LineView::Indent,
            t("[UInt8](ffi.update(data: Data(event)))"@),
            LineView::Unindent,
            t("}"@),
        ]),
        has_run(swift_ffi_bridge_lines(module, class), seq![
            t("public func resolve(_ id: UInt32, _ output: [UInt8]) -> [UInt8] {"@),
            LineView::Indent,
            t("[UInt8](ffi.resolve(id: id, data: Data(output)))"@),
            LineView::Unindent,
            t("}"@),
        ]),
        has_run(swift_ffi_bridge_lines(module, class), seq![
            t("public func view() -> [UInt8] {"@),
            LineView::Indent,
            t("[UInt8](ffi.view())"@),
            LineView::Unindent,
            t("}"@),
        ]),
{
    let l = swift_ffi_bridge_lines(module, class);
    lemma_run_at(l, seq![
        t("public func update(_ event: [UInt8]) -> [UInt8] {"@),
        LineView::Indent,
        t("[UInt8](ffi.update(data: Data(event)))"@),
        LineView::Unindent,
        t("}"@),
    ], 14);
    lemma_run_at(l, seq![
        t("public func resolve(_ id: UInt32, _ output: [UInt8]) -> [UInt8] {"@),
        LineView::Indent,
        t("[UInt8](ffi.resolve(id: id, data: Data(output)))"@),
        LineView::Unindent,
        t("}"@),
    ], 20);
    lemma_run_at(l, seq![
        t("public func view() -> [UInt8] {"@),
        LineView::Indent,
        t("[UInt8](ffi.view())"@),
        LineView::Unindent,
        t("}"@),
    ], 26);
}

/// The Kotlin `FfiBridge` forwards each call to the bindings' class with
/// the arguments it was given.
pub proof fn law_kotlin_ffi_bridge_forwards(class: Seq<char>)
    ensures
        has_run(kotlin_ffi_bridge_lines(class), seq![
            t("override fun update(event: ByteArray): ByteArray = ffi.update(event)"@),
            LineView::Text(Seq::empty()),
            t("override fun resolve(id: UInt, output: ByteArray): ByteArray = ffi.resolve(id, output)"@),
            LineView::Text(Seq::empty()),
            t("override fun view(): ByteArray = ffi.view()"@),
        ]),
{
    lemma_run_at(kotlin_ffi_bridge_lines(class), seq![
        t("override fun update(event: ByteArray): ByteArray = ffi.update(event)"@),
        LineView::Text(Seq::empty()),
        t("override fun resolve(id: UInt, output: ByteArray): ByteArray = ffi.resolve(id, output)"@),
        LineView::Text(Seq::empty()),
        t("override fun view(): ByteArray = ffi.view()"@),
    ], 9);
}

/// The C# `FfiBridge` forwards each call to the bindings' class with the
/// arguments it was given.
pub proof fn law_csharp_ffi_bridge_forwards(class: Seq<char>)
    ensures
        has_run(csharp_ffi_bridge_lines(class), seq![
            t("public byte[] Update(byte[] "@ + csharp_identifier("event"@) + ") => _ffi.Update("@ + csharp_identifier("event"@) + ");"@),
            LineView::Text(Seq::empty()),
            t("public byte[] Resolve(uint id, byte[] output) => _ffi.Resolve(id, output);"@),
            LineView::Text(Seq::empty()),
            t("public byte[] View() => _ffi.View();"@),
        ]),
{
    lemma_run_at(csharp_ffi_bridge_lines(class), seq![
        t("public byte[] Update(byte[] "@ + csharp_identifier("event"@) + ") => _ffi.Update("@ + csharp_identifier("event"@) + ");"@),
        LineView::Text(Seq::empty()),
        t("public byte[] Resolve(uint id, byte[] output) => _ffi.Resolve(id, output);"@),
        LineView::Text(Seq::empty()),
        t("public byte[] View() => _ffi.View();"@),
    ], 13);
}

// The request id decoders ------------------------------------------------------

/// The Swift decoder reads a request's kind the way the bridge lays the id
/// out (see `EffectId::kind`): a notification for the id zero, a request
/// when the stream bit is clear, a stream when it is set.
pub proof fn law_swift_decoder_reads_the_kind(effect: Seq<char>, names: Seq<Seq<char>>)
    ensures
        STREAM_BIT == 0x0080_0000u32,
        has_run(swift_lines(effect, names), seq![
            t("public var isNotification: Bool {"@),
            LineView::Indent,
            t("self.rawValue == 0"@),
        ]),
        has_run(swift_lines(effect, names), seq![
            t("public var requestKind: RequestKind {"@),
            LineView::Indent,
            t("if self.isNotification { return .notify }"@),
            t("return (self.rawValue & "@ + hex(STREAM_BIT as nat) + ") == 0 ? .request : .stream"@),
        ]),
{
    let p3 = super::request_id::swift_part3(effect, names);
    let a = super::request_id::swift_part1(effect, names) + super::request_id::swift_kind_cases(names, names.len())
        + super::request_id::swift_part2(effect, names);
    let r1 = seq![
        t("public var isNotification: Bool {"@),
        LineView::Indent,
        t("self.rawValue == 0"@),
    ];
    let r2 = seq![
        t("public var requestKind: RequestKind {"@),
        LineView::Indent,
        t("if self.isNotification { return .notify }"@),
        t("return (self.rawValue & "@ + hex(STREAM_BIT as nat) + ") == 0 ? .request : .stream"@),
    ];
    lemma_run_at(p3, r1, 19);
    lemma_run_at(p3, r2, 36);
    lemma_run_after(a, p3, r1);
    lemma_run_after(a, p3, r2);
}

/// The Kotlin decoder reads a request's kind the way the bridge lays the id
/// out (see `EffectId::kind`): a notification for the id zero, a request
/// when the stream bit is clear, a stream otherwise.
pub proof fn law_kotlin_decoder_reads_the_kind(effect: Seq<char>, names: Seq<Seq<char>>)
    ensures
        STREAM_BIT == 0x0080_0000u32,
        has_run(kotlin_lines(effect, names), seq![
            t("val isNotification: Boolean"@),
            LineView::Indent,
            t("get() = rawValue == 0u"@),
        ]),
        has_run(kotlin_lines(effect, names), seq![
            t("val requestKind: RequestKind"@),
            LineView::Indent,
            t("get() = when {"@),
            LineView::Indent,
            t("isNotification -> RequestKind.NOTIFY"@),
            t("(rawValue and "@ + hex(STREAM_BIT as nat) + "u) == 0u -> RequestKind.REQUEST"@),
            t("else -> RequestKind.STREAM"@),
        ]),
{
    let p3 = super::request_id::kotlin_part3(effect, names);
    let a = super::request_id::kotlin_part1(effect, names) + super::request_id::kotlin_kind_entries(names, names.len())
        + super::request_id::kotlin_part2(effect, names);
    let r1 = seq![
        t("val isNotification: Boolean"@),
        LineView::Indent,
        t("get() = rawValue == 0u"@),
    ];
    let r2 = seq![
        t("val requestKind: RequestKind"@),
        LineView::Indent,
        t("get() = when {"@),
        LineView::Indent,
        t("isNotification -> RequestKind.NOTIFY"@),
        t("(rawValue and "@ + hex(STREAM_BIT as nat) + "u) == 0u -> RequestKind.REQUEST"@),
        t("else -> RequestKind.STREAM"@),
    ];
    lemma_run_at(p3, r1, 10);
    lemma_run_at(p3, r2, 25);
    lemma_run_after(a, p3, r1);
    lemma_run_after(a, p3, r2);
}

/// The TypeScript decoder reads a request's kind the way the bridge lays
/// the id out (see `EffectId::kind`): a notification for the id zero, a
/// request when the stream bit is clear, a stream when it is set.
pub proof fn law_typescript_decoder_reads_the_kind(effect: Seq<char>, names: Seq<Seq<char>>)
    ensures
        STREAM_BIT == 0x0080_0000u32,
        has_run(typescript_lines(effect, names), seq![
            t("if (rawValue === 0) {"@),
            LineView::Indent,
            t("return {"@),
            LineView::Indent,
            t("rawValue,"@),
            t("isNotification: true,"@),
            t("effectKind: undefined,"@),
            t("requestKind: \"notify\","@),
        ]),
        has_run(typescript_lines(effect, names), seq![
            t("requestKind: (rawValue & "@ + hex(STREAM_BIT as nat) + ") === 0 ? \"request\" : \"stream\","@),
        ]),
{
    let p2 = super::request_id::typescript_part2(effect, names);
    let a = super::request_id::typescript_part1(effect, names);
    let r1 = seq![
        t("if (rawValue === 0) {"@),
        LineView::Indent,
        t("return {"@),
        LineView::Indent,
        t("rawValue,"@),
        t("isNotification: true,"@),
        t("effectKind: undefined,"@),
        t("requestKind: \"notify\","@),
    ];
    let r2 = seq![
        t("requestKind: (rawValue & "@ + hex(STREAM_BIT as nat) + ") === 0 ? \"request\" : \"stream\","@),
    ];
    lemma_run_at(p2, r1, 28);
    lemma_run_at(p2, r2, 46);
    lemma_run_after(a, p2, r1);
    lemma_run_after(a, p2, r2);
}

/// The C# decoder reads a request's kind the way the bridge lays the id out
/// (see `EffectId::kind`): a notification for the id zero, a request when
/// the stream bit is clear, a stream when it is set.
pub proof fn law_csharp_decoder_reads_the_kind(effect: Seq<char>, names: Seq<Seq<char>>, ns: Seq<char>)
    ensures
        STREAM_BIT == 0x0080_0000u32,
        has_run(csharp_lines(effect, names, ns), seq![
            t("public bool IsNotification => RawValue == 0;"@),
        ]),
        has_run(csharp_lines(effect, names, ns), seq![
            t("if (IsNotification)"@),
            t("{"@),
            LineView::Indent,
            t("return "@ + ns + ".RequestKind.Notify;"@),
            LineView::Unindent,
            t("}"@),
            t("return (RawValue & "@ + hex(STREAM_BIT as nat) + "u) == 0 ? "@ + ns + ".RequestKind.Request : "@ + ns + ".RequestKind.Stream;"@),
        ]),
{
    let r1 = seq![
        t("public bool IsNotification => RawValue == 0;"@),
    ];
    let r2 = seq![
        t("if (IsNotification)"@),
        t("{"@),
        LineView::Indent,
        t("return "@ + ns + ".RequestKind.Notify;"@),
        LineView::Unindent,
        t("}"@),
        t("return (RawValue & "@ + hex(STREAM_BIT as nat) + "u) == 0 ? "@ + ns + ".RequestKind.Request : "@ + ns + ".RequestKind.Stream;"@),
    ];
    let p3 = super::request_id::csharp_part3(effect, names, ns);
    let p7 = super::request_id::csharp_part7(effect, names, ns);
    let a = super::request_id::csharp_part1(effect, names, ns) + super::request_id::csharp_kind_members(names, names.len())
        + super::request_id::csharp_part2(effect, names, ns);
    let b = super::request_id::csharp_part4(effect, names, ns) + super::request_id::csharp_kind_arms(names, names.len(), ns)
        + super::request_id::csharp_part5(effect, names, ns) + super::request_id::csharp_part6(effect, names, ns);
    let c = super::request_id::csharp_part8(effect, names, ns);
    let l = csharp_lines(effect, names, ns);
    assert(l =~= (a + p3) + (b + p7 + c));
    lemma_run_at(p3, r1, 15);
    lemma_run_after(a, p3, r1);
    lemma_run_before(a + p3, b + p7 + c, r1);
    lemma_run_at(p7, r2, 9);
    lemma_run_after(b, p7, r2);
    lemma_run_before(b + p7, c, r2);
    lemma_run_after(a + p3, b + p7 + c, r2);
}


// The dispatcher ---------------------------------------------------------------

proof fn lemma_texts_differ(a: Seq<char>, b: Seq<char>, k: int)
    requires
        0 <= k < a.len(),
        k < b.len(),
        a[k] != b[k],
    ensures
        t(a) != t(b),
{
}

/// The line with which the TypeScript dispatcher resolves a request.
pub open spec fn typescript_resolve_line() -> LineView {
    t("this.resolve(id, serializer.getBytes());"@)
}

/// The TypeScript dispatcher resolves a request exactly once, with its
/// output serialized: inside the callback that receives the handler's
/// output, the variant's serialization lines run and the request is then
/// resolved with the serializer's bytes; outside that block the dispatcher's
/// `case` resolves nothing.
pub proof fn law_typescript_request_is_resolved_once_with_its_output(v: HandlerVariantView)
    requires
        v.kind == Some(RequestKind::Request),
    ensures
        exists|p: Seq<LineView>, s: Seq<LineView>|
            typescript_case(v) == p + (seq![
                t("void this.handler."@ + heck_lower_camel(v.name) + "(effect.value).then((output) => {"@),
                LineView::Indent,
                t("const serializer = new BincodeSerializer();"@),
            ] + text_views(v.serialize) + seq![
                typescript_resolve_line(),
                LineView::Unindent,
                t("});"@),
            ]) + s && !p.contains(typescript_resolve_line()) && !s.contains(typescript_resolve_line()),
{
    let r = "this.resolve(id, serializer.getBytes());"@;
    reveal_strlit("this.resolve(id, serializer.getBytes());");
    reveal_strlit("case \"");
    reveal_strlit("break;");
    reveal_strlit("}");
    let c = "case \""@ + v.name + "\": {"@;
    assert(c[0] == 'c');
    lemma_texts_differ(c, r, 0);
    lemma_texts_differ("break;"@, r, 0);
    lemma_texts_differ("}"@, r, 0);
    let p = seq![t(c), LineView::Indent];
    let s = seq![t("break;"@), LineView::Unindent, t("}"@)];
    let run = seq![
        t("void this.handler."@ + heck_lower_camel(v.name) + "(effect.value).then((output) => {"@),
        LineView::Indent,
        t("const serializer = new BincodeSerializer();"@),
    ] + text_views(v.serialize) + seq![
        typescript_resolve_line(),
        LineView::Unindent,
        t("});"@),
    ];
    assert(typescript_case(v) =~= p + run + s);
    assert(!p.contains(typescript_resolve_line())) by {
        assert(p[0] != typescript_resolve_line());
        assert(p[1] != typescript_resolve_line());
    }
    assert(!s.contains(typescript_resolve_line())) by {
        assert(s[0] != typescript_resolve_line());
        assert(s[1] != typescript_resolve_line());
        assert(s[2] != typescript_resolve_line());
    }
}

/// The TypeScript dispatcher never resolves a notification.
pub proof fn law_typescript_notification_is_never_resolved(v: HandlerVariantView)
    requires
        v.kind == Some(RequestKind::Notify),
    ensures
        !typescript_case(v).contains(typescript_resolve_line()),
{
    let r = "this.resolve(id, serializer.getBytes());"@;
    reveal_strlit("this.resolve(id, serializer.getBytes());");
    reveal_strlit("case \"");
    reveal_strlit("this.handler.");
    reveal_strlit("break;");
    reveal_strlit("}");
    let c = "case \""@ + v.name + "\": {"@;
    assert(c[0] == 'c');
    let h = "this.handler."@ + heck_lower_camel(v.name) + "(effect.value);"@;
    assert(h[5] == 'h');
    lemma_texts_differ(c, r, 0);
    lemma_texts_differ(h, r, 5);
    lemma_texts_differ("break;"@, r, 0);
    lemma_texts_differ("}"@, r, 0);
    let l = typescript_case(v);
    assert(l =~= seq![t(c), LineView::Indent, t(h), t("break;"@), LineView::Unindent, t("}"@)]);
    assert forall|i: int| 0 <= i < l.len() implies l[i] != typescript_resolve_line() by {}
}

/// The TypeScript dispatcher resolves a stream once per item its sink is
/// sent, each time with the item serialized.
pub proof fn law_typescript_stream_item_is_resolved(v: HandlerVariantView)
    requires
        v.kind == Some(RequestKind::Stream),
    ensures
        has_run(typescript_case(v), seq![
            t("this.handler."@ + heck_lower_camel(v.name) + "(effect.value, {"@),
            LineView::Indent,
            t("send: (item) => {"@),
            LineView::Indent,
            t("const serializer = new BincodeSerializer();"@),
        ] + text_views(v.serialize) + seq![
            typescript_resolve_line(),
            LineView::Unindent,
            t("},"@),
            LineView::Unindent,
            t("});"@),
        ]),
{
    let run = seq![
        t("this.handler."@ + heck_lower_camel(v.name) + "(effect.value, {"@),
        LineView::Indent,
        t("send: (item) => {"@),
        LineView::Indent,
        t("const serializer = new BincodeSerializer();"@),
    ] + text_views(v.serialize) + seq![
        typescript_resolve_line(),
        LineView::Unindent,
        t("},"@),
        LineView::Unindent,
        t("});"@),
    ];
    let p = seq![t("case \""@ + v.name + "\": {"@), LineView::Indent];
    let s = seq![t("break;"@), LineView::Unindent, t("}"@)];
    assert(typescript_case(v) =~= p + run + s);
    lemma_run_between(p, run, s);
}

/// The Swift dispatcher resolves a request once the handler returns, with
/// its output serialized.
pub proof fn law_swift_request_is_resolved_with_its_output(v: HandlerVariantView)
    requires
        v.kind == Some(RequestKind::Request),
    ensures
        has_run(swift_case(v), seq![
            t("Task {"@),
            LineView::Indent,
            t("let output = await handler."@ + swift_case_name(v.name) + "(operation)"@),
            t("resolve(id, serializeEffectOutput { serializer in"@),
            LineView::Indent,
        ] + text_views(v.serialize) + seq![
            LineView::Unindent,
            t("})"@),
            LineView::Unindent,
            t("}"@),
        ]),
{
    let run = seq![
        t("Task {"@),
        LineView::Indent,
        t("let output = await handler."@ + swift_case_name(v.name) + "(operation)"@),
        t("resolve(id, serializeEffectOutput { serializer in"@),
        LineView::Indent,
    ] + text_views(v.serialize) + seq![
        LineView::Unindent,
        t("})"@),
        LineView::Unindent,
        t("}"@),
    ];
    let p = seq![t("case ."@ + swift_case_name(v.name) + "(let operation):"@), LineView::Indent];
    let s = seq![LineView::Unindent];
    assert(swift_case(v) =~= p + run + s);
    lemma_run_between(p, run, s);
}

/// The Swift dispatcher resolves a stream once per item its sink is sent,
/// each time with the item serialized.
pub proof fn law_swift_stream_item_is_resolved(v: HandlerVariantView)
    requires
        v.kind == Some(RequestKind::Stream),
    ensures
        has_run(swift_case(v), seq![
            t("handler."@ + swift_case_name(v.name) + "(operation, into: EffectSink { item in"@),
            LineView::Indent,
            t("resolve(id, serializeEffectOutput { serializer in"@),
            LineView::Indent,
        ] + text_views(v.serialize) + seq![
            LineView::Unindent,
            t("})"@),
            LineView::Unindent,
            t("})"@),
        ]),
{
    let run = seq![
        t("handler."@ + swift_case_name(v.name) + "(operation, into: EffectSink { item in"@),
        LineView::Indent,
        t("resolve(id, serializeEffectOutput { serializer in"@),
        LineView::Indent,
    ] + text_views(v.serialize) + seq![
        LineView::Unindent,
        t("})"@),
        LineView::Unindent,
        t("})"@),
    ];
    let p = seq![t("case ."@ + swift_case_name(v.name) + "(let operation):"@), LineView::Indent];
    let s = seq![LineView::Unindent];
    assert(swift_case(v) =~= p + run + s);
    lemma_run_between(p, run, s);
}

/// The Kotlin dispatcher resolves a request once the handler returns, with
/// its output serialized.
pub proof fn law_kotlin_request_is_resolved_with_its_output(effect: Seq<char>, v: HandlerVariantView)
    requires
        v.kind == Some(RequestKind::Request),
    ensures
        has_run(kotlin_case(effect, v), seq![
            t("is "@ + effect + "."@ + kotlin_class_name(v.name) + " -> "@ + "{"@),
            LineView::Indent,
            t("val output = handler."@ + heck_lower_camel(v.name) + "(effect.value)"@),
            t("resolve(id, effectOutputBytes { serializer ->"@),
            LineView::Indent,
        ] + text_views(v.serialize) + seq![
            LineView::Unindent,
            t("})"@),
            LineView::Unindent,
            t("}"@),
        ]),
{
    let run = seq![
        t("is "@ + effect + "."@ + kotlin_class_name(v.name) + " -> "@ + "{"@),
        LineView::Indent,
        t("val output = handler."@ + heck_lower_camel(v.name) + "(effect.value)"@),
        t("resolve(id, effectOutputBytes { serializer ->"@),
        LineView::Indent,
    ] + text_views(v.serialize) + seq![
        LineView::Unindent,
        t("})"@),
        LineView::Unindent,
        t("}"@),
    ];
    assert(kotlin_case(effect, v) =~= Seq::empty() + run + Seq::empty());
    lemma_run_between(Seq::empty(), run, Seq::empty());
}

/// The Kotlin dispatcher resolves a stream once per item the handler hands
/// back, each time with the item serialized.
pub proof fn law_kotlin_stream_item_is_resolved(effect: Seq<char>, v: HandlerVariantView)
    requires
        v.kind == Some(RequestKind::Stream),
    ensures
        has_run(kotlin_case(effect, v), seq![
            t("is "@ + effect + "."@ + kotlin_class_name(v.name) + " -> "@ + "handler."@ + heck_lower_camel(v.name) + "(effect.value) { item ->"@),
            LineView::Indent,
            t("resolve(id, effectOutputBytes { serializer ->"@),
            LineView::Indent,
        ] + text_views(v.serialize) + seq![
            LineView::Unindent,
            t("})"@),
            LineView::Unindent,
            t("}"@),
        ]),
{
    let run = seq![
        t("is "@ + effect + "."@ + kotlin_class_name(v.name) + " -> "@ + "handler."@ + heck_lower_camel(v.name) + "(effect.value) { item ->"@),
        LineView::Indent,
        t("resolve(id, effectOutputBytes { serializer ->"@),
        LineView::Indent,
    ] + text_views(v.serialize) + seq![
        LineView::Unindent,
        t("})"@),
        LineView::Unindent,
        t("}"@),
    ];
    assert(kotlin_case(effect, v) =~= Seq::empty() + run + Seq::empty());
    lemma_run_between(Seq::empty(), run, Seq::empty());
}

/// The C# dispatcher hands a request to its asynchronous method, which
/// awaits the handler and resolves the request with its output serialized.
pub proof fn law_csharp_request_is_resolved_with_its_output(ns: Seq<char>, effect: Seq<char>, v: HandlerVariantView)
    requires
        v.kind == Some(RequestKind::Request),
    ensures
        has_run(csharp_case(ns, effect, v), seq![
            t("_ = Dispatch"@ + v.name + "("@ + csharp_identifier(heck_lower_camel(v.name)) + ".Value, id);"@),
        ]),
        has_run(csharp_async_helper(v), seq![
            t("private async Task Dispatch"@ + v.name + "("@ + v.operation + " operation, uint id)"@),
            t("{"@),
            LineView::Indent,
            t("var output = await _handler."@ + csharp_identifier(v.name) + "(operation);"@),
            t("var serializer = new BincodeSerializer();"@),
        ] + text_views(v.serialize) + seq![
            t("_resolve(id, serializer.GetBytes());"@),
            LineView::Unindent,
            t("}"@),
        ]),
{
    let b = csharp_identifier(heck_lower_camel(v.name));
    let c = seq![t("_ = Dispatch"@ + v.name + "("@ + b + ".Value, id);"@)];
    let cp = seq![t("case "@ + ns + "."@ + effect + "."@ + v.name + " "@ + b + ":"@), LineView::Indent];
    let cs = seq![t("break;"@), LineView::Unindent];
    assert(csharp_case(ns, effect, v) =~= cp + c + cs);
    lemma_run_between(cp, c, cs);
    let run = seq![
        t("private async Task Dispatch"@ + v.name + "("@ + v.operation + " operation, uint id)"@),
        t("{"@),
        LineView::Indent,
        t("var output = await _handler."@ + csharp_identifier(v.name) + "(operation);"@),
        t("var serializer = new BincodeSerializer();"@),
    ] + text_views(v.serialize) + seq![
        t("_resolve(id, serializer.GetBytes());"@),
        LineView::Unindent,
        t("}"@),
    ];
    let p = seq![LineView::Text(Seq::empty())];
    assert(csharp_async_helper(v) =~= p + run + Seq::empty());
    lemma_run_between(p, run, Seq::empty());
}

/// The C# dispatcher resolves a stream once per item its sink is sent, each
/// time with the item serialized.
pub proof fn law_csharp_stream_item_is_resolved(ns: Seq<char>, effect: Seq<char>, v: HandlerVariantView)
    requires
        v.kind == Some(RequestKind::Stream),
    ensures
        has_run(csharp_case(ns, effect, v), seq![
            t("_handler."@ + csharp_identifier(v.name) + "("@ + csharp_identifier(heck_lower_camel(v.name))
                + ".Value, new DelegateEffectSink<"@ + output_or(v, "object"@) + ">(item =>"@),
            t("{"@),
            LineView::Indent,
            t("var serializer = new BincodeSerializer();"@),
        ] + text_views(v.serialize) + seq![
            t("_resolve(id, serializer.GetBytes());"@),
            LineView::Unindent,
            t("}));"@),
        ]),
{
    let b = csharp_identifier(heck_lower_camel(v.name));
    let run = seq![
        t("_handler."@ + csharp_identifier(v.name) + "("@ + b + ".Value, new DelegateEffectSink<"@ + output_or(v, "object"@) + ">(item =>"@),
        t("{"@),
        LineView::Indent,
        t("var serializer = new BincodeSerializer();"@),
    ] + text_views(v.serialize) + seq![
        t("_resolve(id, serializer.GetBytes());"@),
        LineView::Unindent,
        t("}));"@),
    ];
    let cp = seq![t("case "@ + ns + "."@ + effect + "."@ + v.name + " "@ + b + ":"@), LineView::Indent];
    let cs = seq![t("break;"@), LineView::Unindent];
    assert(csharp_case(ns, effect, v) =~= cp + run + cs);
    lemma_run_between(cp, run, cs);
}

} // verus!
