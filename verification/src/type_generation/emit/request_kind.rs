//! `RequestKind` and the accessor that reports which kind an effect's
//! variant is, in each language. The kind is static per operation, so the
//! shell reads it off the effect it already has.
use vstd::prelude::*;

use crate::capability::RequestKind;
use super::super::kind_spelling::{kind_literal, kind_literal_spec};
use super::super::naming::{heck_lower_camel, lower_camel};
use super::super::plugins::{Matched, Variant};
use super::super::shell_handler_plugin::Language;
use super::lines::{append_lines, blank, blank_view, line, t, text, views, Line, LineView};
use super::names::{case_name, kotlin_class_name, swift_case_name, variant_class_name};

verus! {

/// Each variant's emitted name and the kind its operation declares.
pub open spec fn kinded(vs: Seq<Variant>) -> Seq<(Seq<char>, Option<RequestKind>)> {
    vs.map_values(|v: Variant| (v.name@, v.kind))
}

// Swift ---------------------------------------------------------------------

/// The `switch` arm for a variant named `name` whose operation declares `kind`.
pub open spec fn swift_kind_arm(name: Seq<char>, kind: Option<RequestKind>) -> LineView {
    t("case ."@ + swift_case_name(name) + ": return "@ + kind_literal_spec(Language::Swift, kind, Seq::empty()))
}

/// The arms for the first `n` of the variants `vars`.
pub open spec fn swift_kind_arms(vars: Seq<(Seq<char>, Option<RequestKind>)>, n: nat) -> Seq<LineView> {
    Seq::new(n, |j: int| swift_kind_arm(vars[j].0, vars[j].1))
}

/// A run of fixed lines of [`swift_kind`].
pub open spec fn swift_kind_part1() -> Seq<LineView> {
    seq![
        blank_view(),
        t("/// How many times the shell is expected to resolve a request."@),
        t("public enum RequestKind: Hashable, Sendable {"@),
        LineView::Indent,
        t("/// Never — the core is not waiting for an answer."@),
        t("case notify"@),
        t("/// Exactly once."@),
        t("case request"@),
        t("/// Any number of times, until the shell stops sending."@),
        t("case stream"@),
        LineView::Unindent,
        t("}"@),
    ]
}

/// Swift: the `RequestKind` enum.
pub open spec fn swift_kind_lines() -> Seq<LineView> {
    swift_kind_part1()
}

/// Swift: the `RequestKind` enum.
pub fn swift_kind(out: &mut Vec<Line>)
    ensures
        views(final(out)@) == views(old(out)@) + swift_kind_lines(),
{
    let ghost s0 = views(out@);
    let chunk = vec![
        blank(),
        text("/// How many times the shell is expected to resolve a request."),
        text("public enum RequestKind: Hashable, Sendable {"),
        Line::Indent,
        text("/// Never — the core is not waiting for an answer."),
        text("case notify"),
        text("/// Exactly once."),
        text("case request"),
        text("/// Any number of times, until the shell stops sending."),
        text("case stream"),
        Line::Unindent,
        text("}"),
    ];
    assert(views(chunk@) =~= swift_kind_part1());
    append_lines(out, chunk);
    assert(views(out@) =~= s0 + swift_kind_lines());
}

/// A run of fixed lines of [`swift_accessor`].
pub open spec fn swift_accessor_part1(effect_v: Seq<char>, vars_v: Seq<(Seq<char>, Option<RequestKind>)>) -> Seq<LineView> {
    seq![
        blank_view(),
        t("extension "@ + effect_v + " {"@),
        LineView::Indent,
        t("/// How many times the shell resolves a request carrying this effect,"@),
        t("/// or `nil` when the operation leaves that to the call site."@),
        t("public var requestKind: RequestKind? {"@),
        LineView::Indent,
        t("switch self {"@),
    ]
}

/// A run of fixed lines of [`swift_accessor`].
pub open spec fn swift_accessor_part2(effect_v: Seq<char>, vars_v: Seq<(Seq<char>, Option<RequestKind>)>) -> Seq<LineView> {
    seq![
        t("}"@),
        LineView::Unindent,
        t("}"@),
        LineView::Unindent,
        t("}"@),
    ]
}

/// Swift: an extension on the effect `m` with a `requestKind` property
/// that switches over its variants.
pub open spec fn swift_accessor_lines(effect_v: Seq<char>, vars_v: Seq<(Seq<char>, Option<RequestKind>)>) -> Seq<LineView> {
    swift_accessor_part1(effect_v, vars_v) + swift_kind_arms(vars_v, vars_v.len()) + swift_accessor_part2(effect_v, vars_v)
}

/// Swift: an extension on the effect `m` with a `requestKind` property
/// that switches over its variants.
pub fn swift_accessor(out: &mut Vec<Line>, m: &Matched)
    ensures
        views(final(out)@) == views(old(out)@) + swift_accessor_lines(m.name@, kinded(m.variants@)),
{
    let ghost s0 = views(out@);
    let ghost effect_v = m.name@;
    let ghost vars_v = kinded(m.variants@);
    let chunk = vec![
        blank(),
        Line::Text(String::from_str("extension ").concat(m.name).concat(" {")),
        Line::Indent,
        text("/// How many times the shell resolves a request carrying this effect,"),
        text("/// or `nil` when the operation leaves that to the call site."),
        text("public var requestKind: RequestKind? {"),
        Line::Indent,
        text("switch self {"),
    ];
    assert(views(chunk@) =~= swift_accessor_part1(effect_v, vars_v));
    append_lines(out, chunk);
    let ghost before = views(out@);
    let mut i: usize = 0;
    while i < m.variants.len()
        invariant
            0 <= i <= m.variants@.len(),
            vars_v == kinded(m.variants@),
            effect_v == m.name@,
            views(out@) == before + swift_kind_arms(vars_v, i as nat),
        decreases m.variants.len() - i,
    {
        let v = &m.variants[i];
        let case = case_name(v.name);
        let kind = kind_literal(Language::Swift, v.kind, "");
        let l = line(String::from_str("case .").concat(case.as_str()).concat(": return ").concat(kind.as_str()));
        assert(l@ == swift_kind_arm(vars_v[i as int].0, vars_v[i as int].1));
        let ghost b = out@;
        out.push(l);
        assert(views(out@) =~= views(b).push(l@));
        assert(swift_kind_arms(vars_v, (i + 1) as nat) =~= swift_kind_arms(vars_v, i as nat).push(l@));
        i = i + 1;
    }
    assert(views(out@) == before + (swift_kind_arms(vars_v, vars_v.len())));
    let chunk = vec![
        text("}"),
        Line::Unindent,
        text("}"),
        Line::Unindent,
        text("}"),
    ];
    assert(views(chunk@) =~= swift_accessor_part2(effect_v, vars_v));
    append_lines(out, chunk);
    assert(views(out@) =~= s0 + swift_accessor_lines(m.name@, kinded(m.variants@)));
}

// Kotlin --------------------------------------------------------------------

/// The `when` arm for a variant named `name` of the effect `effect` whose
/// operation declares `kind`.
pub open spec fn kotlin_kind_arm(effect: Seq<char>, name: Seq<char>, kind: Option<RequestKind>) -> LineView {
    t("is "@ + effect + "."@ + kotlin_class_name(name) + " -> "@ + kind_literal_spec(Language::Kotlin, kind, Seq::empty()))
}

/// The arms for the first `n` of the variants `vars` of `effect`.
pub open spec fn kotlin_kind_arms(effect: Seq<char>, vars: Seq<(Seq<char>, Option<RequestKind>)>, n: nat) -> Seq<LineView> {
    Seq::new(n, |j: int| kotlin_kind_arm(effect, vars[j].0, vars[j].1))
}

/// A run of fixed lines of [`kotlin_kind`].
pub open spec fn kotlin_kind_part1() -> Seq<LineView> {
    seq![
        blank_view(),
        t("/// How many times the shell is expected to resolve a request."@),
        t("enum class RequestKind {"@),
        LineView::Indent,
        t("/// Never — the core is not waiting for an answer."@),
        t("NOTIFY,"@),
        t("/// Exactly once."@),
        t("REQUEST,"@),
        t("/// Any number of times, until the shell stops sending."@),
        t("STREAM,"@),
        LineView::Unindent,
        t("}"@),
    ]
}

/// Kotlin: the `RequestKind` enum class.
pub open spec fn kotlin_kind_lines() -> Seq<LineView> {
    kotlin_kind_part1()
}

/// Kotlin: the `RequestKind` enum class.
pub fn kotlin_kind(out: &mut Vec<Line>)
    ensures
        views(final(out)@) == views(old(out)@) + kotlin_kind_lines(),
{
    let ghost s0 = views(out@);
    let chunk = vec![
        blank(),
        text("/// How many times the shell is expected to resolve a request."),
        text("enum class RequestKind {"),
        Line::Indent,
        text("/// Never — the core is not waiting for an answer."),
        text("NOTIFY,"),
        text("/// Exactly once."),
        text("REQUEST,"),
        text("/// Any number of times, until the shell stops sending."),
        text("STREAM,"),
        Line::Unindent,
        text("}"),
    ];
    assert(views(chunk@) =~= kotlin_kind_part1());
    append_lines(out, chunk);
    assert(views(out@) =~= s0 + kotlin_kind_lines());
}

/// A run of fixed lines of [`kotlin_accessor`].
pub open spec fn kotlin_accessor_part1(effect_v: Seq<char>, vars_v: Seq<(Seq<char>, Option<RequestKind>)>) -> Seq<LineView> {
    seq![
        blank_view(),
        t("/// How many times the shell resolves a request carrying this effect,"@),
        t("/// or `null` when the operation leaves that to the call site."@),
        t("val "@ + effect_v + ".requestKind: RequestKind?"@),
        LineView::Indent,
        t("get() = when (this) {"@),
        LineView::Indent,
    ]
}

/// A run of fixed lines of [`kotlin_accessor`].
pub open spec fn kotlin_accessor_part2(effect_v: Seq<char>, vars_v: Seq<(Seq<char>, Option<RequestKind>)>) -> Seq<LineView> {
    seq![
        LineView::Unindent,
        t("}"@),
        LineView::Unindent,
    ]
}

/// Kotlin: a `requestKind` extension property on the effect `m`.
pub open spec fn kotlin_accessor_lines(effect_v: Seq<char>, vars_v: Seq<(Seq<char>, Option<RequestKind>)>) -> Seq<LineView> {
    kotlin_accessor_part1(effect_v, vars_v) + kotlin_kind_arms(effect_v, vars_v, vars_v.len()) + kotlin_accessor_part2(effect_v, vars_v)
}

/// Kotlin: a `requestKind` extension property on the effect `m`.
pub fn kotlin_accessor(out: &mut Vec<Line>, m: &Matched)
    ensures
        views(final(out)@) == views(old(out)@) + kotlin_accessor_lines(m.name@, kinded(m.variants@)),
{
    let ghost s0 = views(out@);
    let ghost effect_v = m.name@;
    let ghost vars_v = kinded(m.variants@);
    let chunk = vec![
        blank(),
        text("/// How many times the shell resolves a request carrying this effect,"),
        text("/// or `null` when the operation leaves that to the call site."),
        Line::Text(String::from_str("val ").concat(m.name).concat(".requestKind: RequestKind?")),
        Line::Indent,
        text("get() = when (this) {"),
        Line::Indent,
    ];
    assert(views(chunk@) =~= kotlin_accessor_part1(effect_v, vars_v));
    append_lines(out, chunk);
    let ghost before = views(out@);
    let mut i: usize = 0;
    while i < m.variants.len()
        invariant
            0 <= i <= m.variants@.len(),
            vars_v == kinded(m.variants@),
            effect_v == m.name@,
            views(out@) == before + kotlin_kind_arms(effect_v, vars_v, i as nat),
        decreases m.variants.len() - i,
    {
        let v = &m.variants[i];
        let class = variant_class_name(v.name);
        let kind = kind_literal(Language::Kotlin, v.kind, "");
        let l = line(String::from_str("is ").concat(m.name).concat(".").concat(class.as_str()).concat(" -> ").concat(kind.as_str()));
        assert(l@ == kotlin_kind_arm(effect_v, vars_v[i as int].0, vars_v[i as int].1));
        let ghost b = out@;
        out.push(l);
        assert(views(out@) =~= views(b).push(l@));
        assert(kotlin_kind_arms(effect_v, vars_v, (i + 1) as nat) =~= kotlin_kind_arms(effect_v, vars_v, i as nat).push(l@));
        i = i + 1;
    }
    assert(views(out@) == before + (kotlin_kind_arms(effect_v, vars_v, vars_v.len())));
    let chunk = vec![
        Line::Unindent,
        text("}"),
        Line::Unindent,
    ];
    assert(views(chunk@) =~= kotlin_accessor_part2(effect_v, vars_v));
    append_lines(out, chunk);
    assert(views(out@) =~= s0 + kotlin_accessor_lines(m.name@, kinded(m.variants@)));
}

// TypeScript ----------------------------------------------------------------

/// The `case` for a variant named `name` whose operation declares `kind`.
pub open spec fn typescript_kind_arm(name: Seq<char>, kind: Option<RequestKind>) -> LineView {
    t("case \""@ + name + "\": return "@ + kind_literal_spec(Language::TypeScript, kind, Seq::empty()) + ";"@)
}

/// The cases for the first `n` of the variants `vars`.
pub open spec fn typescript_kind_arms(vars: Seq<(Seq<char>, Option<RequestKind>)>, n: nat) -> Seq<LineView> {
    Seq::new(n, |j: int| typescript_kind_arm(vars[j].0, vars[j].1))
}

/// A run of fixed lines of [`typescript_kind`].
pub open spec fn typescript_kind_part1() -> Seq<LineView> {
    seq![
        blank_view(),
        t("/// How many times the shell is expected to resolve a request:"@),
        t("/// `notify` never, `request` exactly once, `stream` any number of times."@),
        t("export type RequestKind = \"notify\" | \"request\" | \"stream\";"@),
    ]
}

/// TypeScript: the `RequestKind` string union.
pub open spec fn typescript_kind_lines() -> Seq<LineView> {
    typescript_kind_part1()
}

/// TypeScript: the `RequestKind` string union.
pub fn typescript_kind(out: &mut Vec<Line>)
    ensures
        views(final(out)@) == views(old(out)@) + typescript_kind_lines(),
{
    let ghost s0 = views(out@);
    let chunk = vec![
        blank(),
        text("/// How many times the shell is expected to resolve a request:"),
        text("/// `notify` never, `request` exactly once, `stream` any number of times."),
        text("export type RequestKind = \"notify\" | \"request\" | \"stream\";"),
    ];
    assert(views(chunk@) =~= typescript_kind_part1());
    append_lines(out, chunk);
    assert(views(out@) =~= s0 + typescript_kind_lines());
}

/// A run of fixed lines of [`typescript_accessor`].
pub open spec fn typescript_accessor_part1(effect_v: Seq<char>, vars_v: Seq<(Seq<char>, Option<RequestKind>)>) -> Seq<LineView> {
    seq![
        blank_view(),
        t("/// How many times the shell resolves a request carrying this effect,"@),
        t("/// or `undefined` when the operation leaves that to the call site."@),
        t("export function "@ + (heck_lower_camel(effect_v) + "RequestKind"@) + "(effect: "@ + effect_v + "): RequestKind | undefined {"@),
        LineView::Indent,
        t("switch (effect.kind) {"@),
        LineView::Indent,
    ]
}

/// A run of fixed lines of [`typescript_accessor`].
pub open spec fn typescript_accessor_part2(effect_v: Seq<char>, vars_v: Seq<(Seq<char>, Option<RequestKind>)>) -> Seq<LineView> {
    seq![
        t("default: return undefined;"@),
        LineView::Unindent,
        t("}"@),
        LineView::Unindent,
        t("}"@),
    ]
}

/// TypeScript: a free function that reads the kind off an effect `m`,
/// named after the effect in lower camel case.
pub open spec fn typescript_accessor_lines(effect_v: Seq<char>, vars_v: Seq<(Seq<char>, Option<RequestKind>)>) -> Seq<LineView> {
    typescript_accessor_part1(effect_v, vars_v) + typescript_kind_arms(vars_v, vars_v.len()) + typescript_accessor_part2(effect_v, vars_v)
}

/// TypeScript: a free function that reads the kind off an effect `m`,
/// named after the effect in lower camel case.
pub fn typescript_accessor(out: &mut Vec<Line>, m: &Matched)
    ensures
        views(final(out)@) == views(old(out)@) + typescript_accessor_lines(m.name@, kinded(m.variants@)),
{
    let ghost s0 = views(out@);
    let ghost effect_v = m.name@;
    let ghost vars_v = kinded(m.variants@);
    let function = lower_camel(m.name).concat("RequestKind");
    let chunk = vec![
        blank(),
        text("/// How many times the shell resolves a request carrying this effect,"),
        text("/// or `undefined` when the operation leaves that to the call site."),
        Line::Text(String::from_str("export function ").concat(function.as_str()).concat("(effect: ").concat(m.name).concat("): RequestKind | undefined {")),
        Line::Indent,
        text("switch (effect.kind) {"),
        Line::Indent,
    ];
    assert(views(chunk@) =~= typescript_accessor_part1(effect_v, vars_v));
    append_lines(out, chunk);
    let ghost before = views(out@);
    let mut i: usize = 0;
    while i < m.variants.len()
        invariant
            0 <= i <= m.variants@.len(),
            vars_v == kinded(m.variants@),
            effect_v == m.name@,
            views(out@) == before + typescript_kind_arms(vars_v, i as nat),
        decreases m.variants.len() - i,
    {
        let v = &m.variants[i];
        let kind = kind_literal(Language::TypeScript, v.kind, "");
        let l = line(String::from_str("case \"").concat(v.name).concat("\": return ").concat(kind.as_str()).concat(";"));
        assert(l@ == typescript_kind_arm(vars_v[i as int].0, vars_v[i as int].1));
        let ghost b = out@;
        out.push(l);
        assert(views(out@) =~= views(b).push(l@));
        assert(typescript_kind_arms(vars_v, (i + 1) as nat) =~= typescript_kind_arms(vars_v, i as nat).push(l@));
        i = i + 1;
    }
    assert(views(out@) == before + (typescript_kind_arms(vars_v, vars_v.len())));
    let chunk = vec![
        text("default: return undefined;"),
        Line::Unindent,
        text("}"),
        Line::Unindent,
        text("}"),
    ];
    assert(views(chunk@) =~= typescript_accessor_part2(effect_v, vars_v));
    append_lines(out, chunk);
    assert(views(out@) =~= s0 + typescript_accessor_lines(m.name@, kinded(m.variants@)));
}

// C# ------------------------------------------------------------------------

/// The switch arm for a variant named `name` of the effect `effect` whose
/// operation declares `kind`, in the namespace `ns`.
pub open spec fn csharp_kind_arm(ns: Seq<char>, effect: Seq<char>, name: Seq<char>, kind: Option<RequestKind>) -> LineView {
    t(ns + "."@ + effect + "."@ + name + " => "@ + kind_literal_spec(Language::CSharp, kind, ns) + ","@)
}

/// The arms for the first `n` of the variants `vars` of `effect`.
pub open spec fn csharp_kind_arms(ns: Seq<char>, effect: Seq<char>, vars: Seq<(Seq<char>, Option<RequestKind>)>, n: nat) -> Seq<LineView> {
    Seq::new(n, |j: int| csharp_kind_arm(ns, effect, vars[j].0, vars[j].1))
}

/// A run of fixed lines of [`csharp_kind`].
pub open spec fn csharp_kind_part1() -> Seq<LineView> {
    seq![
        blank_view(),
        t("/// <summary>"@),
        t("/// How many times the shell is expected to resolve a request."@),
        t("/// </summary>"@),
        t("public enum RequestKind"@),
        t("{"@),
        LineView::Indent,
        t("/// <summary>Never — the core is not waiting.</summary>"@),
        t("Notify,"@),
        t("/// <summary>Exactly once.</summary>"@),
        t("Request,"@),
        t("/// <summary>Any number of times, until the shell stops sending.</summary>"@),
        t("Stream"@),
        LineView::Unindent,
        t("}"@),
    ]
}

/// C#: the `RequestKind` enum.
pub open spec fn csharp_kind_lines() -> Seq<LineView> {
    csharp_kind_part1()
}

/// C#: the `RequestKind` enum.
pub fn csharp_kind(out: &mut Vec<Line>)
    ensures
        views(final(out)@) == views(old(out)@) + csharp_kind_lines(),
{
    let ghost s0 = views(out@);
    let chunk = vec![
        blank(),
        text("/// <summary>"),
        text("/// How many times the shell is expected to resolve a request."),
        text("/// </summary>"),
        text("public enum RequestKind"),
        text("{"),
        Line::Indent,
        text("/// <summary>Never — the core is not waiting.</summary>"),
        text("Notify,"),
        text("/// <summary>Exactly once.</summary>"),
        text("Request,"),
        text("/// <summary>Any number of times, until the shell stops sending.</summary>"),
        text("Stream"),
        Line::Unindent,
        text("}"),
    ];
    assert(views(chunk@) =~= csharp_kind_part1());
    append_lines(out, chunk);
    assert(views(out@) =~= s0 + csharp_kind_lines());
}

/// A run of fixed lines of [`csharp_accessor`].
pub open spec fn csharp_accessor_part1(effect_v: Seq<char>, vars_v: Seq<(Seq<char>, Option<RequestKind>)>, ns_v: Seq<char>) -> Seq<LineView> {
    seq![
        blank_view(),
        t("/// <summary>"@),
        t("/// How many times the shell resolves a request carrying this effect,"@),
        t("/// or <c>null</c> when the operation leaves that to the call site."@),
        t("/// </summary>"@),
        t("public "@ + ns_v + ".RequestKind? RequestKind => this switch"@),
        t("{"@),
        LineView::Indent,
    ]
}

/// A run of fixed lines of [`csharp_accessor`].
pub open spec fn csharp_accessor_part2(effect_v: Seq<char>, vars_v: Seq<(Seq<char>, Option<RequestKind>)>, ns_v: Seq<char>) -> Seq<LineView> {
    seq![
        t("_ => null,"@),
        LineView::Unindent,
        t("};"@),
    ]
}

/// C#: a `RequestKind` property for the body of the effect record `m`,
/// in the namespace `ns`.
pub open spec fn csharp_accessor_lines(effect_v: Seq<char>, vars_v: Seq<(Seq<char>, Option<RequestKind>)>, ns_v: Seq<char>) -> Seq<LineView> {
    csharp_accessor_part1(effect_v, vars_v, ns_v) + csharp_kind_arms(ns_v, effect_v, vars_v, vars_v.len()) + csharp_accessor_part2(effect_v, vars_v, ns_v)
}

/// C#: a `RequestKind` property for the body of the effect record `m`,
/// in the namespace `ns`.
pub fn csharp_accessor(out: &mut Vec<Line>, m: &Matched, ns: &str)
    ensures
        views(final(out)@) == views(old(out)@) + csharp_accessor_lines(m.name@, kinded(m.variants@), ns@),
{
    let ghost s0 = views(out@);
    let ghost effect_v = m.name@;
    let ghost vars_v = kinded(m.variants@);
    let ghost ns_v = ns@;
    let chunk = vec![
        blank(),
        text("/// <summary>"),
        text("/// How many times the shell resolves a request carrying this effect,"),
        text("/// or <c>null</c> when the operation leaves that to the call site."),
        text("/// </summary>"),
        Line::Text(String::from_str("public ").concat(ns).concat(".RequestKind? RequestKind => this switch")),
        text("{"),
        Line::Indent,
    ];
    assert(views(chunk@) =~= csharp_accessor_part1(effect_v, vars_v, ns_v));
    append_lines(out, chunk);
    let ghost before = views(out@);
    let mut i: usize = 0;
    while i < m.variants.len()
        invariant
            0 <= i <= m.variants@.len(),
            vars_v == kinded(m.variants@),
            effect_v == m.name@,
            ns_v == ns@,
            views(out@) == before + csharp_kind_arms(ns_v, effect_v, vars_v, i as nat),
        decreases m.variants.len() - i,
    {
        let v = &m.variants[i];
        let kind = kind_literal(Language::CSharp, v.kind, ns);
        let l = line(String::from_str(ns).concat(".").concat(m.name).concat(".").concat(v.name).concat(" => ").concat(kind.as_str()).concat(","));
        assert(l@ == csharp_kind_arm(ns_v, effect_v, vars_v[i as int].0, vars_v[i as int].1));
        let ghost b = out@;
        out.push(l);
        assert(views(out@) =~= views(b).push(l@));
        assert(csharp_kind_arms(ns_v, effect_v, vars_v, (i + 1) as nat) =~= csharp_kind_arms(ns_v, effect_v, vars_v, i as nat).push(l@));
        i = i + 1;
    }
    assert(views(out@) == before + (csharp_kind_arms(ns_v, effect_v, vars_v, vars_v.len())));
    let chunk = vec![
        text("_ => null,"),
        Line::Unindent,
        text("};"),
    ];
    assert(views(chunk@) =~= csharp_accessor_part2(effect_v, vars_v, ns_v));
    append_lines(out, chunk);
    assert(views(out@) =~= s0 + csharp_accessor_lines(m.name@, kinded(m.variants@), ns@));
}

// Per effect ----------------------------------------------------------------

/// The declaration of `RequestKind`, written once, with the first
/// registered effect: its lines in `language`.
pub open spec fn kind_lines(language: Language) -> Seq<LineView> {
    match language {
        Language::Swift => swift_kind_lines(),
        Language::Kotlin => kotlin_kind_lines(),
        Language::TypeScript => typescript_kind_lines(),
        Language::CSharp => csharp_kind_lines(),
    }
}

/// The lines written after the effect `m` in Swift, Kotlin or TypeScript:
/// `RequestKind` when `m` is the primary effect, then the accessor.
pub open spec fn after_effect_lines(language: Language, primary: bool, effect_v: Seq<char>, vars_v: Seq<(Seq<char>, Option<RequestKind>)>) -> Seq<LineView> {
    (if primary { kind_lines(language) } else { Seq::empty() }) + match language {
        Language::Swift => swift_accessor_lines(effect_v, vars_v),
        Language::Kotlin => kotlin_accessor_lines(effect_v, vars_v),
        Language::TypeScript => typescript_accessor_lines(effect_v, vars_v),
        Language::CSharp => Seq::empty(),
    }
}

/// What follows the effect `m` in `language`: the `RequestKind`
/// declaration, with the primary effect only, and in Swift, Kotlin and
/// TypeScript the accessor. The C# accessor goes inside the effect record
/// instead (see [`csharp_accessor`]).
pub fn after_effect(out: &mut Vec<Line>, language: Language, m: &Matched)
    ensures
        views(final(out)@) == views(old(out)@) + after_effect_lines(language, m.primary, m.name@, kinded(m.variants@)),
{
    let ghost s0 = views(out@);
    if m.primary {
        match language {
            Language::Swift => swift_kind(out),
            Language::Kotlin => kotlin_kind(out),
            Language::TypeScript => typescript_kind(out),
            Language::CSharp => csharp_kind(out),
        }
    }
    match language {
        Language::Swift => swift_accessor(out, m),
        Language::Kotlin => kotlin_accessor(out, m),
        Language::TypeScript => typescript_accessor(out, m),
        Language::CSharp => {},
    }
    assert(views(out@) =~= s0 + after_effect_lines(language, m.primary, m.name@, kinded(m.variants@)));
}

} // verus!
