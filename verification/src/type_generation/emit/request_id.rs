//! `EffectKind` and the request id decoder, in each language. The decoder
//! reads an id the way [`EffectId`](crate::bridge::EffectId) lays it out:
//! its shifts and masks are the bridge's own constants, written into the
//! source.
use vstd::prelude::*;

use crate::bridge::{EFFECT_SHIFT, SEQUENCE_MASK, STREAM_BIT};
use super::lines::{
    append_lines, blank, blank_view, decimal, decimal_text, hex, hex_text, line, t, text, views, Line, LineView,
};
use super::names::{
    case_name, csharp_escape, csharp_identifier, heck_shouty_snake, kotlin_class_name, shouty_snake,
    swift_case_name, variant_class_name,
};

verus! {

/// The characters of each of `names`.
pub open spec fn texts_of(names: Seq<&str>) -> Seq<Seq<char>> {
    names.map_values(|s: &str| s@)
}

// Swift ---------------------------------------------------------------------

/// The case of `EffectKind` for the variant `name` at position `index`.
pub open spec fn swift_kind_case(name: Seq<char>, index: nat) -> LineView {
    t("case "@ + swift_case_name(name) + " = "@ + decimal(index))
}

/// The cases for the first `n` of `names`.
pub open spec fn swift_kind_cases(names: Seq<Seq<char>>, n: nat) -> Seq<LineView> {
    Seq::new(n, |j: int| swift_kind_case(names[j], j as nat))
}

/// A run of fixed lines of [`swift`].
pub open spec fn swift_part1(effect_v: Seq<char>, names_v: Seq<Seq<char>>) -> Seq<LineView> {
    seq![
        blank_view(),
        t("/// Which effect a request id names."@),
        t("///"@),
        t("/// The raw value is the effect's position in `"@ + effect_v + "`, which is what the"@),
        t("/// request id carries."@),
        t("public enum EffectKind: UInt8, Hashable, Sendable {"@),
        LineView::Indent,
    ]
}

/// A run of fixed lines of [`swift`].
pub open spec fn swift_part2(effect_v: Seq<char>, names_v: Seq<Seq<char>>) -> Seq<LineView> {
    seq![
        LineView::Unindent,
        t("}"@),
    ]
}

/// A run of fixed lines of [`swift`].
pub open spec fn swift_part3(effect_v: Seq<char>, names_v: Seq<Seq<char>>) -> Seq<LineView> {
    seq![
        blank_view(),
        t("/// The parts of the id the core issues with every request."@),
        t("///"@),
        t("/// Resolve with `rawValue`, exactly as it arrived — this is for logging,"@),
        t("/// tracing and assertions. The bit layout is Crux's, so read ids with this"@),
        t("/// rather than picking the integer apart by hand."@),
        t("public struct RequestId: Hashable, Sendable {"@),
        LineView::Indent,
        t("/// The id as it came from the core, and as it goes back."@),
        t("public let rawValue: UInt32"@),
        blank_view(),
        t("public init(_ rawValue: UInt32) {"@),
        LineView::Indent,
        t("self.rawValue = rawValue"@),
        LineView::Unindent,
        t("}"@),
        blank_view(),
        t("/// Every notification shares one reserved id, because the core is not"@),
        t("/// waiting on any of them."@),
        t("public var isNotification: Bool {"@),
        LineView::Indent,
        t("self.rawValue == 0"@),
        LineView::Unindent,
        t("}"@),
        blank_view(),
        t("/// Which effect this request carries — `nil` for a notification, whose"@),
        t("/// id names none, and for an id naming an effect this generated code"@),
        t("/// does not know."@),
        t("public var effectKind: EffectKind? {"@),
        LineView::Indent,
        t("if self.isNotification { return nil }"@),
        t("return EffectKind(rawValue: UInt8(truncatingIfNeeded: self.rawValue >> "@ + decimal(EFFECT_SHIFT as nat) + "))"@),
        LineView::Unindent,
        t("}"@),
        blank_view(),
        t("/// How many times the core expects this request to be resolved."@),
        t("public var requestKind: RequestKind {"@),
        LineView::Indent,
        t("if self.isNotification { return .notify }"@),
        t("return (self.rawValue & "@ + hex(STREAM_BIT as nat) + ") == 0 ? .request : .stream"@),
        LineView::Unindent,
        t("}"@),
        blank_view(),
        t("/// The ascending number the request was issued with. Zero for a"@),
        t("/// notification, the one id that is not sequenced."@),
        t("public var sequence: UInt32 {"@),
        LineView::Indent,
        t("self.rawValue & "@ + hex(SEQUENCE_MASK as nat)),
        LineView::Unindent,
        t("}"@),
        LineView::Unindent,
        t("}"@),
    ]
}

/// Swift: `EffectKind`, an enum raw-valued by each variant's position in the
/// effect `effect`, whose variants are `names` in declaration order, and
/// `RequestId`, a struct decoding an id into its parts.
pub open spec fn swift_lines(effect_v: Seq<char>, names_v: Seq<Seq<char>>) -> Seq<LineView> {
    swift_part1(effect_v, names_v) + swift_kind_cases(names_v, names_v.len()) + swift_part2(effect_v, names_v) + swift_part3(effect_v, names_v)
}

/// Swift: `EffectKind`, an enum raw-valued by each variant's position in the
/// effect `effect`, whose variants are `names` in declaration order, and
/// `RequestId`, a struct decoding an id into its parts.
pub fn swift(out: &mut Vec<Line>, effect: &str, names: &Vec<&str>)
    requires
        names@.len() <= u64::MAX,
    ensures
        views(final(out)@) == views(old(out)@) + swift_lines(effect@, texts_of(names@)),
{
    let ghost s0 = views(out@);
    let ghost effect_v = effect@;
    let ghost names_v = texts_of(names@);
    let chunk = vec![
        blank(),
        text("/// Which effect a request id names."),
        text("///"),
        Line::Text(String::from_str("/// The raw value is the effect's position in `").concat(effect).concat("`, which is what the")),
        text("/// request id carries."),
        text("public enum EffectKind: UInt8, Hashable, Sendable {"),
        Line::Indent,
    ];
    assert(views(chunk@) =~= swift_part1(effect_v, names_v));
    append_lines(out, chunk);
    let ghost before = views(out@);
    let mut i: usize = 0;
    while i < names.len()
        invariant
            0 <= i <= names@.len(),
            names@.len() <= u64::MAX,
            names_v == texts_of(names@),
            views(out@) == before + swift_kind_cases(names_v, i as nat),
        decreases names.len() - i,
    {
        let case = case_name(names[i]);
        let l = line(String::from_str("case ").concat(case.as_str()).concat(" = ").concat(decimal_text(i as u64).as_str()));
        assert(l@ == swift_kind_case(names_v[i as int], i as nat));
        let ghost b = out@;
        out.push(l);
        assert(views(out@) =~= views(b).push(l@));
        assert(swift_kind_cases(names_v, (i + 1) as nat) =~= swift_kind_cases(names_v, i as nat).push(l@));
        i = i + 1;
    }
    assert(views(out@) == before + (swift_kind_cases(names_v, names_v.len())));
    let chunk = vec![
        Line::Unindent,
        text("}"),
    ];
    assert(views(chunk@) =~= swift_part2(effect_v, names_v));
    append_lines(out, chunk);
    let shift = decimal_text(EFFECT_SHIFT as u64);
    let stream = hex_text(STREAM_BIT as u64);
    let mask = hex_text(SEQUENCE_MASK as u64);
    let chunk = vec![
        blank(),
        text("/// The parts of the id the core issues with every request."),
        text("///"),
        text("/// Resolve with `rawValue`, exactly as it arrived — this is for logging,"),
        text("/// tracing and assertions. The bit layout is Crux's, so read ids with this"),
        text("/// rather than picking the integer apart by hand."),
        text("public struct RequestId: Hashable, Sendable {"),
        Line::Indent,
        text("/// The id as it came from the core, and as it goes back."),
        text("public let rawValue: UInt32"),
        blank(),
        text("public init(_ rawValue: UInt32) {"),
        Line::Indent,
        text("self.rawValue = rawValue"),
        Line::Unindent,
        text("}"),
        blank(),
        text("/// Every notification shares one reserved id, because the core is not"),
        text("/// waiting on any of them."),
        text("public var isNotification: Bool {"),
        Line::Indent,
        text("self.rawValue == 0"),
        Line::Unindent,
        text("}"),
        blank(),
        text("/// Which effect this request carries — `nil` for a notification, whose"),
        text("/// id names none, and for an id naming an effect this generated code"),
        text("/// does not know."),
        text("public var effectKind: EffectKind? {"),
        Line::Indent,
        text("if self.isNotification { return nil }"),
        Line::Text(String::from_str("return EffectKind(rawValue: UInt8(truncatingIfNeeded: self.rawValue >> ").concat(shift.as_str()).concat("))")),
        Line::Unindent,
        text("}"),
        blank(),
        text("/// How many times the core expects this request to be resolved."),
        text("public var requestKind: RequestKind {"),
        Line::Indent,
        text("if self.isNotification { return .notify }"),
        Line::Text(String::from_str("return (self.rawValue & ").concat(stream.as_str()).concat(") == 0 ? .request : .stream")),
        Line::Unindent,
        text("}"),
        blank(),
        text("/// The ascending number the request was issued with. Zero for a"),
        text("/// notification, the one id that is not sequenced."),
        text("public var sequence: UInt32 {"),
        Line::Indent,
        Line::Text(String::from_str("self.rawValue & ").concat(mask.as_str())),
        Line::Unindent,
        text("}"),
        Line::Unindent,
        text("}"),
    ];
    assert(views(chunk@) =~= swift_part3(effect_v, names_v));
    append_lines(out, chunk);
    assert(views(out@) =~= s0 + swift_lines(effect@, texts_of(names@)));
}

// Kotlin --------------------------------------------------------------------

/// The position of the last of `n` variants.
pub open spec fn last_position(n: nat) -> nat {
    if n == 0 { 0 } else { (n - 1) as nat }
}

/// The entry of `EffectKind` for the variant `name` at position `index`,
/// ended with `;` when it is at position `last` and with `,` otherwise.
pub open spec fn kotlin_kind_entry(name: Seq<char>, index: nat, last: nat) -> LineView {
    t(heck_shouty_snake(kotlin_class_name(name)) + "("@ + decimal(index) + "u)"@ + (if index == last { ";"@ } else { ","@ }))
}

/// The entries for the first `n` of `names`.
pub open spec fn kotlin_kind_entries(names: Seq<Seq<char>>, n: nat) -> Seq<LineView> {
    Seq::new(n, |j: int| kotlin_kind_entry(names[j], j as nat, last_position(names.len())))
}

/// A run of fixed lines of [`kotlin`].
pub open spec fn kotlin_part1(effect_v: Seq<char>, names_v: Seq<Seq<char>>) -> Seq<LineView> {
    seq![
        blank_view(),
        t("/// Which effect a request id names."@),
        t("///"@),
        t("/// `index` is the effect's position in `"@ + effect_v + "`, which is what the request"@),
        t("/// id carries."@),
        t("enum class EffectKind(val index: UByte) {"@),
        LineView::Indent,
    ]
}

/// A run of fixed lines of [`kotlin`].
pub open spec fn kotlin_part2(effect_v: Seq<char>, names_v: Seq<Seq<char>>) -> Seq<LineView> {
    seq![
        blank_view(),
        t("companion object {"@),
        LineView::Indent,
        t("/// The effect at `index`, or `null` if this generated code knows none."@),
        t("fun fromIndex(index: UByte): EffectKind? = values().firstOrNull { it.index == index }"@),
        LineView::Unindent,
        t("}"@),
        LineView::Unindent,
        t("}"@),
    ]
}

/// A run of fixed lines of [`kotlin`].
pub open spec fn kotlin_part3(effect_v: Seq<char>, names_v: Seq<Seq<char>>) -> Seq<LineView> {
    seq![
        blank_view(),
        t("/// The parts of the id the core issues with every request."@),
        t("///"@),
        t("/// Resolve with `rawValue`, exactly as it arrived — this is for logging,"@),
        t("/// tracing and assertions. The bit layout is Crux's, so read ids with this"@),
        t("/// rather than picking the integer apart by hand."@),
        t("data class RequestId(val rawValue: UInt) {"@),
        LineView::Indent,
        t("/// Every notification shares one reserved id, because the core is not"@),
        t("/// waiting on any of them."@),
        t("val isNotification: Boolean"@),
        LineView::Indent,
        t("get() = rawValue == 0u"@),
        LineView::Unindent,
        blank_view(),
        t("/// Which effect this request carries — `null` for a notification, whose"@),
        t("/// id names none, and for an id naming an effect this generated code"@),
        t("/// does not know."@),
        t("val effectKind: EffectKind?"@),
        LineView::Indent,
        t("get() = if (isNotification) null"@),
        t("else EffectKind.fromIndex((rawValue shr "@ + decimal(EFFECT_SHIFT as nat) + ").toUByte())"@),
        LineView::Unindent,
        blank_view(),
        t("/// How many times the core expects this request to be resolved."@),
        t("val requestKind: RequestKind"@),
        LineView::Indent,
        t("get() = when {"@),
        LineView::Indent,
        t("isNotification -> RequestKind.NOTIFY"@),
        t("(rawValue and "@ + hex(STREAM_BIT as nat) + "u) == 0u -> RequestKind.REQUEST"@),
        t("else -> RequestKind.STREAM"@),
        LineView::Unindent,
        t("}"@),
        LineView::Unindent,
        blank_view(),
        t("/// The ascending number the request was issued with. Zero for a"@),
        t("/// notification, the one id that is not sequenced."@),
        t("val sequence: UInt"@),
        LineView::Indent,
        t("get() = rawValue and "@ + hex(SEQUENCE_MASK as nat) + "u"@),
        LineView::Unindent,
        LineView::Unindent,
        t("}"@),
    ]
}

/// Kotlin: `EffectKind`, an enum class carrying each variant's position in
/// the effect `effect`, whose variants are `names` in declaration order,
/// and `RequestId`, a value class holding the decoded parts of an id.
pub open spec fn kotlin_lines(effect_v: Seq<char>, names_v: Seq<Seq<char>>) -> Seq<LineView> {
    kotlin_part1(effect_v, names_v) + kotlin_kind_entries(names_v, names_v.len()) + kotlin_part2(effect_v, names_v) + kotlin_part3(effect_v, names_v)
}

/// Kotlin: `EffectKind`, an enum class carrying each variant's position in
/// the effect `effect`, whose variants are `names` in declaration order,
/// and `RequestId`, a value class holding the decoded parts of an id.
pub fn kotlin(out: &mut Vec<Line>, effect: &str, names: &Vec<&str>)
    requires
        names@.len() <= u64::MAX,
    ensures
        views(final(out)@) == views(old(out)@) + kotlin_lines(effect@, texts_of(names@)),
{
    let ghost s0 = views(out@);
    let ghost effect_v = effect@;
    let ghost names_v = texts_of(names@);
    let chunk = vec![
        blank(),
        text("/// Which effect a request id names."),
        text("///"),
        Line::Text(String::from_str("/// `index` is the effect's position in `").concat(effect).concat("`, which is what the request")),
        text("/// id carries."),
        text("enum class EffectKind(val index: UByte) {"),
        Line::Indent,
    ];
    assert(views(chunk@) =~= kotlin_part1(effect_v, names_v));
    append_lines(out, chunk);
    let ghost before = views(out@);
    let mut i: usize = 0;
    while i < names.len()
        invariant
            0 <= i <= names@.len(),
            names@.len() <= u64::MAX,
            names_v == texts_of(names@),
            views(out@) == before + kotlin_kind_entries(names_v, i as nat),
        decreases names.len() - i,
    {
        let class = variant_class_name(names[i]);
        let entry = shouty_snake(class.as_str());
        let end = if i + 1 == names.len() { ";" } else { "," };
        proof {
            reveal_strlit(";");
            reveal_strlit(",");
        }
        let l = line(entry.concat("(").concat(decimal_text(i as u64).as_str()).concat("u)").concat(end));
        assert(l@ == kotlin_kind_entry(names_v[i as int], i as nat, last_position(names_v.len())));
        let ghost b = out@;
        out.push(l);
        assert(views(out@) =~= views(b).push(l@));
        assert(kotlin_kind_entries(names_v, (i + 1) as nat) =~= kotlin_kind_entries(names_v, i as nat).push(l@));
        i = i + 1;
    }
    assert(views(out@) == before + (kotlin_kind_entries(names_v, names_v.len())));
    let chunk = vec![
        blank(),
        text("companion object {"),
        Line::Indent,
        text("/// The effect at `index`, or `null` if this generated code knows none."),
        text("fun fromIndex(index: UByte): EffectKind? = values().firstOrNull { it.index == index }"),
        Line::Unindent,
        text("}"),
        Line::Unindent,
        text("}"),
    ];
    assert(views(chunk@) =~= kotlin_part2(effect_v, names_v));
    append_lines(out, chunk);
    let shift = decimal_text(EFFECT_SHIFT as u64);
    let stream = hex_text(STREAM_BIT as u64);
    let mask = hex_text(SEQUENCE_MASK as u64);
    let chunk = vec![
        blank(),
        text("/// The parts of the id the core issues with every request."),
        text("///"),
        text("/// Resolve with `rawValue`, exactly as it arrived — this is for logging,"),
        text("/// tracing and assertions. The bit layout is Crux's, so read ids with this"),
        text("/// rather than picking the integer apart by hand."),
        text("data class RequestId(val rawValue: UInt) {"),
        Line::Indent,
        text("/// Every notification shares one reserved id, because the core is not"),
        text("/// waiting on any of them."),
        text("val isNotification: Boolean"),
        Line::Indent,
        text("get() = rawValue == 0u"),
        Line::Unindent,
        blank(),
        text("/// Which effect this request carries — `null` for a notification, whose"),
        text("/// id names none, and for an id naming an effect this generated code"),
        text("/// does not know."),
        text("val effectKind: EffectKind?"),
        Line::Indent,
        text("get() = if (isNotification) null"),
        Line::Text(String::from_str("else EffectKind.fromIndex((rawValue shr ").concat(shift.as_str()).concat(").toUByte())")),
        Line::Unindent,
        blank(),
        text("/// How many times the core expects this request to be resolved."),
        text("val requestKind: RequestKind"),
        Line::Indent,
        text("get() = when {"),
        Line::Indent,
        text("isNotification -> RequestKind.NOTIFY"),
        Line::Text(String::from_str("(rawValue and ").concat(stream.as_str()).concat("u) == 0u -> RequestKind.REQUEST")),
        text("else -> RequestKind.STREAM"),
        Line::Unindent,
        text("}"),
        Line::Unindent,
        blank(),
        text("/// The ascending number the request was issued with. Zero for a"),
        text("/// notification, the one id that is not sequenced."),
        text("val sequence: UInt"),
        Line::Indent,
        Line::Text(String::from_str("get() = rawValue and ").concat(mask.as_str()).concat("u")),
        Line::Unindent,
        Line::Unindent,
        text("}"),
    ];
    assert(views(chunk@) =~= kotlin_part3(effect_v, names_v));
    append_lines(out, chunk);
    assert(views(out@) =~= s0 + kotlin_lines(effect@, texts_of(names@)));
}

// TypeScript ----------------------------------------------------------------

/// The first `n` of `names`, each in double quotes, joined by `sep`.
pub open spec fn quoted_join(names: Seq<Seq<char>>, n: nat, sep: Seq<char>) -> Seq<char>
    decreases n,
{
    if n == 0 {
        Seq::empty()
    } else if n == 1 {
        "\""@ + names[0] + "\""@
    } else {
        quoted_join(names, (n - 1) as nat, sep) + sep + "\""@ + names[n - 1] + "\""@
    }
}

/// Each of `names` in double quotes, joined by `sep`.
fn quote_join(names: &Vec<&str>, sep: &str) -> (s: String)
    ensures
        s@ == quoted_join(texts_of(names@), names@.len(), sep@),
{
    let ghost ns = texts_of(names@);
    let mut s = String::new();
    let mut i: usize = 0;
    while i < names.len()
        invariant
            0 <= i <= names@.len(),
            ns == texts_of(names@),
            s@ == quoted_join(ns, i as nat, sep@),
        decreases names.len() - i,
    {
        if i > 0 {
            s = s.concat(sep);
        }
        s = s.concat("\"").concat(names[i]).concat("\"");
        i = i + 1;
    }
    s
}

/// A run of fixed lines of [`typescript`].
pub open spec fn typescript_part1(effect_v: Seq<char>, names_v: Seq<Seq<char>>) -> Seq<LineView> {
    seq![
        blank_view(),
        t("/// Which effect a request id names — the same discriminant `"@ + effect_v + "` uses."@),
        t("export type EffectKind = "@ + quoted_join(names_v, names_v.len(), " | "@) + ";"@),
        blank_view(),
        t("/// The effects in declaration order, indexed by the position a request id"@),
        t("/// carries."@),
        t("const EFFECT_KINDS: EffectKind[] = ["@ + quoted_join(names_v, names_v.len(), ", "@) + "];"@),
    ]
}

/// A run of fixed lines of [`typescript`].
pub open spec fn typescript_part2(effect_v: Seq<char>, names_v: Seq<Seq<char>>) -> Seq<LineView> {
    seq![
        blank_view(),
        t("/// The parts of the id the core issues with every request."@),
        t("export interface RequestId {"@),
        LineView::Indent,
        t("/// The id as it came from the core, and as it goes back."@),
        t("rawValue: number;"@),
        t("/// Every notification shares one reserved id, because the core is not"@),
        t("/// waiting on any of them."@),
        t("isNotification: boolean;"@),
        t("/// Which effect this request carries — `undefined` for a notification,"@),
        t("/// whose id names none, and for an id naming an effect this generated"@),
        t("/// code does not know."@),
        t("effectKind: EffectKind | undefined;"@),
        t("/// How many times the core expects this request to be resolved."@),
        t("requestKind: RequestKind;"@),
        t("/// The ascending number the request was issued with. Zero for a"@),
        t("/// notification, the one id that is not sequenced."@),
        t("sequence: number;"@),
        LineView::Unindent,
        t("}"@),
        blank_view(),
        t("/// Read a request id."@),
        t("///"@),
        t("/// Resolve with the id exactly as it arrived — this is for logging, tracing"@),
        t("/// and assertions. The bit layout is Crux's, so decode ids with this rather"@),
        t("/// than picking the number apart by hand."@),
        t("export function decodeRequestId(rawValue: number): RequestId {"@),
        LineView::Indent,
        t("if (rawValue === 0) {"@),
        LineView::Indent,
        t("return {"@),
        LineView::Indent,
        t("rawValue,"@),
        t("isNotification: true,"@),
        t("effectKind: undefined,"@),
        t("requestKind: \"notify\","@),
        t("sequence: 0,"@),
        LineView::Unindent,
        t("};"@),
        LineView::Unindent,
        t("}"@),
        t("return {"@),
        LineView::Indent,
        t("rawValue,"@),
        t("isNotification: false,"@),
        t("effectKind: EFFECT_KINDS[(rawValue >>> "@ + decimal(EFFECT_SHIFT as nat) + ") & 0xff],"@),
        t("requestKind: (rawValue & "@ + hex(STREAM_BIT as nat) + ") === 0 ? \"request\" : \"stream\","@),
        t("sequence: rawValue & "@ + hex(SEQUENCE_MASK as nat) + ","@),
        LineView::Unindent,
        t("};"@),
        LineView::Unindent,
        t("}"@),
    ]
}

/// TypeScript: `EffectKind`, the union of the effect `effect`'s variant
/// names `names` — the discriminant the effect union already uses — with
/// the list of them in declaration order, and `decodeRequestId`.
pub open spec fn typescript_lines(effect_v: Seq<char>, names_v: Seq<Seq<char>>) -> Seq<LineView> {
    typescript_part1(effect_v, names_v) + typescript_part2(effect_v, names_v)
}

/// TypeScript: `EffectKind`, the union of the effect `effect`'s variant
/// names `names` — the discriminant the effect union already uses — with
/// the list of them in declaration order, and `decodeRequestId`.
pub fn typescript(out: &mut Vec<Line>, effect: &str, names: &Vec<&str>)
    ensures
        views(final(out)@) == views(old(out)@) + typescript_lines(effect@, texts_of(names@)),
{
    let ghost s0 = views(out@);
    let ghost effect_v = effect@;
    let ghost names_v = texts_of(names@);
    let union = quote_join(names, " | ");
    let list = quote_join(names, ", ");
    let chunk = vec![
        blank(),
        Line::Text(String::from_str("/// Which effect a request id names — the same discriminant `").concat(effect).concat("` uses.")),
        Line::Text(String::from_str("export type EffectKind = ").concat(union.as_str()).concat(";")),
        blank(),
        text("/// The effects in declaration order, indexed by the position a request id"),
        text("/// carries."),
        Line::Text(String::from_str("const EFFECT_KINDS: EffectKind[] = [").concat(list.as_str()).concat("];")),
    ];
    assert(views(chunk@) =~= typescript_part1(effect_v, names_v));
    append_lines(out, chunk);
    let shift = decimal_text(EFFECT_SHIFT as u64);
    let stream = hex_text(STREAM_BIT as u64);
    let mask = hex_text(SEQUENCE_MASK as u64);
    let chunk = vec![
        blank(),
        text("/// The parts of the id the core issues with every request."),
        text("export interface RequestId {"),
        Line::Indent,
        text("/// The id as it came from the core, and as it goes back."),
        text("rawValue: number;"),
        text("/// Every notification shares one reserved id, because the core is not"),
        text("/// waiting on any of them."),
        text("isNotification: boolean;"),
        text("/// Which effect this request carries — `undefined` for a notification,"),
        text("/// whose id names none, and for an id naming an effect this generated"),
        text("/// code does not know."),
        text("effectKind: EffectKind | undefined;"),
        text("/// How many times the core expects this request to be resolved."),
        text("requestKind: RequestKind;"),
        text("/// The ascending number the request was issued with. Zero for a"),
        text("/// notification, the one id that is not sequenced."),
        text("sequence: number;"),
        Line::Unindent,
        text("}"),
        blank(),
        text("/// Read a request id."),
        text("///"),
        text("/// Resolve with the id exactly as it arrived — this is for logging, tracing"),
        text("/// and assertions. The bit layout is Crux's, so decode ids with this rather"),
        text("/// than picking the number apart by hand."),
        text("export function decodeRequestId(rawValue: number): RequestId {"),
        Line::Indent,
        text("if (rawValue === 0) {"),
        Line::Indent,
        text("return {"),
        Line::Indent,
        text("rawValue,"),
        text("isNotification: true,"),
        text("effectKind: undefined,"),
        text("requestKind: \"notify\","),
        text("sequence: 0,"),
        Line::Unindent,
        text("};"),
        Line::Unindent,
        text("}"),
        text("return {"),
        Line::Indent,
        text("rawValue,"),
        text("isNotification: false,"),
        Line::Text(String::from_str("effectKind: EFFECT_KINDS[(rawValue >>> ").concat(shift.as_str()).concat(") & 0xff],")),
        Line::Text(String::from_str("requestKind: (rawValue & ").concat(stream.as_str()).concat(") === 0 ? \"request\" : \"stream\",")),
        Line::Text(String::from_str("sequence: rawValue & ").concat(mask.as_str()).concat(",")),
        Line::Unindent,
        text("};"),
        Line::Unindent,
        text("}"),
    ];
    assert(views(chunk@) =~= typescript_part2(effect_v, names_v));
    append_lines(out, chunk);
    assert(views(out@) =~= s0 + typescript_lines(effect@, texts_of(names@)));
}

// C# ------------------------------------------------------------------------

/// The member of `EffectKind` for the variant `name` at position `index`.
pub open spec fn csharp_kind_member(name: Seq<char>, index: nat) -> LineView {
    t(csharp_identifier(name) + " = "@ + decimal(index) + ","@)
}

/// The members for the first `n` of `names`.
pub open spec fn csharp_kind_members(names: Seq<Seq<char>>, n: nat) -> Seq<LineView> {
    Seq::new(n, |j: int| csharp_kind_member(names[j], j as nat))
}

/// The arm of the `EffectKind` property for the variant `name` at position
/// `index`, in the namespace `ns`.
pub open spec fn csharp_kind_arm(name: Seq<char>, index: nat, ns: Seq<char>) -> LineView {
    t(decimal(index) + "u => "@ + ns + ".EffectKind."@ + csharp_identifier(name) + ","@)
}

/// The arms for the first `n` of `names`.
pub open spec fn csharp_kind_arms(names: Seq<Seq<char>>, n: nat, ns: Seq<char>) -> Seq<LineView> {
    Seq::new(n, |j: int| csharp_kind_arm(names[j], j as nat, ns))
}

/// A run of fixed lines of [`csharp`].
pub open spec fn csharp_part1(effect_v: Seq<char>, names_v: Seq<Seq<char>>, ns_v: Seq<char>) -> Seq<LineView> {
    seq![
        blank_view(),
        t("/// <summary>"@),
        t("/// Which effect a request id names. The value is the"@),
        t("/// effect's position in <c>"@ + effect_v + "</c>, which is what the request"@),
        t("/// id carries."@),
        t("/// </summary>"@),
        t("public enum EffectKind : byte"@),
        t("{"@),
        LineView::Indent,
    ]
}

/// A run of fixed lines of [`csharp`].
pub open spec fn csharp_part2(effect_v: Seq<char>, names_v: Seq<Seq<char>>, ns_v: Seq<char>) -> Seq<LineView> {
    seq![
        LineView::Unindent,
        t("}"@),
    ]
}

/// A run of fixed lines of [`csharp`].
pub open spec fn csharp_part3(effect_v: Seq<char>, names_v: Seq<Seq<char>>, ns_v: Seq<char>) -> Seq<LineView> {
    seq![
        blank_view(),
        t("/// <summary>"@),
        t("/// The parts of the id the core issues with every request."@),
        t("///"@),
        t("/// Resolve with <c>RawValue</c>, exactly as it arrived — this is for"@),
        t("/// logging, tracing and assertions. The bit layout is Crux's, so read"@),
        t("/// ids with this rather than picking the integer apart by hand."@),
        t("/// </summary>"@),
        t("public sealed record RequestId(uint RawValue)"@),
        t("{"@),
        LineView::Indent,
        t("/// <summary>"@),
        t("/// Every notification shares one reserved id, because the core is"@),
        t("/// not waiting on any of them."@),
        t("/// </summary>"@),
        t("public bool IsNotification => RawValue == 0;"@),
        blank_view(),
    ]
}

/// A run of fixed lines of [`csharp`].
pub open spec fn csharp_part4(effect_v: Seq<char>, names_v: Seq<Seq<char>>, ns_v: Seq<char>) -> Seq<LineView> {
    seq![
        t("/// <summary>"@),
        t("/// Which effect this request carries — <c>null</c> for a notification,"@),
        t("/// whose id names none, and for an id naming an effect this generated"@),
        t("/// code does not know."@),
        t("/// </summary>"@),
        t("public "@ + ns_v + ".EffectKind? EffectKind"@),
        t("{"@),
        LineView::Indent,
        t("get"@),
        t("{"@),
        LineView::Indent,
        t("if (IsNotification)"@),
        t("{"@),
        LineView::Indent,
        t("return null;"@),
        LineView::Unindent,
        t("}"@),
        t("return (RawValue >> "@ + decimal(EFFECT_SHIFT as nat) + ") switch"@),
        t("{"@),
        LineView::Indent,
    ]
}

/// A run of fixed lines of [`csharp`].
pub open spec fn csharp_part5(effect_v: Seq<char>, names_v: Seq<Seq<char>>, ns_v: Seq<char>) -> Seq<LineView> {
    seq![
        t("_ => null,"@),
        LineView::Unindent,
        t("};"@),
        LineView::Unindent,
        t("}"@),
        LineView::Unindent,
        t("}"@),
    ]
}

/// A run of fixed lines of [`csharp`].
pub open spec fn csharp_part6(effect_v: Seq<char>, names_v: Seq<Seq<char>>, ns_v: Seq<char>) -> Seq<LineView> {
    seq![
        blank_view(),
    ]
}

/// A run of fixed lines of [`csharp`].
pub open spec fn csharp_part7(effect_v: Seq<char>, names_v: Seq<Seq<char>>, ns_v: Seq<char>) -> Seq<LineView> {
    seq![
        t("/// <summary>"@),
        t("/// How many times the core expects this request to be resolved."@),
        t("/// </summary>"@),
        t("public "@ + ns_v + ".RequestKind RequestKind"@),
        t("{"@),
        LineView::Indent,
        t("get"@),
        t("{"@),
        LineView::Indent,
        t("if (IsNotification)"@),
        t("{"@),
        LineView::Indent,
        t("return "@ + ns_v + ".RequestKind.Notify;"@),
        LineView::Unindent,
        t("}"@),
        t("return (RawValue & "@ + hex(STREAM_BIT as nat) + "u) == 0 ? "@ + ns_v + ".RequestKind.Request : "@ + ns_v + ".RequestKind.Stream;"@),
        LineView::Unindent,
        t("}"@),
        LineView::Unindent,
        t("}"@),
    ]
}

/// A run of fixed lines of [`csharp`].
pub open spec fn csharp_part8(effect_v: Seq<char>, names_v: Seq<Seq<char>>, ns_v: Seq<char>) -> Seq<LineView> {
    seq![
        blank_view(),
        t("/// <summary>"@),
        t("/// The ascending number the request was issued with. Zero for a"@),
        t("/// notification, the one id that is not sequenced."@),
        t("/// </summary>"@),
        t("public uint Sequence => RawValue & "@ + hex(SEQUENCE_MASK as nat) + "u;"@),
        LineView::Unindent,
        t("}"@),
    ]
}

/// C#: `EffectKind`, an enum backed by each variant's position in the
/// effect `effect`, whose variants are `names` in declaration order, and
/// `RequestId`, a record decoding an id into its parts; `ns` is the
/// namespace the module declares.
pub open spec fn csharp_lines(effect_v: Seq<char>, names_v: Seq<Seq<char>>, ns_v: Seq<char>) -> Seq<LineView> {
    csharp_part1(effect_v, names_v, ns_v) + csharp_kind_members(names_v, names_v.len()) + csharp_part2(effect_v, names_v, ns_v) + csharp_part3(effect_v, names_v, ns_v) + csharp_part4(effect_v, names_v, ns_v) + csharp_kind_arms(names_v, names_v.len(), ns_v) + csharp_part5(effect_v, names_v, ns_v) + csharp_part6(effect_v, names_v, ns_v) + csharp_part7(effect_v, names_v, ns_v) + csharp_part8(effect_v, names_v, ns_v)
}

/// C#: `EffectKind`, an enum backed by each variant's position in the
/// effect `effect`, whose variants are `names` in declaration order, and
/// `RequestId`, a record decoding an id into its parts; `ns` is the
/// namespace the module declares.
pub fn csharp(out: &mut Vec<Line>, effect: &str, names: &Vec<&str>, ns: &str)
    requires
        names@.len() <= u64::MAX,
    ensures
        views(final(out)@) == views(old(out)@) + csharp_lines(effect@, texts_of(names@), ns@),
{
    let ghost s0 = views(out@);
    let ghost effect_v = effect@;
    let ghost names_v = texts_of(names@);
    let ghost ns_v = ns@;
    let chunk = vec![
        blank(),
        text("/// <summary>"),
        text("/// Which effect a request id names. The value is the"),
        Line::Text(String::from_str("/// effect's position in <c>").concat(effect).concat("</c>, which is what the request")),
        text("/// id carries."),
        text("/// </summary>"),
        text("public enum EffectKind : byte"),
        text("{"),
        Line::Indent,
    ];
    assert(views(chunk@) =~= csharp_part1(effect_v, names_v, ns_v));
    append_lines(out, chunk);
    let ghost before = views(out@);
    let mut i: usize = 0;
    while i < names.len()
        invariant
            0 <= i <= names@.len(),
            names@.len() <= u64::MAX,
            names_v == texts_of(names@),
            views(out@) == before + csharp_kind_members(names_v, i as nat),
        decreases names.len() - i,
    {
        let l = line(csharp_escape(names[i]).concat(" = ").concat(decimal_text(i as u64).as_str()).concat(","));
        assert(l@ == csharp_kind_member(names_v[i as int], i as nat));
        let ghost b = out@;
        out.push(l);
        assert(views(out@) =~= views(b).push(l@));
        assert(csharp_kind_members(names_v, (i + 1) as nat) =~= csharp_kind_members(names_v, i as nat).push(l@));
        i = i + 1;
    }
    assert(views(out@) == before + (csharp_kind_members(names_v, names_v.len())));
    let chunk = vec![
        Line::Unindent,
        text("}"),
    ];
    assert(views(chunk@) =~= csharp_part2(effect_v, names_v, ns_v));
    append_lines(out, chunk);
    let shift = decimal_text(EFFECT_SHIFT as u64);
    let stream = hex_text(STREAM_BIT as u64);
    let mask = hex_text(SEQUENCE_MASK as u64);
    let chunk = vec![
        blank(),
        text("/// <summary>"),
        text("/// The parts of the id the core issues with every request."),
        text("///"),
        text("/// Resolve with <c>RawValue</c>, exactly as it arrived — this is for"),
        text("/// logging, tracing and assertions. The bit layout is Crux's, so read"),
        text("/// ids with this rather than picking the integer apart by hand."),
        text("/// </summary>"),
        text("public sealed record RequestId(uint RawValue)"),
        text("{"),
        Line::Indent,
        text("/// <summary>"),
        text("/// Every notification shares one reserved id, because the core is"),
        text("/// not waiting on any of them."),
        text("/// </summary>"),
        text("public bool IsNotification => RawValue == 0;"),
        blank(),
    ];
    assert(views(chunk@) =~= csharp_part3(effect_v, names_v, ns_v));
    append_lines(out, chunk);
    let chunk = vec![
        text("/// <summary>"),
        text("/// Which effect this request carries — <c>null</c> for a notification,"),
        text("/// whose id names none, and for an id naming an effect this generated"),
        text("/// code does not know."),
        text("/// </summary>"),
        Line::Text(String::from_str("public ").concat(ns).concat(".EffectKind? EffectKind")),
        text("{"),
        Line::Indent,
        text("get"),
        text("{"),
        Line::Indent,
        text("if (IsNotification)"),
        text("{"),
        Line::Indent,
        text("return null;"),
        Line::Unindent,
        text("}"),
        Line::Text(String::from_str("return (RawValue >> ").concat(shift.as_str()).concat(") switch")),
        text("{"),
        Line::Indent,
    ];
    assert(views(chunk@) =~= csharp_part4(effect_v, names_v, ns_v));
    append_lines(out, chunk);
    let ghost before = views(out@);
    let mut i: usize = 0;
    while i < names.len()
        invariant
            0 <= i <= names@.len(),
            names@.len() <= u64::MAX,
            names_v == texts_of(names@),
            ns_v == ns@,
            views(out@) == before + csharp_kind_arms(names_v, i as nat, ns_v),
        decreases names.len() - i,
    {
        let l = line(decimal_text(i as u64).concat("u => ").concat(ns).concat(".EffectKind.").concat(csharp_escape(names[i]).as_str()).concat(","));
        assert(l@ == csharp_kind_arm(names_v[i as int], i as nat, ns_v));
        let ghost b = out@;
        out.push(l);
        assert(views(out@) =~= views(b).push(l@));
        assert(csharp_kind_arms(names_v, (i + 1) as nat, ns_v) =~= csharp_kind_arms(names_v, i as nat, ns_v).push(l@));
        i = i + 1;
    }
    assert(views(out@) == before + (csharp_kind_arms(names_v, names_v.len(), ns_v)));
    let chunk = vec![
        text("_ => null,"),
        Line::Unindent,
        text("};"),
        Line::Unindent,
        text("}"),
        Line::Unindent,
        text("}"),
    ];
    assert(views(chunk@) =~= csharp_part5(effect_v, names_v, ns_v));
    append_lines(out, chunk);
    let chunk = vec![
        blank(),
    ];
    assert(views(chunk@) =~= csharp_part6(effect_v, names_v, ns_v));
    append_lines(out, chunk);
    let chunk = vec![
        text("/// <summary>"),
        text("/// How many times the core expects this request to be resolved."),
        text("/// </summary>"),
        Line::Text(String::from_str("public ").concat(ns).concat(".RequestKind RequestKind")),
        text("{"),
        Line::Indent,
        text("get"),
        text("{"),
        Line::Indent,
        text("if (IsNotification)"),
        text("{"),
        Line::Indent,
        Line::Text(String::from_str("return ").concat(ns).concat(".RequestKind.Notify;")),
        Line::Unindent,
        text("}"),
        Line::Text(String::from_str("return (RawValue & ").concat(stream.as_str()).concat("u) == 0 ? ").concat(ns).concat(".RequestKind.Request : ").concat(ns).concat(".RequestKind.Stream;")),
        Line::Unindent,
        text("}"),
        Line::Unindent,
        text("}"),
    ];
    assert(views(chunk@) =~= csharp_part7(effect_v, names_v, ns_v));
    append_lines(out, chunk);
    let chunk = vec![
        blank(),
        text("/// <summary>"),
        text("/// The ascending number the request was issued with. Zero for a"),
        text("/// notification, the one id that is not sequenced."),
        text("/// </summary>"),
        Line::Text(String::from_str("public uint Sequence => RawValue & ").concat(mask.as_str()).concat("u;")),
        Line::Unindent,
        text("}"),
    ];
    assert(views(chunk@) =~= csharp_part8(effect_v, names_v, ns_v));
    append_lines(out, chunk);
    assert(views(out@) =~= s0 + csharp_lines(effect@, texts_of(names@), ns@));
}

} // verus!
