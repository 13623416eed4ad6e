//! What the plugins know about the container being emitted: whether it is a
//! registered effect enum, and if so, each of its variants paired with what
//! its operation declared.
use vstd::prelude::*;

use super::effects::{EffectMeta, EffectVariantMeta};
use super::format::{add_new, names_in, Format};
use super::naming::{QualifiedNameView, QualifiedTypeName};
use crate::capability::RequestKind;

verus! {

/// The payload of a variant of an enum in the registry.
#[derive(Debug)]
pub enum VariantPayload {
    /// A variant carrying exactly one value, of this format.
    NewType(Format),
    /// A unit, tuple or struct variant.
    Other,
}

/// One variant of an enum in the registry: its discriminant, its emitted
/// name (after any rename) and its payload.
#[derive(Debug)]
pub struct RegistryVariant {
    pub index: u32,
    pub name: String,
    pub payload: VariantPayload,
}

/// The shape of a registered container, as far as the plugins read it.
#[derive(Debug)]
pub enum ContainerShape {
    /// An enum, with its variants.
    Enum(Vec<RegistryVariant>),
    /// A struct of any kind.
    Other,
}

/// The container an emitter is writing: its registry name and shape.
#[derive(Debug)]
pub struct Container {
    pub name: QualifiedTypeName,
    pub shape: ContainerShape,
}

impl Container {
    /// An enum's variants are keyed by their discriminant, so no two share
    /// one.
    pub open spec fn well_formed(self) -> bool {
        self.shape matches ContainerShape::Enum(vs) ==> forall|i: int, j: int|
            0 <= i < vs@.len() && 0 <= j < vs@.len() && i != j ==> #[trigger] vs@[i].index != #[trigger] vs@[j].index
    }
}

/// One variant of an effect enum, as the plugins see it: the registry's view
/// of the variant (its emitted name and payload type) paired with what the
/// operation declared.
#[derive(Debug)]
pub struct Variant<'a> {
    /// The variant's discriminant, which keys it in the registry.
    pub index: u32,
    /// The variant name the emitters use, after any rename.
    pub name: &'a str,
    /// The kind the operation declares, or `None` for a legacy operation.
    pub kind: Option<RequestKind>,
    /// The type the request resolves with, in registry spelling. `None` for
    /// a notification, and for an operation that declares no kind.
    pub output: Option<&'a Format>,
    /// The operation type the variant carries.
    pub operation: &'a Format,
    /// Whether the operation is the render operation.
    pub render: bool,
}

/// The effect enum a plugin hook was called for.
#[derive(Debug)]
pub struct Matched<'a> {
    /// The effect enum's emitted name.
    pub name: &'a str,
    /// Whether this is the first registered effect.
    pub primary: bool,
    pub variants: Vec<Variant<'a>>,
}

/// The output a variant's generated signature names: only a request's or a
/// stream's.
pub open spec fn output_of_spec(meta: EffectVariantMeta) -> Option<Format> {
    match (meta.output, meta.kind) {
        (Some(f), Some(RequestKind::Request)) => Some(f),
        (Some(f), Some(RequestKind::Stream)) => Some(f),
        _ => None,
    }
}

/// The output format to generate a signature from: a notification is never
/// resolved, and an operation that declares no kind is resolved with bytes
/// the shell produces itself, so neither names one.
pub fn output_of(meta: &EffectVariantMeta) -> (res: Option<&Format>)
    ensures
        match res {
            Some(f) => output_of_spec(*meta) == Some(*f),
            None => output_of_spec(*meta) is None,
        },
{
    match (&meta.output, meta.kind) {
        (Some(format), Some(RequestKind::Request)) => Some(format),
        (Some(format), Some(RequestKind::Stream)) => Some(format),
        _ => None,
    }
}

/// `p` is the first effect recorded under `name`.
pub open spec fn is_first_match(effects: Seq<EffectMeta>, name: QualifiedNameView, p: int) -> bool {
    &&& 0 <= p < effects.len()
    &&& effects[p].effect@ == name
    &&& forall|j: int| 0 <= j < p ==> #[trigger] effects[j].effect@ != name
}

/// The registry variant with discriminant `index` carries one value.
pub open spec fn newtype_at(vs: Seq<RegistryVariant>, index: int) -> bool {
    exists|k: int| 0 <= k < vs.len() && #[trigger] vs[k].index == index && vs[k].payload is NewType
}

/// Every recorded variant has a one-value registry variant at its index, and
/// there are as many of each.
pub open spec fn lines_up(meta: EffectMeta, vs: Seq<RegistryVariant>) -> bool {
    &&& meta.variants@.len() == vs.len()
    &&& forall|i: int| 0 <= i < meta.variants@.len() ==> newtype_at(vs, #[trigger] meta.variants@[i].index as int)
}

/// `v` pairs the recorded variant `meta` with its registry variant in `vs`.
pub open spec fn pairs(v: Variant, meta: EffectVariantMeta, vs: Seq<RegistryVariant>) -> bool {
    &&& exists|k: int| 0 <= k < vs.len() && #[trigger] vs[k].index == meta.index && v.name@ == vs[k].name@
        && vs[k].payload == VariantPayload::NewType(*v.operation)
    &&& v.index == meta.index
    &&& v.kind == meta.kind
    &&& v.render == meta.render
    &&& match v.output {
        Some(f) => output_of_spec(meta) == Some(*f),
        None => output_of_spec(meta) is None,
    }
}

/// The position of the first effect recorded under `name`.
fn first_position(effects: &Vec<EffectMeta>, name: &QualifiedTypeName) -> (res: Option<usize>)
    ensures
        match res {
            Some(p) => is_first_match(effects@, name@, p as int),
            None => forall|j: int| 0 <= j < effects@.len() ==> #[trigger] effects@[j].effect@ != name@,
        },
{
    let mut i: usize = 0;
    while i < effects.len()
        invariant
            0 <= i <= effects@.len(),
            forall|j: int| 0 <= j < i ==> #[trigger] effects@[j].effect@ != name@,
        decreases effects.len() - i,
    {
        if effects[i].effect.same_as(name) {
            return Some(i);
        }
        i = i + 1;
    }
    None
}

/// The position of the registry variant with discriminant `index`.
fn variant_position(vs: &Vec<RegistryVariant>, index: u32) -> (res: Option<usize>)
    ensures
        match res {
            Some(k) => k < vs@.len() && vs@[k as int].index == index,
            None => forall|k: int| 0 <= k < vs@.len() ==> #[trigger] vs@[k].index != index,
        },
{
    let mut k: usize = 0;
    while k < vs.len()
        invariant
            0 <= k <= vs@.len(),
            forall|j: int| 0 <= j < k ==> #[trigger] vs@[j].index != index,
        decreases vs.len() - k,
    {
        if vs[k].index == index {
            return Some(k);
        }
        k = k + 1;
    }
    None
}

/// Pair the container being emitted with the effect metadata recorded for
/// it, or `None` if this container is not a registered effect enum, or its
/// variants do not all line up with what was recorded.
pub fn matched<'a>(effects: &'a Vec<EffectMeta>, container: &'a Container) -> (res: Option<Matched<'a>>)
    requires
        container.well_formed(),
    ensures
        res is Some <==> exists|p: int| #[trigger] is_first_match(effects@, container.name@, p)
            && container.shape is Enum && lines_up(effects@[p], container.shape->Enum_0@),
        res matches Some(m) ==> forall|p: int| #[trigger] is_first_match(effects@, container.name@, p) ==> {
            &&& m.name@ == container.name.name@
            &&& m.primary == (p == 0)
            &&& m.variants@.len() == effects@[p].variants@.len()
            &&& forall|i: int| 0 <= i < m.variants@.len() ==> pairs(
                #[trigger] m.variants@[i],
                effects@[p].variants@[i],
                container.shape->Enum_0@,
            )
        },
{
    let p = match first_position(effects, &container.name) {
        Some(p) => p,
        None => return None,
    };
    let vs = match &container.shape {
        ContainerShape::Enum(vs) => vs,
        ContainerShape::Other => return None,
    };
    let recorded = &effects[p].variants;
    if recorded.len() != vs.len() {
        return None;
    }
    let mut variants: Vec<Variant<'a>> = Vec::new();
    let mut i: usize = 0;
    while i < recorded.len()
        invariant
            0 <= i <= recorded@.len(),
            is_first_match(effects@, container.name@, p as int),
            *recorded == effects@[p as int].variants,
            container.shape == ContainerShape::Enum(*vs),
            container.well_formed(),
            recorded@.len() == vs@.len(),
            variants@.len() == i,
            forall|j: int| 0 <= j < i ==> newtype_at(vs@, #[trigger] recorded@[j].index as int),
            forall|j: int| 0 <= j < i ==> pairs(#[trigger] variants@[j], recorded@[j], vs@),
        decreases recorded.len() - i,
    {
        let meta = &recorded[i];
        if meta.index > 4294967295usize {
            proof {
                assert(!newtype_at(vs@, meta.index as int));
                assert(!lines_up(effects@[p as int], vs@));
            }
            return None;
        }
        let k = match variant_position(vs, meta.index as u32) {
            Some(k) => k,
            None => {
                proof {
                    assert(!newtype_at(vs@, meta.index as int));
                    assert(!lines_up(effects@[p as int], vs@));
                }
                return None;
            },
        };
        let named = &vs[k];
        let operation = match &named.payload {
            VariantPayload::NewType(op) => op,
            VariantPayload::Other => {
                proof {
                    assert(!newtype_at(vs@, meta.index as int)) by {
                        assert forall|k2: int| 0 <= k2 < vs@.len() && #[trigger] vs@[k2].index == meta.index
                            implies !(vs@[k2].payload is NewType) by {
                            if k2 != k {
                                assert(vs@[k2].index != vs@[k as int].index);
                            }
                        }
                    }
                    assert(!lines_up(effects@[p as int], vs@));
                }
                return None;
            },
        };
        let v = Variant {
            index: named.index,
            name: named.name.as_str(),
            kind: meta.kind,
            output: output_of(meta),
            operation,
            render: meta.render,
        };
        proof {
            assert(vs@[k as int].index == meta.index);
            assert(newtype_at(vs@, meta.index as int));
        }
        variants.push(v);
        i = i + 1;
    }
    proof {
        assert(lines_up(effects@[p as int], vs@));
        assert forall|q: int| #[trigger] is_first_match(effects@, container.name@, q) implies q == p by {
            if q < p {
                assert(effects@[q].effect@ != container.name@);
            } else if q > p {
                assert(effects@[p as int].effect@ != container.name@);
            }
        }
    }
    Some(Matched { name: container.name.name.as_str(), primary: p == 0, variants })
}

impl<'a> Matched<'a> {
    /// Whether a `Core` is written for this effect. `Core` uses fixed names
    /// and owns the view loop, so it is written for the first registered
    /// effect only, and only when that effect has a render variant.
    pub fn writes_core(&self) -> (b: bool)
        ensures
            b == (self.primary && exists|i: int| 0 <= i < self.variants@.len() && (#[trigger] self.variants@[i]).render),
    {
        self.primary && self.render_variant().is_some()
    }

    /// The first variant carrying the render operation, if the effect has
    /// one.
    pub fn render_variant(&self) -> (res: Option<&Variant<'a>>)
        ensures
            match res {
                Some(v) => exists|i: int| 0 <= i < self.variants@.len() && self.variants@[i] == *v
                    && self.variants@[i].render
                    && forall|j: int| 0 <= j < i ==> !(#[trigger] self.variants@[j]).render,
                None => forall|i: int| 0 <= i < self.variants@.len() ==> !(#[trigger] self.variants@[i]).render,
            },
    {
        let mut i: usize = 0;
        while i < self.variants.len()
            invariant
                0 <= i <= self.variants@.len(),
                forall|j: int| 0 <= j < i ==> !(#[trigger] self.variants@[j]).render,
            decreases self.variants.len() - i,
        {
            if self.variants[i].render {
                return Some(&self.variants[i]);
            }
            i = i + 1;
        }
        None
    }
}

impl<'a> Variant<'a> {
    /// Whether the shell resolves this request exactly once with a typed
    /// output.
    pub fn is_request(&self) -> (b: bool)
        ensures
            b == (self.kind == Some(RequestKind::Request)),
    {
        matches!(self.kind, Some(RequestKind::Request))
    }

    /// Whether the shell resolves this request many times with a typed
    /// output.
    pub fn is_stream(&self) -> (b: bool)
        ensures
            b == (self.kind == Some(RequestKind::Stream)),
    {
        matches!(self.kind, Some(RequestKind::Stream))
    }

    /// Whether the operation leaves the kind to the call site.
    pub fn is_legacy(&self) -> (b: bool)
        ensures
            b == (self.kind is None),
    {
        self.kind.is_none()
    }
}

/// Whether an operation of kind `kind` is resolved with a typed output.
pub open spec fn is_typed(kind: Option<RequestKind>) -> bool {
    kind == Some(RequestKind::Request) || kind == Some(RequestKind::Stream)
}

/// Whether some variant of `effect` is resolved with a typed output.
pub open spec fn any_typed(effect: EffectMeta) -> bool {
    exists|i: int| 0 <= i < effect.variants@.len() && is_typed((#[trigger] effect.variants@[i]).kind)
}

/// Whether the dispatcher serializes an output, which is what needs a
/// serializer imported: the first effect has a request or a stream.
pub open spec fn serializes_output_spec(effects: Seq<EffectMeta>) -> bool {
    effects.len() > 0 && any_typed(effects[0])
}

/// Whether the handler has an asynchronous method: the first effect has a
/// request.
pub open spec fn has_request_spec(effects: Seq<EffectMeta>) -> bool {
    effects.len() > 0 && exists|i: int| 0 <= i < effects[0].variants@.len()
        && (#[trigger] effects[0].variants@[i]).kind == Some(RequestKind::Request)
}

/// Whether the first effect has a render variant, which is what the
/// generated `Core` needs to exist.
pub open spec fn emits_core_spec(effects: Seq<EffectMeta>) -> bool {
    effects.len() > 0 && exists|i: int| 0 <= i < effects[0].variants@.len()
        && (#[trigger] effects[0].variants@[i]).render
}

/// Whether the dispatcher will serialize an output.
pub fn serializes_output(effects: &Vec<EffectMeta>) -> (b: bool)
    ensures
        b == serializes_output_spec(effects@),
{
    if effects.len() == 0 {
        return false;
    }
    let variants = &effects[0].variants;
    let mut i: usize = 0;
    while i < variants.len()
        invariant
            0 <= i <= variants@.len(),
            effects@.len() > 0,
            *variants == effects@[0].variants,
            forall|j: int| 0 <= j < i ==> !is_typed((#[trigger] variants@[j]).kind),
        decreases variants.len() - i,
    {
        match variants[i].kind {
            Some(RequestKind::Request) | Some(RequestKind::Stream) => return true,
            _ => {},
        }
        i = i + 1;
    }
    false
}

/// Whether the handler has an asynchronous method, which is what needs
/// `Task` imported in C#.
pub fn has_request(effects: &Vec<EffectMeta>) -> (b: bool)
    ensures
        b == has_request_spec(effects@),
{
    if effects.len() == 0 {
        return false;
    }
    let variants = &effects[0].variants;
    let mut i: usize = 0;
    while i < variants.len()
        invariant
            0 <= i <= variants@.len(),
            effects@.len() > 0,
            *variants == effects@[0].variants,
            forall|j: int| 0 <= j < i ==> (#[trigger] variants@[j]).kind != Some(RequestKind::Request),
        decreases variants.len() - i,
    {
        if variants[i].kind == Some(RequestKind::Request) {
            return true;
        }
        i = i + 1;
    }
    false
}

/// Whether the first registered effect has a render variant.
pub fn emits_core(effects: &Vec<EffectMeta>) -> (b: bool)
    ensures
        b == emits_core_spec(effects@),
{
    if effects.len() == 0 {
        return false;
    }
    let variants = &effects[0].variants;
    let mut i: usize = 0;
    while i < variants.len()
        invariant
            0 <= i <= variants@.len(),
            effects@.len() > 0,
            *variants == effects@[0].variants,
            forall|j: int| 0 <= j < i ==> !(#[trigger] variants@[j]).render,
        decreases variants.len() - i,
    {
        if variants[i].render {
            return true;
        }
        i = i + 1;
    }
    false
}

/// The names a sequence of recorded variants' outputs mention, in order.
pub open spec fn output_names(variants: Seq<EffectVariantMeta>) -> Seq<QualifiedNameView>
    decreases variants.len(),
{
    if variants.len() == 0 {
        Seq::empty()
    } else {
        output_names(variants.drop_last()) + match output_of_spec(variants.last()) {
            Some(f) => names_in(f),
            None => Seq::empty(),
        }
    }
}

/// Every type the generated handler API names as an output of `effect`, in
/// registry spelling, each once, in the order the outputs mention them: the
/// output of each request and stream, and every type inside one.
pub fn output_types(effect: &EffectMeta) -> (res: Vec<QualifiedTypeName>)
    ensures
        res@.map_values(|n: QualifiedTypeName| n@) == add_new(Seq::empty(), output_names(effect.variants@)),
{
    let mut names: Vec<QualifiedTypeName> = Vec::new();
    let mut i: usize = 0;
    proof {
        assert(effect.variants@.subrange(0, 0) == Seq::<EffectVariantMeta>::empty());
        assert(names@.map_values(|n: QualifiedTypeName| n@) == Seq::<QualifiedNameView>::empty());
    }
    while i < effect.variants.len()
        invariant
            0 <= i <= effect.variants@.len(),
            names@.map_values(|n: QualifiedTypeName| n@)
                == add_new(Seq::empty(), output_names(effect.variants@.subrange(0, i as int))),
        decreases effect.variants.len() - i,
    {
        proof {
            let pre = effect.variants@.subrange(0, i as int);
            assert(effect.variants@.subrange(0, i + 1).drop_last() == pre);
            assert(effect.variants@.subrange(0, i + 1).last() == effect.variants@[i as int]);
        }
        match output_of(&effect.variants[i]) {
            Some(format) => {
                proof {
                    super::format::lemma_add_new_concat(
                        Seq::empty(),
                        output_names(effect.variants@.subrange(0, i as int)),
                        names_in(*format),
                    );
                }
                format.collect_names(&mut names);
            },
            None => {
                proof {
                    assert(output_names(effect.variants@.subrange(0, i + 1))
                        == output_names(effect.variants@.subrange(0, i as int)));
                }
            },
        }
        i = i + 1;
    }
    proof {
        assert(effect.variants@.subrange(0, effect.variants@.len() as int) == effect.variants@);
    }
    names
}

} // verus!
