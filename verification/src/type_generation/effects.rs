//! What type generation records about an effect enum, beyond its shape in the
//! registry: the request kind each variant's operation declares, the type its
//! request resolves with, and which variant carries the render operation.
use vstd::prelude::*;

use super::format::Format;
use super::naming::QualifiedTypeName;
use crate::capability::RequestKind;

verus! {

/// The two types the generated `Core` names: the event it serializes and the
/// view model it deserializes.
#[derive(Debug, Clone)]
pub struct AppMeta {
    /// The registry name of `App::Event`.
    pub event: QualifiedTypeName,
    /// The registry name of `App::ViewModel`.
    pub view_model: QualifiedTypeName,
}

/// One variant of an effect enum.
#[derive(Debug)]
pub struct EffectVariantMeta {
    /// The variant's zero-based position, which is also its bincode
    /// discriminant.
    pub index: usize,
    /// The variant's Rust identifier.
    pub ident: String,
    /// The request kind the operation declares, or `None` for an operation
    /// that leaves the choice to the call site.
    pub kind: Option<RequestKind>,
    /// The format of the operation's output, or `None` for a notification.
    pub output: Option<Format>,
    /// Whether the operation is the render operation, which the generated
    /// `Core` handles itself.
    pub render: bool,
}

/// Everything type generation knows about one effect enum, beyond its shape
/// in the registry.
#[derive(Debug)]
pub struct EffectMeta {
    /// The registry name of the effect enum.
    pub effect: QualifiedTypeName,
    /// One entry per variant, in declaration order.
    pub variants: Vec<EffectVariantMeta>,
}

impl EffectMeta {
    /// Whether the variants are numbered `0, 1, 2, ...` in order, as the
    /// builder numbers them.
    pub open spec fn well_numbered(self) -> bool {
        forall|i: int| 0 <= i < self.variants@.len() ==> #[trigger] self.variants@[i].index == i
    }
}

/// Whether a variant of operation kind `kind` has an output worth recording:
/// a notification is never resolved, so its output is not.
pub open spec fn records_output_spec(kind: Option<RequestKind>) -> bool {
    kind != Some(RequestKind::Notify)
}

/// Records the variants of one effect enum, in declaration order.
#[derive(Debug)]
pub struct EffectBuilder {
    pub meta: EffectMeta,
}

impl EffectBuilder {
    /// Start recording the effect enum registered as `effect`.
    pub fn new(effect: QualifiedTypeName) -> (b: Self)
        ensures
            b.meta.effect@ == effect@,
            b.meta.variants@.len() == 0,
    {
        EffectBuilder { meta: EffectMeta { effect, variants: Vec::new() } }
    }

    /// Whether [`variant`](Self::variant) keeps the output of an operation of
    /// kind `kind`, and so whether it is worth reflecting.
    pub fn records_output(kind: Option<RequestKind>) -> (b: bool)
        ensures
            b == records_output_spec(kind),
    {
        match kind {
            Some(RequestKind::Notify) => false,
            _ => true,
        }
    }

    /// Record the next variant: identifier `ident`, its operation's request
    /// kind, the format of its output, and whether it carries the render
    /// operation. The variant is numbered by its position; the output of a
    /// notification is not kept.
    pub fn variant(self, ident: &str, kind: Option<RequestKind>, output: Option<Format>, render: bool) -> (b: Self)
        requires
            self.meta.variants@.len() < usize::MAX,
        ensures
            b.meta.effect == self.meta.effect,
            b.meta.variants@.len() == self.meta.variants@.len() + 1,
            b.meta.variants@.drop_last() == self.meta.variants@,
            b.meta.variants@.last().index == self.meta.variants@.len(),
            b.meta.variants@.last().ident@ == ident@,
            b.meta.variants@.last().kind == kind,
            b.meta.variants@.last().render == render,
            records_output_spec(kind) ==> b.meta.variants@.last().output == output,
            !records_output_spec(kind) ==> b.meta.variants@.last().output is None,
    {
        let mut meta = self.meta;
        let index = meta.variants.len();
        let output = if Self::records_output(kind) { output } else { None };
        meta.variants.push(EffectVariantMeta { index, ident: String::from_str(ident), kind, output, render });
        proof {
            assert(meta.variants@.drop_last() == self.meta.variants@);
        }
        EffectBuilder { meta }
    }

    /// Hand the recorded metadata to `effects`, replacing whatever was
    /// recorded before for the same effect enum; the others keep their order.
    pub fn finish(self, effects: &mut Vec<EffectMeta>)
        ensures
            final(effects)@ == old(effects)@.filter(|e: EffectMeta| e.effect@ != self.meta.effect@).push(self.meta),
    {
        let ghost original = old(effects)@;
        let ghost keep = |e: EffectMeta| e.effect@ != self.meta.effect@;
        let mut rest: Vec<EffectMeta> = Vec::new();
        std::mem::swap(&mut rest, effects);
        let total = rest.len();
        assert(total == original.len());
        let mut k: usize = 0;
        proof {
            assert(original.take(0) == Seq::<EffectMeta>::empty());
            assert(original.skip(0) == original);
        }
        while rest.len() > 0
            invariant
                0 <= k <= original.len(),
                rest@ == original.skip(k as int),
                rest@.len() == original.len() - k,
                original.len() <= usize::MAX,
                effects@ == original.take(k as int).filter(keep),
                keep == (|e: EffectMeta| e.effect@ != self.meta.effect@),
            decreases rest.len(),
        {
            let ghost before = effects@;
            let e = rest.remove(0);
            proof {
                assert(original.take(k + 1).drop_last() == original.take(k as int));
                assert(original.take(k + 1).last() == e);
                assert(original.skip(k + 1) == original.skip(k as int).remove(0));
            }
            let differs = !e.effect.same_as(&self.meta.effect);
            if differs {
                effects.push(e);
            }
            proof {
                reveal_with_fuel(Seq::filter, 1);
                assert(keep(e) == differs);
                assert(original.take(k + 1).filter(keep)
                    == if keep(e) { before.push(e) } else { before });
            }
            k = k + 1;
        }
        proof {
            assert(original.take(original.len() as int) == original);
        }
        effects.push(self.meta);
    }
}

/// Finishing an effect leaves exactly one record for that effect enum, the
/// one just made, at the end; every other record is kept, in order.
pub proof fn law_finish_replaces(effects: Seq<EffectMeta>, meta: EffectMeta)
    ensures
        ({
            let after = effects.filter(|e: EffectMeta| e.effect@ != meta.effect@).push(meta);
            &&& after.last() == meta
            &&& forall|i: int| 0 <= i < after.len() - 1 ==> #[trigger] after[i].effect@ != meta.effect@
        }),
{
    let kept = effects.filter(|e: EffectMeta| e.effect@ != meta.effect@);
    assert forall|i: int| 0 <= i < kept.len() implies #[trigger] kept[i].effect@ != meta.effect@ by {
        effects.lemma_filter_pred(|e: EffectMeta| e.effect@ != meta.effect@, i);
    }
    let after = kept.push(meta);
    assert forall|i: int| 0 <= i < after.len() - 1 implies #[trigger] after[i].effect@ != meta.effect@ by {
        assert(after[i] == kept[i]);
    }
}

} // verus!
