use crux_core::bridge::{EffectId, EFFECT_SHIFT, SEQUENCE_BITS, SEQUENCE_MASK, STREAM_BIT};
use crux_core::capability::RequestKind;

#[test]
fn the_layout_constants_agree() {
    assert_eq!(STREAM_BIT, 1 << SEQUENCE_BITS);
    assert_eq!(SEQUENCE_MASK, STREAM_BIT - 1);
    assert_eq!(EFFECT_SHIFT, SEQUENCE_BITS + 1);
}

#[test]
fn the_zero_id_is_the_notification() {
    let id = EffectId(0);
    assert!(id.is_notification());
    assert_eq!(id.kind(), RequestKind::Notify);
    assert_eq!(id.sequence(), 0);
    assert_eq!(id.effect_index(), 0);
    assert!(!EffectId(1).is_notification());
}

#[test]
fn an_id_reads_back_its_parts() {
    let id = EffectId((5u32 << EFFECT_SHIFT) | STREAM_BIT | 42);
    assert_eq!(id.effect_index(), 5);
    assert_eq!(id.kind(), RequestKind::Stream);
    assert_eq!(id.sequence(), 42);

    let id = EffectId((255u32 << EFFECT_SHIFT) | SEQUENCE_MASK);
    assert_eq!(id.effect_index(), 255);
    assert_eq!(id.kind(), RequestKind::Request);
    assert_eq!(id.sequence(), SEQUENCE_MASK);
}
