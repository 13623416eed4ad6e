//! The layout of the ids the core issues with every effect request: which
//! effect the request carries, whether the shell resolves it once or many
//! times, and an ascending sequence number.
use vstd::prelude::*;

use crate::capability::RequestKind;

verus! {

/// How many low bits of a request id hold the sequence number.
pub const SEQUENCE_BITS: u32 = 23;

/// The bit a request id sets for a stream and clears for a request
/// (`1 << SEQUENCE_BITS`).
pub const STREAM_BIT: u32 = 0x0080_0000;

/// The mask that picks the sequence out of a request id
/// (`STREAM_BIT - 1`).
pub const SEQUENCE_MASK: u32 = 0x007f_ffff;

/// How far the effect's variant index is shifted up in a request id
/// (`SEQUENCE_BITS + 1`).
pub const EFFECT_SHIFT: u32 = 24;

/// The id the core issues with an effect request. Every notification shares
/// the reserved id zero.
#[derive(Debug, Clone, Copy, PartialEq, Eq, Structural)]
pub struct EffectId(pub u32);

/// The id of a request for the effect at position `index`, resolved many
/// times when `stream`, with sequence number `sequence`.
pub open spec fn compose_id(index: u8, stream: bool, sequence: u32) -> u32 {
    ((index as u32) << 24u32) | (if stream { 0x0080_0000u32 } else { 0u32 }) | (sequence & 0x007f_ffffu32)
}

impl EffectId {
    /// Whether this is the id every notification shares.
    pub fn is_notification(&self) -> (b: bool)
        ensures
            b == (self.0 == 0),
    {
        self.0 == 0
    }

    /// The position of the effect the request carries.
    pub fn effect_index(&self) -> (i: u8)
        ensures
            i as u32 == self.0 >> 24u32,
    {
        let raw = self.0;
        let i = raw >> EFFECT_SHIFT;
        assert(i < 256u32) by (bit_vector)
            requires
                i == raw >> 24u32,
        ;
        i as u8
    }

    /// How many times the shell resolves the request: never for a
    /// notification, many times when the stream bit is set, once otherwise.
    pub fn kind(&self) -> (k: RequestKind)
        ensures
            k == if self.0 == 0 {
                RequestKind::Notify
            } else if self.0 & 0x0080_0000u32 != 0 {
                RequestKind::Stream
            } else {
                RequestKind::Request
            },
    {
        if self.0 == 0 {
            RequestKind::Notify
        } else if self.0 & STREAM_BIT != 0 {
            RequestKind::Stream
        } else {
            RequestKind::Request
        }
    }

    /// The ascending number the request was issued with.
    pub fn sequence(&self) -> (s: u32)
        ensures
            s == self.0 & 0x007f_ffffu32,
    {
        self.0 & SEQUENCE_MASK
    }
}

/// Reading an id back gives the parts it was composed from: the effect's
/// position, the kind, and the sequence number (which starts at one, zero
/// being the notifications' id).
pub proof fn law_id_layout_roundtrip(index: u8, stream: bool, sequence: u32)
    requires
        1 <= sequence <= 0x007f_ffffu32,
    ensures
        compose_id(index, stream, sequence) != 0,
        compose_id(index, stream, sequence) >> 24u32 == index as u32,
        (compose_id(index, stream, sequence) & 0x0080_0000u32 != 0) == stream,
        compose_id(index, stream, sequence) & 0x007f_ffffu32 == sequence,
{
    let i = index as u32;
    let s: u32 = if stream { 0x0080_0000u32 } else { 0u32 };
    assert(i <= 255u32);
    assert(s == 0u32 || s == 0x0080_0000u32);
    assert(((i << 24u32) | s | (sequence & 0x007f_ffffu32)) != 0u32) by (bit_vector)
        requires
            1u32 <= sequence <= 0x007f_ffffu32,
    ;
    assert(((i << 24u32) | s | (sequence & 0x007f_ffffu32)) >> 24u32 == i) by (bit_vector)
        requires
            i <= 255u32,
            s == 0u32 || s == 0x0080_0000u32,
    ;
    assert((((i << 24u32) | s | (sequence & 0x007f_ffffu32)) & 0x0080_0000u32 != 0u32) == (s != 0u32)) by (bit_vector)
        requires
            s == 0u32 || s == 0x0080_0000u32,
    ;
    assert(((i << 24u32) | s | (sequence & 0x007f_ffffu32)) & 0x007f_ffffu32 == sequence) by (bit_vector)
        requires
            sequence <= 0x007f_ffffu32,
            s == 0u32 || s == 0x0080_0000u32,
    ;
}

} // verus!
