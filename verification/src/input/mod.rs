//! Pointer and pen input bookkeeping.

pub mod text;

use vstd::prelude::*;

use crate::draw::Modifiers;

verus! {

/// The longest press, in milliseconds, that still counts as a click.
pub const CLICK_DURATION_MS: u32 = 300;

/// Whether a button press and its release, given by their millisecond event
/// times, form a click. Event times wrap around, so the elapsed time is taken
/// modulo 2^32.
pub fn short_click(pressed: Option<u32>, released: Option<u32>) -> (res: bool)
    ensures
        res == (pressed is Some && released is Some && (released->0 - pressed->0) % 0x1_0000_0000
            <= CLICK_DURATION_MS),
{
    match (pressed, released) {
        (Some(pressed), Some(released)) => released.wrapping_sub(pressed) <= CLICK_DURATION_MS,
        _ => false,
    }
}

/// The most pen samples that wait for the next frame.
pub const MAX_PENDING_PEN_SAMPLES: usize = 64;

/// A pen position, given by the bit patterns of its two `f32` coordinates.
#[derive(Debug, Clone, Copy, PartialEq, Eq, Structural)]
pub struct PenSample {
    pub x_bits: u32,
    pub y_bits: u32,
}

/// Whether an `f32` bit pattern is a NaN: all exponent bits set and a
/// non-zero fraction.
pub open spec fn is_nan_bits(bits: u32) -> bool {
    bits & 0x7f80_0000 == 0x7f80_0000 && bits & 0x007f_ffff != 0
}

/// Whether two `f32` values, given by their bit patterns, compare equal as
/// floating-point numbers: neither is NaN, and they are the same value, the
/// two zeros counting as one.
pub open spec fn f32_bits_equal(a: u32, b: u32) -> bool {
    &&& !is_nan_bits(a)
    &&& !is_nan_bits(b)
    &&& (a == b || (a & 0x7fff_ffff == 0 && b & 0x7fff_ffff == 0))
}

/// Whether two samples are at the same position: both coordinates compare
/// equal as floating-point numbers.
pub open spec fn same_position(a: PenSample, b: PenSample) -> bool {
    f32_bits_equal(a.x_bits, b.x_bits) && f32_bits_equal(a.y_bits, b.y_bits)
}

impl PenSample {
    /// Whether `other` is at the same position, comparing coordinates as
    /// floating-point numbers do.
    pub fn same_position(self, other: PenSample) -> (res: bool)
        ensures
            res == same_position(self, other),
    {
        bits_equal(self.x_bits, other.x_bits) && bits_equal(self.y_bits, other.y_bits)
    }
}

/// Whether two `f32` bit patterns compare equal as floating-point numbers.
fn bits_equal(a: u32, b: u32) -> (res: bool)
    ensures
        res == f32_bits_equal(a, b),
{
    let a_nan = a & 0x7f80_0000 == 0x7f80_0000 && a & 0x007f_ffff != 0;
    let b_nan = b & 0x7f80_0000 == 0x7f80_0000 && b & 0x007f_ffff != 0;
    !a_nan && !b_nan && (a == b || (a & 0x7fff_ffff == 0 && b & 0x7fff_ffff == 0))
}

/// The samples collected since the last frame, taken together as one motion.
#[derive(Debug)]
pub struct PenBatch {
    /// The last sample: where the motion ends.
    pub end: PenSample,
    /// Where the previous motion ended, if the stroke already moved.
    pub anchor: Option<PenSample>,
    /// The samples before the end, in order: the candidates for a bend.
    pub interior: Vec<PenSample>,
}

/// Pen samples that arrive faster than frames, kept until the next frame.
pub struct PendingPenMotion {
    anchor: Option<PenSample>,
    samples: Vec<PenSample>,
    modifiers: Modifiers,
}

/// The samples at even positions: what remains when a full buffer is halved.
pub open spec fn even_samples(samples: Seq<PenSample>) -> Seq<PenSample> {
    Seq::new(((samples.len() + 1) / 2) as nat, |k: int| samples[2 * k])
}

/// The pending samples after `point` arrives: a sample at the position of the
/// last one is dropped; a full buffer keeps every other sample (its first
/// among them) before taking the new one.
pub open spec fn pushed_samples(samples: Seq<PenSample>, point: PenSample) -> Seq<PenSample> {
    if samples.len() > 0 && same_position(samples.last(), point) {
        samples
    } else if samples.len() == MAX_PENDING_PEN_SAMPLES {
        even_samples(samples).push(point)
    } else {
        samples.push(point)
    }
}

/// A new sample is never lost: after it arrives, the pending samples end
/// with it or with a sample at its position (a motion taken then ends
/// there). The oldest pending sample is
/// never lost either, so a motion still starts where the pen went first, and
/// the buffer stays bounded.
pub proof fn lemma_push_keeps_ends(samples: Seq<PenSample>, point: PenSample)
    requires
        samples.len() <= MAX_PENDING_PEN_SAMPLES,
    ensures
        pushed_samples(samples, point).len() > 0,
        pushed_samples(samples, point).last() == point || same_position(
            pushed_samples(samples, point).last(),
            point,
        ),
        samples.len() > 0 ==> pushed_samples(samples, point)[0] == samples[0],
        pushed_samples(samples, point).len() <= MAX_PENDING_PEN_SAMPLES,
{
}

impl PendingPenMotion {
    #[verifier::type_invariant]
    spec fn inv(self) -> bool {
        self.samples@.len() <= MAX_PENDING_PEN_SAMPLES
    }

    pub closed spec fn spec_anchor(self) -> Option<PenSample> {
        self.anchor
    }

    pub closed spec fn spec_samples(self) -> Seq<PenSample> {
        self.samples@
    }

    pub closed spec fn spec_modifiers(self) -> Modifiers {
        self.modifiers
    }

    /// No samples, no anchor and no modifiers held.
    pub fn new() -> (res: Self)
        ensures
            res.spec_anchor() is None,
            res.spec_samples() == Seq::<PenSample>::empty(),
            res.spec_modifiers() == (Modifiers { shift: false, ctrl: false, alt: false }),
    {
        PendingPenMotion {
            anchor: None,
            samples: Vec::new(),
            modifiers: Modifiers { shift: false, ctrl: false, alt: false },
        }
    }

    /// The modifiers held while the pending samples arrived.
    pub fn modifiers(&self) -> (res: Modifiers)
        ensures
            res == self.spec_modifiers(),
    {
        self.modifiers
    }

    /// Records the modifiers held for the samples that follow.
    pub fn set_modifiers(&mut self, modifiers: Modifiers)
        ensures
            final(self).spec_modifiers() == modifiers,
            final(self).spec_samples() == old(self).spec_samples(),
            final(self).spec_anchor() == old(self).spec_anchor(),
    {
        proof {
            use_type_invariant(&*self);
        }
        self.modifiers = modifiers;
    }

    /// The pending samples, oldest first.
    pub fn samples(&self) -> (res: &[PenSample])
        ensures
            res@ == self.spec_samples(),
    {
        self.samples.as_slice()
    }

    /// Drops the pending samples and starts over from `anchor`.
    pub fn reset(&mut self, anchor: Option<PenSample>)
        ensures
            final(self).spec_anchor() == anchor,
            final(self).spec_samples() == Seq::<PenSample>::empty(),
            final(self).spec_modifiers() == old(self).spec_modifiers(),
    {
        proof {
            use_type_invariant(&*self);
        }
        self.anchor = anchor;
        self.samples = Vec::new();
    }

    /// Adds a sample, keeping at most `MAX_PENDING_PEN_SAMPLES` of them.
    pub fn push(&mut self, point: PenSample)
        ensures
            final(self).spec_samples() == pushed_samples(old(self).spec_samples(), point),
            final(self).spec_samples().len() <= MAX_PENDING_PEN_SAMPLES,
            final(self).spec_anchor() == old(self).spec_anchor(),
            final(self).spec_modifiers() == old(self).spec_modifiers(),
    {
        proof {
            use_type_invariant(&*self);
        }
        let len = self.samples.len();
        if len > 0 && self.samples[len - 1].same_position(point) {
            return;
        }
        if len == MAX_PENDING_PEN_SAMPLES {
            let ghost before = self.samples@;
            let mut samples = Vec::new();
            std::mem::swap(&mut samples, &mut self.samples);
            let mut write: usize = 1;
            let mut read: usize = 2;
            while read < len
                invariant
                    samples@.len() == len,
                    len == MAX_PENDING_PEN_SAMPLES,
                    before.len() == len,
                    read == 2 * write,
                    1 <= write <= len / 2,
                    read <= len,
                    forall|k: int| 0 <= k < write ==> #[trigger] samples@[k] == before[2 * k],
                    forall|k: int| read <= k < len ==> #[trigger] samples@[k] == before[k],
                decreases len - read,
            {
                let value = samples[read];
                samples.set(write, value);
                write = write + 1;
                read = read + 2;
            }
            samples.truncate(write);
            proof {
                assert(samples@ =~= even_samples(before));
            }
            samples.push(point);
            self.samples = samples;
        } else {
            let mut samples = Vec::new();
            std::mem::swap(&mut samples, &mut self.samples);
            samples.push(point);
            self.samples = samples;
        }
    }

    /// Takes the pending samples as one motion ending at the last of them;
    /// that end becomes the anchor of the next motion. Nothing happens, and
    /// nothing is returned, when no sample is pending.
    pub fn take(&mut self) -> (res: Option<PenBatch>)
        ensures
            old(self).spec_samples().len() == 0 ==> res is None && *final(self) == *old(self),
            old(self).spec_samples().len() > 0 ==> {
                &&& res is Some
                &&& res->0.end == old(self).spec_samples().last()
                &&& res->0.anchor == old(self).spec_anchor()
                &&& res->0.interior@ == old(self).spec_samples().drop_last()
                &&& final(self).spec_anchor() == Some(old(self).spec_samples().last())
                &&& final(self).spec_samples() == Seq::<PenSample>::empty()
                &&& final(self).spec_modifiers() == old(self).spec_modifiers()
            },
    {
        let len = self.samples.len();
        if len == 0 {
            return None;
        }
        let end = self.samples[len - 1];
        let mut interior = Vec::new();
        std::mem::swap(&mut interior, &mut self.samples);
        interior.truncate(len - 1);
        let anchor = self.anchor;
        self.anchor = Some(end);
        proof {
            assert(interior@ =~= old(self).spec_samples().drop_last());
        }
        Some(PenBatch { end, anchor, interior })
    }
}

} // verus!
