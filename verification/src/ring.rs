//! The rings that carry audio frames from one thread to the next.
//!
//! A ring has a producing and a consuming half, which live on different
//! threads. What one half can say of the other is bounded by that: a half knows
//! how many frames went through it and how far the other half had come when it
//! last looked, and both speak of the same traffic, the frames that the ring
//! carries over its life, by number. So the frame that comes out as number `k`
//! is the one that went in as number `k`.

use vstd::prelude::*;

verus! {

/// Samples in a frame: 10 ms of mono audio at 48 kHz.
pub const FRAME_SAMPLES: usize = 480;

/// A frame of audio. Each sample is the bit pattern of a single-precision
/// number: nothing here computes with samples, they are only carried.
pub type Frame = [u32; 480];

/// The producing half of a ring: a `ringbuf::HeapProd`.
#[verifier::external_body]
pub struct Producing {
    half: ringbuf::HeapProd<[u32; 480]>,
}

/// The consuming half of a ring: a `ringbuf::HeapCons`.
#[verifier::external_body]
pub struct Consuming {
    half: ringbuf::HeapCons<[u32; 480]>,
}

/// The frames that the ring of this half carries over its life, by number.
pub uninterp spec fn outbound(half: Producing) -> Map<int, [u32; 480]>;

/// How many frames went into the ring through this half.
pub uninterp spec fn sent(half: Producing) -> nat;

/// How many frames the ring of this half has room for.
pub uninterp spec fn room(half: Producing) -> nat;

/// How many frames this half knows to have been taken out of the ring.
pub uninterp spec fn freed(half: Producing) -> nat;

/// The frames that the ring of this half carries over its life, by number.
pub uninterp spec fn inbound(half: Consuming) -> Map<int, [u32; 480]>;

/// How many frames came out of the ring through this half.
pub uninterp spec fn received(half: Consuming) -> nat;

/// How many frames this half knows to have gone into the ring.
pub uninterp spec fn seen(half: Consuming) -> nat;

/// `ringbuf::HeapRb::new` and its `split`: an empty ring with room for exactly
/// so many frames, as its two halves. Both speak of the same traffic. `new`
/// panics when the room is zero.
#[verifier::external_body]
pub(crate) fn ring(frames: usize) -> (halves: (Producing, Consuming))
    requires
        0 < frames <= 0x1000,
    ensures
        sent(halves.0) == 0,
        freed(halves.0) == 0,
        received(halves.1) == 0,
        seen(halves.1) == 0,
        room(halves.0) == frames,
        outbound(halves.0) == inbound(halves.1),
{
    let (input, output) = ringbuf::traits::Split::split(ringbuf::HeapRb::<[u32; 480]>::new(frames));
    (Producing { half: input }, Consuming { half: output })
}

/// `try_push` of `ringbuf::traits::Producer`: puts a frame behind those already
/// in the ring, or hands it back when the ring is full.
///
/// While the half knows of room, the frame goes in without another look at the
/// other end. Otherwise the half looks again, and refuses only when the ring is
/// full by what it knows then. How much it finds taken out depends on how far the
/// thread at the other end has come, and is not said, except that it is no less
/// than before and no more than went in.
#[verifier::external_body]
pub(crate) fn try_push(ring: &mut Producing, frame: [u32; 480]) -> (r: Result<(), [u32; 480]>)
    ensures
        outbound(*final(ring)) == outbound(*old(ring)),
        room(*final(ring)) == room(*old(ring)),
        r is Ok ==> sent(*final(ring)) == sent(*old(ring)) + 1 && outbound(*final(ring))[sent(
            *old(ring),
        ) as int] == frame,
        r matches Err(back) ==> back == frame && sent(*final(ring)) == sent(*old(ring)),
        sent(*old(ring)) - freed(*old(ring)) < room(*old(ring)) ==> r is Ok && freed(*final(ring))
            == freed(*old(ring)),
        r is Err ==> sent(*final(ring)) - freed(*final(ring)) == room(*final(ring)),
        freed(*old(ring)) <= freed(*final(ring)) <= sent(*final(ring)),
        sent(*final(ring)) - freed(*final(ring)) <= room(*final(ring)),
{
    ringbuf::traits::Producer::try_push(&mut ring.half, frame)
}

/// `try_pop` of `ringbuf::traits::Consumer`: takes the eldest frame out of the
/// ring, if there is one.
///
/// While the half knows of a frame, that frame comes out without another look at
/// the other end. Otherwise the half looks again, and gives nothing only when the
/// ring is empty by what it knows then. How many frames it finds gone in depends
/// on the thread at the other end, and is not said, except that they are no fewer
/// than before and no fewer than came out.
#[verifier::external_body]
pub(crate) fn try_pop(ring: &mut Consuming) -> (r: Option<[u32; 480]>)
    ensures
        inbound(*final(ring)) == inbound(*old(ring)),
        r matches Some(frame) ==> received(*final(ring)) == received(*old(ring)) + 1 && inbound(
            *final(ring),
        )[received(*old(ring)) as int] == frame,
        r is None ==> received(*final(ring)) == received(*old(ring)),
        received(*old(ring)) < seen(*old(ring)) ==> r is Some && seen(*final(ring)) == seen(
            *old(ring),
        ),
        r is None ==> received(*final(ring)) == seen(*final(ring)),
        seen(*old(ring)) <= seen(*final(ring)),
        received(*final(ring)) <= seen(*final(ring)),
{
    ringbuf::traits::Consumer::try_pop(&mut ring.half)
}

} // verus!
