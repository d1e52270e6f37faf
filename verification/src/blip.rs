//! Trusted boundary around the band-limited resampling buffer of the
//! blip_buf crate.
//!
//! A `blip_buf::BlipBuf` converts a stream of amplitude deltas at an input
//! clock rate into output samples at the configured output rate. Its observable
//! state is modelled here by three abstractions: how many finished output
//! samples it holds (`blip_avail`), how many samples it was built to hold
//! (`blip_capacity`), and its resampling phase state (`blip_timing`) — the
//! rate factor and the fractional clock offset, which together determine how
//! many clocks a frame needs and how many samples a frame yields. The phase
//! state evolves deterministically: it is set by the construction rates alone
//! (`blip_timing_init`) and advanced by ending a frame alone
//! (`blip_timing_step`), which is what keeps two channels driven in lock-step
//! perfectly synchronized.

use vstd::prelude::*;

verus! {

#[verifier::external_type_specification]
#[verifier::external_body]
pub struct ExBlipBuf(blip_buf::BlipBuf);

/// The largest number of output samples one accumulation frame may produce;
/// mirrors the frame bound that the resampling crate documents (its
/// `MAX_FRAME`), which keeps all of its internal fixed-point arithmetic in
/// range.
pub const MAX_FRAME_SAMPLES: usize = 4000;

/// Headroom kept free at the end of the buffer: when the output rate exceeds
/// the input clock (up to the 16-fold bound of `blip_new`), a frame may yield
/// up to 15 samples beyond the frame room it was sized for, since each clock
/// then covers several output periods.
pub const FRAME_HEADROOM: usize = 16;

/// The number of finished output samples the buffer holds, ready to be read.
pub uninterp spec fn blip_avail(b: blip_buf::BlipBuf) -> nat;

/// The number of output samples the buffer was constructed to hold.
pub uninterp spec fn blip_capacity(b: blip_buf::BlipBuf) -> nat;

/// The resampling phase state of the buffer: its clock-to-sample rate factor
/// together with the fractional clock offset into the next output sample.
pub uninterp spec fn blip_timing(b: blip_buf::BlipBuf) -> nat;

/// The phase state of a freshly constructed and cleared buffer with the given
/// input clock rate and output sample rate.
pub uninterp spec fn blip_timing_init(clock: nat, rate: nat) -> nat;

/// The length in clocks of the shortest frame that makes `more` additional
/// output samples available, from the given phase state.
pub uninterp spec fn blip_clocks_for(timing: nat, more: nat) -> nat;

/// The phase state after ending a frame of the given length in clocks.
pub uninterp spec fn blip_timing_step(timing: nat, clocks: nat) -> nat;

/// The number of output samples that ending a frame of the given length in
/// clocks makes available, from the given phase state.
pub uninterp spec fn blip_gain(timing: nat, clocks: nat) -> nat;

/// How many more output samples the current frame may still produce: the room
/// left in the buffer minus the headroom, capped by the per-frame bound.
pub open spec fn blip_frame_room(b: blip_buf::BlipBuf) -> nat {
    let room = blip_capacity(b) - blip_avail(b) - FRAME_HEADROOM as int;
    if room < 0 {
        0
    } else if room <= MAX_FRAME_SAMPLES as int {
        room as nat
    } else {
        MAX_FRAME_SAMPLES as nat
    }
}

/// A phase state that yields at most one output sample per clock: every
/// frame for `n` samples is at least `n` clocks long, and each further
/// sample costs at least one further clock. This holds exactly when the
/// rate factor is at most one output period per clock, i.e. for buffers
/// built with the output rate at or below the input clock, and ending a
/// frame keeps it.
pub open spec fn blip_paced(timing: nat) -> bool {
    &&& forall|n: nat| #[trigger] blip_clocks_for(timing, n) >= n
    &&& forall|n: nat|
        #[trigger] blip_clocks_for(timing, n) + 1 <= blip_clocks_for(timing, n + 1)
}

/// Relies on blip_buf::BlipBuf::{new, set_rates, clear}: `new(size)` makes a
/// buffer that holds up to `size` samples; `set_rates` derives the rate
/// factor from the two rates alone and succeeds under the ratio bounds (the
/// factor then lies well within its 64-bit fixed-point range); `clear`
/// empties the buffer and resets the clock offset to a value derived from the
/// factor alone. With the output rate at or below the input clock the factor
/// is at most one output period per clock, which is the paced property.
#[verifier::external_body]
pub(crate) fn blip_new(size: u32, clock: u32, rate: u32) -> (b: blip_buf::BlipBuf)
    requires
        1 <= clock,
        1 <= rate,
        clock as nat <= rate as nat * 0x100000,
        rate as nat <= clock as nat * 16,
    ensures
        blip_avail(b) == 0,
        blip_capacity(b) == size as nat,
        blip_timing(b) == blip_timing_init(clock as nat, rate as nat),
        rate <= clock ==> blip_paced(blip_timing(b)),
{
    let mut b = blip_buf::BlipBuf::new(size);
    let _ = b.set_rates(clock.into(), rate.into());
    b.clear();
    b
}

/// Relies on blip_buf::BlipBuf::clocks_needed: the clocks until `more`
/// additional samples are available is `ceil((more * unit - offset) /
/// factor)`, a function of the phase state alone, monotone in `more`; with
/// `avail + more` within capacity it succeeds.
#[verifier::external_body]
pub(crate) fn blip_clocks_needed(b: &blip_buf::BlipBuf, more: u32) -> (r: u32)
    requires
        blip_avail(*b) + more as nat <= blip_capacity(*b),
        more as nat <= MAX_FRAME_SAMPLES as nat,
    ensures
        r as nat == blip_clocks_for(blip_timing(*b), more as nat),
        forall|m: nat|
            more as nat <= m ==> r as nat <= blip_clocks_for(blip_timing(*b), m),
{
    match b.clocks_needed(more) {
        Ok(clocks) => clocks,
        Err(_) => 0,
    }
}

/// Relies on blip_buf::BlipBuf::add_delta: it mixes a delta into the pending
/// frame at the given clock time and touches neither the finished-sample
/// count nor the phase state; a time within the frame's clock budget lands
/// within the buffer (the headroom covers the impulse width), and a delta
/// within twice the 16-bit sample range keeps its fixed-point interpolation
/// in range.
#[verifier::external_body]
pub(crate) fn blip_add_delta(b: &mut blip_buf::BlipBuf, time: u32, delta: i32)
    requires
        (time as nat) < blip_clocks_for(blip_timing(*old(b)), blip_frame_room(*old(b))),
        -0xffff <= delta <= 0xffff,
    ensures
        blip_avail(*final(b)) == blip_avail(*old(b)),
        blip_capacity(*final(b)) == blip_capacity(*old(b)),
        blip_timing(*final(b)) == blip_timing(*old(b)),
{
    let _ = b.add_delta(time, delta);
}

/// Relies on blip_buf::BlipBuf::end_frame: it advances the clock offset by
/// `clocks * factor` and moves the whole output periods into the
/// finished-sample count, keeping the remainder as the new offset — both
/// functions of the old phase state and the frame length alone. From the
/// ceiling arithmetic of `clocks_needed`, a frame of at least
/// `blip_clocks_for(timing, n)` clocks yields at least `n` samples, and one
/// of fewer clocks yields fewer. For a buffer built by `blip_new` the factor
/// is at most sixteen output periods per clock, so a frame within the frame
/// room overshoots it by less than the headroom: the call succeeds, the
/// count stays within capacity, and a factor within one period per clock
/// (the paced property, which depends on the factor and an offset below one
/// period) carries over to the stepped state.
#[verifier::external_body]
pub(crate) fn blip_end_frame(b: &mut blip_buf::BlipBuf, clocks: u32)
    requires
        clocks as nat <= blip_clocks_for(blip_timing(*old(b)), blip_frame_room(*old(b))),
    ensures
        blip_capacity(*final(b)) == blip_capacity(*old(b)),
        blip_timing(*final(b)) == blip_timing_step(blip_timing(*old(b)), clocks as nat),
        blip_avail(*final(b)) == blip_avail(*old(b)) + blip_gain(
            blip_timing(*old(b)),
            clocks as nat,
        ),
        blip_avail(*final(b)) <= blip_capacity(*final(b)),
        blip_paced(blip_timing(*old(b))) ==> blip_paced(blip_timing(*final(b))),
        forall|n: nat|
            (clocks as nat) < blip_clocks_for(blip_timing(*old(b)), n) ==> blip_avail(
                *final(b),
            ) < blip_avail(*old(b)) + n,
        forall|n: nat|
            n <= blip_frame_room(*old(b)) && clocks as nat >= blip_clocks_for(
                blip_timing(*old(b)),
                n,
            ) ==> blip_avail(*final(b)) >= blip_avail(*old(b)) + n,
{
    let _ = b.end_frame(clocks);
}

/// Relies on blip_buf::BlipBuf::samples_avail: it reports the
/// finished-sample count.
#[verifier::external_body]
pub(crate) fn blip_samples_avail(b: &blip_buf::BlipBuf) -> (r: u32)
    requires
        blip_avail(*b) <= blip_capacity(*b),
        blip_capacity(*b) <= u32::MAX as nat,
    ensures
        r as nat == blip_avail(*b),
{
    b.samples_avail()
}

/// Relies on blip_buf::BlipBuf::read_samples: it writes out and removes
/// `min(count, avail)` finished samples, oldest first, and leaves the phase
/// state and the capacity alone.
#[verifier::external_body]
pub(crate) fn blip_read(b: &mut blip_buf::BlipBuf, count: usize) -> (r: Vec<i16>)
    ensures
        r@.len() == if count as nat <= blip_avail(*old(b)) {
            count as nat
        } else {
            blip_avail(*old(b))
        },
        blip_avail(*final(b)) == blip_avail(*old(b)) - r@.len(),
        blip_capacity(*final(b)) == blip_capacity(*old(b)),
        blip_timing(*final(b)) == blip_timing(*old(b)),
{
    let mut out = vec![0i16; count];
    let n = b.read_samples(&mut out, false);
    out.truncate(n);
    out
}

} // verus!
