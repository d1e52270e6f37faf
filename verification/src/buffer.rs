//! Per-channel delta accumulation buffers and their stereo pairing.
//!
//! Each channel turns a native-clock sample stream into output-rate samples
//! by injecting the delta from the previous sample into a band-limited
//! resampling line. The stereo pair advances both channels in lock-step, so
//! the two never desynchronize whatever sample values they carry.

use crate::blip::blip_add_delta;
use crate::blip::blip_avail;
use crate::blip::blip_capacity;
use crate::blip::blip_clocks_for;
use crate::blip::blip_clocks_needed;
use crate::blip::blip_end_frame;
use crate::blip::blip_gain;
use crate::blip::blip_new;
use crate::blip::blip_paced;
use crate::blip::blip_read;
use crate::blip::blip_samples_avail;
use crate::blip::blip_timing;
use crate::blip::blip_timing_init;
use crate::blip::blip_timing_step;
use crate::blip::FRAME_HEADROOM;
use crate::blip::MAX_FRAME_SAMPLES;
use vstd::prelude::*;

verus! {

/// The number of output samples each channel can hold before draining.
pub const BUFFER_SIZE: u32 = 0x10000;

/// The construction rates a buffer accepts: both nonzero, downsampling within
/// the resampler's documented maximum ratio, and upsampling up to sixteen
/// output samples per input clock — the range over which the resampler's
/// 64-bit fixed-point frame arithmetic is in bounds. Rates outside these
/// bounds are a non-fatal failure at session start, alongside lifecycle
/// misuse.
pub open spec fn rates_ok(clock: u32, sample_rate: u32) -> bool {
    &&& 1 <= clock
    &&& 1 <= sample_rate
    &&& clock as nat <= sample_rate as nat * 0x100000
    &&& sample_rate as nat <= clock as nat * 16
}

/// How many more output samples the current frame may still produce, given
/// how many are already pending: the room left in the buffer minus the
/// upsampling headroom, capped by the per-frame bound.
pub open spec fn frame_room_of(avail: nat) -> nat {
    if avail + FRAME_HEADROOM as nat > BUFFER_SIZE as nat {
        0
    } else if BUFFER_SIZE as nat - avail - FRAME_HEADROOM as nat <= MAX_FRAME_SAMPLES as nat {
        (BUFFER_SIZE as nat - avail - FRAME_HEADROOM as nat) as nat
    } else {
        MAX_FRAME_SAMPLES as nat
    }
}

/// One channel's accumulation buffer: the band-limited resampling line, the
/// last raw sample pushed, and the tick count of the current frame.
pub struct ChannelBuffer {
    buf: blip_buf::BlipBuf,
    /// The last pushed raw sample; the running reconstruction state, which
    /// persists across frames.
    pub prev_sample: i32,
    /// Native ticks pushed into the current accumulation frame so far.
    pub frame_size: u32,
}

impl ChannelBuffer {
    /// The number of finished output samples ready to be popped.
    pub closed spec fn avail(self) -> nat {
        blip_avail(self.buf)
    }

    /// The resampling phase state of the channel.
    pub closed spec fn timing(self) -> nat {
        blip_timing(self.buf)
    }

    /// The last pushed raw sample, as seen by contracts.
    pub closed spec fn prev(self) -> i32 {
        self.prev_sample
    }

    /// The tick count of the current frame, as seen by contracts.
    pub closed spec fn frame(self) -> u32 {
        self.frame_size
    }

    /// Well-formedness: the resampling line was built at the fixed capacity
    /// and has not overflowed it, and the last sample is a 16-bit value.
    pub closed spec fn wf(self) -> bool {
        &&& blip_capacity(self.buf) == BUFFER_SIZE as nat
        &&& blip_avail(self.buf) <= BUFFER_SIZE as nat
        &&& -0x8000 <= self.prev_sample <= 0x7fff
    }

    /// Creates an empty channel buffer resampling from `clock` to
    /// `sample_rate`.
    pub fn new(clock: u32, sample_rate: u32) -> (r: ChannelBuffer)
        requires
            rates_ok(clock, sample_rate),
        ensures
            r.wf(),
            r.avail() == 0,
            r.timing() == blip_timing_init(clock as nat, sample_rate as nat),
            sample_rate <= clock ==> blip_paced(r.timing()),
            r.prev() == 0,
            r.frame() == 0,
    {
        ChannelBuffer { buf: blip_new(BUFFER_SIZE, clock, sample_rate), prev_sample: 0, frame_size: 0 }
    }

    /// Injects one native-tick sample: its delta from the previous sample
    /// enters the resampling line at the current frame offset.
    pub fn push(&mut self, sample: i32)
        requires
            old(self).wf(),
            -0x8000 <= sample <= 0x7fff,
            (old(self).frame() as nat) < blip_clocks_for(
                old(self).timing(),
                frame_room_of(old(self).avail()),
            ),
            old(self).frame() < 0xffff_ffffu32,
        ensures
            final(self).wf(),
            final(self).avail() == old(self).avail(),
            final(self).timing() == old(self).timing(),
            final(self).prev() == sample,
            final(self).frame() == old(self).frame() + 1,
    {
        let delta = sample - self.prev_sample;
        blip_add_delta(&mut self.buf, self.frame_size, delta);
        self.prev_sample = sample;
        self.frame_size = self.frame_size + 1;
    }

    /// Finalizes the current frame: the ticks pushed so far become output
    /// samples and a new frame begins. The previous-sample state persists.
    pub fn end_frame(&mut self)
        requires
            old(self).wf(),
            old(self).frame() as nat <= blip_clocks_for(
                old(self).timing(),
                frame_room_of(old(self).avail()),
            ),
        ensures
            final(self).wf(),
            final(self).frame() == 0,
            final(self).prev() == old(self).prev(),
            final(self).timing() == blip_timing_step(
                old(self).timing(),
                old(self).frame() as nat,
            ),
            final(self).avail() == old(self).avail() + blip_gain(
                old(self).timing(),
                old(self).frame() as nat,
            ),
            final(self).avail() <= BUFFER_SIZE as nat,
            blip_paced(old(self).timing()) ==> blip_paced(final(self).timing()),
            forall|n: nat|
                n <= frame_room_of(old(self).avail()) && old(self).frame() as nat
                    >= blip_clocks_for(old(self).timing(), n) ==> final(self).avail() >= old(
                    self,
                ).avail() + n,
            forall|n: nat|
                (old(self).frame() as nat) < blip_clocks_for(old(self).timing(), n)
                    ==> final(self).avail() < old(self).avail() + n,
    {
        blip_end_frame(&mut self.buf, self.frame_size);
        self.frame_size = 0;
    }
}

/// The stereo pair: two channel buffers that are always advanced together.
pub struct TwoChannelBuffer {
    left: ChannelBuffer,
    right: ChannelBuffer,
}

impl TwoChannelBuffer {
    /// Finished output samples pending in the left channel.
    pub closed spec fn left_avail(self) -> nat {
        self.left.avail()
    }

    /// Finished output samples pending in the right channel.
    pub closed spec fn right_avail(self) -> nat {
        self.right.avail()
    }

    /// Finished output samples ready to be popped from the pair.
    pub closed spec fn avail(self) -> nat {
        self.left.avail()
    }

    /// The shared resampling phase state of the pair.
    pub closed spec fn timing(self) -> nat {
        self.left.timing()
    }

    /// Native ticks pushed into the current accumulation frame so far.
    pub closed spec fn frame_size(self) -> u32 {
        self.left.frame_size
    }

    /// The last raw sample pushed to the left channel.
    pub closed spec fn prev_left(self) -> i32 {
        self.left.prev_sample
    }

    /// The last raw sample pushed to the right channel.
    pub closed spec fn prev_right(self) -> i32 {
        self.right.prev_sample
    }

    /// Well-formedness: both channels are well formed and in lock-step — the
    /// same pending count, the same phase state, the same frame offset.
    pub closed spec fn wf(self) -> bool {
        &&& self.left.wf()
        &&& self.right.wf()
        &&& self.left.avail() == self.right.avail()
        &&& self.left.timing() == self.right.timing()
        &&& self.left.frame_size == self.right.frame_size
    }

    /// Creates an empty stereo buffer resampling from `clock` to
    /// `sample_rate`.
    pub fn new(clock: u32, sample_rate: u32) -> (r: TwoChannelBuffer)
        requires
            rates_ok(clock, sample_rate),
        ensures
            r.wf(),
            r.avail() == 0,
            r.timing() == blip_timing_init(clock as nat, sample_rate as nat),
            sample_rate <= clock ==> blip_paced(r.timing()),
            r.frame_size() == 0,
            r.prev_left() == 0,
            r.prev_right() == 0,
    {
        TwoChannelBuffer {
            left: ChannelBuffer::new(clock, sample_rate),
            right: ChannelBuffer::new(clock, sample_rate),
        }
    }

    /// How many native ticks must be pushed so that, after the next
    /// `end_frame`, at least `sample_count` more output samples are
    /// available.
    pub fn needed_frame_size(&self, sample_count: usize) -> (r: usize)
        requires
            self.wf(),
            self.avail() + sample_count as nat <= BUFFER_SIZE as nat,
            sample_count <= MAX_FRAME_SAMPLES,
        ensures
            r as nat == blip_clocks_for(self.timing(), sample_count as nat),
            forall|m: nat|
                sample_count as nat <= m ==> r as nat <= blip_clocks_for(self.timing(), m),
            r <= u32::MAX as usize,
    {
        blip_clocks_needed(&self.left.buf, sample_count as u32) as usize
    }

    /// The number of output samples ready to be popped.
    pub fn available_sample_count(&self) -> (r: usize)
        requires
            self.wf(),
        ensures
            r as nat == self.avail(),
    {
        blip_samples_avail(&self.left.buf) as usize
    }

    /// Pushes one native-tick stereo sample into both channels together.
    pub fn push(&mut self, left_sample: i32, right_sample: i32)
        requires
            old(self).wf(),
            -0x8000 <= left_sample <= 0x7fff,
            -0x8000 <= right_sample <= 0x7fff,
            (old(self).frame_size() as nat) < blip_clocks_for(
                old(self).timing(),
                frame_room_of(old(self).avail()),
            ),
            old(self).frame_size() < 0xffff_ffffu32,
        ensures
            final(self).wf(),
            final(self).avail() == old(self).avail(),
            final(self).timing() == old(self).timing(),
            final(self).prev_left() == left_sample,
            final(self).prev_right() == right_sample,
            final(self).frame_size() == old(self).frame_size() + 1,
    {
        self.left.push(left_sample);
        self.right.push(right_sample);
    }

    /// Finalizes the current frame on both channels together.
    pub fn end_frame(&mut self)
        requires
            old(self).wf(),
            old(self).frame_size() as nat <= blip_clocks_for(
                old(self).timing(),
                frame_room_of(old(self).avail()),
            ),
        ensures
            final(self).wf(),
            final(self).frame_size() == 0,
            final(self).prev_left() == old(self).prev_left(),
            final(self).prev_right() == old(self).prev_right(),
            final(self).timing() == blip_timing_step(
                old(self).timing(),
                old(self).frame_size() as nat,
            ),
            final(self).avail() == old(self).avail() + blip_gain(
                old(self).timing(),
                old(self).frame_size() as nat,
            ),
            final(self).avail() <= BUFFER_SIZE as nat,
            blip_paced(old(self).timing()) ==> blip_paced(final(self).timing()),
            forall|n: nat|
                n <= frame_room_of(old(self).avail()) && old(self).frame_size() as nat
                    >= blip_clocks_for(old(self).timing(), n) ==> final(self).avail() >= old(
                    self,
                ).avail() + n,
            forall|n: nat|
                (old(self).frame_size() as nat) < blip_clocks_for(old(self).timing(), n)
                    ==> final(self).avail() < old(self).avail() + n,
    {
        self.left.end_frame();
        self.right.end_frame();
    }

    /// Drains up to `count` resampled output samples from both channels into
    /// the two vectors, and returns the count drained — the minimum satisfied
    /// across the two channels, which keeps the stereo pair aligned.
    pub fn pop(&mut self, left: &mut Vec<i16>, right: &mut Vec<i16>, count: usize) -> (r: usize)
        requires
            old(self).wf(),
        ensures
            final(self).wf(),
            r as nat == if count as nat <= old(self).avail() {
                count as nat
            } else {
                old(self).avail()
            },
            final(left)@.len() == r,
            final(right)@.len() == r,
            final(self).avail() == old(self).avail() - r,
            final(self).timing() == old(self).timing(),
            final(self).frame_size() == old(self).frame_size(),
            final(self).prev_left() == old(self).prev_left(),
            final(self).prev_right() == old(self).prev_right(),
    {
        *left = blip_read(&mut self.left.buf, count);
        *right = blip_read(&mut self.right.buf, count);
        let n_left = left.len();
        let n_right = right.len();
        if n_left < n_right {
            n_left
        } else {
            n_right
        }
    }
}

/// Law (capacity): a well-formed channel buffer never holds more than
/// `BUFFER_SIZE` pending output samples.
pub proof fn lemma_channel_capacity_bound(b: ChannelBuffer)
    requires
        b.wf(),
    ensures
        b.avail() <= BUFFER_SIZE as nat,
{
}

/// Law (capacity): a well-formed stereo pair never holds more than
/// `BUFFER_SIZE` pending output samples on either channel.
pub proof fn lemma_capacity_bound(b: TwoChannelBuffer)
    requires
        b.wf(),
    ensures
        b.left_avail() <= BUFFER_SIZE as nat,
        b.right_avail() <= BUFFER_SIZE as nat,
        b.avail() <= BUFFER_SIZE as nat,
{
}

/// Law (stereo synchronization): a well-formed stereo pair holds the same
/// number of pending output samples on both channels, whatever sample values
/// were pushed to each, so a pop always drains the minimum available across
/// the two channels and the pair never reports mismatched counts.
pub proof fn lemma_stereo_sync(b: TwoChannelBuffer)
    requires
        b.wf(),
    ensures
        b.left_avail() == b.right_avail(),
        b.avail() == b.left_avail(),
{
}

} // verus!
