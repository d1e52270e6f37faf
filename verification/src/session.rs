//! The synthesis session: chip configuration, tone programming, note events
//! and pull-based audio generation over a chip engine and a stereo
//! resampling buffer.
//!
//! Every operation's register traffic is specified exactly, as the sequence
//! of writes it appends to the engine's write log.

use crate::blip::blip_clocks_for;
use crate::blip::blip_gain;
use crate::blip::blip_timing_init;
use crate::blip::blip_timing_step;
use crate::blip::MAX_FRAME_SAMPLES;
use crate::buffer::frame_room_of;
use crate::buffer::rates_ok;
use crate::buffer::TwoChannelBuffer;
use crate::engine::Bank;
use crate::engine::ChipEngine;
use crate::engine::RegWrite;
use crate::note::Note;
use crate::tone::spec_value_am_dr;
use crate::tone::spec_value_ams_pms;
use crate::tone::spec_value_dt_ml;
use crate::tone::spec_value_fb_al;
use crate::tone::spec_value_ks_ar;
use crate::tone::spec_value_lfo_freq;
use crate::tone::spec_value_sl_rr;
use crate::tone::spec_value_sr;
use crate::tone::spec_value_ssg_eg;
use crate::tone::spec_value_tl;
use crate::tone::FmOperator;
use crate::tone::FmTone;
use vstd::prelude::*;

verus! {

/// The key-on bits enabling all four operator slots of a channel.
pub const SLOT_FLAGS: u8 = 0xf0;

/// The flag selecting the high channel bank in the key-control byte.
pub const HIGH_CH_NOTE_ON_FLAG: u8 = 0x04;

/// A write of `data` at `addr` in the low register bank.
pub open spec fn wlow(addr: u8, data: u8) -> RegWrite {
    RegWrite { bank: Bank::Low, addr, data }
}

/// A write of `data` at `addr` in the high register bank.
pub open spec fn whigh(addr: u8, data: u8) -> RegWrite {
    RegWrite { bank: Bank::High, addr, data }
}

/// The same byte written at the same address of both banks, low bank first.
pub open spec fn hl_writes(addr: u8, data: u8) -> Seq<RegWrite> {
    seq![wlow(addr, data), whigh(addr, data)]
}

/// The register writes that starting a session issues: the chip operating
/// mode, then center panning on the three channel slots of both banks.
pub open spec fn create_writes() -> Seq<RegWrite> {
    seq![wlow(0x29, 0x80)] + hl_writes(0xb4, 0xc0) + hl_writes(0xb5, 0xc0) + hl_writes(0xb6, 0xc0)
}

/// The per-channel tone writes: feedback/algorithm, then center panning
/// combined with the modulation sensitivities.
pub open spec fn tone_channel_writes(t: FmTone, ch: u8) -> Seq<RegWrite>
    recommends
        ch < 3,
{
    hl_writes((0xb0 + ch) as u8, spec_value_fb_al(t)) + hl_writes(
        (0xb4 + ch) as u8,
        0xc0 | spec_value_ams_pms(t),
    )
}

/// The tone writes of the first `n` channel slots, in order.
pub open spec fn tone_channels_prefix(t: FmTone, n: int) -> Seq<RegWrite>
    decreases n,
{
    if n <= 0 {
        Seq::empty()
    } else {
        tone_channels_prefix(t, n - 1) + tone_channel_writes(t, (n - 1) as u8)
    }
}

/// The fixed register-address offset of each of the four operators.
pub open spec fn op_offset(i: int) -> u8 {
    if i == 0 {
        0x00
    } else if i == 1 {
        0x08
    } else if i == 2 {
        0x04
    } else {
        0x0c
    }
}

/// The seven operator writes for one channel slot, where `base` is the
/// channel offset plus the operator's address offset.
pub open spec fn operator_channel_writes(o: FmOperator, base: u8) -> Seq<RegWrite>
    recommends
        base < 0x10,
{
    hl_writes((0x30 + base) as u8, spec_value_dt_ml(o)) + hl_writes(
        (0x40 + base) as u8,
        spec_value_tl(o),
    ) + hl_writes((0x50 + base) as u8, spec_value_ks_ar(o)) + hl_writes(
        (0x60 + base) as u8,
        spec_value_am_dr(o),
    ) + hl_writes((0x70 + base) as u8, spec_value_sr(o)) + hl_writes(
        (0x80 + base) as u8,
        spec_value_sl_rr(o),
    ) + hl_writes((0x90 + base) as u8, spec_value_ssg_eg(o))
}

/// One operator's writes for the first `n` channel slots, in order.
pub open spec fn operator_channels_prefix(o: FmOperator, off: u8, n: int) -> Seq<RegWrite>
    decreases n,
{
    if n <= 0 {
        Seq::empty()
    } else {
        operator_channels_prefix(o, off, n - 1) + operator_channel_writes(
            o,
            (off + n - 1) as u8,
        )
    }
}

/// The writes of the first `n` operators, each across all three channel
/// slots, in order.
pub open spec fn operators_prefix(t: FmTone, n: int) -> Seq<RegWrite>
    decreases n,
{
    if n <= 0 {
        Seq::empty()
    } else {
        operators_prefix(t, n - 1) + operator_channels_prefix(
            t.op[n - 1],
            op_offset(n - 1),
            3,
        )
    }
}

/// The full register-write sequence that programming a tone issues: the LFO
/// frequency, the per-channel bytes, then the four operators.
pub open spec fn set_tone_writes(t: FmTone) -> Seq<RegWrite> {
    seq![wlow(0x24, spec_value_lfo_freq(t))] + tone_channels_prefix(t, 3) + operators_prefix(t, 4)
}

/// The register writes a note-on issues: the frequency high/block and low
/// bytes in the channel's bank, then key-on with all slots enabled. Channels
/// 6 and above issue nothing.
pub open spec fn note_on_writes(ch: u8, note: Note) -> Seq<RegWrite> {
    if ch < 3 {
        seq![
            wlow((0xa4 + ch) as u8, note.spec_f_number_high_block()),
            wlow((0xa0 + ch) as u8, note.spec_f_number_low()),
            wlow(0x28, SLOT_FLAGS | ch),
        ]
    } else if ch < 6 {
        seq![
            whigh((0xa4 + (ch - 2)) as u8, note.spec_f_number_high_block()),
            whigh((0xa0 + (ch - 2)) as u8, note.spec_f_number_low()),
            wlow(0x28, SLOT_FLAGS | HIGH_CH_NOTE_ON_FLAG | ((ch - 2) as u8)),
        ]
    } else {
        Seq::empty()
    }
}

/// The register writes a note-off issues: key-off with all slot bits
/// cleared, keeping only the channel key bits. Channels 6 and above issue
/// nothing.
pub open spec fn note_off_writes(ch: u8) -> Seq<RegWrite> {
    if ch < 3 {
        seq![wlow(0x28, !SLOT_FLAGS & ch)]
    } else if ch < 6 {
        seq![wlow(0x28, !SLOT_FLAGS & (HIGH_CH_NOTE_ON_FLAG | ((ch - 2) as u8)))]
    } else {
        Seq::empty()
    }
}

/// Law: a note-on or note-off for channel 6 or above issues no register
/// write at all.
pub proof fn lemma_note_channel_bound(ch: u8, note: Note)
    requires
        ch >= 6,
    ensures
        note_on_writes(ch, note) == Seq::<RegWrite>::empty(),
        note_off_writes(ch) == Seq::<RegWrite>::empty(),
{
}

/// Writes the same byte to the same address of both register banks, low
/// bank first.
pub fn ym2608_write_high_and_low<E: ChipEngine>(engine: &mut E, addr: u8, data: u8)
    ensures
        final(engine).writes() == old(engine).writes() + hl_writes(addr, data),
        final(engine).native_rate() == old(engine).native_rate(),
        final(engine).resets() == old(engine).resets(),
{
    engine.write_low(addr, data);
    engine.write_high(addr, data);
    proof {
        assert(engine.writes() =~= old(engine).writes() + hl_writes(addr, data));
    }
}

/// One synthesis session: a chip engine and, while the session is active,
/// the stereo resampling buffer sized from the engine's native rate.
pub struct SynthSession<E: ChipEngine> {
    /// The chip engine the session drives.
    pub engine: E,
    /// The resampling buffer; present exactly while the session is active.
    pub buf: Option<TwoChannelBuffer>,
}

impl<E: ChipEngine> SynthSession<E> {
    /// Whether the session has been started and not yet stopped.
    pub open spec fn active(self) -> bool {
        self.buf is Some
    }

    /// Well-formedness: an active session's buffer is well formed and sits
    /// between frames.
    pub open spec fn wf(self) -> bool {
        match self.buf {
            Some(b) => b.wf() && b.frame_size() == 0,
            None => true,
        }
    }

    /// Creates an inactive session around the given engine.
    pub fn new(engine: E) -> (r: SynthSession<E>)
        ensures
            !r.active(),
            r.wf(),
            r.engine == engine,
    {
        SynthSession { engine, buf: None }
    }

    /// Starts the session: builds the resampling buffer from the engine's
    /// native rate and the requested output rate, resets the chip and
    /// programs its operating mode and center panning. Fails, changing
    /// nothing, if the session is already active, or — deliberately, a
    /// non-fatal boolean failure alongside lifecycle misuse — if the rates
    /// fall outside the resampler's workable range: the output rate must be
    /// nonzero, at least a two-to-the-twentieth of the native rate, and at
    /// most sixteen times it.
    pub fn create(&mut self, output_rate: u32) -> (r: bool)
        requires
            old(self).wf(),
        ensures
            final(self).wf(),
            r == (!old(self).active() && rates_ok(old(self).engine.native_rate(), output_rate)),
            final(self).active() == (old(self).active() || r),
            final(self).engine.native_rate() == old(self).engine.native_rate(),
            r ==> final(self).engine.writes() == old(self).engine.writes() + create_writes(),
            r ==> final(self).engine.resets() == old(self).engine.resets() + 1,
            r ==> (match final(self).buf {
                Some(b) => b.avail() == 0 && b.frame_size() == 0 && b.prev_left() == 0
                    && b.prev_right() == 0 && b.timing() == blip_timing_init(
                    old(self).engine.native_rate() as nat,
                    output_rate as nat,
                ),
                None => false,
            }),
            !r ==> *final(self) == *old(self),
    {
        if self.buf.is_some() {
            return false;
        }
        let native = self.engine.sample_rate();
        if native < 1 || output_rate < 1 {
            return false;
        }
        if (native as u64) > (output_rate as u64) * 0x100000 {
            return false;
        }
        if (output_rate as u64) > (native as u64) * 16 {
            return false;
        }
        self.engine.reset();
        self.buf = Some(TwoChannelBuffer::new(native, output_rate));
        self.engine.write_low(0x29, 0x80);
        ym2608_write_high_and_low(&mut self.engine, 0xb4, 0xc0);
        ym2608_write_high_and_low(&mut self.engine, 0xb5, 0xc0);
        ym2608_write_high_and_low(&mut self.engine, 0xb6, 0xc0);
        proof {
            assert(self.engine.writes() =~= old(self).engine.writes() + create_writes());
        }
        true
    }

    /// Programs the tone on all three channel slots of both banks: the exact
    /// write sequence is `set_tone_writes`.
    pub fn set_tone(&mut self, tone: &FmTone)
        requires
            old(self).wf(),
        ensures
            final(self).wf(),
            final(self).buf == old(self).buf,
            final(self).engine.writes() == old(self).engine.writes() + set_tone_writes(*tone),
            final(self).engine.native_rate() == old(self).engine.native_rate(),
            final(self).engine.resets() == old(self).engine.resets(),
    {
        self.engine.write_low(0x24, tone.value_lfo_freq());
        let ghost w_lfo = old(self).engine.writes() + seq![
            wlow(0x24, spec_value_lfo_freq(*tone)),
        ];
        proof {
            assert(self.engine.writes() =~= w_lfo + tone_channels_prefix(*tone, 0));
        }
        let mut ch: u8 = 0;
        while ch < 3
            invariant
                ch <= 3,
                self.engine.writes() == w_lfo + tone_channels_prefix(*tone, ch as int),
                self.engine.native_rate() == old(self).engine.native_rate(),
                self.engine.resets() == old(self).engine.resets(),
                self.buf == old(self).buf,
                w_lfo == old(self).engine.writes() + seq![
                    wlow(0x24, spec_value_lfo_freq(*tone)),
                ],
            decreases 3 - ch,
        {
            let ghost w0 = self.engine.writes();
            ym2608_write_high_and_low(&mut self.engine, 0xb0 + ch, tone.value_fb_al());
            ym2608_write_high_and_low(&mut self.engine, 0xb4 + ch, 0xc0 | tone.value_ams_pms());
            proof {
                assert(self.engine.writes() =~= w0 + tone_channel_writes(*tone, ch));
                assert(self.engine.writes() =~= w_lfo + tone_channels_prefix(*tone, ch + 1));
            }
            ch = ch + 1;
        }
        let ghost w_ch = w_lfo + tone_channels_prefix(*tone, 3);
        let mut opi: usize = 0;
        while opi < 4
            invariant
                opi <= 4,
                self.engine.writes() == w_ch + operators_prefix(*tone, opi as int),
                self.engine.native_rate() == old(self).engine.native_rate(),
                self.engine.resets() == old(self).engine.resets(),
                self.buf == old(self).buf,
                w_ch == w_lfo + tone_channels_prefix(*tone, 3),
                w_lfo == old(self).engine.writes() + seq![
                    wlow(0x24, spec_value_lfo_freq(*tone)),
                ],
            decreases 4 - opi,
        {
            let off = op_offset_at(opi);
            let mut ch2: u8 = 0;
            while ch2 < 3
                invariant
                    opi < 4,
                    ch2 <= 3,
                    off == op_offset(opi as int),
                    off <= 0x0c,
                    self.engine.writes() == w_ch + operators_prefix(*tone, opi as int)
                        + operator_channels_prefix(tone.op[opi as int], off, ch2 as int),
                    self.engine.native_rate() == old(self).engine.native_rate(),
                    self.engine.resets() == old(self).engine.resets(),
                    self.buf == old(self).buf,
                decreases 3 - ch2,
            {
                let base = ch2 + off;
                let op = &tone.op[opi];
                let ghost w0 = self.engine.writes();
                ym2608_write_high_and_low(&mut self.engine, 0x30 + base, op.value_dt_ml());
                ym2608_write_high_and_low(&mut self.engine, 0x40 + base, op.value_tl());
                ym2608_write_high_and_low(&mut self.engine, 0x50 + base, op.value_ks_ar());
                ym2608_write_high_and_low(&mut self.engine, 0x60 + base, op.value_am_dr());
                ym2608_write_high_and_low(&mut self.engine, 0x70 + base, op.value_sr());
                ym2608_write_high_and_low(&mut self.engine, 0x80 + base, op.value_sl_rr());
                ym2608_write_high_and_low(&mut self.engine, 0x90 + base, op.value_ssg_eg());
                proof {
                    assert(self.engine.writes() =~= w0 + operator_channel_writes(
                        tone.op[opi as int],
                        base,
                    ));
                    assert(self.engine.writes() =~= w_ch + operators_prefix(*tone, opi as int)
                        + operator_channels_prefix(tone.op[opi as int], off, ch2 + 1));
                }
                ch2 = ch2 + 1;
            }
            proof {
                assert(self.engine.writes() =~= w_ch + operators_prefix(*tone, opi + 1));
            }
            opi = opi + 1;
        }
        proof {
            assert(self.engine.writes() =~= old(self).engine.writes() + set_tone_writes(*tone));
        }
    }

    /// Starts a note on the given channel: channels 0 to 2 address the low
    /// bank directly, channels 3 to 5 the high bank with the high-bank flag
    /// in the key-on byte, and channels 6 and above are ignored.
    pub fn note_on(&mut self, ch: u8, note: Note)
        requires
            old(self).wf(),
        ensures
            final(self).wf(),
            final(self).buf == old(self).buf,
            final(self).engine.writes() == old(self).engine.writes() + note_on_writes(ch, note),
            final(self).engine.native_rate() == old(self).engine.native_rate(),
            final(self).engine.resets() == old(self).engine.resets(),
    {
        if ch < 3 {
            self.engine.write_low(0xa4 + ch, note.to_f_number_high_block());
            self.engine.write_low(0xa0 + ch, note.to_f_number_low());
            self.engine.write_low(0x28, SLOT_FLAGS | ch);
            proof {
                assert(self.engine.writes() =~= old(self).engine.writes() + note_on_writes(
                    ch,
                    note,
                ));
            }
        } else if ch < 6 {
            let high_ch = ch - 2;
            self.engine.write_high(0xa4 + high_ch, note.to_f_number_high_block());
            self.engine.write_high(0xa0 + high_ch, note.to_f_number_low());
            self.engine.write_low(0x28, SLOT_FLAGS | HIGH_CH_NOTE_ON_FLAG | high_ch);
            proof {
                assert(self.engine.writes() =~= old(self).engine.writes() + note_on_writes(
                    ch,
                    note,
                ));
            }
        } else {
            proof {
                assert(self.engine.writes() =~= old(self).engine.writes() + note_on_writes(
                    ch,
                    note,
                ));
            }
        }
    }

    /// Stops a note on the given channel by clearing the slot bits in the
    /// key-control byte. Channels 6 and above are ignored.
    pub fn note_off(&mut self, ch: u8)
        requires
            old(self).wf(),
        ensures
            final(self).wf(),
            final(self).buf == old(self).buf,
            final(self).engine.writes() == old(self).engine.writes() + note_off_writes(ch),
            final(self).engine.native_rate() == old(self).engine.native_rate(),
            final(self).engine.resets() == old(self).engine.resets(),
    {
        if ch < 3 {
            self.engine.write_low(0x28, !SLOT_FLAGS & ch);
            proof {
                assert(self.engine.writes() =~= old(self).engine.writes() + note_off_writes(ch));
            }
        } else if ch < 6 {
            let high_ch = ch - 2;
            self.engine.write_low(0x28, !SLOT_FLAGS & (HIGH_CH_NOTE_ON_FLAG | high_ch));
            proof {
                assert(self.engine.writes() =~= old(self).engine.writes() + note_off_writes(ch));
            }
        } else {
            proof {
                assert(self.engine.writes() =~= old(self).engine.writes() + note_off_writes(ch));
            }
        }
    }

    /// Pulls `count` resampled stereo samples. If fewer are pending, the
    /// engine is driven for exactly the native ticks the shortfall needs,
    /// the frame is finalized, and the samples are drained. Writes nothing
    /// and changes nothing if the session is not active.
    pub fn generate(&mut self, left: &mut Vec<i16>, right: &mut Vec<i16>, count: usize)
        requires
            old(self).wf(),
            old(self).active() ==> count <= MAX_FRAME_SAMPLES,
        ensures
            final(self).wf(),
            final(self).active() == old(self).active(),
            final(self).engine.writes() == old(self).engine.writes(),
            final(self).engine.native_rate() == old(self).engine.native_rate(),
            final(self).engine.resets() == old(self).engine.resets(),
            old(self).active() ==> final(left)@.len() == count && final(right)@.len() == count,
            old(self).active() ==> (match (old(self).buf, final(self).buf) {
                (Some(b0), Some(b1)) => {
                    &&& (count as nat <= b0.avail() ==> b1.avail() == b0.avail() - count as nat
                        && b1.timing() == b0.timing() && b1.prev_left() == b0.prev_left()
                        && b1.prev_right() == b0.prev_right())
                    &&& (count as nat > b0.avail() ==> ({
                        let clocks = blip_clocks_for(b0.timing(), (count as nat - b0.avail()) as nat);
                        &&& b1.timing() == blip_timing_step(b0.timing(), clocks)
                        &&& b1.avail() == b0.avail() + blip_gain(b0.timing(), clocks) - count as nat
                    }))
                },
                _ => false,
            }),
            !old(self).active() ==> *final(self) == *old(self) && *final(left) == *old(left)
                && *final(right) == *old(right),
    {
        let mut taken: Option<TwoChannelBuffer> = None;
        core::mem::swap(&mut self.buf, &mut taken);
        match taken {
            None => {},
            Some(mut b) => {
                let available_count = b.available_sample_count();
                if available_count < count {
                    let shortfall = count - available_count;
                    let frame_size = b.needed_frame_size(shortfall);
                    let ghost timing0 = b.timing();
                    let ghost avail0 = b.avail();
                    proof {
                        assert(shortfall as nat <= frame_room_of(avail0));
                    }
                    let mut i: usize = 0;
                    while i < frame_size
                        invariant
                            i <= frame_size,
                            b.wf(),
                            b.frame_size() as nat == i as nat,
                            b.avail() == avail0,
                            b.timing() == timing0,
                            frame_size as nat == blip_clocks_for(timing0, shortfall as nat),
                            frame_size as nat <= blip_clocks_for(timing0, frame_room_of(avail0)),
                            frame_size <= u32::MAX as usize,
                            self.engine.writes() == old(self).engine.writes(),
                            self.engine.native_rate() == old(self).engine.native_rate(),
                            self.engine.resets() == old(self).engine.resets(),
                        decreases frame_size - i,
                    {
                        let (left_sample, right_sample) = self.engine.tick();
                        b.push(left_sample as i32, right_sample as i32);
                        i = i + 1;
                    }
                    b.end_frame();
                    proof {
                        assert(b.avail() >= avail0 + shortfall as nat);
                    }
                }
                let _ = b.pop(left, right, count);
                self.buf = Some(b);
            },
        }
    }

    /// Stops the session and releases the resampling buffer. Fails, changing
    /// nothing, if the session is not active.
    pub fn destroy(&mut self) -> (r: bool)
        requires
            old(self).wf(),
        ensures
            final(self).wf(),
            r == old(self).active(),
            !final(self).active(),
            final(self).engine == old(self).engine,
    {
        if self.buf.is_some() {
            self.buf = None;
            true
        } else {
            false
        }
    }
}

/// The register-address offset of operator `i`.
fn op_offset_at(i: usize) -> (r: u8)
    requires
        i < 4,
    ensures
        r == op_offset(i as int),
        r <= 0x0c,
{
    if i == 0 {
        0x00
    } else if i == 1 {
        0x08
    } else if i == 2 {
        0x04
    } else {
        0x0c
    }
}

} // verus!
