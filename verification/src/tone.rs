//! Tone and operator descriptions, and the bit-packing that turns them into
//! chip register bytes.
//!
//! Every packing function is total: a field value wider than the register
//! field is truncated by masking, never rejected.

use vstd::prelude::*;

verus! {

/// One of the four FM operators of a tone. Each field is a bounded integer
/// (1 to 5 bits wide) or a flag; out-of-range values are masked on packing.
#[derive(Clone, Copy)]
pub struct FmOperator {
    /// Attack rate (5 bits).
    pub ar: u8,
    /// Decay rate (5 bits).
    pub dr: u8,
    /// Sustain rate (5 bits).
    pub sr: u8,
    /// Release rate (4 bits).
    pub rr: u8,
    /// Sustain level (4 bits).
    pub sl: u8,
    /// Total level, i.e. attenuation (6 bits).
    pub tl: u8,
    /// Key scale (2 bits).
    pub ks: u8,
    /// Multiple, the frequency ratio (4 bits).
    pub ml: u8,
    /// Detune (3 bits).
    pub dt: u8,
    /// Amplitude-modulation enable.
    pub am: bool,
    /// SSG-envelope mode (4 bits).
    pub ssg_eg: u8,
}

/// A full FM tone: algorithm, feedback, four operators, and the global
/// modulation settings.
#[derive(Clone, Copy)]
pub struct FmTone {
    /// Algorithm selector (3 bits).
    pub al: u8,
    /// Feedback depth (3 bits).
    pub fb: u8,
    /// The four operators.
    pub op: [FmOperator; 4],
    /// LFO frequency (4 bits).
    pub lfo_freq: u8,
    /// Amplitude-modulation sensitivity (2 bits).
    pub ams: u8,
    /// Phase-modulation sensitivity (3 bits).
    pub pms: u8,
}

/// The feedback/algorithm register byte of a tone.
pub open spec fn spec_value_fb_al(t: FmTone) -> u8 {
    ((t.fb & 0x7) << 3) | (t.al & 0x7)
}

/// The LFO frequency register byte of a tone.
pub open spec fn spec_value_lfo_freq(t: FmTone) -> u8 {
    t.lfo_freq & 0xf
}

/// The modulation-sensitivity register byte of a tone.
pub open spec fn spec_value_ams_pms(t: FmTone) -> u8 {
    ((t.ams & 0x3) << 4) | (t.pms & 0x7)
}

/// The detune/multiple register byte of an operator.
pub open spec fn spec_value_dt_ml(o: FmOperator) -> u8 {
    ((o.dt & 0x7) << 4) | (o.ml & 0xf)
}

/// The key-scale/attack-rate register byte of an operator.
pub open spec fn spec_value_ks_ar(o: FmOperator) -> u8 {
    ((o.ks & 0x3) << 6) | (o.ar & 0x1f)
}

/// The AM-enable/decay-rate register byte of an operator.
pub open spec fn spec_value_am_dr(o: FmOperator) -> u8 {
    (if o.am { 0x80u8 } else { 0x00u8 }) | (o.dr & 0x1f)
}

/// The sustain-level/release-rate register byte of an operator.
pub open spec fn spec_value_sl_rr(o: FmOperator) -> u8 {
    ((o.sl & 0xf) << 4) | (o.rr & 0xf)
}

/// The sustain-rate register byte of an operator.
pub open spec fn spec_value_sr(o: FmOperator) -> u8 {
    o.sr & 0x1f
}

/// The SSG-envelope register byte of an operator.
pub open spec fn spec_value_ssg_eg(o: FmOperator) -> u8 {
    o.ssg_eg & 0xf
}

/// The total-level register byte of an operator.
pub open spec fn spec_value_tl(o: FmOperator) -> u8 {
    o.tl & 0x3f
}

impl FmTone {
    /// Packs feedback and algorithm: `(fb & 0x7) << 3 | (al & 0x7)`.
    pub fn value_fb_al(&self) -> (r: u8)
        ensures
            r == spec_value_fb_al(*self),
    {
        ((self.fb & 0x7) << 3) | (self.al & 0x7)
    }

    /// Packs the LFO frequency: `lfo_freq & 0xf`.
    pub fn value_lfo_freq(&self) -> (r: u8)
        ensures
            r == spec_value_lfo_freq(*self),
    {
        self.lfo_freq & 0xf
    }

    /// Packs the modulation sensitivities: `(ams & 0x3) << 4 | (pms & 0x7)`.
    pub fn value_ams_pms(&self) -> (r: u8)
        ensures
            r == spec_value_ams_pms(*self),
    {
        ((self.ams & 0x3) << 4) | (self.pms & 0x7)
    }
}

impl FmOperator {
    /// Packs detune and multiple: `(dt & 0x7) << 4 | (ml & 0xf)`.
    pub fn value_dt_ml(&self) -> (r: u8)
        ensures
            r == spec_value_dt_ml(*self),
    {
        ((self.dt & 0x7) << 4) | (self.ml & 0xf)
    }

    /// Packs key scale and attack rate: `(ks & 0x3) << 6 | (ar & 0x1f)`.
    pub fn value_ks_ar(&self) -> (r: u8)
        ensures
            r == spec_value_ks_ar(*self),
    {
        ((self.ks & 0x3) << 6) | (self.ar & 0x1f)
    }

    /// Packs AM enable and decay rate: the AM flag in bit 7, `dr & 0x1f` below.
    pub fn value_am_dr(&self) -> (r: u8)
        ensures
            r == spec_value_am_dr(*self),
    {
        (if self.am { 0x80u8 } else { 0x00u8 }) | (self.dr & 0x1f)
    }

    /// Packs sustain level and release rate: `(sl & 0xf) << 4 | (rr & 0xf)`.
    pub fn value_sl_rr(&self) -> (r: u8)
        ensures
            r == spec_value_sl_rr(*self),
    {
        ((self.sl & 0xf) << 4) | (self.rr & 0xf)
    }

    /// Packs the sustain rate: `sr & 0x1f`.
    pub fn value_sr(&self) -> (r: u8)
        ensures
            r == spec_value_sr(*self),
    {
        self.sr & 0x1f
    }

    /// Packs the SSG-envelope mode: `ssg_eg & 0xf`.
    pub fn value_ssg_eg(&self) -> (r: u8)
        ensures
            r == spec_value_ssg_eg(*self),
    {
        self.ssg_eg & 0xf
    }

    /// Packs the total level: `tl & 0x3f`.
    pub fn value_tl(&self) -> (r: u8)
        ensures
            r == spec_value_tl(*self),
    {
        self.tl & 0x3f
    }
}

/// Law: each packing function is total (it accepts every byte, masking instead
/// of failing) and idempotent: extracting the fields back out of a packed byte
/// and packing them again yields the same byte.
pub proof fn lemma_packing_idempotent(t: FmTone, o: FmOperator)
    ensures
        spec_value_fb_al(
            FmTone { fb: spec_value_fb_al(t) >> 3, al: spec_value_fb_al(t), ..t },
        ) == spec_value_fb_al(t),
        spec_value_lfo_freq(FmTone { lfo_freq: spec_value_lfo_freq(t), ..t }) == spec_value_lfo_freq(
            t,
        ),
        spec_value_ams_pms(
            FmTone { ams: spec_value_ams_pms(t) >> 4, pms: spec_value_ams_pms(t), ..t },
        ) == spec_value_ams_pms(t),
        spec_value_dt_ml(
            FmOperator { dt: spec_value_dt_ml(o) >> 4, ml: spec_value_dt_ml(o), ..o },
        ) == spec_value_dt_ml(o),
        spec_value_ks_ar(
            FmOperator { ks: spec_value_ks_ar(o) >> 6, ar: spec_value_ks_ar(o), ..o },
        ) == spec_value_ks_ar(o),
        spec_value_am_dr(
            FmOperator { am: spec_value_am_dr(o) >> 7 == 1, dr: spec_value_am_dr(o), ..o },
        ) == spec_value_am_dr(o),
        spec_value_sl_rr(
            FmOperator { sl: spec_value_sl_rr(o) >> 4, rr: spec_value_sl_rr(o), ..o },
        ) == spec_value_sl_rr(o),
        spec_value_sr(FmOperator { sr: spec_value_sr(o), ..o }) == spec_value_sr(o),
        spec_value_ssg_eg(FmOperator { ssg_eg: spec_value_ssg_eg(o), ..o }) == spec_value_ssg_eg(o),
        spec_value_tl(FmOperator { tl: spec_value_tl(o), ..o }) == spec_value_tl(o),
{
    let fb = t.fb;
    let al = t.al;
    let lf = t.lfo_freq;
    let ams = t.ams;
    let pms = t.pms;
    assert((((((fb & 0x7) << 3) | (al & 0x7)) >> 3) & 0x7) << 3 | ((((fb & 0x7) << 3) | (al & 0x7))
        & 0x7) == ((fb & 0x7) << 3) | (al & 0x7)) by (bit_vector);
    assert((lf & 0xf) & 0xf == lf & 0xf) by (bit_vector);
    assert((((((ams & 0x3) << 4) | (pms & 0x7)) >> 4) & 0x3) << 4 | ((((ams & 0x3) << 4) | (pms
        & 0x7)) & 0x7) == ((ams & 0x3) << 4) | (pms & 0x7)) by (bit_vector);
    let dt = o.dt;
    let ml = o.ml;
    let ks = o.ks;
    let ar = o.ar;
    let am: u8 = if o.am {
        0x80
    } else {
        0x00
    };
    let dr = o.dr;
    let sl = o.sl;
    let rr = o.rr;
    let sr = o.sr;
    let eg = o.ssg_eg;
    let tl = o.tl;
    assert((((((dt & 0x7) << 4) | (ml & 0xf)) >> 4) & 0x7) << 4 | ((((dt & 0x7) << 4) | (ml & 0xf))
        & 0xf) == ((dt & 0x7) << 4) | (ml & 0xf)) by (bit_vector);
    assert((((((ks & 0x3) << 6) | (ar & 0x1f)) >> 6) & 0x3) << 6 | ((((ks & 0x3) << 6) | (ar
        & 0x1f)) & 0x1f) == ((ks & 0x3) << 6) | (ar & 0x1f)) by (bit_vector);
    assert((am == 0x80 || am == 0x00) ==> ((if ((am | (dr & 0x1f)) >> 7 == 1) {
        0x80u8
    } else {
        0x00u8
    }) | ((am | (dr & 0x1f)) & 0x1f) == am | (dr & 0x1f))) by (bit_vector);
    assert((((((sl & 0xf) << 4) | (rr & 0xf)) >> 4) & 0xf) << 4 | ((((sl & 0xf) << 4) | (rr & 0xf))
        & 0xf) == ((sl & 0xf) << 4) | (rr & 0xf)) by (bit_vector);
    assert((sr & 0x1f) & 0x1f == sr & 0x1f) by (bit_vector);
    assert((eg & 0xf) & 0xf == eg & 0xf) by (bit_vector);
    assert((tl & 0x3f) & 0x3f == tl & 0x3f) by (bit_vector);
}

} // verus!
