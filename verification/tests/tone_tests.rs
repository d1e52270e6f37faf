use synth::FmOperator;
use synth::FmTone;

fn operator() -> FmOperator {
    FmOperator {
        ar: 0x1f,
        dr: 0x0a,
        sr: 0x05,
        rr: 0x0c,
        sl: 0x03,
        tl: 28,
        ks: 0x01,
        ml: 0x04,
        dt: 0x02,
        am: true,
        ssg_eg: 0x08,
    }
}

fn tone() -> FmTone {
    FmTone { al: 0x04, fb: 0x07, op: [operator(); 4], lfo_freq: 0x03, ams: 0x02, pms: 0x05 }
}

#[test]
fn test_packing_exact_values() {
    let t = tone();
    assert_eq!(t.value_fb_al(), 0x3c);
    assert_eq!(t.value_lfo_freq(), 0x03);
    assert_eq!(t.value_ams_pms(), 0x25);
    let o = operator();
    assert_eq!(o.value_dt_ml(), 0x24);
    assert_eq!(o.value_ks_ar(), 0x5f);
    assert_eq!(o.value_am_dr(), 0x8a);
    assert_eq!(o.value_sl_rr(), 0x3c);
    assert_eq!(o.value_sr(), 0x05);
    assert_eq!(o.value_ssg_eg(), 0x08);
    assert_eq!(o.value_tl(), 0x1c);
}

#[test]
fn test_packing_masks_out_of_range() {
    // Packing is total: out-of-range fields are truncated to their register
    // width, never rejected.
    let mut t = tone();
    t.fb = 0x09;
    t.al = 0x0a;
    assert_eq!(t.value_fb_al(), (0x01 << 3) | 0x02);
    t.lfo_freq = 0xff;
    assert_eq!(t.value_lfo_freq(), 0x0f);
    t.ams = 0xff;
    t.pms = 0xff;
    assert_eq!(t.value_ams_pms(), (0x03 << 4) | 0x07);
    let mut o = operator();
    o.tl = 0xff;
    assert_eq!(o.value_tl(), 0x3f);
    o.ks = 0xff;
    o.ar = 0xff;
    assert_eq!(o.value_ks_ar(), 0xdf);
    o.dt = 0x0f;
    o.ml = 0xf3;
    assert_eq!(o.value_dt_ml(), (0x07 << 4) | 0x03);
    o.sl = 0x1f;
    o.rr = 0x12;
    assert_eq!(o.value_sl_rr(), (0x0f << 4) | 0x02);
    o.sr = 0x2f;
    assert_eq!(o.value_sr(), 0x0f);
    o.ssg_eg = 0x1a;
    assert_eq!(o.value_ssg_eg(), 0x0a);
}

#[test]
fn test_packing_idempotent() {
    // Re-packing the fields extracted from a packed byte gives the byte back.
    let t = tone();
    let o = operator();
    let fb_al = t.value_fb_al();
    let t2 = FmTone { fb: fb_al >> 3, al: fb_al, ..t };
    assert_eq!(t2.value_fb_al(), fb_al);
    let ams_pms = t.value_ams_pms();
    let t3 = FmTone { ams: ams_pms >> 4, pms: ams_pms, ..t };
    assert_eq!(t3.value_ams_pms(), ams_pms);
    let dt_ml = o.value_dt_ml();
    let o2 = FmOperator { dt: dt_ml >> 4, ml: dt_ml, ..o };
    assert_eq!(o2.value_dt_ml(), dt_ml);
    let ks_ar = o.value_ks_ar();
    let o3 = FmOperator { ks: ks_ar >> 6, ar: ks_ar, ..o };
    assert_eq!(o3.value_ks_ar(), ks_ar);
    let am_dr = o.value_am_dr();
    let o4 = FmOperator { am: am_dr >> 7 == 1, dr: am_dr, ..o };
    assert_eq!(o4.value_am_dr(), am_dr);
    let sl_rr = o.value_sl_rr();
    let o5 = FmOperator { sl: sl_rr >> 4, rr: sl_rr, ..o };
    assert_eq!(o5.value_sl_rr(), sl_rr);
    let o6 = FmOperator { sr: o.value_sr(), ssg_eg: o.value_ssg_eg(), tl: o.value_tl(), ..o };
    assert_eq!(o6.value_sr(), o.value_sr());
    assert_eq!(o6.value_ssg_eg(), o.value_ssg_eg());
    assert_eq!(o6.value_tl(), o.value_tl());
}
