use stm32_cec::registers::ALL_FLAGS;
use stm32_cec::{Cfgr, Cr, Ier, Isr};
use stm32_metapac::cec::regs as pac;

/// Words that exercise every bit: the two extremes, each single bit, and a
/// few hundred words of a fixed pseudo-random walk.
fn sample_words() -> Vec<u32> {
    let mut words = vec![0, u32::MAX, 0x5555_5555, 0xaaaa_aaaa, 0x8000_0010, 0x1fff];
    for bit in 0..32 {
        words.push(1u32 << bit);
        words.push(!(1u32 << bit));
    }
    let mut x: u32 = 0x1234_5678;
    for _ in 0..300 {
        x = x.wrapping_mul(1_664_525).wrapping_add(1_013_904_223);
        words.push(x);
    }
    words
}

#[test]
fn cr_accessors_agree_with_the_peripheral_access_crate() {
    for word in sample_words() {
        let ours = Cr(word);
        let theirs = pac::Cr(word);
        assert_eq!(ours.cecen(), theirs.cecen());
        assert_eq!(ours.txsom(), theirs.txsom());
        assert_eq!(ours.txeom(), theirs.txeom());
        for val in [false, true] {
            let (mut a, mut b) = (Cr(word), pac::Cr(word));
            a.set_cecen(val);
            b.set_cecen(val);
            assert_eq!(a.0, b.0);
            let (mut a, mut b) = (Cr(word), pac::Cr(word));
            a.set_txsom(val);
            b.set_txsom(val);
            assert_eq!(a.0, b.0);
            let (mut a, mut b) = (Cr(word), pac::Cr(word));
            a.set_txeom(val);
            b.set_txeom(val);
            assert_eq!(a.0, b.0);
        }
    }
}

#[test]
fn cfgr_getters_agree_with_the_peripheral_access_crate() {
    for word in sample_words() {
        let ours = Cfgr(word);
        let theirs = pac::Cfgr(word);
        assert_eq!(ours.sft(), theirs.sft());
        assert_eq!(ours.rxtol(), theirs.rxtol());
        assert_eq!(ours.brestp(), theirs.brestp());
        assert_eq!(ours.bregen(), theirs.bregen());
        assert_eq!(ours.lbpegen(), theirs.lbpegen());
        assert_eq!(ours.brdnogen(), theirs.brdnogen());
        assert_eq!(ours.sftopt(), theirs.sftopt());
        assert_eq!(ours.oar(), theirs.oar());
        assert_eq!(ours.lstn(), theirs.lstn());
    }
}

#[test]
fn cfgr_flag_setters_agree_with_the_peripheral_access_crate() {
    for word in sample_words() {
        for val in [false, true] {
            let (mut a, mut b) = (Cfgr(word), pac::Cfgr(word));
            a.set_rxtol(val);
            b.set_rxtol(val);
            assert_eq!(a.0, b.0);
            let (mut a, mut b) = (Cfgr(word), pac::Cfgr(word));
            a.set_brestp(val);
            b.set_brestp(val);
            assert_eq!(a.0, b.0);
            let (mut a, mut b) = (Cfgr(word), pac::Cfgr(word));
            a.set_bregen(val);
            b.set_bregen(val);
            assert_eq!(a.0, b.0);
            let (mut a, mut b) = (Cfgr(word), pac::Cfgr(word));
            a.set_lbpegen(val);
            b.set_lbpegen(val);
            assert_eq!(a.0, b.0);
            let (mut a, mut b) = (Cfgr(word), pac::Cfgr(word));
            a.set_brdnogen(val);
            b.set_brdnogen(val);
            assert_eq!(a.0, b.0);
            let (mut a, mut b) = (Cfgr(word), pac::Cfgr(word));
            a.set_sftopt(val);
            b.set_sftopt(val);
            assert_eq!(a.0, b.0);
            let (mut a, mut b) = (Cfgr(word), pac::Cfgr(word));
            a.set_lstn(val);
            b.set_lstn(val);
            assert_eq!(a.0, b.0);
        }
    }
}

#[test]
fn cfgr_field_setters_agree_with_the_peripheral_access_crate() {
    for word in [0u32, u32::MAX, 0x8000_0010, 0x1234_5678] {
        for sft in 0..=255u8 {
            let (mut a, mut b) = (Cfgr(word), pac::Cfgr(word));
            a.set_sft(sft);
            b.set_sft(sft);
            assert_eq!(a.0, b.0);
            assert_eq!(a.sft(), sft & 7);
        }
        for oar in [0u16, 1, 8, 0x4000, 0x7fff, 0x8000, 0x8001, 0xffff, 0x1234] {
            let (mut a, mut b) = (Cfgr(word), pac::Cfgr(word));
            a.set_oar(oar);
            b.set_oar(oar);
            assert_eq!(a.0, b.0);
            assert_eq!(a.oar(), oar & 0x7fff);
        }
    }
}

#[test]
fn isr_flags_agree_with_the_peripheral_access_crate() {
    for word in sample_words() {
        let ours = Isr(word);
        let theirs = pac::Isr(word);
        assert_eq!(ours.rxbr(), theirs.rxbr());
        assert_eq!(ours.rxend(), theirs.rxend());
        assert_eq!(ours.rxovr(), theirs.rxovr());
        assert_eq!(ours.bre(), theirs.bre());
        assert_eq!(ours.sbpe(), theirs.sbpe());
        assert_eq!(ours.lbpe(), theirs.lbpe());
        assert_eq!(ours.rxacke(), theirs.rxacke());
        assert_eq!(ours.arblst(), theirs.arblst());
        assert_eq!(ours.txbr(), theirs.txbr());
        assert_eq!(ours.txend(), theirs.txend());
        assert_eq!(ours.txudr(), theirs.txudr());
        assert_eq!(ours.txerr(), theirs.txerr());
        assert_eq!(ours.txacke(), theirs.txacke());
    }
}

#[test]
fn isr_flag_positions() {
    assert!(Isr(0x0001).rxbr());
    assert!(Isr(0x0002).rxend());
    assert!(Isr(0x0004).rxovr());
    assert!(Isr(0x0008).bre());
    assert!(Isr(0x0010).sbpe());
    assert!(Isr(0x0020).lbpe());
    assert!(Isr(0x0040).rxacke());
    assert!(Isr(0x0080).arblst());
    assert!(Isr(0x0100).txbr());
    assert!(Isr(0x0200).txend());
    assert!(Isr(0x0400).txudr());
    assert!(Isr(0x0800).txerr());
    assert!(Isr(0x1000).txacke());
    assert!(!Isr(0x1ffe).rxbr());
    assert!(!Isr(0x0fff).txacke());
}

#[test]
fn isr_flags_drops_the_reserved_bits() {
    assert_eq!(ALL_FLAGS, 0x1fff);
    assert_eq!(Isr(0).flags(), 0);
    assert_eq!(Isr(0xffff_ffff).flags(), 0x1fff);
    assert_eq!(Isr(0xffff_e000).flags(), 0);
    assert_eq!(Isr(0xabcd_0181).flags(), 0x0181);
}

#[test]
fn cr_with_builds_the_exact_word() {
    assert_eq!(Cr::with(false, false, false).0, 0);
    assert_eq!(Cr::with(true, false, false).0, 1);
    assert_eq!(Cr::with(false, true, false).0, 2);
    assert_eq!(Cr::with(true, true, false).0, 3);
    assert_eq!(Cr::with(false, false, true).0, 4);
    assert_eq!(Cr::with(true, false, true).0, 5);
    assert_eq!(Cr::with(true, true, true).0, 7);
    let cr = Cr::with(true, false, true);
    assert!(cr.cecen() && !cr.txsom() && cr.txeom());
}

#[test]
fn cr_setter_changes_one_bit_only() {
    let mut cr = Cr(0xffff_fff8);
    cr.set_txsom(true);
    assert_eq!(cr.0, 0xffff_fffa);
    cr.set_txsom(false);
    assert_eq!(cr.0, 0xffff_fff8);
    let mut cfgr = Cfgr(0);
    cfgr.set_lstn(true);
    assert_eq!(cfgr.0, 0x8000_0000);
    cfgr.set_brestp(true);
    assert_eq!(cfgr.0, 0x8000_0010);
    cfgr.set_oar(0x0008);
    assert_eq!(cfgr.0, 0x8008_0010);
    cfgr.set_sft(7);
    assert_eq!(cfgr.0, 0x8008_0017);
    cfgr.set_lstn(false);
    assert_eq!(cfgr.0, 0x0008_0017);
}

#[test]
fn ier_all_and_none() {
    assert_eq!(Ier::all().0, 0x1fff);
    assert_eq!(Ier::none().0, 0);
    let mut theirs = pac::Ier(0);
    theirs.set_rxbrie(true);
    theirs.set_rxendie(true);
    theirs.set_rxovrie(true);
    theirs.set_breie(true);
    theirs.set_sbpeie(true);
    theirs.set_lbpeie(true);
    theirs.set_rxackie(true);
    theirs.set_arblstie(true);
    theirs.set_txbrie(true);
    theirs.set_txendie(true);
    theirs.set_txudrie(true);
    theirs.set_txerrie(true);
    theirs.set_txackie(true);
    assert_eq!(Ier::all().0, theirs.0);
}
