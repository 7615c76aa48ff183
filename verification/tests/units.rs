use unit_time::time::{Bps, Hertz, KiloHertz, MegaHertz, MilliSeconds, U32Ext};

#[test]
fn construction_round_trips() {
    assert_eq!(0u32.bps().0, 0);
    assert_eq!(9600u32.bps().0, 9600);
    assert_eq!(48_000_000u32.hz().0, 48_000_000);
    assert_eq!(8u32.khz().0, 8);
    assert_eq!(8u32.mhz().0, 8);
    assert_eq!(1500u32.ms().0, 1500);
    assert_eq!(u32::MAX.hz().0, u32::MAX);
    assert_eq!(u32::MAX.mhz().0, u32::MAX);
}

#[test]
fn khz_to_hz_scales_by_thousand() {
    assert_eq!(Hertz::from(8u32.khz()), 8000u32.hz());
    assert_eq!(Hertz::from(0u32.khz()), 0u32.hz());
    assert_eq!(Hertz::from(737u32.khz()), 737_000u32.hz());
}

#[test]
fn mhz_to_hz_scales_by_million() {
    assert_eq!(Hertz::from(8u32.mhz()), 8_000_000u32.hz());
    assert_eq!(Hertz::from(0u32.mhz()), 0u32.hz());
    assert_eq!(Hertz::from(48u32.mhz()), 48_000_000u32.hz());
}

#[test]
fn mhz_to_khz_scales_by_thousand() {
    assert_eq!(KiloHertz::from(8u32.mhz()), 8000u32.khz());
    assert_eq!(KiloHertz::from(216u32.mhz()), 216_000u32.khz());
}

#[test]
fn raw_u32_tags_as_hertz() {
    assert_eq!(Hertz::from(42u32), 42u32.hz());
    let h: Hertz = 115_200u32.into();
    assert_eq!(h.0, 115_200);
}

#[test]
fn bit_rate_equality() {
    let a = 9600u32.bps();
    assert_eq!(a.0, 9600);
    assert_eq!(a, Bps(9600));
    assert_ne!(a, 19_200u32.bps());
}

#[test]
fn mhz_to_hz_wraps_modulo_two_pow_32() {
    // 4_294_967 * 1_000_000 exceeds u32::MAX; the conversion wraps.
    let wrapped = Hertz::from(4_294_967u32.mhz());
    assert_eq!(wrapped.0, 4_294_671_296u32);
    assert_eq!(wrapped.0, (4_294_967u64 * 1_000_000 % (1u64 << 32)) as u32);
}

#[test]
fn khz_to_hz_wraps_modulo_two_pow_32() {
    // 4_294_968 * 1_000 exceeds u32::MAX; the conversion wraps.
    let wrapped = Hertz::from(4_294_968u32.khz());
    assert_eq!(wrapped.0, 704u32);
}

#[test]
fn mhz_conversion_is_transitive_without_overflow() {
    for m in [0u32, 1, 8, 216, 4294] {
        let direct = Hertz::from(m.mhz());
        let via_khz = Hertz::from(KiloHertz::from(m.mhz()));
        assert_eq!(direct, via_khz);
    }
}

#[test]
fn ordering_matches_magnitude_order() {
    assert!(1u32.hz() < 2u32.hz());
    assert!(2u32.hz() > 1u32.hz());
    assert!(!(2u32.hz() < 2u32.hz()));
    assert!(2u32.hz() <= 2u32.hz());
    assert!(7u32.khz() < 8u32.khz());
    assert!(7u32.mhz() < 8u32.mhz());
    assert!(9600u32.bps() < 19_200u32.bps());
    assert!(5u32.ms() < 7u32.ms());
    assert!(!(7u32.ms() < 5u32.ms()));
    assert!(u32::MAX.hz() > 0u32.hz());
}

#[test]
fn milliseconds_equality() {
    let t = 250u32.ms();
    assert_eq!(t, MilliSeconds(250));
    assert_ne!(t, 251u32.ms());
}

#[test]
fn same_magnitude_different_units_after_conversion() {
    // An 8 MHz value and an 8000 kHz value agree once both are in Hz.
    let a = Hertz::from(8u32.mhz());
    let b = Hertz::from(8000u32.khz());
    assert_eq!(a, b);
    assert_eq!(a, Hertz(8_000_000));
    assert_eq!(MegaHertz(8).0, 8);
}
