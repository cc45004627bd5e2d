use embedded_time::duration::{ConversionError, Generic};
use embedded_time::ratio::Ratio;

#[test]
fn apply_forward_halves_each_width() {
    assert_eq!(Ratio::new(1u8, 2u8).apply_forward(u8::MAX), u8::MAX / 2);
    assert_eq!(Ratio::new(1u16, 2u16).apply_forward(u16::MAX), u16::MAX / 2);
    assert_eq!(Ratio::new(1u32, 2u32).apply_forward(u32::MAX), u32::MAX / 2);
    assert_eq!(Ratio::new(1u64, 2u64).apply_forward(u64::MAX), u64::MAX / 2);
}

#[test]
fn apply_inverse_doubles_each_width() {
    assert_eq!(
        Ratio::new(1u8, 2u8).apply_inverse((u8::MAX - u8::MAX % 2) / 2),
        u8::MAX - u8::MAX % 2
    );
    assert_eq!(
        Ratio::new(1u16, 2u16).apply_inverse((u16::MAX - u16::MAX % 2) / 2),
        u16::MAX - u16::MAX % 2
    );
    assert_eq!(
        Ratio::new(1u32, 2u32).apply_inverse((u32::MAX - u32::MAX % 2) / 2),
        u32::MAX - u32::MAX % 2
    );
    assert_eq!(
        Ratio::new(1u64, 2u64).apply_inverse((u64::MAX - u64::MAX % 2) / 2),
        u64::MAX - u64::MAX % 2
    );
}

#[test]
fn forward_then_inverse_round_trips_when_exact() {
    let milli = Ratio::new(1u32, 1000u32);
    let forward = milli.apply_forward(6000);
    assert_eq!(forward, 6);
    assert_eq!(milli.apply_inverse(forward), 6000);
}

#[test]
fn forward_truncates_toward_zero() {
    let milli = Ratio::new(1u32, 1000u32);
    assert_eq!(milli.apply_forward(6999), 6);
}

#[test]
fn equality_is_pairwise_not_reduced() {
    assert_eq!(Ratio::new(1u32, 2u32), Ratio::new(1u32, 2u32));
    assert_ne!(Ratio::new(1u32, 2u32), Ratio::new(2u32, 4u32));
}

#[test]
fn into_ticks_identity_scale() {
    let d = Generic::new(500u32, Ratio::new(1, 1000));
    assert_eq!(d.into_ticks::<u32>(Ratio::new(1, 1000)), Ok(500u32));
}

#[test]
fn into_ticks_coarser_unit_truncates() {
    let d = Generic::new(5500u32, Ratio::new(1, 1000));
    assert_eq!(d.into_ticks::<u32>(Ratio::new(1, 1)), Ok(5u32));
}

#[test]
fn into_ticks_finer_unit_scales_up() {
    let d = Generic::new(5u32, Ratio::new(1, 1));
    assert_eq!(d.into_ticks::<u32>(Ratio::new(1, 1000)), Ok(5000u32));
}

#[test]
fn into_ticks_widens_across_widths() {
    let d = Generic::new(u32::MAX, Ratio::new(1, 1));
    assert_eq!(
        d.into_ticks::<u64>(Ratio::new(1, 1000)),
        Ok(u32::MAX as u64 * 1000)
    );
}

#[test]
fn into_ticks_overflow_is_reported() {
    let d = Generic::new(300u32, Ratio::new(1, 1));
    assert_eq!(
        d.into_ticks::<u8>(Ratio::new(1, 1)),
        Err(ConversionError::Overflow)
    );
}

#[test]
fn into_ticks_degenerate_source_scale_is_reported() {
    let d = Generic::new(7u32, Ratio::new(1, 0));
    assert_eq!(
        d.into_ticks::<u32>(Ratio::new(1, 1000)),
        Err(ConversionError::Unspecified)
    );
}

#[test]
fn into_ticks_degenerate_target_scale_is_reported() {
    let d = Generic::new(7u32, Ratio::new(1, 1000));
    assert_eq!(
        d.into_ticks::<u32>(Ratio::new(0, 1000)),
        Err(ConversionError::Unspecified)
    );
}
