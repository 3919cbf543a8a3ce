use pico_12vrgb_ctrl::animation::{
    Animation, BreatheAnimationData, FadeAnimationData, DATA_SIZE,
};
use pico_12vrgb_ctrl::color::LinearRGB;

fn rgb(r: u8, g: u8, b: u8) -> LinearRGB {
    LinearRGB::from_linear_rgba8(r, g, b, 255)
}

fn fade_with(colors: &[LinearRGB]) -> Animation {
    let mut slots = [LinearRGB::zero(); 8];
    slots[..colors.len()].copy_from_slice(colors);
    Animation::Fade(FadeAnimationData {
        color_count: colors.len() as u8,
        colors: slots,
        fade_time_ms: 2000,
        hold_time_ms: 1000,
    })
}

#[test]
fn type_bytes_discriminate_the_variants() {
    assert_eq!(Animation::Off.type_byte(), 0x00);
    let breathe = Animation::Breathe(BreatheAnimationData {
        on_color: rgb(1, 2, 3),
        off_color: rgb(4, 5, 6),
        on_fade_time_ms: 0,
        on_time_ms: 0,
        off_fade_time_ms: 0,
        off_time_ms: 0,
    });
    assert_eq!(breathe.type_byte(), 0x01);
    assert_eq!(fade_with(&[]).type_byte(), 0x02);
}

#[test]
fn every_variant_encodes_to_sixty_bytes() {
    assert_eq!(Animation::Off.data().len(), DATA_SIZE);
    let breathe = Animation::Breathe(BreatheAnimationData {
        on_color: rgb(10, 20, 30),
        off_color: rgb(40, 50, 60),
        on_fade_time_ms: 1,
        on_time_ms: 2,
        off_fade_time_ms: 3,
        off_time_ms: 4,
    });
    assert_eq!(breathe.data().len(), DATA_SIZE);
    for n in 0..=8usize {
        let colors: Vec<LinearRGB> = (0..n).map(|i| rgb(i as u8, 0, 0)).collect();
        assert_eq!(fade_with(&colors).data().len(), DATA_SIZE);
    }
}

#[test]
fn off_encodes_to_all_zero() {
    assert_eq!(Animation::Off.data(), vec![0u8; DATA_SIZE]);
}

#[test]
fn breathe_layout_is_colors_then_times() {
    let breathe = Animation::Breathe(BreatheAnimationData {
        on_color: rgb(1, 2, 3),
        off_color: rgb(4, 5, 6),
        on_fade_time_ms: 1000,
        on_time_ms: 500,
        off_fade_time_ms: 0x1234,
        off_time_ms: 65535,
    });
    let d = breathe.data();
    assert_eq!(&d[0..3], &[1, 2, 3]);
    assert_eq!(&d[3..6], &[4, 5, 6]);
    assert_eq!(&d[6..8], &[0xE8, 0x03]);
    assert_eq!(&d[8..10], &[0xF4, 0x01]);
    assert_eq!(&d[10..12], &[0x34, 0x12]);
    assert_eq!(&d[12..14], &[0xFF, 0xFF]);
    assert_eq!(&d[14..], &[0u8; 46][..]);
}

#[test]
fn fade_layout_has_fixed_color_region() {
    let anim = fade_with(&[rgb(9, 8, 7), rgb(6, 5, 4)]);
    let d = anim.data();
    assert_eq!(d[0], 2);
    assert_eq!(&d[1..4], &[9, 8, 7]);
    assert_eq!(&d[4..7], &[6, 5, 4]);
    // The six unused slots stay zero but are still part of the region.
    assert_eq!(&d[7..25], &[0u8; 18][..]);
    assert_eq!(&d[25..27], &[0xD0, 0x07]);
    assert_eq!(&d[27..29], &[0xE8, 0x03]);
    assert_eq!(&d[29..], &[0u8; 31][..]);
}

#[test]
fn fade_with_all_eight_colors_fills_the_region() {
    let colors: Vec<LinearRGB> = (0..8).map(|i| rgb(i as u8 + 1, 0, 0)).collect();
    let d = fade_with(&colors).data();
    assert_eq!(d[0], 8);
    for i in 0..8 {
        assert_eq!(d[1 + 3 * i], i as u8 + 1);
    }
    assert_eq!(&d[25..27], &[0xD0, 0x07]);
}
