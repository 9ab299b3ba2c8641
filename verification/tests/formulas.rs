use rucaptcha::alphabet::{alphabet_char, ALPHABET_LEN};
use rucaptcha::captcha::{CaptchaBuilder, CaptchaConfig};
use rucaptcha::format::ImageFormat;
use rucaptcha::layout::{random_layout, scale_for, Layout};
use rucaptcha::noise::{clamp, NoiseLevel};
use rucaptcha::palette::{cycle_colors, get_colors, palette_color, white_color, Color, PALETTE_LEN};
use rucaptcha::random::get_next;
use rucaptcha::shapes::Stamp;

fn rgba(r: u8, g: u8, b: u8) -> Color {
    Color { r, g, b, a: 255 }
}

#[test]
fn alphabet_has_54_glyphs_in_order() {
    assert_eq!(ALPHABET_LEN, 54);
    let all: String = (0..ALPHABET_LEN).map(alphabet_char).collect();
    assert_eq!(all, "23456789ABCDEFGHJKMNPQRSTUVWXYZabcdefghjkmnpqrstuvwxyz");
}

#[test]
fn alphabet_leaves_out_the_ambiguous_glyphs() {
    let all: String = (0..ALPHABET_LEN).map(alphabet_char).collect();
    for c in ['0', '1', 'I', 'L', 'O', 'i', 'l', 'o'] {
        assert!(!all.contains(c));
    }
    assert_eq!(alphabet_char(0), '2');
    assert_eq!(alphabet_char(8), 'A');
    assert_eq!(alphabet_char(16), 'J');
    assert_eq!(alphabet_char(31), 'a');
    assert_eq!(alphabet_char(53), 'z');
}

#[test]
fn palette_has_14_opaque_colours() {
    assert_eq!(PALETTE_LEN, 14);
    assert_eq!(palette_color(0), rgba(197, 166, 3));
    assert_eq!(palette_color(1), rgba(187, 87, 5));
    assert_eq!(palette_color(7), rgba(61, 86, 168));
    assert_eq!(palette_color(13), rgba(50, 50, 50));
    for i in 0..PALETTE_LEN {
        assert_eq!(palette_color(i).a, 255);
    }
    assert_eq!(white_color(), rgba(255, 255, 255));
}

#[test]
fn colours_cycle_from_the_offset() {
    assert_eq!(
        cycle_colors(0, 3),
        vec![rgba(197, 166, 3), rgba(187, 87, 5), rgba(176, 7, 7)]
    );
    assert_eq!(
        cycle_colors(12, 4),
        vec![rgba(216, 219, 2), rgba(50, 50, 50), rgba(197, 166, 3), rgba(187, 87, 5)]
    );
    assert_eq!(cycle_colors(5, 0), Vec::new());
}

#[test]
fn colours_wrap_at_the_inclusive_bound() {
    assert_eq!(cycle_colors(14, 20), cycle_colors(0, 20));
    assert_eq!(cycle_colors(usize::MAX, 2).len(), 2);
    let long = cycle_colors(3, 30);
    for i in 0..16 {
        assert_eq!(long[i], long[i + 14]);
    }
}

#[test]
fn picked_colours_are_a_rotation() {
    for _ in 0..50 {
        let colors = get_colors(6);
        assert_eq!(colors.len(), 6);
        assert!((0..=14).any(|offset| cycle_colors(offset, 6) == colors));
    }
    assert!(get_colors(0).is_empty());
}

#[test]
fn picked_colours_vary() {
    let first = get_colors(1);
    assert!((0..200).any(|_| get_colors(1) != first));
}

#[test]
fn get_next_stays_in_its_range() {
    for _ in 0..200 {
        let v = get_next(5, 35);
        assert!((5..=35).contains(&v));
    }
    assert_eq!(get_next(7, 7), 7);
    assert_eq!(get_next(0, 0), 0);
}

#[test]
fn get_next_reaches_both_ends() {
    let draws: Vec<u32> = (0..400).map(|_| get_next(3, 5)).collect();
    assert!(draws.contains(&3));
    assert!(draws.contains(&4));
    assert!(draws.contains(&5));
}

#[test]
fn complexity_is_clamped() {
    assert_eq!(clamp(0), 1);
    assert_eq!(clamp(1), 1);
    assert_eq!(clamp(5), 5);
    assert_eq!(clamp(10), 10);
    assert_eq!(clamp(11), 10);
    assert_eq!(clamp(usize::MAX), 10);
    assert_eq!(CaptchaBuilder::new().complexity(0).config().complexity, 1);
    assert_eq!(CaptchaBuilder::new().complexity(11).config().complexity, 10);
    assert_eq!(CaptchaBuilder::new().complexity(5).config().complexity, 5);
}

#[test]
fn noise_grows_with_complexity() {
    assert_eq!(NoiseLevel::for_complexity(1), NoiseLevel { mean: 0, deviation: 0, seed: 0 });
    assert_eq!(NoiseLevel::for_complexity(5), NoiseLevel { mean: 4, deviation: 40, seed: 20 });
    assert_eq!(NoiseLevel::for_complexity(10), NoiseLevel { mean: 9, deviation: 90, seed: 45 });
}

#[test]
fn scale_follows_the_length() {
    assert_eq!(scale_for(1), 55);
    assert_eq!(scale_for(3), 55);
    assert_eq!(scale_for(4), 45);
    assert_eq!(scale_for(5), 45);
    assert_eq!(scale_for(6), 32);
    assert_eq!(scale_for(100), 32);
    assert_eq!(scale_for(0), 32);
}

#[test]
fn layout_of_the_standard_canvas() {
    assert_eq!(
        Layout::new(220, 70, 4, 0, 0),
        Layout { column: 50, baseline: 8, scale_x: 45, scale_y: 70 }
    );
    assert_eq!(
        Layout::new(220, 70, 4, 9, 14),
        Layout { column: 50, baseline: 8, scale_x: 36, scale_y: 56 }
    );
    assert_eq!(
        Layout::new(220, 70, 6, 6, 1),
        Layout { column: 33, baseline: 8, scale_x: 26, scale_y: 69 }
    );
    assert_eq!(
        Layout::new(220, 70, 3, 11, 0),
        Layout { column: 66, baseline: 8, scale_x: 44, scale_y: 70 }
    );
}

#[test]
fn layout_of_a_low_canvas_has_a_negative_baseline() {
    assert_eq!(
        Layout::new(25, 15, 1, 0, 3),
        Layout { column: 5, baseline: -10, scale_x: 55, scale_y: 12 }
    );
    assert_eq!(Layout::new(100, 45, 300, 0, 0).column, 0);
    assert_eq!(Layout::new(100, 45, 300, 0, 0).baseline, 0);
}

#[test]
fn random_layout_shrinks_by_a_fifth_at_most() {
    for _ in 0..100 {
        let layout = random_layout(220, 70, 4);
        assert_eq!(layout.column, 50);
        assert_eq!(layout.baseline, 8);
        assert!((36..=45).contains(&layout.scale_x));
        assert!((56..=70).contains(&layout.scale_y));
    }
}

#[test]
fn stamps_shift_right_and_widen() {
    let layout = Layout { column: 50, baseline: 8, scale_x: 40, scale_y: 60 };
    let color = rgba(1, 2, 3);
    assert_eq!(
        layout.stamp(0, 'A', color, 0),
        Stamp { glyph: 'A', x: 10, y: 8, scale_x: 40, scale_y: 60, color }
    );
    assert_eq!(
        layout.stamp(3, 'q', color, 2),
        Stamp { glyph: 'q', x: 162, y: 8, scale_x: 42, scale_y: 60, color }
    );
    assert_eq!(
        layout.stamp(1, '7', color, 1),
        Stamp { glyph: '7', x: 61, y: 8, scale_x: 41, scale_y: 60, color }
    );
}

#[test]
fn new_builder_has_the_initial_settings() {
    let expected = CaptchaConfig {
        length: 4,
        width: 220,
        height: 70,
        complexity: 5,
        line: true,
        noise: false,
        circle: true,
        format: ImageFormat::Png,
    };
    assert_eq!(CaptchaBuilder::new().config(), expected);
    assert_eq!(CaptchaBuilder::default().config(), expected);
}

#[test]
fn setters_change_one_setting_each() {
    let base = CaptchaBuilder::new().config();
    assert_eq!(CaptchaBuilder::new().length(9).config(), CaptchaConfig { length: 9, ..base });
    assert_eq!(CaptchaBuilder::new().line(false).config(), CaptchaConfig { line: false, ..base });
    assert_eq!(CaptchaBuilder::new().noise(true).config(), CaptchaConfig { noise: true, ..base });
    assert_eq!(
        CaptchaBuilder::new().circle(false).config(),
        CaptchaConfig { circle: false, ..base }
    );
    assert_eq!(
        CaptchaBuilder::new().complexity(8).config(),
        CaptchaConfig { complexity: 8, ..base }
    );
    assert_eq!(
        CaptchaBuilder::new().format("webp").config(),
        CaptchaConfig { format: ImageFormat::WebP, ..base }
    );
}

#[test]
fn setters_commute() {
    let a = CaptchaBuilder::new().length(7).complexity(20).format("jpg").circle(false);
    let b = CaptchaBuilder::new().circle(false).format("jpg").complexity(20).length(7);
    assert_eq!(a.config(), b.config());
    assert_eq!(a.config().complexity, 10);
}

#[test]
fn format_names_are_matched_exactly() {
    assert_eq!(ImageFormat::from_name("png"), ImageFormat::Png);
    assert_eq!(ImageFormat::from_name("jpg"), ImageFormat::Jpeg);
    assert_eq!(ImageFormat::from_name("jpeg"), ImageFormat::Jpeg);
    assert_eq!(ImageFormat::from_name("webp"), ImageFormat::WebP);
    assert_eq!(ImageFormat::from_name("gif"), ImageFormat::Png);
    assert_eq!(ImageFormat::from_name(""), ImageFormat::Png);
    assert_eq!(ImageFormat::from_name("JPG"), ImageFormat::Png);
    assert_eq!(ImageFormat::from_name("jpegs"), ImageFormat::Png);
    assert_eq!(ImageFormat::from_name("web"), ImageFormat::Png);
    assert_eq!(ImageFormat::from_name(" webp"), ImageFormat::Png);
    assert_eq!(ImageFormat::from_name("jp\u{e9}g"), ImageFormat::Png);
}
