use mandelbrot::colour::{high_byte, low_byte, middle_byte, pack, BLACK, WHITE};
use mandelbrot::escape::EscapeResult;
use mandelbrot::palette::{crazy, edward, grey, shade, wiki_modulo};

const TABLE: [(u8, u8, u8); 16] = [
    (66, 30, 15),
    (25, 7, 26),
    (9, 1, 47),
    (4, 4, 73),
    (0, 7, 100),
    (12, 44, 138),
    (24, 82, 177),
    (57, 125, 209),
    (134, 181, 229),
    (211, 236, 248),
    (241, 233, 191),
    (248, 201, 95),
    (255, 170, 0),
    (204, 128, 0),
    (153, 87, 0),
    (106, 52, 3),
];

#[test]
fn pack_places_the_three_channels() {
    assert_eq!(pack(0x12, 0x34, 0x56), 0x12_34_56);
    assert_eq!(pack(0, 0, 0), BLACK);
    assert_eq!(pack(255, 255, 255), WHITE);
    assert_eq!(pack(1, 0, 0), 0x01_00_00);
    assert_eq!(pack(0, 1, 0), 0x00_01_00);
    assert_eq!(pack(0, 0, 1), 0x00_00_01);
}

#[test]
fn bytes_come_back_out_of_a_packed_colour() {
    let colour = pack(0xAB, 0xCD, 0xEF);
    assert_eq!(high_byte(colour), 0xAB);
    assert_eq!(middle_byte(colour), 0xCD);
    assert_eq!(low_byte(colour), 0xEF);
    assert_eq!(low_byte(0xFF_12_34_56), 0x56);
    assert_eq!(middle_byte(0xFF_12_34_56), 0x34);
    assert_eq!(high_byte(0xFF_12_34_56), 0x12);
}

#[test]
fn wiki_modulo_walks_the_table() {
    for (k, &(low, middle, high)) in TABLE.iter().enumerate() {
        let expected = u32::from(low) | u32::from(middle) << 8 | u32::from(high) << 16;
        assert_eq!(wiki_modulo(k), expected, "entry {}", k);
    }
    assert_eq!(wiki_modulo(0), 0x0F_1E_42);
    assert_eq!(wiki_modulo(12), 0x00_AA_FF);
    assert_eq!(wiki_modulo(15), 0x03_34_6A);
}

#[test]
fn wiki_modulo_repeats_every_sixteen_steps() {
    for k in 0..200usize {
        assert_eq!(wiki_modulo(k), wiki_modulo(k + 16), "step {}", k);
    }
    assert_eq!(wiki_modulo(16), wiki_modulo(0));
    assert_eq!(wiki_modulo(4999), wiki_modulo(4999 % 16));
    assert_eq!(wiki_modulo(usize::MAX), wiki_modulo(usize::MAX - 16));
    assert_eq!(wiki_modulo(usize::MAX), wiki_modulo(15));
}

#[test]
fn crazy_spans_the_colour_range() {
    assert_eq!(crazy(0, 5000), 0xFF_FF_FF);
    assert_eq!(crazy(1, 2), 0x80_00_00);
    assert_eq!(crazy(1, 5000), 16_777_215 - 3_355);
    assert_eq!(crazy(256, 5000), 15_918_222);
    assert_eq!(crazy(4999, 5000), 3_356);
    assert_eq!(crazy(0, 1), 0xFF_FF_FF);
}

#[test]
fn crazy_does_not_wrap_on_large_counts() {
    assert_eq!(crazy(300, 5000), 15_770_583);
    assert_eq!(crazy(usize::MAX - 1, usize::MAX), 1);
    assert_eq!(crazy(usize::MAX / 2, usize::MAX), 0x80_00_00);
}

#[test]
fn grey_falls_from_white_to_black() {
    assert_eq!(grey(0), 0xFF_FF_FF);
    assert_eq!(grey(255), 0x00_00_00);
    assert_eq!(grey(1), 0xFE_FE_FE);
    assert_eq!(grey(128), 0x7F_7F_7F);
}

#[test]
fn edward_lower_half_keeps_the_high_byte_full() {
    assert_eq!(edward(0, 5000), 0xFF_FF_FF);
    assert_eq!(edward(1, 4), 0xFF_80_80);
    assert_eq!(edward(1250, 5000), 0xFF_80_80);
    assert_eq!(edward(1, 5000), 0xFF_FF_FF);
    assert_eq!(edward(10, 5000), 0xFF_FE_FE);
    assert_eq!(edward(2499, 5000), 0xFF_01_01);
}

#[test]
fn edward_midpoint_belongs_to_the_lower_half() {
    assert_eq!(edward(2, 4), 0xFF_00_00);
    assert_eq!(edward(2500, 5000), 0xFF_00_00);
    assert_eq!(edward(1, 2), 0xFF_00_00);
}

#[test]
fn edward_upper_half_keeps_the_low_byte_full() {
    assert_eq!(edward(3, 4), 0x80_80_FF);
    assert_eq!(edward(2501, 5000), 0xFF_FF_FF);
    assert_eq!(edward(2510, 5000), 0xFE_FE_FF);
    assert_eq!(edward(3750, 5000), 0x80_80_FF);
    assert_eq!(edward(4999, 5000), 0x01_01_FF);
    assert_eq!(edward(2, 3), 0xAA_AA_FF);
}

#[test]
fn edward_is_exact_where_single_precision_rounds() {
    // 0.7 and 0.9 have no exact binary form; the exact ratio gives 102 and 204.
    assert_eq!(edward(3500, 5000), 0x99_99_FF);
    assert_eq!(edward(4500, 5000), 0x33_33_FF);
}

#[test]
fn edward_agrees_with_the_ramp_in_single_precision_for_a_cap_of_256() {
    for k in 0..256usize {
        let s = k as f32 / 256.0;
        let rising = 255 - ((s - 0.5) * 2.0 * 255.0) as u8;
        let falling = 255 - (s * 2.0 * 255.0) as u8;
        let (high, middle, low) = if s <= 0.5 {
            (255, falling, falling)
        } else {
            (rising, rising, 255)
        };
        assert_eq!(edward(k, 256), pack(high, middle, low), "step {}", k);
    }
}

#[test]
fn edward_handles_the_largest_cap() {
    assert_eq!(edward(usize::MAX - 1, usize::MAX), 0x01_01_FF);
    assert_eq!(edward(usize::MAX / 2, usize::MAX), 0xFF_01_01);
    assert_eq!(edward(usize::MAX / 2 + 1, usize::MAX), 0xFF_FF_FF);
}

#[test]
fn shade_is_black_for_bounded_under_every_palette() {
    assert_eq!(shade(EscapeResult::Bounded, 5000, &|k, _| wiki_modulo(k)), BLACK);
    assert_eq!(shade(EscapeResult::Bounded, 5000, &crazy), BLACK);
    assert_eq!(shade(EscapeResult::Bounded, 5000, &edward), BLACK);
    assert_eq!(shade(EscapeResult::Bounded, 5000, &|_, _| 0x12_34_56), BLACK);
    assert_eq!(shade(EscapeResult::Bounded, 0, &|_, _| 0x12_34_56), BLACK);
}

#[test]
fn shade_asks_the_palette_about_an_escape() {
    assert_eq!(shade(EscapeResult::Escaped(3), 5000, &|k, _| wiki_modulo(k)), 0x49_04_04);
    assert_eq!(shade(EscapeResult::Escaped(1), 4, &edward), 0xFF_80_80);
    assert_eq!(shade(EscapeResult::Escaped(1), 2, &crazy), 0x80_00_00);
    assert_eq!(
        shade(EscapeResult::Escaped(7), 9, &|k, cap| (k * 100 + cap) as u32),
        709
    );
}

#[test]
fn shade_reads_an_index_at_or_past_the_cap_as_bounded() {
    assert_eq!(shade(EscapeResult::Escaped(5), 5, &|_, _| 0x12_34_56), BLACK);
    assert_eq!(shade(EscapeResult::Escaped(6), 5, &|_, _| 0x12_34_56), BLACK);
    assert_eq!(shade(EscapeResult::Escaped(0), 0, &|_, _| 0x12_34_56), BLACK);
    assert_eq!(shade(EscapeResult::Escaped(4), 5, &|_, _| 0x12_34_56), 0x12_34_56);
}

#[test]
fn grey_darkens_as_it_falls() {
    for fallen in 0..255u8 {
        assert!(grey(fallen + 1) < grey(fallen), "fallen {}", fallen);
        let level = u32::from(255 - fallen);
        assert_eq!(grey(fallen), level << 16 | level << 8 | level);
    }
}
