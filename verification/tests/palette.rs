use ifs3d::constants::PALSIZE;
use ifs3d::palette::Palette;

#[test]
fn new_palette_is_black_at_phase_zero() {
    let p = Palette::new();
    assert_eq!(p.colors.len(), PALSIZE);
    assert!(p.colors.iter().all(|&c| c == 0));
    assert_eq!(p.offset_accum, 0);
}

#[test]
fn offset_steps_by_three() {
    let mut p = Palette::new();
    assert_eq!(p.offset(), 3);
    assert_eq!(p.offset(), 6);
    assert_eq!(p.offset(), 9);
    assert_eq!(p.offset_accum, 9);
}

#[test]
fn offset_wraps_around_the_palette() {
    let mut p = Palette::new();
    p.offset_accum = 8190;
    assert_eq!(p.offset(), 1);
    assert_eq!(p.offset_accum, 8193);
}

#[test]
fn offset_wraps_the_accumulator_without_breaking_the_cycle() {
    let mut p = Palette::new();
    p.offset_accum = u32::MAX - 1;
    let before = (p.offset_accum as usize) % PALSIZE;
    let r = p.offset();
    assert_eq!(p.offset_accum, 1);
    assert_eq!(r as usize, (before + 3) % PALSIZE);
}

#[test]
fn color_at_wraps_index() {
    let mut p = Palette::new();
    p.colors[5] = 0x0011_2233;
    assert_eq!(p.color_at(5), 0x0011_2233);
    assert_eq!(p.color_at(PALSIZE + 5), 0x0011_2233);
    assert_eq!(p.color_at(3 * PALSIZE + 5), 0x0011_2233);
    assert_eq!(p.color_at(4), 0);
}

#[test]
fn longer_palettes_read_the_first_entries() {
    let mut p = Palette::new();
    p.colors.push(0x00AB_CDEF);
    p.colors[7] = 0x0000_0001;
    assert_eq!(p.color_at(PALSIZE + 7), 0x0000_0001);
    assert_eq!(p.color_at(PALSIZE), 0);
}
