use ifs3d::bottom::BottomState;
use ifs3d::constants::{bottom_color, fractal_color};

#[test]
fn corner_and_fractal_colour_tables() {
    assert_eq!(bottom_color(0), (0x90, 0x90, 0x90));
    assert_eq!(bottom_color(1), (0x70, 0x70, 0x70));
    assert_eq!(bottom_color(2), (0x90, 0x90, 0x90));
    assert_eq!(bottom_color(3), (0x70, 0x70, 0x70));
    assert_eq!(fractal_color(0), (0xFF, 0x00, 0x50));
    assert_eq!(fractal_color(3), (0x80, 0xC0, 0x00));
    assert_eq!(fractal_color(7), (0x80, 0x00, 0xFF));
}

#[test]
fn bottom_walker_starts_at_corner_zero_colour() {
    let s = BottomState::new(0xB077_0001);
    assert_eq!((s.bcr, s.bcg, s.bcb), (0x90, 0x90, 0x90));
}

#[test]
fn bottom_step_blends_toward_drawn_corner() {
    let mut s = BottomState::new(0xB077_0002);
    s.bcr = 0x10;
    s.bcg = 0x20;
    s.bcb = 0x30;
    let bi = s.step_color();
    assert!(bi < 4);
    let t = bottom_color(bi);
    assert_eq!(s.bcr, (0x10 + t.0 as u32) / 2);
    assert_eq!(s.bcg, (0x20 + t.1 as u32) / 2);
    assert_eq!(s.bcb, (0x30 + t.2 as u32) / 2);
}

#[test]
fn bottom_step_keeps_one_byte() {
    let mut s = BottomState::new(1);
    s.bcr = 0x1FF;
    s.bcg = 0x1FF;
    s.bcb = 0x1FF;
    let bi = s.step_color();
    let t = bottom_color(bi).0 as u32;
    assert_eq!(s.bcr, ((0x1FF + t) / 2) % 256);
}

#[test]
fn bottom_plane_stays_grey_and_visits_every_corner() {
    let mut s = BottomState::new(42);
    let mut seen = [false; 4];
    for _ in 0..200 {
        let bi = s.step_color();
        seen[bi] = true;
        assert!(s.bcr == s.bcg && s.bcg == s.bcb);
        assert!((0x70..=0x90).contains(&s.bcr));
    }
    assert!(seen.iter().all(|&b| b));
}

#[test]
fn reseed_restarts_colour_and_sequence() {
    let mut a = BottomState::new(9);
    let first: Vec<usize> = (0..20).map(|_| a.step_color()).collect();
    a.reseed(9);
    assert_eq!((a.bcr, a.bcg, a.bcb), (0x90, 0x90, 0x90));
    let again: Vec<usize> = (0..20).map(|_| a.step_color()).collect();
    assert_eq!(first, again);
}
