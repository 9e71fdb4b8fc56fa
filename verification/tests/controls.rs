use ifs3d::controls::{CenterSource, IfsControl, Key, KeyAction, Mode, Session};

#[test]
fn default_settings() {
    let c = IfsControl::default();
    assert_eq!(c.set3d_index, Some(3));
    assert_eq!(c.set2d_variant, None);
    assert_eq!(c.x_mode, 0);
    assert!(c.freeze_c && c.use_presets && !c.freeze_sets);
    assert_eq!(c.preset_idx, 9);
    assert!(!c.secret_ingredient && !c.secret_square && !c.secret_extra_coord);
    assert_eq!((c.background_mode, c.whitershade, c.lightness), (0, 0, 0));
}

#[test]
fn session_starts_on_set_d_first_preset() {
    let s = Session::new();
    assert_eq!(s.ifs.set3d_index, Some(3));
    assert_eq!(s.ifs.preset_idx, 0);
    assert!(s.ifs.freeze_c);
    assert!(s.view_dirty && s.shadow_dirty && s.show_shadows);
    assert_ne!(Mode::IFS3D, Mode::Julia2D);
}

#[test]
fn set_key_cycles_through_eight_sets() {
    let mut s = Session::new();
    let start = s.ifs;
    let mut seen = vec![];
    for _ in 0..8 {
        assert_eq!(s.press(Key::S), KeyAction::Nothing);
        seen.push(s.ifs.set3d_index.unwrap());
    }
    assert_eq!(seen, vec![4, 5, 6, 7, 0, 1, 2, 3]);
    assert_eq!(s.ifs, start);
}

#[test]
fn set_key_from_none_starts_at_one() {
    let mut s = Session::new();
    s.ifs.set3d_index = None;
    s.press(Key::S);
    assert_eq!(s.ifs.set3d_index, Some(1));
}

#[test]
fn negative_settings_cycle_like_rust_remainder() {
    let mut s = Session::new();
    s.ifs.x_mode = -9;
    s.press(Key::X);
    assert_eq!(s.ifs.x_mode, -1);
    s.press(Key::X);
    assert_eq!(s.ifs.x_mode, 0);
}

#[test]
fn cycling_keys_return_after_their_period() {
    for (key, n) in [(Key::X, 7), (Key::N, 10), (Key::B, 5), (Key::L, 2), (Key::W, 3), (Key::Z, 2), (Key::Space, 2)] {
        let mut s = Session::new();
        let start = s.ifs;
        for _ in 0..n {
            s.press(key);
        }
        assert_eq!(s.ifs, start, "{:?}", key);
    }
}

#[test]
fn geometry_keys_dirty_both_buffers() {
    for key in [Key::S, Key::X, Key::Z, Key::N, Key::B, Key::C, Key::Space] {
        let mut s = Session::new();
        s.view_dirty = false;
        s.shadow_dirty = false;
        s.press(key);
        assert!(s.view_dirty && s.shadow_dirty, "{:?}", key);
    }
    for key in [Key::P, Key::V, Key::L, Key::W, Key::R] {
        let mut s = Session::new();
        s.view_dirty = false;
        s.shadow_dirty = false;
        s.press(key);
        assert!(s.view_dirty && !s.shadow_dirty, "{:?}", key);
    }
}

#[test]
fn key_actions() {
    let mut s = Session::new();
    assert_eq!(s.press(Key::P), KeyAction::RandomizePalette);
    assert_eq!(s.press(Key::Z), KeyAction::RandomizeSecret);
    assert_eq!(s.press(Key::Z), KeyAction::Nothing);
    assert_eq!(s.press(Key::R), KeyAction::RandomizeView { center: false });
    s.ifs.preset_idx = 8;
    assert_eq!(s.press(Key::N), KeyAction::RandomizeCenter);
    assert_eq!(s.ifs.preset_idx, 9);
    s.shadow_dirty = false;
    assert_eq!(s.press(Key::R), KeyAction::RandomizeView { center: true });
    assert!(s.shadow_dirty);
    assert_eq!(s.press(Key::N), KeyAction::Nothing);
    assert_eq!(s.ifs.preset_idx, 0);
}

#[test]
fn secret_shape_always_does_something() {
    let mut s = Session::new();
    s.set_secret_shape(false, false);
    assert!(!s.ifs.secret_square && s.ifs.secret_extra_coord);
    s.set_secret_shape(true, false);
    assert!(s.ifs.secret_square && !s.ifs.secret_extra_coord);
    s.set_secret_shape(true, true);
    assert!(s.ifs.secret_square && s.ifs.secret_extra_coord);
}

#[test]
fn frozen_frames_clear_once() {
    let mut s = Session::new();
    assert_eq!(s.frame_clears(), (true, true));
    s.end_frame();
    assert_eq!(s.frame_clears(), (false, false));
    s.press(Key::V);
    assert_eq!(s.frame_clears(), (true, false));
    s.end_frame();
    assert_eq!(s.frame_clears(), (false, false));
}

#[test]
fn animated_frames_clear_every_time() {
    let mut s = Session::new();
    s.press(Key::Space);
    assert!(!s.ifs.freeze_c);
    for _ in 0..3 {
        assert_eq!(s.frame_clears(), (true, true));
        s.end_frame();
    }
    s.show_shadows = false;
    assert_eq!(s.frame_clears(), (true, false));
}

#[test]
fn center_source_choice() {
    let mut c = IfsControl::default();
    assert_eq!(c.center_source(), CenterSource::Custom);
    c.preset_idx = 4;
    assert_eq!(c.center_source(), CenterSource::Preset(4));
    c.use_presets = false;
    assert_eq!(c.center_source(), CenterSource::Custom);
    c.freeze_c = false;
    assert_eq!(c.center_source(), CenterSource::Animated);
}

#[test]
fn background_and_pass_choices() {
    let mut c = IfsControl::default();
    assert_eq!(c.background_index(5), 0);
    assert!(c.draws_bottom_plane());
    c.background_mode = 3;
    assert_eq!(c.background_index(5), 3);
    assert!(!c.draws_bottom_plane());
    c.background_mode = 17;
    assert_eq!(c.background_index(5), 4);
    for (m, mirrored) in [(-1, true), (0, true), (2, true), (3, false), (6, false)] {
        c.x_mode = m;
        assert_eq!(c.draws_mirrored_root(), mirrored);
    }
}
