use ifs3d::shading::{occluded, plot_z, plot_z_col, shade, SHADOW_BIAS};

#[test]
fn plot_z_keeps_nearest_depth() {
    let mut z = vec![0i32; 4 * 3];
    plot_z(1, 2, 50, &mut z, 4, 3);
    assert_eq!(z[2 * 4 + 1], 50);
    plot_z(1, 2, 40, &mut z, 4, 3);
    assert_eq!(z[2 * 4 + 1], 50);
    plot_z(1, 2, 60, &mut z, 4, 3);
    assert_eq!(z[2 * 4 + 1], 60);
    // equal depth does not win
    plot_z(1, 2, 60, &mut z, 4, 3);
    assert_eq!(z[2 * 4 + 1], 60);
    assert_eq!(z.iter().filter(|&&d| d != 0).count(), 1);
}

#[test]
fn plot_z_ignores_points_outside() {
    let mut z = vec![0i32; 4 * 3];
    plot_z(-1, 0, 9, &mut z, 4, 3);
    plot_z(0, -1, 9, &mut z, 4, 3);
    plot_z(4, 0, 9, &mut z, 4, 3);
    plot_z(0, 3, 9, &mut z, 4, 3);
    assert!(z.iter().all(|&d| d == 0));
}

#[test]
fn plot_z_is_idempotent_and_order_free() {
    let mut a = vec![0i32; 9];
    plot_z(1, 1, 7, &mut a, 3, 3);
    let once = a.clone();
    plot_z(1, 1, 7, &mut a, 3, 3);
    assert_eq!(a, once);

    let mut b = vec![0i32; 9];
    let mut c = vec![0i32; 9];
    plot_z(1, 1, 7, &mut b, 3, 3);
    plot_z(1, 1, 9, &mut b, 3, 3);
    plot_z(1, 1, 9, &mut c, 3, 3);
    plot_z(1, 1, 7, &mut c, 3, 3);
    assert_eq!(b, c);
    assert_eq!(b[4], 9);
}

#[test]
fn plot_z_col_writes_colour_only_when_nearer() {
    let mut pict = vec![0u32; 6];
    let mut z = vec![0i32; 6];
    plot_z_col(2, 1, 10, &mut pict, &mut z, 3, 2, 0xABCDEF);
    assert_eq!((pict[5], z[5]), (0xABCDEF, 10));
    plot_z_col(2, 1, 5, &mut pict, &mut z, 3, 2, 0x111111);
    assert_eq!((pict[5], z[5]), (0xABCDEF, 10));
    plot_z_col(2, 1, 10, &mut pict, &mut z, 3, 2, 0x222222);
    assert_eq!((pict[5], z[5]), (0xABCDEF, 10));
    plot_z_col(3, 1, 99, &mut pict, &mut z, 3, 2, 0x333333);
    assert_eq!(pict, vec![0, 0, 0, 0, 0, 0xABCDEF]);
}

#[test]
fn occlusion_needs_more_than_the_bias() {
    let mut lb = vec![0i32; 4096 * 4096];
    lb[10 * 4096 + 20] = 100;
    assert!(occluded(&lb, 20, 10, 100 - SHADOW_BIAS - 1));
    assert!(!occluded(&lb, 20, 10, 100 - SHADOW_BIAS));
    assert!(!occluded(&lb, 21, 10, 0));
    assert!(!occluded(&lb, -1, 10, -1000));
    assert!(!occluded(&lb, 4096, 10, -1000));
}

#[test]
fn shade_without_correction_scales_by_brightness() {
    assert_eq!(shade(255, 128, 0, 255, 0), (254, 127, 0));
    assert_eq!(shade(200, 100, 50, 128, 0), (100, 50, 25));
    assert_eq!(shade(10, 20, 30, 0, 0), (0, 0, 0));
}

#[test]
fn shade_fluorescent_and_filament() {
    // mode 1: r = (3*100+200)/4 = 125, g = (2*100+200)/3 = 133, b = (100+200)/2 = 150
    assert_eq!(shade(100, 100, 100, 200, 1), (125 * 200 / 256, 133 * 200 / 256, 150 * 200 / 256));
    // mode 2: r = (100+200)/2 = 150, g = 133, b = (300+200)/4 = 125
    assert_eq!(shade(100, 100, 100, 200, 2), (150 * 200 / 256, 133 * 200 / 256, 125 * 200 / 256));
}

#[test]
fn shade_caps_channels() {
    assert_eq!(shade(1000, 300, 256, 255, 0), (255, 255, 255));
}

#[test]
fn plots_need_only_the_hit_cell() {
    // a 100 by 100 grid over a 3-entry buffer: only row 0, columns 0..3 exist
    let mut z = vec![0i32; 3];
    plot_z(2, 0, 5, &mut z, 100, 100);
    assert_eq!(z, vec![0, 0, 5]);
    let mut pict = vec![0u32; 3];
    plot_z_col(1, 0, 6, &mut pict, &mut z, 100, 100, 77);
    assert_eq!((z, pict), (vec![0, 6, 5], vec![0, 77, 0]));
    let lb = vec![100i32; 2];
    assert!(occluded(&lb, 1, 0, 0));
    // outside the shadow map nothing is read
    assert!(!occluded(&lb, 5000, 0, i32::MAX));
}
