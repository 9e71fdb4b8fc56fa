use ifs3d::buffers::Framebuffers;
use ifs3d::color::{pack_rgb, unpack_rgb};
use ifs3d::constants::{BHEIGHT, BWIDTH, HEIGHT, LHEIGHT, LWIDTH, WIDTH};

#[test]
fn pack_places_bytes() {
    assert_eq!(pack_rgb(0x12, 0x34, 0x56), 0x0012_3456);
    assert_eq!(pack_rgb(0, 0, 0), 0);
    assert_eq!(pack_rgb(255, 255, 255), 0x00FF_FFFF);
}

#[test]
fn unpack_reads_bytes() {
    assert_eq!(unpack_rgb(0x00AB_CDEF), (0xAB, 0xCD, 0xEF));
    // the top byte is not a channel
    assert_eq!(unpack_rgb(0xFF12_3456), (0x12, 0x34, 0x56));
    let c = pack_rgb(7, 200, 31);
    assert_eq!(unpack_rgb(c), (7, 200, 31));
}

#[test]
fn new_buffers_have_fixed_sizes_and_are_zero() {
    let fb = Framebuffers::new();
    assert_eq!(fb.width, WIDTH as usize);
    assert_eq!(fb.height, HEIGHT as usize);
    assert_eq!(fb.screen.len(), 800 * 600);
    assert_eq!(fb.pict.len(), (BWIDTH * BHEIGHT) as usize);
    assert_eq!(fb.zbuf.len(), 1600 * 1200);
    assert_eq!(fb.light.len(), (LWIDTH * LHEIGHT) as usize);
    assert!(fb.screen.iter().all(|&c| c == 0));
    assert!(fb.pict.iter().all(|&c| c == 0));
    assert!(fb.zbuf.iter().all(|&z| z == 0));
    assert!(fb.light.iter().all(|&z| z == 0));
}

#[test]
fn clear_view_fills_view_and_empties_depth() {
    let mut fb = Framebuffers::new();
    fb.zbuf[17] = 99;
    fb.light[3] = 5;
    fb.screen[2] = 42;
    fb.clear_view(0x0010_3050);
    assert!(fb.pict.iter().all(|&c| c == 0x0010_3050));
    assert!(fb.zbuf.iter().all(|&z| z == 0));
    assert_eq!(fb.light[3], 5);
    assert_eq!(fb.screen[2], 42);
}

#[test]
fn clear_light_empties_shadow_map_only() {
    let mut fb = Framebuffers::new();
    fb.light[100] = 7;
    fb.zbuf[1] = 3;
    fb.pict[0] = 9;
    fb.clear_light();
    assert!(fb.light.iter().all(|&z| z == 0));
    assert_eq!(fb.zbuf[1], 3);
    assert_eq!(fb.pict[0], 9);
}

#[test]
fn resolve_averages_each_2x2_block() {
    let mut fb = Framebuffers::new();
    let w = 1600usize;
    // block of screen pixel (3, 2): rows 4 and 5, columns 6 and 7
    fb.pict[4 * w + 6] = 0x00FF_0000;
    fb.pict[4 * w + 7] = 0x0000_0000;
    fb.pict[5 * w + 6] = 0x00FF_00FF;
    fb.pict[5 * w + 7] = 0x0001_0101;
    fb.resolve_2x2_to_screen();
    // r = (255+0+255+1)/4 = 127, g = (0+0+0+1)/4 = 0, b = (0+0+255+1)/4 = 64
    assert_eq!(fb.screen[2 * 800 + 3], 0x007F_0040);
    // neighbours saw only zeros
    assert_eq!(fb.screen[2 * 800 + 2], 0);
    assert_eq!(fb.screen[2 * 800 + 4], 0);
}

#[test]
fn resolve_rounds_down_and_ignores_top_byte() {
    let mut fb = Framebuffers::new();
    let w = 1600usize;
    fb.pict[0] = 0xFF00_0003;
    fb.pict[1] = 0x0000_0001;
    fb.pict[w] = 0x0000_0000;
    fb.pict[w + 1] = 0x0000_0000;
    fb.resolve_2x2_to_screen();
    assert_eq!(fb.screen[0], 0x0000_0001);
}

#[test]
fn resolve_of_cleared_view_is_uniform() {
    // clearing the view then resolving paints the screen with the clear colour
    let mut fb = Framebuffers::new();
    fb.clear_view(0xAB12_3456);
    fb.resolve_2x2_to_screen();
    assert!(fb.screen.iter().all(|&c| c == 0x0012_3456));
}

#[test]
fn resolve_last_pixel_reads_last_block() {
    let mut fb = Framebuffers::new();
    let n = fb.pict.len();
    fb.pict[n - 1] = 0x0004_0404;
    fb.resolve_2x2_to_screen();
    assert_eq!(fb.screen[800 * 600 - 1], 0x0001_0101);
}

#[test]
fn clear_screen_fills_screen_only() {
    let mut fb = Framebuffers::new();
    fb.pict[0] = 4;
    fb.clear_screen(0x0010_3050);
    assert!(fb.screen.iter().all(|&c| c == 0x0010_3050));
    assert_eq!(fb.pict[0], 4);
}

#[test]
fn clear_z_sets_every_depth() {
    let mut fb = Framebuffers::new();
    fb.zbuf[5] = 1;
    fb.clear_z();
    assert!(fb.zbuf.iter().all(|&z| z == ifs3d::constants::ZDEPTH));
    assert!(fb.light.iter().all(|&z| z == 0));
}

#[test]
fn resolve_smaller_screen() {
    let mut fb = Framebuffers::new();
    fb.width = 1;
    fb.height = 1;
    fb.screen = vec![0, 0xDEAD];
    fb.pict[0] = 0x00FF_0000;
    fb.pict[1] = 0x0000_FF00;
    fb.pict[1600] = 0x0000_00FF;
    fb.pict[1601] = 0x00FF_FFFF;
    fb.resolve_2x2_to_screen();
    // entries past width * height are kept
    assert_eq!(fb.screen, vec![0x007F_7F7F, 0xDEAD]);
}

#[test]
fn resolve_uses_view_stride_for_narrow_screens() {
    let mut fb = Framebuffers::new();
    fb.width = 3;
    fb.height = 2;
    fb.screen = vec![0; 6];
    // block of screen pixel (2, 1): rows 2 and 3, columns 4 and 5
    for (r, c) in [(2usize, 4usize), (2, 5), (3, 4), (3, 5)] {
        fb.pict[r * 1600 + c] = 0x0008_0808;
    }
    fb.resolve_2x2_to_screen();
    assert_eq!(fb.screen[1 * 3 + 2], 0x0008_0808);
    assert_eq!(fb.screen.iter().filter(|&&c| c != 0).count(), 1);
}

#[test]
fn clears_work_on_any_size() {
    let mut fb = Framebuffers::new();
    fb.pict = vec![1; 5];
    fb.zbuf = vec![1; 7];
    fb.screen = vec![1; 3];
    fb.light = vec![1; 2];
    fb.clear_view(9);
    fb.clear_screen(4);
    fb.clear_light();
    assert_eq!(fb.pict, vec![9; 5]);
    assert_eq!(fb.zbuf, vec![0; 7]);
    assert_eq!(fb.screen, vec![4; 3]);
    assert_eq!(fb.light, vec![0; 2]);
    fb.clear_z();
    assert_eq!(fb.zbuf, vec![ifs3d::constants::ZDEPTH; 7]);
}
