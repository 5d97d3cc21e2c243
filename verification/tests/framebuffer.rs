use flip_companion::framebuffer::{line_span, rotate_into_portrait, PremultipliedRgba, Xrgb8888Pixel};

fn px(v: u8) -> Xrgb8888Pixel {
    Xrgb8888Pixel { b: v, g: v, r: v, x: 0 }
}

#[test]
fn blend_opaque_color_replaces_pixel() {
    let mut p = Xrgb8888Pixel { b: 10, g: 20, r: 30, x: 0 };
    p.blend(PremultipliedRgba { red: 200, green: 100, blue: 50, alpha: 255 });
    assert_eq!(p, Xrgb8888Pixel { b: 50, g: 100, r: 200, x: 0xFF });
}

#[test]
fn blend_transparent_color_keeps_pixel() {
    let mut p = Xrgb8888Pixel { b: 10, g: 20, r: 30, x: 0 };
    p.blend(PremultipliedRgba { red: 0, green: 0, blue: 0, alpha: 0 });
    assert_eq!(p, Xrgb8888Pixel { b: 10, g: 20, r: 30, x: 0xFF });
}

#[test]
fn blend_half_alpha() {
    let mut p = Xrgb8888Pixel { b: 255, g: 0, r: 100, x: 0 };
    p.blend(PremultipliedRgba { red: 64, green: 128, blue: 0, alpha: 128 });
    // (100*127 + 64*255)/255 = 113, (0*127 + 128*255)/255 = 128, (255*127)/255 = 127
    assert_eq!(p, Xrgb8888Pixel { b: 127, g: 128, r: 113, x: 0xFF });
}

#[test]
fn from_rgb_sets_opaque() {
    assert_eq!(Xrgb8888Pixel::from_rgb(1, 2, 3), Xrgb8888Pixel { b: 3, g: 2, r: 1, x: 0xFF });
}

#[test]
fn rotate_quarter_turn_clockwise() {
    // Landscape 3 wide x 2 high:
    //   row 0: 1 2 3
    //   row 1: 4 5 6
    let src: Vec<Xrgb8888Pixel> = (1..=6).map(px).collect();
    // Portrait 2 wide (stride 3, one spare column) x 3 high.
    let mut dst = vec![px(0); 9];
    rotate_into_portrait(&src, 3, 2, &mut dst, 3);
    // Portrait row r shows landscape column 2 - r, top to bottom = landscape rows.
    let got: Vec<u8> = dst.iter().map(|p| p.r).collect();
    assert_eq!(got, vec![3, 6, 0, 2, 5, 0, 1, 4, 0]);
}

#[test]
fn rotate_empty_image_changes_nothing() {
    let src: Vec<Xrgb8888Pixel> = vec![];
    let mut dst = vec![px(7); 4];
    rotate_into_portrait(&src, 0, 5, &mut dst, 5);
    assert!(dst.iter().all(|p| p.r == 7));
}

#[test]
fn line_span_inside_and_past_end() {
    assert_eq!(line_span(2, 10, 3, 7, 100), Some((23, 27)));
    assert_eq!(line_span(9, 10, 0, 10, 100), Some((90, 100)));
    assert_eq!(line_span(9, 10, 0, 11, 100), None);
    assert_eq!(line_span(0, 10, 0, 0, 0), Some((0, 0)));
}

#[test]
fn rotate_with_rows_narrower_than_height_stays_in_bounds() {
    // Portrait rows of 1 pixel for a 2-high landscape image: copies overlap,
    // and the later landscape row wins.
    let src: Vec<Xrgb8888Pixel> = (1..=4).map(px).collect();
    let mut dst = vec![px(0); 3];
    rotate_into_portrait(&src, 2, 2, &mut dst, 1);
    let got: Vec<u8> = dst.iter().map(|p| p.r).collect();
    assert_eq!(got, vec![2, 4, 3]);
}
