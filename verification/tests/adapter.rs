use bevy_mod_plotters::{
    has_expected_usage, is_supported_format, try_as_backend, PlotImage, TextureFormat,
};

fn image(format: TextureFormat, width: u32, height: u32, len: usize) -> PlotImage {
    PlotImage {
        format,
        width,
        height,
        data: vec![0u8; len],
        main_world: true,
        render_world: true,
    }
}

#[test]
fn backend_for_exact_buffer() {
    let mut img = image(TextureFormat::Bgra8Unorm, 2, 3, 2 * 3 * 4);
    assert!(try_as_backend(&mut img).is_some());
}

#[test]
fn backend_for_srgb_variant() {
    let mut img = image(TextureFormat::Bgra8UnormSrgb, 4, 4, 4 * 4 * 4);
    assert!(try_as_backend(&mut img).is_some());
}

#[test]
fn backend_for_larger_buffer() {
    let mut img = image(TextureFormat::Bgra8Unorm, 2, 2, 100);
    assert!(try_as_backend(&mut img).is_some());
}

#[test]
fn backend_for_empty_image() {
    let mut img = image(TextureFormat::Bgra8Unorm, 0, 0, 0);
    assert!(try_as_backend(&mut img).is_some());
}

#[test]
fn no_backend_for_rgba_formats() {
    let mut img = image(TextureFormat::Rgba8Unorm, 2, 2, 100);
    assert!(try_as_backend(&mut img).is_none());
    let mut img = image(TextureFormat::Rgba8UnormSrgb, 2, 2, 100);
    assert!(try_as_backend(&mut img).is_none());
}

#[test]
fn no_backend_for_other_format() {
    let mut img = image(TextureFormat::Other, 2, 2, 100);
    assert!(try_as_backend(&mut img).is_none());
}

#[test]
fn no_backend_for_short_buffer() {
    let mut img = image(TextureFormat::Bgra8Unorm, 10, 10, 10 * 10 * 4 - 1);
    assert!(try_as_backend(&mut img).is_none());
}

#[test]
fn short_buffer_leaves_image_untouched() {
    let mut img = image(TextureFormat::Bgra8Unorm, 10, 10, 399);
    assert!(try_as_backend(&mut img).is_none());
    assert_eq!(img.format, TextureFormat::Bgra8Unorm);
    assert_eq!(img.width, 10);
    assert_eq!(img.height, 10);
    assert_eq!(img.data, vec![0u8; 399]);
    assert!(img.main_world);
    assert!(img.render_world);
}

#[test]
fn rejected_format_leaves_image_untouched() {
    let mut img = image(TextureFormat::Rgba8Unorm, 2, 2, 16);
    assert!(try_as_backend(&mut img).is_none());
    assert_eq!(img.data, vec![0u8; 16]);
}

#[test]
fn supported_format_check() {
    assert!(is_supported_format(TextureFormat::Bgra8Unorm));
    assert!(is_supported_format(TextureFormat::Bgra8UnormSrgb));
    assert!(!is_supported_format(TextureFormat::Rgba8Unorm));
    assert!(!is_supported_format(TextureFormat::Rgba8UnormSrgb));
    assert!(!is_supported_format(TextureFormat::Other));
}

#[test]
fn usage_check_wants_both_flags() {
    let mut img = image(TextureFormat::Bgra8Unorm, 1, 1, 4);
    assert!(has_expected_usage(&img));
    img.main_world = false;
    assert!(!has_expected_usage(&img));
    img.main_world = true;
    img.render_world = false;
    assert!(!has_expected_usage(&img));
    img.main_world = false;
    assert!(!has_expected_usage(&img));
}

#[test]
fn white_fill_writes_color_bytes() {
    let mut img = image(TextureFormat::Bgra8Unorm, 500, 500, 500 * 500 * 4);
    let backend = try_as_backend(&mut img).expect("a zero-filled 500x500 BGRA image is drawable");
    assert!(backend.fill(255, 255, 255));
    for pixel in img.data.chunks(4) {
        assert_eq!(pixel[0], 255);
        assert_eq!(pixel[1], 255);
        assert_eq!(pixel[2], 255);
        // the fourth byte is padding to the chart backend and stays
        // unconstrained: the separate tint alpha makes up for it.
    }
}

#[test]
fn draw_is_visible_in_callers_buffer() {
    let mut img = image(TextureFormat::Bgra8UnormSrgb, 4, 4, 4 * 4 * 4);
    let backend = try_as_backend(&mut img).expect("a zero-filled 4x4 BGRA image is drawable");
    assert!(backend.fill(16, 32, 64));
    for pixel in img.data.chunks(4) {
        assert_eq!(pixel[0], 64, "blue byte first");
        assert_eq!(pixel[1], 32, "then green");
        assert_eq!(pixel[2], 16, "then red");
    }
}
