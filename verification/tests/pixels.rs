use nes::color::Color;
use nes::color::XRGB8888;
use nes::framebuffer::Framebuffer;
use nes::texture::Texture;

#[test]
fn color_components_round_trip() {
    let mut c = Color::with_alpha(1, 2, 3, 4);
    assert_eq!((c.r(), c.g(), c.b(), c.a()), (1, 2, 3, 4));
    c.set_r(9);
    c.set_g(8);
    c.set_b(7);
    c.set_a(6);
    assert_eq!((c.r(), c.g(), c.b(), c.a()), (9, 8, 7, 6));
    let opaque = Color::new(5, 6, 7);
    assert_eq!(opaque.a(), 255);
    assert_eq!(Color::transparent().a(), 0);
}

#[test]
fn xrgb_components_round_trip() {
    let mut c = XRGB8888::new(10, 20, 30);
    assert_eq!((c.r(), c.g(), c.b()), (10, 20, 30));
    c.set_r(1);
    c.set_g(2);
    c.set_b(3);
    assert_eq!((c.r(), c.g(), c.b()), (1, 2, 3));
}

#[test]
fn texture_stores_pixels_row_major() {
    let pixels = vec![
        Color::new(1, 0, 0),
        Color::new(2, 0, 0),
        Color::new(3, 0, 0),
        Color::new(4, 0, 0),
        Color::new(5, 0, 0),
        Color::new(6, 0, 0),
    ];
    let t = Texture::new(&pixels, 3, 2);
    assert_eq!(t.width(), 3);
    assert_eq!(t.height(), 2);
    assert_eq!(t.get(0, 0).r(), 1);
    assert_eq!(t.get(2, 0).r(), 3);
    assert_eq!(t.get(0, 1).r(), 4);
    assert_eq!(t.get(2, 1).r(), 6);
}

#[test]
fn framebuffer_starts_black_and_clears_to_a_color() {
    let mut fb = Framebuffer::new(4, 3);
    assert_eq!(fb.width(), 4);
    assert_eq!(fb.height(), 3);
    assert_eq!((fb.get(0, 0).r(), fb.get(3, 2).b()), (0, 0));
    fb.clear(Color::new(10, 20, 30));
    for y in 0..3 {
        for x in 0..4 {
            let p = fb.get(x, y);
            assert_eq!((p.r(), p.g(), p.b()), (10, 20, 30));
        }
    }
}

#[test]
fn draw_blends_by_source_alpha() {
    let mut fb = Framebuffer::new(2, 1);
    fb.set(0, 0, XRGB8888::new(100, 100, 100));
    fb.set(1, 0, XRGB8888::new(100, 100, 100));
    let t = Texture::new(
        &[Color::with_alpha(200, 0, 0, 255), Color::with_alpha(200, 0, 0, 0)],
        2,
        1,
    );
    fb.draw(&t, 0, 0);
    // opaque source replaces the pixel
    let p = fb.get(0, 0);
    assert_eq!((p.r(), p.g(), p.b()), (200, 0, 0));
    // fully transparent source leaves it unchanged
    let q = fb.get(1, 0);
    assert_eq!((q.r(), q.g(), q.b()), (100, 100, 100));
}

#[test]
fn draw_with_half_alpha_averages() {
    let mut fb = Framebuffer::new(1, 1);
    fb.set(0, 0, XRGB8888::new(100, 0, 200));
    let t = Texture::new(&[Color::with_alpha(200, 0, 0, 128)], 1, 1);
    fb.draw(&t, 0, 0);
    let p = fb.get(0, 0);
    assert_eq!(p.r(), ((100u32 * 127 + 200u32 * 128) / 255) as u8);
    assert_eq!(p.g(), 0);
    assert_eq!(p.b(), ((200u32 * 127) / 255) as u8);
}

#[test]
fn draw_clips_to_the_buffer() {
    let mut fb = Framebuffer::new(3, 3);
    let t = Texture::new(
        &[
            Color::new(1, 1, 1),
            Color::new(2, 2, 2),
            Color::new(3, 3, 3),
            Color::new(4, 4, 4),
        ],
        2,
        2,
    );
    fb.draw(&t, 2, 2);
    // only the top-left texture pixel landed
    assert_eq!(fb.get(2, 2).r(), 1);
    assert_eq!(fb.get(1, 2).r(), 0);
    assert_eq!(fb.get(2, 1).r(), 0);
}

#[test]
fn bytes_are_blue_green_red_zero_per_pixel() {
    let mut fb = Framebuffer::new(2, 1);
    fb.set(0, 0, XRGB8888::new(1, 2, 3));
    fb.set(1, 0, XRGB8888::new(4, 5, 6));
    let bytes = fb.to_bytes();
    assert_eq!(bytes, vec![3, 2, 1, 0, 6, 5, 4, 0]);
}
