use immediate_mode::text::Texture;

#[test]
fn new_texture_is_black() {
    let t = Texture::new(3, 2);
    assert_eq!(t.dimensions(), (3, 2));
    assert_eq!(t.pixels(), &[0u8; 6]);
}

#[test]
fn pixels_are_row_by_row() {
    let mut t = Texture::new(3, 2);
    t.set_pixel(1, 1, 200);
    t.set_pixel(2, 0, 7);
    assert_eq!(t.pixel(1, 1), 200);
    assert_eq!(t.pixels(), &[0, 0, 7, 0, 200, 0]);
}
