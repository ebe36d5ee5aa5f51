use gpu_quad::texture::{CopyError, Fraction, Texture, TextureCopy};

#[test]
fn texture_from_bitmap_dimensions() {
    let t = Texture::new(640, 480);
    assert_eq!(t.size(), (640, 480));
}

#[test]
fn empty_texture_keeps_its_size() {
    let t = Texture::empty(1280, 720);
    assert_eq!(t.size(), (1280, 720));
    assert_eq!(Texture::empty(0, 0).size(), (0, 0));
}

#[test]
fn texel_size_is_reciprocal() {
    let (x, y) = Texture::empty(1280, 720).get_texel_size();
    assert_eq!(x, Fraction { num: 1, den: 1280 });
    assert_eq!(y, Fraction { num: 1, den: 720 });
    assert_eq!(x.num as f32 / x.den as f32, 1.0 / 1280.0f32);
    assert_eq!(y.num as f32 / y.den as f32, 1.0 / 720.0f32);
    let (x, y) = Texture::empty(1, 3).get_texel_size();
    assert_eq!((x.num * 1, y.num * 3), (x.den, y.den));
}

#[test]
fn write_all_covers_the_whole_texture() {
    let c = Texture::empty(300, 200).write_all();
    assert_eq!(
        c,
        TextureCopy { origin_x: 0, origin_y: 0, width: 300, height: 200, bytes_per_row: 1200, rows_per_image: 200 }
    );
}

#[test]
fn write_all_row_bytes_do_not_overflow() {
    let c = Texture::empty(u32::MAX, 1).write_all();
    assert_eq!(c.bytes_per_row, 4 * u32::MAX as u64);
}

#[test]
fn partial_write_inside() {
    let t = Texture::empty(64, 32);
    let c = t.write_partially((10, 4), (20, 8)).unwrap();
    assert_eq!(
        c,
        TextureCopy { origin_x: 10, origin_y: 4, width: 20, height: 8, bytes_per_row: 256, rows_per_image: 32 }
    );
}

#[test]
fn partial_write_touching_the_edge() {
    let t = Texture::empty(64, 32);
    assert!(t.write_partially((44, 24), (20, 8)).is_ok());
    assert!(t.write_partially((0, 0), (64, 32)).is_ok());
    assert!(t.write_partially((64, 32), (0, 0)).is_ok());
}

#[test]
fn partial_write_past_the_extent_is_refused() {
    let t = Texture::empty(64, 32);
    assert_eq!(t.write_partially((45, 0), (20, 8)), Err(CopyError::OutOfBounds));
    assert_eq!(t.write_partially((0, 25), (20, 8)), Err(CopyError::OutOfBounds));
    assert_eq!(t.write_partially((0, 0), (65, 1)), Err(CopyError::OutOfBounds));
    assert_eq!(t.write_partially((u32::MAX, 0), (1, 1)), Err(CopyError::OutOfBounds));
}

#[test]
fn partial_write_negative_size_is_refused() {
    let t = Texture::empty(64, 32);
    assert_eq!(t.write_partially((0, 0), (-1, 4)), Err(CopyError::NegativeSize));
    assert_eq!(t.write_partially((0, 0), (4, i32::MIN)), Err(CopyError::NegativeSize));
}
