use nestalgic::texture::{Pixel, Texture};

#[test]
fn texture_from_bitplanes() {
    let bytes = vec![
        // Plane 1
        0b01000001, 0b11000010, 0b01000100, 0b01001000, 0b00010000, 0b00100000, 0b01000000, 0b10000000,
        // Plane 2
        0b00000001, 0b00000010, 0b00000100, 0b00001000, 0b00010110, 0b00100001, 0b01000010, 0b10000111,
        // Plane 1
        0b01000011, 0b11000010, 0b01000100, 0b01001000, 0b00010000, 0b00100000, 0b01000000, 0b10000000,
        // Plane 2
        0b00000011, 0b00000010, 0b00000100, 0b00001000, 0b00010110, 0b00100001, 0b01000010, 0b10000111,
    ];

    // Two tiles side by side: each row holds a row of the first tile, then of the second.
    let expected = vec![
        0, 1, 0, 0, 0, 0, 0, 3, 0, 1, 0, 0, 0, 0, 3, 3, //
        1, 1, 0, 0, 0, 0, 3, 0, 1, 1, 0, 0, 0, 0, 3, 0, //
        0, 1, 0, 0, 0, 3, 0, 0, 0, 1, 0, 0, 0, 3, 0, 0, //
        0, 1, 0, 0, 3, 0, 0, 0, 0, 1, 0, 0, 3, 0, 0, 0, //
        0, 0, 0, 3, 0, 2, 2, 0, 0, 0, 0, 3, 0, 2, 2, 0, //
        0, 0, 3, 0, 0, 0, 0, 2, 0, 0, 3, 0, 0, 0, 0, 2, //
        0, 3, 0, 0, 0, 0, 2, 0, 0, 3, 0, 0, 0, 0, 2, 0, //
        3, 0, 0, 0, 0, 2, 2, 2, 3, 0, 0, 0, 0, 2, 2, 2, //
    ];
    let expected: Vec<Pixel> = expected
        .into_iter()
        .map(|colour| match colour {
            0 => Pixel::empty(),
            1 => Pixel::new(255, 0, 0, 255),
            2 => Pixel::new(0, 255, 0, 255),
            3 => Pixel::new(0, 0, 255, 255),
            _ => Pixel::new(255, 0, 255, 255),
        })
        .collect();
    let expected = Texture::new(&expected, 16, 8);

    let result = Texture::from_bitplanes(&bytes, 16, 16, 8);

    assert_eq!(result, expected);
}

#[test]
fn bitplanes_leave_pixels_past_the_last_tile_transparent() {
    let bytes = vec![0xFF; 16];
    let texture = Texture::from_bitplanes(&bytes, 16, 8, 16);
    assert_eq!(texture.pixels.len(), 128);
    assert_eq!(texture.pixels[0], Pixel::new(0, 0, 255, 255));
    assert_eq!(texture.pixels[64], Pixel::empty());
}

#[test]
fn render_ascii_draws_rows_in_groups_of_eight() {
    let mut pixels = vec![Pixel::empty(); 32];
    pixels[1] = Pixel::new(255, 0, 0, 255);
    pixels[9] = Pixel::new(0, 255, 0, 255);
    pixels[16] = Pixel::new(0, 0, 255, 255);
    pixels[31] = Pixel::new(1, 2, 3, 4);
    let texture = Texture::new(&pixels, 2, 16);
    assert_eq!(
        texture.render_ascii(),
        ".1...... .2......\n3....... .......?"
    );
}

#[test]
fn rgba_bytes_follow_pixel_order() {
    let pixels = vec![Pixel::new(1, 2, 3, 4), Pixel::new(5, 6, 7, 8)];
    assert_eq!(Pixel::into_texture(&pixels), vec![1, 2, 3, 4, 5, 6, 7, 8]);
    assert_eq!(Pixel::new(9, 8, 7, 6).into_rgba(), [9, 8, 7, 6]);
    let texture = Texture::new(&pixels, 2, 1);
    assert_eq!(texture.to_rgba(), vec![1, 2, 3, 4, 5, 6, 7, 8]);
}
