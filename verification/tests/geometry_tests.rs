use tile_scene::atlas::{build_atlas, ScanOrder, TilesetDescriptor};
use tile_scene::geometry::{pixel_rect, tex_rect, PixelRect};

#[test]
fn round_trip_is_exact() {
    let rect = PixelRect { offset_x: 192, offset_y: 64, width: 64, height: 64 };
    let tex = tex_rect(&rect, 256, 128);
    assert_eq!(tex.left_num, 192);
    assert_eq!(tex.right_num, 256);
    // The vertical axis is measured from the bottom of the image.
    assert_eq!(tex.bottom_num, 0);
    assert_eq!(tex.top_num, 64);
    assert_eq!(tex.den_x, 256);
    assert_eq!(tex.den_y, 128);
    assert_eq!(pixel_rect(&tex), rect);
}

#[test]
fn round_trip_every_tile_position() {
    let ts = TilesetDescriptor { tile_width: 32, tile_height: 32, image_width: 96, image_height: 96 };
    let atlas = build_atlas(&ts, ScanOrder::BottomRowFirst, 0, 0, 0).unwrap();
    for sprite in &atlas.sprites {
        let tex = tex_rect(&sprite.rect, ts.image_width, ts.image_height);
        assert_eq!(pixel_rect(&tex), sprite.rect);
    }
}

#[test]
fn normalized_times_image_matches_pixels_within_tolerance() {
    // 96 is no power of two, so the normalized coordinates are not exactly
    // representable and the round trip through f32 only holds to a tolerance.
    let ts = TilesetDescriptor { tile_width: 32, tile_height: 32, image_width: 96, image_height: 96 };
    let atlas = build_atlas(&ts, ScanOrder::TopRowFirst, 0, 0, 0).unwrap();
    let tolerance = 1e-5f32;
    for sprite in &atlas.sprites {
        let tex = tex_rect(&sprite.rect, ts.image_width, ts.image_height);
        let left = tex.left_num as f32 / tex.den_x as f32;
        let right = tex.right_num as f32 / tex.den_x as f32;
        let bottom = tex.bottom_num as f32 / tex.den_y as f32;
        let top = tex.top_num as f32 / tex.den_y as f32;
        let iw = ts.image_width as f32;
        let ih = ts.image_height as f32;
        assert!((left * iw - sprite.rect.offset_x as f32).abs() < tolerance);
        assert!((right * iw - (sprite.rect.offset_x + sprite.rect.width) as f32).abs() < tolerance);
        assert!((top * ih - (ts.image_height - sprite.rect.offset_y) as f32).abs() < tolerance);
        let far_y = (ts.image_height - (sprite.rect.offset_y + sprite.rect.height)) as f32;
        assert!((bottom * ih - far_y).abs() < tolerance);
    }
}
