use zimiri::bitmap::{average_pixel, invert, rotate90, Bitmap, Pixel};
use zimiri::codec::{load_bitmap, overlay_with_asset, vec_image};
use zimiri::error::ErrorKind;
use zimiri::pipeline::{invert_image, overlay_bi_flag, rotate_image};

fn px(r: u8, g: u8, b: u8, a: u8) -> Pixel {
    Pixel { r, g, b, a }
}

fn sample_2x2() -> Bitmap {
    Bitmap {
        width: 2,
        height: 2,
        pixels: vec![
            px(10, 20, 30, 255),
            px(40, 50, 60, 200),
            px(70, 80, 90, 100),
            px(200, 210, 220, 0),
        ],
    }
}

#[test]
fn rotate90_swaps_dimensions_and_permutes() {
    let img = sample_2x2();
    let out = rotate90(&img);
    assert_eq!(out.width, 2);
    assert_eq!(out.height, 2);
    // clockwise: the left column of the input becomes the top row, bottom first
    assert_eq!(
        out.pixels,
        vec![
            px(70, 80, 90, 100),
            px(10, 20, 30, 255),
            px(200, 210, 220, 0),
            px(40, 50, 60, 200),
        ]
    );
}

#[test]
fn rotate90_rectangle() {
    let img = Bitmap {
        width: 3,
        height: 1,
        pixels: vec![px(1, 0, 0, 255), px(2, 0, 0, 255), px(3, 0, 0, 255)],
    };
    let out = rotate90(&img);
    assert_eq!(out.width, 1);
    assert_eq!(out.height, 3);
    assert_eq!(
        out.pixels,
        vec![px(1, 0, 0, 255), px(2, 0, 0, 255), px(3, 0, 0, 255)]
    );
}

#[test]
fn rotate_four_times_is_identity() {
    let img = sample_2x2();
    let once = rotate90(&img);
    let twice = rotate90(&once);
    let thrice = rotate90(&twice);
    let back = rotate90(&thrice);
    assert_eq!(back.width, img.width);
    assert_eq!(back.height, img.height);
    assert_eq!(back.pixels, img.pixels);
}

#[test]
fn invert_replaces_colour_channels_and_keeps_alpha() {
    let img = Bitmap {
        width: 1,
        height: 1,
        pixels: vec![px(10, 20, 30, 40)],
    };
    let out = invert(&img);
    assert_eq!(out.pixels, vec![px(245, 235, 225, 40)]);
}

#[test]
fn invert_twice_is_identity() {
    let img = sample_2x2();
    let once = invert(&img);
    for (p, q) in img.pixels.iter().zip(once.pixels.iter()) {
        assert_eq!(p.a, q.a);
    }
    let back = invert(&once);
    assert_eq!(back.width, img.width);
    assert_eq!(back.height, img.height);
    assert_eq!(back.pixels, img.pixels);
}

#[test]
fn average_pixel_floors_and_keeps_block_alpha() {
    let out = average_pixel(px(255, 10, 0, 7), px(100, 5, 255, 200));
    assert_eq!(out, px(177, 7, 127, 7));
}

#[test]
fn overlay_keeps_input_alpha_for_any_asset() {
    let input = sample_2x2();
    let asset = Bitmap {
        width: 1,
        height: 2,
        pixels: vec![px(255, 0, 0, 128), px(0, 255, 0, 17)],
    };
    let out = overlay_with_asset(&input, &asset);
    assert_eq!(out.width, input.width);
    assert_eq!(out.height, input.height);
    for (p, q) in input.pixels.iter().zip(out.pixels.iter()) {
        assert_eq!(p.a, q.a);
    }
}

#[test]
fn overlay_with_black_asset_halves_colour_channels() {
    let input = sample_2x2();
    let asset = Bitmap {
        width: 1,
        height: 1,
        pixels: vec![px(0, 0, 0, 255)],
    };
    let out = overlay_with_asset(&input, &asset);
    for (p, q) in input.pixels.iter().zip(out.pixels.iter()) {
        assert_eq!(q.r, p.r / 2);
        assert_eq!(q.g, p.g / 2);
        assert_eq!(q.b, p.b / 2);
        assert_eq!(q.a, p.a);
    }
}

#[test]
fn vec_image_fails_exactly_on_an_empty_raster() {
    let empty = Bitmap {
        width: 0,
        height: 0,
        pixels: Vec::new(),
    };
    let err = vec_image(&empty).unwrap_err();
    assert_eq!(err.kind, ErrorKind::Encoding);

    let zero_width = Bitmap {
        width: 0,
        height: 3,
        pixels: Vec::new(),
    };
    let err = vec_image(&zero_width).unwrap_err();
    assert_eq!(err.kind, ErrorKind::Encoding);

    let bytes = vec_image(&sample_2x2()).expect("a nonzero raster encodes");
    assert!(!bytes.is_empty());
}

#[test]
fn png_round_trip_preserves_pixels() {
    let img = sample_2x2();
    let bytes = vec_image(&img).expect("encode");
    let back = load_bitmap(&bytes).expect("decode");
    assert_eq!(back.width, img.width);
    assert_eq!(back.height, img.height);
    assert_eq!(back.pixels, img.pixels);
}

#[test]
fn rotate_image_rotates_the_encoded_bytes() {
    let img = sample_2x2();
    let bytes = vec_image(&img).expect("encode");
    let rotated_bytes = rotate_image(&bytes).expect("rotate");
    let rotated = load_bitmap(&rotated_bytes).expect("decode");
    assert_eq!(rotated.width, 2);
    assert_eq!(rotated.height, 2);
    assert_eq!(rotated.pixels, rotate90(&img).pixels);
}

#[test]
fn invert_image_inverts_the_encoded_bytes() {
    let img = sample_2x2();
    let bytes = vec_image(&img).expect("encode");
    let inverted_bytes = invert_image(&bytes).expect("invert");
    let inverted = load_bitmap(&inverted_bytes).expect("decode");
    assert_eq!(inverted.pixels, invert(&img).pixels);
}

#[test]
fn unreadable_bytes_fail_with_decode_error() {
    let garbage = vec![1u8, 2, 3, 4, 5];
    let err = load_bitmap(&garbage).unwrap_err();
    assert_eq!(err.kind, ErrorKind::Decode);
    let err = rotate_image(&garbage).unwrap_err();
    assert_eq!(err.kind, ErrorKind::Decode);
    let err = invert_image(&garbage).unwrap_err();
    assert_eq!(err.kind, ErrorKind::Decode);
}

#[test]
fn overlay_bi_flag_blends_with_the_asset() {
    let input = sample_2x2();
    let input_bytes = vec_image(&input).expect("encode");
    let asset = Bitmap {
        width: 1,
        height: 1,
        pixels: vec![px(0, 0, 0, 255)],
    };
    let asset_bytes = vec_image(&asset).expect("encode");
    let out_bytes = overlay_bi_flag(&input_bytes, &asset_bytes).expect("overlay");
    let out = load_bitmap(&out_bytes).expect("decode");
    for (p, q) in input.pixels.iter().zip(out.pixels.iter()) {
        assert_eq!(q.r, p.r / 2);
        assert_eq!(q.g, p.g / 2);
        assert_eq!(q.b, p.b / 2);
        assert_eq!(q.a, p.a);
    }
}

#[test]
fn overlay_bi_flag_with_unreadable_asset_returns_input_unchanged() {
    let input = sample_2x2();
    let input_bytes = vec_image(&input).expect("encode");
    let garbage_asset = vec![9u8, 9, 9];
    let out = overlay_bi_flag(&input_bytes, &garbage_asset).expect("fallback");
    assert_eq!(out, input_bytes);
}

#[test]
fn overlay_bi_flag_with_unreadable_input_fails_with_decode_error() {
    let asset = Bitmap {
        width: 1,
        height: 1,
        pixels: vec![px(0, 0, 0, 255)],
    };
    let asset_bytes = vec_image(&asset).expect("encode");
    let err = overlay_bi_flag(&vec![0u8], &asset_bytes).unwrap_err();
    assert_eq!(err.kind, ErrorKind::Decode);
}
