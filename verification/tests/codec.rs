use image::ImageEncoder;
use white_border_adder::codec::{
    accept_decoded, check_resize, decode, drop_alpha, encode, resize, Format, MAX_SIDE,
};
use white_border_adder::error::ErrorKind;
use white_border_adder::raster::Raster;

fn gradient(width: u32, height: u32) -> Raster {
    let mut data = Vec::new();
    for y in 0..height {
        for x in 0..width {
            data.extend_from_slice(&[(x * 7 % 256) as u8, (y * 5 % 256) as u8, 90, 255]);
        }
    }
    Raster::from_raw(width, height, data).unwrap()
}

fn flat(width: u32, height: u32, pixel: [u8; 4]) -> Raster {
    let mut data = Vec::new();
    for _ in 0..width * height {
        data.extend_from_slice(&pixel);
    }
    Raster::from_raw(width, height, data).unwrap()
}

#[test]
fn png_round_trip_is_exact() {
    let canvas = gradient(37, 21);
    let file = encode(&canvas, Format::Png, 100).unwrap();
    assert_eq!(&file[..8], &[0x89, b'P', b'N', b'G', 0x0d, 0x0a, 0x1a, 0x0a]);
    let back = decode(&file, Format::Png).unwrap();
    assert_eq!(back.width(), 37);
    assert_eq!(back.height(), 21);
    assert_eq!(back.as_raw(), canvas.as_raw());
}

#[test]
fn png_keeps_alpha() {
    let canvas = flat(3, 3, [1, 2, 3, 4]);
    let file = encode(&canvas, Format::Png, 100).unwrap();
    let back = decode(&file, Format::Png).unwrap();
    assert_eq!(back.as_raw(), canvas.as_raw());
}

#[test]
fn png_ignores_quality() {
    let canvas = gradient(16, 16);
    assert_eq!(encode(&canvas, Format::Png, 1), encode(&canvas, Format::Png, 100));
}

#[test]
fn jpeg_round_trip_is_close() {
    let canvas = flat(32, 24, [200, 100, 50, 255]);
    let file = encode(&canvas, Format::Jpeg, 100).unwrap();
    assert_eq!(&file[..2], &[0xff, 0xd8]);
    assert_eq!(&file[file.len() - 2..], &[0xff, 0xd9]);
    let back = decode(&file, Format::Jpeg).unwrap();
    assert_eq!(back.width(), 32);
    assert_eq!(back.height(), 24);
    for (got, want) in back.as_raw().iter().zip(canvas.as_raw().iter()) {
        assert!((*got as i32 - *want as i32).abs() <= 4);
    }
}

#[test]
fn jpeg_drops_alpha() {
    let opaque = flat(8, 8, [10, 200, 30, 255]);
    let clear = flat(8, 8, [10, 200, 30, 0]);
    assert_eq!(encode(&opaque, Format::Jpeg, 90), encode(&clear, Format::Jpeg, 90));
    let back = decode(&encode(&clear, Format::Jpeg, 90).unwrap(), Format::Jpeg).unwrap();
    assert_eq!(back.as_raw()[3], 255);
}

#[test]
fn jpeg_quality_changes_the_file() {
    let canvas = gradient(64, 64);
    let low = encode(&canvas, Format::Jpeg, 10).unwrap();
    let high = encode(&canvas, Format::Jpeg, 100).unwrap();
    assert!(low.len() < high.len());
}

#[test]
fn encoders_refuse_an_empty_canvas() {
    let empty = Raster::from_raw(0, 0, vec![]).unwrap();
    assert_eq!(encode(&empty, Format::Jpeg, 90), Err(ErrorKind::EncodeError));
    assert_eq!(encode(&empty, Format::Png, 90), Err(ErrorKind::EncodeError));
}

#[test]
fn drop_alpha_keeps_red_green_blue() {
    let image = Raster::from_raw(2, 1, vec![1, 2, 3, 4, 5, 6, 7, 8]).unwrap();
    assert_eq!(drop_alpha(&image), vec![1, 2, 3, 5, 6, 7]);
    let empty = Raster::from_raw(0, 5, vec![]).unwrap();
    assert_eq!(drop_alpha(&empty), Vec::<u8>::new());
}

#[test]
fn decode_refuses_what_is_no_image() {
    assert_eq!(decode(b"", Format::Png).err(), Some(ErrorKind::DecodeError));
    assert_eq!(decode(b"\x89PNG\r\n\x1a\n", Format::Png).err(), Some(ErrorKind::DecodeError));
    assert_eq!(decode(b"hello", Format::Jpeg).err(), Some(ErrorKind::DecodeError));
    // A PNG file is no JPEG file.
    let file = encode(&gradient(4, 4), Format::Png, 100).unwrap();
    assert_eq!(decode(&file, Format::Jpeg).err(), Some(ErrorKind::DecodeError));
}

#[test]
fn decode_converts_to_rgba() {
    // A grey image without alpha comes back with four samples per pixel.
    let mut file = Vec::new();
    image::codecs::png::PngEncoder::new(&mut file)
        .write_image(&[0, 128, 255, 7], 2, 2, image::ExtendedColorType::L8)
        .unwrap();
    let back = decode(&file, Format::Png).unwrap();
    assert_eq!(
        back.as_raw(),
        &vec![0, 0, 0, 255, 128, 128, 128, 255, 255, 255, 255, 255, 7, 7, 7, 255]
    );
}

#[test]
fn accept_decoded_checks_the_length() {
    assert!(accept_decoded(2, 2, vec![0; 16]).is_ok());
    assert_eq!(accept_decoded(2, 2, vec![0; 15]).err(), Some(ErrorKind::DecodeError));
    assert_eq!(accept_decoded(2, 2, vec![0; 17]).err(), Some(ErrorKind::DecodeError));
}

#[test]
fn resize_gives_the_size_asked_for() {
    let image = gradient(40, 30);
    let small = resize(&image, 20, 15);
    assert_eq!((small.width(), small.height()), (20, 15));
    assert_eq!(small.as_raw().len(), 20 * 15 * 4);
    let large = resize(&image, 100, 7);
    assert_eq!((large.width(), large.height()), (100, 7));
    assert_eq!(large.as_raw().len(), 100 * 7 * 4);
    assert_eq!(image.as_raw(), gradient(40, 30).as_raw());
}

#[test]
fn resize_of_one_colour_keeps_it() {
    let image = flat(10, 6, [12, 34, 56, 255]);
    let out = resize(&image, 25, 3);
    for px in out.as_raw().chunks(4) {
        assert_eq!(px, &[12, 34, 56, 255]);
    }
}

#[test]
fn resize_to_the_same_size_is_a_copy() {
    let image = gradient(9, 9);
    assert_eq!(resize(&image, 9, 9).as_raw(), image.as_raw());
}

#[test]
fn resize_halves_a_checkerboard_to_grey() {
    let mut data = Vec::new();
    for y in 0..4u32 {
        for x in 0..4u32 {
            let v = if (x + y) % 2 == 0 { 0 } else { 255 };
            data.extend_from_slice(&[v, v, v, 255]);
        }
    }
    let image = Raster::from_raw(4, 4, data).unwrap();
    let out = resize(&image, 2, 2);
    for px in out.as_raw().chunks(4) {
        assert!(px[0] > 100 && px[0] < 155);
        assert_eq!(px[3], 255);
    }
}

#[test]
fn resize_to_nothing() {
    let image = gradient(5, 5);
    let out = resize(&image, 3, 0);
    assert_eq!((out.width(), out.height()), (3, 0));
    assert!(out.as_raw().is_empty());
    let out = resize(&image, 0, 3);
    assert_eq!((out.width(), out.height()), (0, 3));
}

#[test]
fn resize_limits() {
    assert_eq!(MAX_SIDE, 8_388_607);
    assert!(check_resize(4000, 3000, 1015, 761));
    assert!(check_resize(1_500_000, 100, 28_200, 2));
    assert!(check_resize(2_000_000, 1, 1015, 0));
    assert!(check_resize(MAX_SIDE, 1, 1, 1));
    assert!(!check_resize(MAX_SIDE + 1, 1, 1, 1));
    assert!(!check_resize(1, MAX_SIDE + 1, 1, 1));
    assert!(!check_resize(1, 1, MAX_SIDE + 1, 1));
    assert!(!check_resize(1, 1, 1, MAX_SIDE + 1));
    assert!(check_resize(0, 0, 0, 0));
    // Sixteen bytes for each pixel of width by new height must be allocatable.
    assert_eq!(
        check_resize(MAX_SIDE, 1, 1, MAX_SIDE),
        16 * (MAX_SIDE as u128) * (MAX_SIDE as u128) <= isize::MAX as u128
    );
}

fn all_are(image: &Raster, pixel: [u8; 4]) -> bool {
    image.as_raw().chunks(4).all(|px| px == pixel)
}

fn all_near(image: &Raster, pixel: [u8; 4]) -> bool {
    image
        .as_raw()
        .chunks(4)
        .all(|px| px.iter().zip(pixel.iter()).all(|(a, b)| (*a as i32 - *b as i32).abs() <= 8))
}

#[test]
fn resize_to_the_longest_row() {
    let dot = flat(1, 1, [9, 8, 7, 255]);
    let line = resize(&dot, MAX_SIDE, 1);
    assert_eq!((line.width(), line.height()), (MAX_SIDE, 1));
    assert!(all_are(&line, [9, 8, 7, 255]));
    // Millions of weights are summed in single precision on the way back.
    let back = resize(&line, 1, 1);
    assert_eq!((back.width(), back.height()), (1, 1));
    assert!(all_near(&back, [9, 8, 7, 255]));
}

#[test]
fn resize_between_the_longest_rows() {
    let line = flat(MAX_SIDE, 1, [9, 8, 7, 255]);
    assert!(all_are(&resize(&line, MAX_SIDE - 1, 1), [9, 8, 7, 255]));
    assert!(all_near(&resize(&line, 3, 1), [9, 8, 7, 255]));
    let shorter = flat(MAX_SIDE - 1, 1, [9, 8, 7, 255]);
    assert!(all_are(&resize(&shorter, MAX_SIDE, 1), [9, 8, 7, 255]));
}

#[test]
fn resize_doubles_a_long_row() {
    // The far edge is where the centre is least exact.
    let half = flat(1 << 22, 1, [1, 2, 3, 255]);
    let out = resize(&half, MAX_SIDE, 1);
    assert_eq!(out.width(), MAX_SIDE);
    assert!(all_are(&out, [1, 2, 3, 255]));
    let odd = flat((1 << 22) + 1, 1, [1, 2, 3, 255]);
    assert!(all_are(&resize(&odd, MAX_SIDE - 2, 1), [1, 2, 3, 255]));
}

#[test]
fn resize_to_the_longest_column() {
    let dot = flat(1, 1, [9, 8, 7, 255]);
    let column = resize(&dot, 1, MAX_SIDE);
    assert_eq!((column.width(), column.height()), (1, MAX_SIDE));
    assert!(all_are(&column, [9, 8, 7, 255]));
    assert!(all_are(&resize(&column, 1, MAX_SIDE - 7), [9, 8, 7, 255]));
    let three = resize(&flat(3, 1, [1, 1, 1, 255]), 1_000_000, 1);
    assert!(all_are(&three, [1, 1, 1, 255]));
}

#[test]
fn decoding_is_repeatable() {
    let jpeg = encode(&gradient(48, 40), Format::Jpeg, 85).unwrap();
    let first = decode(&jpeg, Format::Jpeg).unwrap();
    let second = decode(&jpeg, Format::Jpeg).unwrap();
    assert_eq!((first.width(), first.height()), (48, 40));
    assert_eq!(first.as_raw(), second.as_raw());
    let png = encode(&gradient(48, 40), Format::Png, 85).unwrap();
    assert_eq!(
        decode(&png, Format::Png).unwrap().as_raw(),
        decode(&png, Format::Png).unwrap().as_raw()
    );
}

#[test]
fn truncated_files_are_refused() {
    let png = encode(&gradient(20, 20), Format::Png, 100).unwrap();
    let jpeg = encode(&gradient(20, 20), Format::Jpeg, 100).unwrap();
    for cut in [1usize, 8, 20, 40] {
        assert_eq!(decode(&png[..cut], Format::Png).err(), Some(ErrorKind::DecodeError));
        assert_eq!(decode(&jpeg[..cut], Format::Jpeg).err(), Some(ErrorKind::DecodeError));
    }
    assert_eq!(decode(&png[..png.len() / 2], Format::Png).err(), Some(ErrorKind::DecodeError));
}
