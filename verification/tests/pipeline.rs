use image::ImageEncoder;
use white_border_adder::codec::{decode, Format};
use white_border_adder::config::{BorderRatio, Config};
use white_border_adder::error::ErrorKind;
use white_border_adder::naming::ImageTask;
use white_border_adder::pipeline::{process_image, render};
use white_border_adder::raster::Raster;

fn flat(width: u32, height: u32, pixel: [u8; 4]) -> Vec<u8> {
    let mut data = Vec::new();
    for _ in 0..width * height {
        data.extend_from_slice(&pixel);
    }
    data
}

fn png_file(width: u32, height: u32, pixel: [u8; 4]) -> Vec<u8> {
    let mut file = Vec::new();
    image::codecs::png::PngEncoder::new(&mut file)
        .write_image(&flat(width, height, pixel), width, height, image::ExtendedColorType::Rgba8)
        .unwrap();
    file
}

fn jpeg_file(width: u32, height: u32, pixel: [u8; 3]) -> Vec<u8> {
    let mut data = Vec::new();
    for _ in 0..width * height {
        data.extend_from_slice(&pixel);
    }
    let mut file = Vec::new();
    image::codecs::jpeg::JpegEncoder::new_with_quality(&mut file, 100)
        .encode(&data, width, height, image::ExtendedColorType::Rgb8)
        .unwrap();
    file
}

#[test]
fn png_source_gives_png_canvas() {
    let config = Config::default();
    let source = png_file(200, 100, [10, 20, 30, 255]);
    let task = ImageTask::new("photo.png", "bordered_");
    assert_eq!(task.output_name, "bordered_photo.png");
    let out = process_image(&source, &task, &config).unwrap();
    assert_eq!(&out[..8], &[0x89, b'P', b'N', b'G', 0x0d, 0x0a, 0x1a, 0x0a]);
    let canvas = decode(&out, Format::Png).unwrap();
    assert_eq!(canvas.width(), 1080);
    assert_eq!(canvas.height(), 1080);
    let raw = canvas.as_raw();
    // 200 x 100 is enlarged to 1015 x 508 and placed at (32, 286).
    let at = |x: usize, y: usize| &raw[4 * (y * 1080 + x)..4 * (y * 1080 + x) + 4];
    assert_eq!(at(0, 0), &[255, 255, 255, 255]);
    assert_eq!(at(31, 300), &[255, 255, 255, 255]);
    assert_eq!(at(32, 286), &[10, 20, 30, 255]);
    assert_eq!(at(540, 540), &[10, 20, 30, 255]);
    assert_eq!(at(1046, 793), &[10, 20, 30, 255]);
    assert_eq!(at(1047, 793), &[255, 255, 255, 255]);
    assert_eq!(at(1046, 794), &[255, 255, 255, 255]);
    assert_eq!(at(540, 285), &[255, 255, 255, 255]);
}

#[test]
fn jpeg_source_gives_jpeg_canvas() {
    let config = Config::default();
    let source = jpeg_file(80, 120, [250, 10, 10]);
    let task = ImageTask::new("photo.JPG", "bordered_");
    let out = process_image(&source, &task, &config).unwrap();
    assert_eq!(&out[..2], &[0xff, 0xd8]);
    let canvas = decode(&out, Format::Jpeg).unwrap();
    assert_eq!((canvas.width(), canvas.height()), (1080, 1080));
    let raw = canvas.as_raw();
    let at = |x: usize, y: usize| &raw[4 * (y * 1080 + x)..4 * (y * 1080 + x) + 4];
    // 80 x 120 is portrait: 691 x 1037 at (194, 21).
    assert!(at(10, 10).iter().all(|&v| v >= 250));
    assert!(at(1070, 1070).iter().all(|&v| v >= 250));
    let centre = at(540, 540);
    assert!(centre[0] > 240 && centre[1] < 20 && centre[2] < 20);
}

#[test]
fn canvas_of_a_rendered_image() {
    let mut config = Config::default();
    config.target_width = 20;
    config.target_height = 10;
    config.landscape_vert_ratio = BorderRatio::from_ppm(100_000);
    config.landscape_horiz_ratio = BorderRatio::from_ppm(250_000);
    let source = Raster::from_raw(4, 2, flat(4, 2, [0, 0, 0, 255])).unwrap();
    // Interior 10 x 8: scale 2.5, image 10 x 5 at (5, 2).
    let out = render(&source, Format::Png, &config).unwrap();
    let canvas = decode(&out, Format::Png).unwrap();
    let raw = canvas.as_raw();
    for y in 0..10usize {
        for x in 0..20usize {
            let px = &raw[4 * (y * 20 + x)..4 * (y * 20 + x) + 4];
            if (5..15).contains(&x) && (2..7).contains(&y) {
                assert_eq!(px, &[0, 0, 0, 255]);
            } else {
                assert_eq!(px, &[255, 255, 255, 255]);
            }
        }
    }
}

#[test]
fn corrupt_source_is_decode_error() {
    let config = Config::default();
    let task = ImageTask::new("broken.png", "bordered_");
    assert_eq!(process_image(b"not an image", &task, &config), Err(ErrorKind::DecodeError));
}

#[test]
fn unsupported_name_is_decode_error() {
    let config = Config::default();
    let source = png_file(4, 4, [1, 2, 3, 255]);
    let task = ImageTask::new("image.gif", "bordered_");
    assert_eq!(process_image(&source, &task, &config), Err(ErrorKind::DecodeError));
}

#[test]
fn name_decides_the_decoder() {
    let config = Config::default();
    let source = png_file(4, 4, [1, 2, 3, 255]);
    let task = ImageTask::new("really_a_png.jpg", "bordered_");
    assert_eq!(process_image(&source, &task, &config), Err(ErrorKind::DecodeError));
}

#[test]
fn rendering_an_empty_source_is_invalid_dimensions() {
    let config = Config::default();
    let source = Raster::from_raw(0, 0, vec![]).unwrap();
    assert_eq!(render(&source, Format::Png, &config), Err(ErrorKind::InvalidDimensions));
    let flat_source = Raster::from_raw(5, 0, vec![]).unwrap();
    assert_eq!(render(&flat_source, Format::Jpeg, &config), Err(ErrorKind::InvalidDimensions));
}

#[test]
fn processing_without_interior_is_invalid_config() {
    let mut config = Config::default();
    config.portrait_horiz_ratio = BorderRatio::from_ppm(500_000);
    let source = png_file(4, 4, [1, 2, 3, 255]);
    let task = ImageTask::new("a.png", "bordered_");
    assert_eq!(process_image(&source, &task, &config), Err(ErrorKind::InvalidConfig));
}

#[test]
fn canvas_beyond_the_machine_is_too_large() {
    let mut config = Config::default();
    config.target_width = u32::MAX;
    config.target_height = u32::MAX;
    let source = Raster::from_raw(2, 2, flat(2, 2, [1, 2, 3, 255])).unwrap();
    assert_eq!(render(&source, Format::Png, &config), Err(ErrorKind::TooLarge));
}

#[test]
fn canvas_too_large_for_jpeg_is_encode_error() {
    let mut config = Config::default();
    config.target_width = 70_000;
    config.target_height = 1;
    let source = Raster::from_raw(2, 2, flat(2, 2, [1, 2, 3, 255])).unwrap();
    assert_eq!(render(&source, Format::Jpeg, &config), Err(ErrorKind::EncodeError));
    assert!(render(&source, Format::Png, &config).is_ok());
}

#[test]
fn error_messages() {
    assert_eq!(ErrorKind::DecodeError.message(), "the source could not be decoded");
    assert_eq!(ErrorKind::InvalidDimensions.message(), "the source has no pixels");
    assert_eq!(ErrorKind::InvalidConfig.message(), "the borders leave no interior");
    assert_eq!(
        ErrorKind::CompositionError.message(),
        "the scaled image does not fit the canvas"
    );
    assert_eq!(ErrorKind::EncodeError.message(), "the output could not be encoded or written");
    assert_eq!(ErrorKind::TooLarge.message(), "the image is too large to process");
}

#[test]
fn source_scaled_to_nothing_leaves_the_canvas_white() {
    let mut config = Config::default();
    config.target_width = 64;
    config.target_height = 48;
    let source = Raster::from_raw(100_000, 1, flat(100_000, 1, [0, 0, 0, 255])).unwrap();
    let out = render(&source, Format::Png, &config).unwrap();
    let canvas = decode(&out, Format::Png).unwrap();
    assert_eq!((canvas.width(), canvas.height()), (64, 48));
    assert!(canvas.as_raw().iter().all(|&v| v == 255));
}

#[test]
fn rendering_is_repeatable() {
    let config = Config::default();
    let source = Raster::from_raw(3, 5, flat(3, 5, [5, 6, 7, 255])).unwrap();
    assert_eq!(render(&source, Format::Jpeg, &config), render(&source, Format::Jpeg, &config));
    assert_eq!(render(&source, Format::Png, &config), render(&source, Format::Png, &config));
}

#[test]
fn quality_reaches_the_jpeg_encoder() {
    let mut config = Config::default();
    let mut data = Vec::new();
    for i in 0..32u32 * 32 {
        data.extend_from_slice(&[(i * 3 % 256) as u8, (i * 11 % 256) as u8, (i % 256) as u8, 255]);
    }
    let source = Raster::from_raw(32, 32, data).unwrap();
    let best = render(&source, Format::Jpeg, &config).unwrap();
    config.encode_quality = 20;
    let worse = render(&source, Format::Jpeg, &config).unwrap();
    assert!(worse.len() < best.len());
}

#[test]
fn processing_is_repeatable() {
    let config = Config::default();
    let source = jpeg_file(30, 20, [20, 120, 220]);
    let task = ImageTask::new("a.jpeg", "bordered_");
    let first = process_image(&source, &task, &config);
    assert!(first.is_ok());
    assert_eq!(first, process_image(&source, &task, &config));
}

#[test]
fn png_output_does_not_depend_on_quality() {
    let mut config = Config::default();
    let source = png_file(30, 20, [20, 120, 220, 128]);
    let task = ImageTask::new("a.PNG", "bordered_");
    let best = process_image(&source, &task, &config).unwrap();
    config.encode_quality = 1;
    assert_eq!(process_image(&source, &task, &config).unwrap(), best);
    // Alpha is kept.
    let canvas = decode(&best, Format::Png).unwrap();
    assert_eq!(&canvas.as_raw()[4 * (540 * 1080 + 540)..][..4], &[20, 120, 220, 128]);
}

#[test]
fn long_strip_is_processed() {
    // A source of a million and a half pixels in width, on a wide canvas.
    let mut config = Config::default();
    config.target_width = 80_000;
    config.target_height = 8;
    config.landscape_vert_ratio = BorderRatio::from_ppm(0);
    config.landscape_horiz_ratio = BorderRatio::from_ppm(0);
    let source = Raster::from_raw(1_500_000, 10, flat(1_500_000, 10, [0, 0, 0, 255])).unwrap();
    let out = render(&source, Format::Png, &config).unwrap();
    let canvas = decode(&out, Format::Png).unwrap();
    assert_eq!((canvas.width(), canvas.height()), (80_000, 8));
    // Scale 80000 / 1500000: the strip is 80000 x 1 (0.53 rounds to 1), at (0, 3).
    let raw = canvas.as_raw();
    let at = |x: usize, y: usize| &raw[4 * (y * 80_000 + x)..4 * (y * 80_000 + x) + 4];
    assert_eq!(at(0, 2), &[255, 255, 255, 255]);
    assert_eq!(at(0, 3), &[0, 0, 0, 255]);
    assert_eq!(at(79_999, 3), &[0, 0, 0, 255]);
    assert_eq!(at(40_000, 4), &[255, 255, 255, 255]);
}

#[test]
fn side_of_two_to_the_23_is_too_large() {
    let config = Config::default();
    let source = Raster::from_raw(1 << 23, 1, flat(1 << 23, 1, [0, 0, 0, 255])).unwrap();
    assert_eq!(render(&source, Format::Png, &config), Err(ErrorKind::TooLarge));
    let fits = Raster::from_raw((1 << 23) - 1, 1, flat((1 << 23) - 1, 1, [0, 0, 0, 255])).unwrap();
    assert!(render(&fits, Format::Png, &config).is_ok());
}
