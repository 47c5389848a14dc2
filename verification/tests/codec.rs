use image_filter::buffer::PixelBuffer;
use image_filter::codec::{decode_image, encode_image};
use image_filter::error::PipelineError;
use std::io::Cursor;

const PNG_SIGNATURE: [u8; 8] = [0x89, b'P', b'N', b'G', 0x0d, 0x0a, 0x1a, 0x0a];

fn file_of(picture: image::DynamicImage, format: image::ImageOutputFormat) -> Vec<u8> {
    let mut out = Cursor::new(Vec::new());
    picture.write_to(&mut out, format).unwrap();
    out.into_inner()
}

fn sample_rgba() -> Vec<u8> {
    vec![
        255, 0, 0, 255, 0, 255, 0, 128, 0, 0, 255, 0, //
        10, 20, 30, 40, 50, 60, 70, 80, 90, 100, 110, 120,
    ]
}

#[test]
fn decode_image_reads_an_rgba_png() {
    let picture = image::RgbaImage::from_raw(3, 2, sample_rgba()).unwrap();
    let file = file_of(image::DynamicImage::ImageRgba8(picture), image::ImageOutputFormat::Png);
    let buf = decode_image(&file).unwrap();
    assert_eq!(buf.width(), 3);
    assert_eq!(buf.height(), 2);
    assert_eq!(buf.data(), &sample_rgba()[..]);
}

#[test]
fn decode_image_makes_rgb_opaque() {
    let picture = image::RgbImage::from_raw(2, 1, vec![1, 2, 3, 4, 5, 6]).unwrap();
    let file = file_of(image::DynamicImage::ImageRgb8(picture), image::ImageOutputFormat::Png);
    let buf = decode_image(&file).unwrap();
    assert_eq!(buf.width(), 2);
    assert_eq!(buf.height(), 1);
    assert_eq!(buf.data(), &[1u8, 2, 3, 255, 4, 5, 6, 255][..]);
}

#[test]
fn decode_image_spreads_gray_over_the_colours() {
    let picture = image::GrayImage::from_raw(1, 2, vec![7, 200]).unwrap();
    let file = file_of(image::DynamicImage::ImageLuma8(picture), image::ImageOutputFormat::Png);
    let buf = decode_image(&file).unwrap();
    assert_eq!(buf.width(), 1);
    assert_eq!(buf.height(), 2);
    assert_eq!(buf.data(), &[7u8, 7, 7, 255, 200, 200, 200, 255][..]);
}

#[test]
fn decode_image_detects_other_formats() {
    let picture = image::RgbImage::from_raw(2, 2, vec![9, 8, 7, 6, 5, 4, 3, 2, 1, 0, 255, 254])
        .unwrap();
    let expected = [9u8, 8, 7, 255, 6, 5, 4, 255, 3, 2, 1, 255, 0, 255, 254, 255];
    let bmp = file_of(
        image::DynamicImage::ImageRgb8(picture.clone()),
        image::ImageOutputFormat::Bmp,
    );
    assert_eq!(decode_image(&bmp).unwrap().data(), &expected[..]);
    let tiff = file_of(
        image::DynamicImage::ImageRgb8(picture.clone()),
        image::ImageOutputFormat::Tiff,
    );
    assert_eq!(decode_image(&tiff).unwrap().data(), &expected[..]);
    let jpeg = file_of(
        image::DynamicImage::ImageRgb8(picture),
        image::ImageOutputFormat::Jpeg(90),
    );
    let buf = decode_image(&jpeg).unwrap();
    assert_eq!((buf.width(), buf.height()), (2, 2));
    assert_eq!(buf.data().len(), 16);
    assert_eq!(buf.data()[3], 255);
}

#[test]
fn decode_image_refuses_what_is_no_image() {
    assert_eq!(decode_image(b""), Err(PipelineError::ImageDecode));
    assert_eq!(decode_image(b"hello, world"), Err(PipelineError::ImageDecode));
    assert_eq!(decode_image(&[0u8; 64]), Err(PipelineError::ImageDecode));
}

#[test]
fn decode_image_refuses_a_truncated_file() {
    let picture = image::RgbaImage::from_raw(3, 2, sample_rgba()).unwrap();
    let file = file_of(image::DynamicImage::ImageRgba8(picture), image::ImageOutputFormat::Png);
    assert_eq!(decode_image(&file[..file.len() / 2]), Err(PipelineError::ImageDecode));
    assert_eq!(decode_image(&file[..8]), Err(PipelineError::ImageDecode));
}

#[test]
fn decode_image_refuses_a_corrupt_file() {
    let picture = image::RgbaImage::from_raw(3, 2, sample_rgba()).unwrap();
    let mut file =
        file_of(image::DynamicImage::ImageRgba8(picture), image::ImageOutputFormat::Png);
    // The checksum of the header chunk no longer matches.
    file[16] ^= 0xff;
    assert_eq!(decode_image(&file), Err(PipelineError::ImageDecode));
}

#[test]
fn encode_image_writes_a_png() {
    let buf = PixelBuffer::new(3, 2, sample_rgba()).unwrap();
    let file = encode_image(&buf).unwrap();
    assert_eq!(&file[..8], &PNG_SIGNATURE[..]);
    assert_eq!(image::guess_format(&file).unwrap(), image::ImageFormat::Png);
    let back = image::load_from_memory(&file).unwrap();
    assert_eq!(back.color(), image::ColorType::Rgba8);
    assert_eq!((back.width(), back.height()), (3, 2));
    assert_eq!(back.into_rgba8().into_raw(), sample_rgba());
}

#[test]
fn encode_image_is_deterministic() {
    let buf = PixelBuffer::new(3, 2, sample_rgba()).unwrap();
    assert_eq!(encode_image(&buf), encode_image(&buf.clone()));
}

#[test]
fn encode_image_writes_what_the_crate_writes() {
    let buf = PixelBuffer::new(3, 2, sample_rgba()).unwrap();
    let picture = image::RgbaImage::from_raw(3, 2, sample_rgba()).unwrap();
    let file = file_of(image::DynamicImage::ImageRgba8(picture), image::ImageOutputFormat::Png);
    assert_eq!(encode_image(&buf), Ok(file));
}

#[test]
fn decoding_an_encoded_buffer_gives_it_back() {
    for (width, height) in [(1u32, 1u32), (1, 7), (7, 1), (5, 4), (16, 16)] {
        let len = (width * height * 4) as usize;
        let data: Vec<u8> = (0..len).map(|i| (i * 37 % 256) as u8).collect();
        let buf = PixelBuffer::new(width, height, data).unwrap();
        let file = encode_image(&buf).unwrap();
        assert_eq!(decode_image(&file), Ok(buf));
    }
}

#[test]
fn decode_image_reads_a_jpeg() {
    let data: Vec<u8> = (0..4 * 4 * 3).map(|i| ((i * 29 + 7 * (i % 5)) % 256) as u8).collect();
    let picture = image::RgbImage::from_raw(4, 4, data).unwrap();
    let file = file_of(image::DynamicImage::ImageRgb8(picture), image::ImageOutputFormat::Jpeg(85));
    let buf = decode_image(&file).unwrap();
    assert_eq!((buf.width(), buf.height()), (4, 4));
    let expected = [
        1u8, 30, 46, 255, 110, 149, 164, 255, 175, 203, 255, 255, 22, 50, 51, 255, //
        119, 152, 171, 255, 167, 198, 252, 255, 32, 82, 31, 255, 116, 142, 191, 255, //
        184, 217, 252, 255, 35, 59, 129, 255, 112, 137, 203, 255, 198, 240, 230, 255, //
        44, 71, 124, 255, 110, 129, 143, 255, 190, 255, 0, 255, 22, 52, 112, 255,
    ];
    assert_eq!(buf.data(), &expected[..]);
}
