//! End-to-end tests of the PNG adapter: header inspection, the decode
//! state machine, error translation, and the canonical image value.

use png_adapter::color::{BitDepth, Colorspace, ImageFormat};
use png_adapter::errors::DecodeError;
use png_adapter::image::PixelBuffer;
use png_adapter::metadata::ExifTag;
use png_adapter::png::PngAdapter;
use png_adapter::traits::DecoderContract;

use zune_core::bit_depth::BitDepth as ZDepth;
use zune_core::colorspace::ColorSpace as ZColorSpace;
use zune_core::options::EncoderOptions;
use zune_png::PngEncoder;

fn encode_png(
    data: &[u8],
    width: usize,
    height: usize,
    colorspace: ZColorSpace,
    depth: ZDepth,
    exif: Option<&[u8]>,
) -> Vec<u8> {
    let options = EncoderOptions::new(width, height, colorspace, depth);
    let mut encoder = PngEncoder::new(data, options);
    if let Some(block) = exif {
        encoder.add_exif_segment(block);
    }
    let mut sink: Vec<u8> = Vec::new();
    encoder.encode(&mut sink).unwrap();
    sink
}

/// Insert a `gAMA` chunk right after the IHDR chunk of an encoded PNG.
/// Checksum verification is off by default in the codec, so the spliced
/// chunk carries a zero checksum word.
fn splice_gamma(png: &[u8], stored: u32) -> Vec<u8> {
    let ihdr_end = 8 + 4 + 4 + 13 + 4;
    let mut out: Vec<u8> = Vec::new();
    out.extend_from_slice(&png[..ihdr_end]);
    out.extend_from_slice(&4u32.to_be_bytes());
    out.extend_from_slice(b"gAMA");
    out.extend_from_slice(&stored.to_be_bytes());
    out.extend_from_slice(&[0, 0, 0, 0]);
    out.extend_from_slice(&png[ihdr_end..]);
    out
}

#[test]
fn eight_bit_luma_end_to_end() {
    let png = encode_png(&[255; 4], 2, 2, ZColorSpace::Luma, ZDepth::Eight, None);
    let mut decoder = PngAdapter::new(png);
    let image = decoder.decode().unwrap();
    assert_eq!(image.width, 2);
    assert_eq!(image.height, 2);
    assert_eq!(image.colorspace, Colorspace::Luma);
    assert_eq!(image.depth, BitDepth::Eight);
    match &image.pixels {
        PixelBuffer::EightBit(samples) => assert_eq!(samples, &vec![255u8; 4]),
        PixelBuffer::SixteenBit(_) => panic!("wrong buffer variant"),
    }
    assert_eq!(image.metadata.depth, BitDepth::Eight);
    assert_eq!(image.metadata.width, 2);
    assert_eq!(image.metadata.height, 2);
    assert_eq!(image.metadata.colorspace, Colorspace::Luma);
    assert_eq!(image.metadata.format, Some(ImageFormat::Png));
}

#[test]
fn sixteen_bit_luma_end_to_end() {
    let png = encode_png(&[0xff; 8], 2, 2, ZColorSpace::Luma, ZDepth::Sixteen, None);
    let mut decoder = PngAdapter::new(png);
    let image = decoder.decode().unwrap();
    assert_eq!(image.depth, BitDepth::Sixteen);
    assert_eq!(image.metadata.depth, BitDepth::Sixteen);
    match &image.pixels {
        PixelBuffer::SixteenBit(samples) => assert_eq!(samples, &vec![65535u16; 4]),
        PixelBuffer::EightBit(_) => panic!("wrong buffer variant"),
    }
}

#[test]
fn rgb_pixels_are_deinterleaved() {
    let png = encode_png(
        &[10, 20, 30, 40, 50, 60],
        2,
        1,
        ZColorSpace::RGB,
        ZDepth::Eight,
        None,
    );
    let mut decoder = PngAdapter::new(png);
    let image = decoder.decode().unwrap();
    assert_eq!(image.colorspace, Colorspace::Rgb);
    match &image.pixels {
        PixelBuffer::EightBit(samples) => {
            assert_eq!(samples, &vec![10, 40, 20, 50, 30, 60]);
        }
        PixelBuffer::SixteenBit(_) => panic!("wrong buffer variant"),
    }
}

#[test]
fn dimensions_match_the_record() {
    let png = encode_png(&[1, 2, 3, 4, 5, 6], 3, 2, ZColorSpace::Luma, ZDepth::Eight, None);
    let mut decoder = PngAdapter::new(png);
    assert!(decoder.get_dimensions().is_none());
    let record = decoder.read_headers().unwrap().unwrap();
    assert_eq!(decoder.get_dimensions(), Some((record.width, record.height)));
    assert_eq!(decoder.get_dimensions(), Some((3, 2)));
    assert_eq!(decoder.get_out_colorspace(), record.colorspace);
}

#[test]
fn read_headers_is_idempotent() {
    let png = encode_png(&[7; 6], 3, 2, ZColorSpace::Luma, ZDepth::Eight, None);
    let mut decoder = PngAdapter::new(png);
    let first = decoder.read_headers().unwrap().unwrap();
    let second = decoder.read_headers().unwrap().unwrap();
    assert_eq!(first.width, second.width);
    assert_eq!(first.height, second.height);
    assert_eq!(first.colorspace, second.colorspace);
    assert_eq!(first.depth, second.depth);
    assert_eq!(first.default_gamma, second.default_gamma);
    assert_eq!(first.format, second.format);
    assert_eq!(first.exif, second.exif);
    assert_eq!(decoder.get_dimensions(), Some((3, 2)));
}

#[test]
fn decode_without_read_headers_attaches_the_record() {
    let png = encode_png(&[0; 4], 2, 2, ZColorSpace::Luma, ZDepth::Eight, None);
    let mut decoder = PngAdapter::new(png);
    let image = decoder.decode().unwrap();
    assert_eq!(image.metadata.format, Some(ImageFormat::Png));
    assert_eq!(decoder.get_dimensions(), Some((2, 2)));
}

#[test]
fn second_decode_is_refused() {
    let png = encode_png(&[0; 4], 2, 2, ZColorSpace::Luma, ZDepth::Eight, None);
    let mut decoder = PngAdapter::new(png);
    decoder.decode().unwrap();
    match decoder.decode() {
        Err(DecodeError::AlreadyDecoded) => {}
        _ => panic!("a second decode must be refused"),
    }
}

#[test]
fn truncated_input_fails_with_truncated() {
    let png = encode_png(&[9; 4], 2, 2, ZColorSpace::Luma, ZDepth::Eight, None);
    let cut = png[..12].to_vec();
    let mut decoder = PngAdapter::new(cut);
    match decoder.read_headers() {
        Err(DecodeError::Truncated(message)) => {
            assert!(message.starts_with("png: "));
        }
        _ => panic!("a cut header must fail as truncated"),
    }
    assert!(decoder.get_dimensions().is_none());
}

#[test]
fn truncated_signature_fails_with_truncated() {
    let mut decoder = PngAdapter::new(vec![137, 80, 78]);
    assert!(matches!(
        decoder.read_headers(),
        Err(DecodeError::Truncated(_))
    ));
}

#[test]
fn wrong_signature_fails_with_malformed() {
    let mut decoder = PngAdapter::new(vec![0; 64]);
    match decoder.read_headers() {
        Err(DecodeError::Malformed(message)) => {
            assert!(message.starts_with("png: "));
        }
        _ => panic!("a wrong signature must fail as malformed"),
    }
}

#[test]
fn decode_after_failed_headers_fails() {
    let mut decoder = PngAdapter::new(vec![0; 64]);
    assert!(decoder.decode().is_err());
}

#[test]
fn corrupt_auxiliary_block_does_not_fail_header_read() {
    // The block passes the codec's four-byte magic check but its first
    // directory lies far past the end, so the auxiliary parse fails.
    let corrupt = [0x49, 0x49, 0x2a, 0x00, 0xff, 0xff, 0xff, 0xff];
    let png = encode_png(
        &[5; 4],
        2,
        2,
        ZColorSpace::Luma,
        ZDepth::Eight,
        Some(&corrupt),
    );
    let mut decoder = PngAdapter::new(png);
    let record = decoder.read_headers().unwrap().unwrap();
    assert!(record.exif.is_none());
    assert_eq!(record.width, 2);
    assert_eq!(record.height, 2);
}

#[test]
fn valid_auxiliary_block_is_parsed() {
    let mut block: Vec<u8> = vec![0x49, 0x49, 0x2a, 0x00, 8, 0, 0, 0];
    block.extend_from_slice(&[1, 0]);
    block.extend_from_slice(&[0x10, 0x01, 0x02, 0x00, 4, 0, 0, 0, 0x64, 0, 0, 0]);
    let png = encode_png(
        &[5; 4],
        2,
        2,
        ZColorSpace::Luma,
        ZDepth::Eight,
        Some(&block),
    );
    let mut decoder = PngAdapter::new(png);
    let record = decoder.read_headers().unwrap().unwrap();
    assert_eq!(
        record.exif,
        Some(vec![ExifTag { tag: 0x0110, kind: 2, count: 4, value: 0x64 }])
    );
}

#[test]
fn auxiliary_parsing_can_be_disabled() {
    let mut block: Vec<u8> = vec![0x49, 0x49, 0x2a, 0x00, 8, 0, 0, 0];
    block.extend_from_slice(&[1, 0]);
    block.extend_from_slice(&[0x10, 0x01, 0x02, 0x00, 4, 0, 0, 0, 0x64, 0, 0, 0]);
    let png = encode_png(
        &[5; 4],
        2,
        2,
        ZColorSpace::Luma,
        ZDepth::Eight,
        Some(&block),
    );
    let mut decoder = PngAdapter::new_with_options(png, false);
    let record = decoder.read_headers().unwrap().unwrap();
    assert!(record.exif.is_none());
    assert_eq!(record.width, 2);
    assert_eq!(record.height, 2);
}

#[test]
fn gamma_declaration_reaches_the_record() {
    let png = encode_png(&[5; 4], 2, 2, ZColorSpace::Luma, ZDepth::Eight, None);
    let with_gamma = splice_gamma(&png, 45455);
    let mut decoder = PngAdapter::new(with_gamma);
    let record = decoder.read_headers().unwrap().unwrap();
    assert_eq!(record.default_gamma, Some(45455));

    let mut plain = PngAdapter::new(png);
    let record = plain.read_headers().unwrap().unwrap();
    assert_eq!(record.default_gamma, None);
}

#[test]
fn stored_zero_gamma_falls_back_to_the_default() {
    let png = encode_png(&[5; 4], 2, 2, ZColorSpace::Luma, ZDepth::Eight, None);
    let with_gamma = splice_gamma(&png, 0);
    let mut decoder = PngAdapter::new(with_gamma);
    let record = decoder.read_headers().unwrap().unwrap();
    assert_eq!(record.default_gamma, Some(45455));
}

/// Flip every payload byte of the first IDAT chunk, leaving the header
/// chunks intact.
fn corrupt_idat(png: &[u8]) -> Vec<u8> {
    let mut out = png.to_vec();
    let mut pos = 8usize;
    while pos + 8 <= out.len() {
        let len = u32::from_be_bytes([out[pos], out[pos + 1], out[pos + 2], out[pos + 3]]) as usize;
        if &out[pos + 4..pos + 8] == b"IDAT" {
            for b in &mut out[pos + 8..pos + 8 + len] {
                *b ^= 0xff;
            }
            return out;
        }
        pos += 12 + len;
    }
    panic!("no IDAT chunk found");
}

#[test]
fn corrupt_sample_data_fails_as_pixel_reconstruction() {
    let png = encode_png(&[9; 16], 4, 4, ZColorSpace::Luma, ZDepth::Eight, None);
    let mut decoder = PngAdapter::new(corrupt_idat(&png));
    // The header chunks are untouched, so inspection succeeds.
    let record = decoder.read_headers().unwrap().unwrap();
    assert_eq!(record.width, 4);
    match decoder.decode() {
        Err(DecodeError::PixelReconstruction(message)) => {
            assert!(message.starts_with("png: "));
        }
        _ => panic!("corrupt sample data must fail during pixel reconstruction"),
    }
}

#[test]
fn empty_input_fails_with_truncated() {
    let mut decoder = PngAdapter::new(Vec::new());
    assert!(matches!(
        decoder.read_headers(),
        Err(DecodeError::Truncated(_))
    ));
    assert!(decoder.get_dimensions().is_none());
}

fn record_fields(
    r: &png_adapter::metadata::MetadataRecord,
) -> (Option<ImageFormat>, Colorspace, BitDepth, usize, usize, Option<u32>) {
    (r.format, r.colorspace, r.depth, r.width, r.height, r.default_gamma)
}

#[test]
fn equal_inputs_decode_equally() {
    let png = encode_png(&[3, 1, 4, 1, 5, 9], 3, 2, ZColorSpace::Luma, ZDepth::Eight, None);
    let mut first = PngAdapter::new(png.clone());
    let mut second = PngAdapter::new(png);
    let a = first.decode().unwrap();
    let b = second.decode().unwrap();
    match (&a.pixels, &b.pixels) {
        (PixelBuffer::EightBit(x), PixelBuffer::EightBit(y)) => assert_eq!(x, y),
        _ => panic!("buffer variants differ"),
    }
    assert_eq!(record_fields(&a.metadata), record_fields(&b.metadata));
    assert_eq!(a.metadata.exif, b.metadata.exif);

    let mut bad_one = PngAdapter::new(vec![0; 64]);
    let mut bad_two = PngAdapter::new(vec![0; 64]);
    match (bad_one.read_headers(), bad_two.read_headers()) {
        (Err(DecodeError::Malformed(x)), Err(DecodeError::Malformed(y))) => assert_eq!(x, y),
        _ => panic!("wrong signatures must fail equally"),
    }
}

#[test]
fn repeated_header_failure_is_stable() {
    let mut decoder = PngAdapter::new(vec![0; 64]);
    let first = match decoder.read_headers() {
        Err(DecodeError::Malformed(m)) => m,
        _ => panic!("expected a malformed failure"),
    };
    let second = match decoder.read_headers() {
        Err(DecodeError::Malformed(m)) => m,
        _ => panic!("expected the same malformed failure"),
    };
    assert_eq!(first, second);
}

#[test]
fn name_is_fixed() {
    let decoder = PngAdapter::new(Vec::new());
    assert_eq!(decoder.get_name(), "PNG Decoder");
}
