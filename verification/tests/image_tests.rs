//! Tests of the canonical image constructors and the error domain.

use png_adapter::color::{channel_count, BitDepth, Colorspace};
use png_adapter::errors::{classify_header_failure, DecodeError};
use png_adapter::image::{CanonicalImage, PixelBuffer};

#[test]
fn channel_counts() {
    assert_eq!(channel_count(Colorspace::Luma), 1);
    assert_eq!(channel_count(Colorspace::LumaA), 2);
    assert_eq!(channel_count(Colorspace::Rgb), 3);
    assert_eq!(channel_count(Colorspace::Rgba), 4);
}

#[test]
fn from_eight_bit_sets_depth_and_planar_data() {
    let samples: Vec<u8> = vec![1, 2, 3, 4, 5, 6];
    let image = CanonicalImage::from_eight_bit(&samples, 1, 2, Colorspace::Rgb);
    assert_eq!(image.depth, BitDepth::Eight);
    assert_eq!(image.metadata.depth, BitDepth::Eight);
    assert_eq!(image.metadata.width, 1);
    assert_eq!(image.metadata.height, 2);
    match &image.pixels {
        PixelBuffer::EightBit(planar) => assert_eq!(planar, &vec![1, 4, 2, 5, 3, 6]),
        PixelBuffer::SixteenBit(_) => panic!("wrong buffer variant"),
    }
}

#[test]
fn from_sixteen_bit_sets_depth_and_planar_data() {
    let samples: Vec<u16> = vec![1000, 2000, 3000, 4000];
    let image = CanonicalImage::from_sixteen_bit(&samples, 2, 1, Colorspace::LumaA);
    assert_eq!(image.depth, BitDepth::Sixteen);
    assert_eq!(image.metadata.depth, BitDepth::Sixteen);
    match &image.pixels {
        PixelBuffer::SixteenBit(planar) => {
            assert_eq!(planar, &vec![1000, 3000, 2000, 4000]);
        }
        PixelBuffer::EightBit(_) => panic!("wrong buffer variant"),
    }
}

#[test]
fn header_failure_kinds() {
    match classify_header_failure(true, "png: out of data".to_string()) {
        DecodeError::Truncated(message) => assert_eq!(message, "png: out of data"),
        _ => panic!("an exhausted input must classify as truncated"),
    }
    match classify_header_failure(false, "png: bad chunk".to_string()) {
        DecodeError::Malformed(message) => assert_eq!(message, "png: bad chunk"),
        _ => panic!("any other failure must classify as malformed"),
    }
}
