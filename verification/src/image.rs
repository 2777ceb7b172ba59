//! The canonical image value: one tagged pixel buffer in planar order,
//! dimensions, colorspace and bit depth, and the attached metadata
//! record, kept consistent with each other at all times.

use vstd::prelude::*;
use crate::color::{BitDepth, Colorspace, spec_channel_count, channel_count};
use crate::deinterleave::{deinterleaved, deinterleave_samples};
use crate::metadata::{MetadataRecord, MetaView};

verus! {

/// The tagged union over the supported fixed-width sample types.
///
/// Exactly one variant is active; the set of arms is closed on purpose,
/// so that adding a sample width forces every consumer switch to be
/// revisited.
pub enum PixelBuffer {
    /// Eight-bit samples.
    EightBit(Vec<u8>),
    /// Sixteen-bit samples.
    SixteenBit(Vec<u16>),
}

/// The mathematical value of a pixel buffer: the sample values as a
/// sequence, tagged by the active width.
pub ghost enum PixelsView {
    EightBit(Seq<u8>),
    SixteenBit(Seq<u16>),
}

/// What a codec's full decode yields, mathematically: a tagged sample
/// sequence, a representation outside the supported widths, or a failure
/// carrying the rendered diagnostic.
pub ghost enum DecodeOutcome {
    Samples(PixelsView),
    UnsupportedWidth,
    Failed(Seq<char>),
}

impl View for PixelBuffer {
    type V = PixelsView;

    open spec fn view(&self) -> PixelsView {
        match self {
            PixelBuffer::EightBit(v) => PixelsView::EightBit(v@),
            PixelBuffer::SixteenBit(v) => PixelsView::SixteenBit(v@),
        }
    }
}

/// Whether a tagged sample sequence agrees with a metadata record: the
/// depth the tag implies is the record's, and there is exactly one
/// sample per channel per pixel.
pub open spec fn samples_consistent(pv: PixelsView, m: MetaView) -> bool {
    match pv {
        PixelsView::EightBit(s) => m.depth == BitDepth::Eight && s.len() == m.width * m.height
            * spec_channel_count(m.colorspace),
        PixelsView::SixteenBit(s) => m.depth == BitDepth::Sixteen && s.len() == m.width * m.height
            * spec_channel_count(m.colorspace),
    }
}

/// The planar reordering of a tagged sample sequence, per arm.
pub open spec fn deinterleaved_view(pv: PixelsView, ch: int) -> PixelsView {
    match pv {
        PixelsView::EightBit(s) => PixelsView::EightBit(deinterleaved(s, ch)),
        PixelsView::SixteenBit(s) => PixelsView::SixteenBit(deinterleaved(s, ch)),
    }
}

impl PixelBuffer {
    /// How many samples the active variant holds.
    pub open spec fn sample_count(&self) -> nat {
        match self {
            PixelBuffer::EightBit(v) => v@.len(),
            PixelBuffer::SixteenBit(v) => v@.len(),
        }
    }

    /// The bit depth the active variant implies.
    pub open spec fn depth(&self) -> BitDepth {
        match self {
            PixelBuffer::EightBit(_) => BitDepth::Eight,
            PixelBuffer::SixteenBit(_) => BitDepth::Sixteen,
        }
    }
}

/// The normalized in-memory image every codec's output is brought into.
pub struct CanonicalImage {
    /// Pixel data in planar order, one buffer variant active.
    pub pixels: PixelBuffer,
    /// Image width in pixels.
    pub width: usize,
    /// Image height in pixels.
    pub height: usize,
    /// Colorspace of the pixel data.
    pub colorspace: Colorspace,
    /// Bits per sample per channel; always the depth the buffer variant
    /// implies.
    pub depth: BitDepth,
    /// The metadata record attached to the image.
    pub metadata: MetadataRecord,
}

impl CanonicalImage {
    /// The consistency every canonical image maintains: the buffer's
    /// depth and sample count agree with the declared geometry, and the
    /// attached record agrees with the image on width, height, colorspace
    /// and depth.
    pub open spec fn wf(&self) -> bool {
        &&& self.pixels.depth() == self.depth
        &&& self.pixels.sample_count() == self.width * self.height * spec_channel_count(
            self.colorspace,
        )
        &&& self.metadata.width == self.width
        &&& self.metadata.height == self.height
        &&& self.metadata.colorspace == self.colorspace
        &&& self.metadata.depth == self.depth
    }

    /// Build a canonical image from interleaved eight-bit samples.
    ///
    /// The sample count must be exactly one sample per channel per pixel;
    /// the bit depth is implied by this constructor and never supplied
    /// separately. The attached record is derived from the same
    /// arguments, so the image starts out consistent.
    pub fn from_eight_bit(
        samples: &Vec<u8>,
        width: usize,
        height: usize,
        colorspace: Colorspace,
    ) -> (r: CanonicalImage)
        requires
            samples@.len() == width * height * spec_channel_count(colorspace),
        ensures
            r.wf(),
            r.width == width,
            r.height == height,
            r.colorspace == colorspace,
            r.depth == BitDepth::Eight,
            (r.pixels matches PixelBuffer::EightBit(p) && p@ == deinterleaved(
                samples@,
                spec_channel_count(colorspace) as int,
            )),
            r.metadata@ == (MetaView {
                format: None,
                colorspace,
                depth: BitDepth::Eight,
                width,
                height,
                default_gamma: None,
                exif: None,
            }),
    {
        let ch = channel_count(colorspace);
        proof {
            assert(samples@.len() as int % (ch as int) == 0) by (nonlinear_arith)
                requires
                    samples@.len() == width * height * ch,
                    0 < ch,
            ;
        }
        let planar = match deinterleave_samples(samples, ch) {
            Some(p) => p,
            None => vstd::pervasive::unreached(),
        };
        let metadata = MetadataRecord {
            format: None,
            colorspace,
            depth: BitDepth::Eight,
            width,
            height,
            default_gamma: None,
            exif: None,
        };
        CanonicalImage {
            pixels: PixelBuffer::EightBit(planar),
            width,
            height,
            colorspace,
            depth: BitDepth::Eight,
            metadata,
        }
    }

    /// Build a canonical image from interleaved sixteen-bit samples; the
    /// exact counterpart of [`Self::from_eight_bit`] for the other
    /// supported sample width.
    pub fn from_sixteen_bit(
        samples: &Vec<u16>,
        width: usize,
        height: usize,
        colorspace: Colorspace,
    ) -> (r: CanonicalImage)
        requires
            samples@.len() == width * height * spec_channel_count(colorspace),
        ensures
            r.wf(),
            r.width == width,
            r.height == height,
            r.colorspace == colorspace,
            r.depth == BitDepth::Sixteen,
            (r.pixels matches PixelBuffer::SixteenBit(p) && p@ == deinterleaved(
                samples@,
                spec_channel_count(colorspace) as int,
            )),
            r.metadata@ == (MetaView {
                format: None,
                colorspace,
                depth: BitDepth::Sixteen,
                width,
                height,
                default_gamma: None,
                exif: None,
            }),
    {
        let ch = channel_count(colorspace);
        proof {
            assert(samples@.len() as int % (ch as int) == 0) by (nonlinear_arith)
                requires
                    samples@.len() == width * height * ch,
                    0 < ch,
            ;
        }
        let planar = match deinterleave_samples(samples, ch) {
            Some(p) => p,
            None => vstd::pervasive::unreached(),
        };
        let metadata = MetadataRecord {
            format: None,
            colorspace,
            depth: BitDepth::Sixteen,
            width,
            height,
            default_gamma: None,
            exif: None,
        };
        CanonicalImage {
            pixels: PixelBuffer::SixteenBit(planar),
            width,
            height,
            colorspace,
            depth: BitDepth::Sixteen,
            metadata,
        }
    }

    /// Attach the metadata record obtained from header inspection.
    ///
    /// The record must agree with the image's pixel geometry — width,
    /// height, colorspace and depth are set from the same source — so
    /// the canonical value's consistency survives the attachment.
    pub fn set_metadata(&mut self, m: MetadataRecord)
        requires
            old(self).wf(),
            m.width == old(self).width,
            m.height == old(self).height,
            m.colorspace == old(self).colorspace,
            m.depth == old(self).depth,
        ensures
            final(self).wf(),
            final(self).metadata@ == m@,
            final(self).pixels == old(self).pixels,
            final(self).width == old(self).width,
            final(self).height == old(self).height,
            final(self).colorspace == old(self).colorspace,
            final(self).depth == old(self).depth,
    {
        self.metadata = m;
    }
}

} // verus!
