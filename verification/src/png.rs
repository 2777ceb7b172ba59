//! The PNG decoder adapter: binds the wrapped PNG codec to the uniform
//! decoder contract, normalizes its pixel output into the canonical
//! image value, extracts the metadata record during header inspection,
//! and translates the codec's native failures into the shared error
//! domain.
//!
//! The codec is a deterministic parse of in-memory bytes: nothing it
//! returns depends on time, randomness, the environment or iteration
//! order. Its results are therefore given names — uninterpreted
//! functions of the byte sequence — and every trusted wrapper below
//! states its result over those names, for the bytes the codec was
//! built over.

use vstd::prelude::*;
use crate::color::{BitDepth, Colorspace, ImageFormat, channel_count};
use crate::errors::{DecodeError, classify_header_failure, copy_string, lemma_prefixed, prefix_message};
use crate::image::{CanonicalImage, DecodeOutcome, PixelsView};
use crate::metadata::{MetadataRecord, MetaView, read_u32_at, spec_u32_at, parse_exif_tags, spec_parse_exif};
use crate::traits::{DecoderContract, effective_record};

verus! {

/// The wrapped codec over an in-memory cursor of the input bytes.
type Codec = zune_png::PngDecoder<zune_core::bytestream::ZCursor<Vec<u8>>>;

#[verifier::external_type_specification]
#[verifier::external_body]
#[verifier::reject_recursive_types(T)]
pub struct ExZCursor<T>(zune_core::bytestream::ZCursor<T>);

#[verifier::external_type_specification]
#[verifier::external_body]
#[verifier::reject_recursive_types(T)]
pub struct ExPngDecoder<T>(zune_png::PngDecoder<T>);

/// What the codec's header parse yields on a byte sequence: `Ok` when
/// the structural header parses; on failure, whether the input ran out
/// (the codec's I/O arm) and the codec's own rendered diagnostic.
pub uninterp spec fn spec_header_parse(bytes: Seq<u8>) -> Result<(), (bool, Seq<char>)>;

/// The dimension pair the codec reports once the header of the bytes
/// has parsed.
pub uninterp spec fn spec_header_dimensions(bytes: Seq<u8>) -> (usize, usize);

/// The bit depth the codec reports once the header of the bytes has
/// parsed.
pub uninterp spec fn spec_header_depth(bytes: Seq<u8>) -> BitDepth;

/// The colorspace the codec reports once the header of the bytes has
/// parsed.
pub uninterp spec fn spec_header_colorspace(bytes: Seq<u8>) -> Colorspace;

/// The raw auxiliary (`eXIf`) block the codec stored while parsing the
/// header of the bytes, if one was present.
pub uninterp spec fn spec_header_exif(bytes: Seq<u8>) -> Option<Seq<u8>>;

/// The sample outcome a full decode of the bytes yields, once their
/// header has parsed: a tagged sample sequence, an unsupported
/// representation, or a failure with its rendered diagnostic.
pub uninterp spec fn spec_codec_decode(bytes: Seq<u8>) -> DecodeOutcome;

/// The metadata record header inspection of the bytes determines:
/// `None` when their header does not parse; otherwise the named header
/// facts, the PNG format tag, the stored gamma word found by the
/// verified chunk scan, and the parse of the named auxiliary block.
pub open spec fn png_header_record(bytes: Seq<u8>) -> Option<MetaView> {
    match spec_header_parse(bytes) {
        Ok(()) => Some(
            MetaView {
                format: Some(ImageFormat::Png),
                colorspace: spec_header_colorspace(bytes),
                depth: spec_header_depth(bytes),
                width: spec_header_dimensions(bytes).0,
                height: spec_header_dimensions(bytes).1,
                default_gamma: spec_gamma_scan(bytes, 8),
                exif: match spec_header_exif(bytes) {
                    Some(a) => spec_parse_exif(a),
                    None => None,
                },
            },
        ),
        Err(_) => None,
    }
}

/// The wrapped codec, carried beside the mathematical value of the
/// bytes it was built over and three facts of its history: whether a
/// header parse was ever attempted, whether the first attempt
/// succeeded cleanly, and whether a full decode has been drawn. The
/// parse is stateful — a failed attempt leaves the stream mid-way — so
/// the trusted ties below fire only on an untouched history. The
/// constructor fixes the bytes to the data the codec is given; only
/// the trusted methods of this module touch the box, so the ghost
/// state means what it says.
struct CodecBox {
    inner: Codec,
    bytes: Ghost<Seq<u8>>,
    attempted: Ghost<bool>,
    parsed: Ghost<bool>,
    used: Ghost<bool>,
}

/// Relies on zune_core::bytestream::ZCursor::new: wraps the bytes in an
/// in-memory cursor positioned at the start.
#[verifier::external_body]
fn zcursor_new(data: Vec<u8>) -> zune_core::bytestream::ZCursor<Vec<u8>> {
    zune_core::bytestream::ZCursor::new(data)
}

/// Relies on zune_png::PngDecoder::new: a fresh decoder over the cursor,
/// with the default decoder options.
#[verifier::external_body]
fn codec_new(cursor: zune_core::bytestream::ZCursor<Vec<u8>>) -> Codec {
    zune_png::PngDecoder::new(cursor)
}

fn codec_box_new(data: Vec<u8>) -> (r: CodecBox)
    ensures
        r.bytes@ == data@,
        !r.attempted@,
        !r.parsed@,
        !r.used@,
{
    let ghost b = data@;
    CodecBox {
        inner: codec_new(zcursor_new(data)),
        bytes: Ghost(b),
        attempted: Ghost(false),
        parsed: Ghost(false),
        used: Ghost(false),
    }
}

/// Relies on zune_png::PngDecoder::decode_headers, a deterministic parse
/// of the bytes the box was built over: success, the kind of failure
/// (the codec's I/O arm marks an input that ran out) and the rendered
/// diagnostic are functions of those bytes alone. The parse is
/// stateful — a call after a failure continues from where the stream
/// stopped — so the tie to the named result fires only on the box's
/// first attempt, and `parsed` records only a clean first-attempt
/// success.
#[verifier::external_body]
fn codec_decode_headers(b: &mut CodecBox) -> (r: Result<(), (bool, String)>)
    ensures
        final(b).bytes == old(b).bytes,
        final(b).used == old(b).used,
        final(b).attempted@,
        final(b).parsed@ == (old(b).parsed@ || (!old(b).attempted@ && !old(b).used@ && r is Ok)),
        !old(b).attempted@ && !old(b).used@ ==> match r {
            Ok(()) => spec_header_parse(old(b).bytes@) is Ok,
            Err(p) => spec_header_parse(old(b).bytes@) == Err::<(), (bool, Seq<char>)>(
                (p.0, p.1@),
            ),
        },
{
    match b.inner.decode_headers() {
        Ok(()) => Ok(()),
        Err(e) => Err((matches!(e, zune_png::error::PngDecodeErrors::IoErrors(_)), format!("{:?}", e))),
    }
}

/// Relies on zune_png::PngDecoder::dimensions: once the header of the
/// box's bytes has parsed it reports exactly the parsed pair.
#[verifier::external_body]
fn codec_dimensions(b: &CodecBox) -> (r: Option<(usize, usize)>)
    ensures
        b.parsed@ ==> r == Some(spec_header_dimensions(b.bytes@)),
{
    b.inner.dimensions()
}

/// Relies on zune_png::PngDecoder::depth: once the header has parsed the
/// codec reports eight- or sixteen-bit output only (depths below eight
/// are expanded to eight); each arm moves to the library's depth.
#[verifier::external_body]
fn codec_depth(b: &CodecBox) -> (r: Option<BitDepth>)
    ensures
        b.parsed@ ==> r == Some(spec_header_depth(b.bytes@)),
{
    match b.inner.depth() {
        Some(zune_core::bit_depth::BitDepth::Eight) => Some(BitDepth::Eight),
        Some(zune_core::bit_depth::BitDepth::Sixteen) => Some(BitDepth::Sixteen),
        _ => None,
    }
}

/// Relies on zune_png::PngDecoder::colorspace: once the header has
/// parsed the codec decodes into Luma, LumaA, RGB or RGBA only; each
/// arm moves to the library's colorspace.
#[verifier::external_body]
fn codec_colorspace(b: &CodecBox) -> (r: Option<Colorspace>)
    ensures
        b.parsed@ ==> r == Some(spec_header_colorspace(b.bytes@)),
{
    match b.inner.colorspace() {
        Some(zune_core::colorspace::ColorSpace::Luma) => Some(Colorspace::Luma),
        Some(zune_core::colorspace::ColorSpace::LumaA) => Some(Colorspace::LumaA),
        Some(zune_core::colorspace::ColorSpace::RGB) => Some(Colorspace::Rgb),
        Some(zune_core::colorspace::ColorSpace::RGBA) => Some(Colorspace::Rgba),
        _ => None,
    }
}

/// Relies on zune_png::PngDecoder::info: hands out a copy of the raw
/// bytes of the `eXIf` chunk the parsed header carried, if any.
#[verifier::external_body]
fn codec_info_exif(b: &CodecBox) -> (r: Option<Vec<u8>>)
    ensures
        b.parsed@ ==> match r {
            Some(v) => spec_header_exif(b.bytes@) == Some(v@),
            None => spec_header_exif(b.bytes@) is None,
        },
{
    match b.inner.info() {
        Some(info) => info.exif.clone(),
        None => None,
    }
}

/// The tagged sample buffer a full decode produced.
pub enum RawSamples {
    /// Eight-bit interleaved samples.
    EightBit(Vec<u8>),
    /// Sixteen-bit interleaved samples.
    SixteenBit(Vec<u16>),
    /// A sample representation outside the supported widths.
    Unsupported,
}

/// Relies on zune_png::PngDecoder::decode, deterministic over the box's
/// bytes once their header has parsed: each arm of the codec's result
/// moves into the matching arm here, any arm beyond the two supported
/// widths into `Unsupported`, and a failure into its rendered
/// diagnostic. The tie holds for the first draw only, after one clean
/// header parse: the codec consumes frame state, so the box remembers
/// that a decode happened.
#[verifier::external_body]
fn codec_decode(b: &mut CodecBox) -> (r: Result<RawSamples, String>)
    ensures
        final(b).bytes == old(b).bytes,
        final(b).attempted == old(b).attempted,
        final(b).parsed == old(b).parsed,
        final(b).used@,
        old(b).parsed@ && !old(b).used@ ==> match r {
            Ok(RawSamples::EightBit(v)) => spec_codec_decode(old(b).bytes@)
                == DecodeOutcome::Samples(PixelsView::EightBit(v@)),
            Ok(RawSamples::SixteenBit(v)) => spec_codec_decode(old(b).bytes@)
                == DecodeOutcome::Samples(PixelsView::SixteenBit(v@)),
            Ok(RawSamples::Unsupported) => spec_codec_decode(old(b).bytes@)
                == DecodeOutcome::UnsupportedWidth,
            Err(m) => spec_codec_decode(old(b).bytes@) == DecodeOutcome::Failed(m@),
        },
{
    match b.inner.decode() {
        Ok(zune_core::result::DecodingResult::U8(v)) => Ok(RawSamples::EightBit(v)),
        Ok(zune_core::result::DecodingResult::U16(v)) => Ok(RawSamples::SixteenBit(v)),
        Ok(_) => Ok(RawSamples::Unsupported),
        Err(e) => Err(format!("{:?}", e)),
    }
}

/// The gamma value a stored `gAMA` word denotes, in hundred-thousandths
/// of the gamma (the exact integer representation the chunk stores): the
/// word itself, except that a stored zero is invalid and falls back to
/// the format's default of 1/2.2.
pub open spec fn normalize_gamma(raw: u32) -> u32 {
    if raw == 0 {
        45455u32
    } else {
        raw
    }
}

/// The `gAMA` declaration found by walking the chunk list of `s` from
/// offset `pos`: the normalized stored word at the first `gAMA` chunk of
/// length four, `None` at a malformed chunk, at `IEND`, or when the
/// stream runs out first.
///
/// A deliberate strictness: on a degenerate stream that carries several
/// `gAMA` chunks, or one whose length is not four, this reads nothing
/// further, where the codec's lenient mode would skip ahead and take
/// the last such chunk, wrong-length ones included. A well-formed PNG
/// has at most one `gAMA` chunk, of length four, so the two readings
/// agree on every input the format allows.
pub open spec fn spec_gamma_scan(s: Seq<u8>, pos: int) -> Option<u32>
    decreases s.len() - pos,
{
    if pos < 0 || pos + 8 > s.len() {
        None
    } else {
        let clen = spec_u32_at(s, pos, false);
        if s[pos + 4] == 0x67 && s[pos + 5] == 0x41 && s[pos + 6] == 0x4d && s[pos + 7] == 0x41 {
            if clen == 4 && pos + 12 <= s.len() {
                Some(normalize_gamma(spec_u32_at(s, pos + 8, false) as u32))
            } else {
                None
            }
        } else if s[pos + 4] == 0x49 && s[pos + 5] == 0x45 && s[pos + 6] == 0x4e && s[pos + 7]
            == 0x44 {
            None
        } else {
            let next = if pos + 12 + clen > s.len() {
                s.len() as int
            } else {
                pos + 12 + clen
            };
            spec_gamma_scan(s, next)
        }
    }
}

/// Scan a PNG byte stream for its `gAMA` declaration.
///
/// Walks the chunk list that follows the eight-byte signature, exactly
/// as [`spec_gamma_scan`] describes. The wrapped codec only exposes the
/// gamma after converting it to floating point; this reads the stored
/// integer representation instead, so the record carries it exactly.
pub fn find_gamma(data: &Vec<u8>) -> (r: Option<u32>)
    ensures
        r == spec_gamma_scan(data@, 8),
{
    let len = data.len();
    if len < 16 {
        return None;
    }
    let mut pos: usize = 8;
    loop
        invariant
            len == data@.len(),
            8 <= pos <= len,
            spec_gamma_scan(data@, 8) == spec_gamma_scan(data@, pos as int),
        decreases len - pos,
    {
        if len - pos < 8 {
            return None;
        }
        let clen32 = read_u32_at(data, pos, false);
        let clen = clen32 as usize;
        let t0 = data[pos + 4];
        let t1 = data[pos + 5];
        let t2 = data[pos + 6];
        let t3 = data[pos + 7];
        if t0 == 0x67 && t1 == 0x41 && t2 == 0x4d && t3 == 0x41 {
            if clen == 4 && len - pos >= 12 {
                let raw = read_u32_at(data, pos + 8, false);
                let value = if raw == 0 {
                    45455u32
                } else {
                    raw
                };
                return Some(value);
            } else {
                return None;
            }
        }
        if t0 == 0x49 && t1 == 0x45 && t2 == 0x4e && t3 == 0x44 {
            return None;
        }
        let rem = len - pos;
        let next = if rem < 12 {
            len
        } else if clen > rem - 12 {
            len
        } else {
            pos + 12 + clen
        };
        proof {
            assert(next as int == (if pos as int + 12 + clen as int > len as int {
                len as int
            } else {
                pos as int + 12 + clen as int
            }));
        }
        pos = next;
    }
}

/// The sample count one pixel plane times the channel count asks for,
/// or `None` when that product does not fit the address space.
fn expected_samples(width: usize, height: usize, ch: usize) -> (r: Option<usize>)
    requires
        1 <= ch,
    ensures
        match r {
            Some(e) => e == width * height * ch,
            None => width * height * ch > usize::MAX,
        },
{
    let wh = width.checked_mul(height);
    let expected = match wh {
        Some(p) => p.checked_mul(ch),
        None => None,
    };
    proof {
        let w = width as int;
        let h = height as int;
        let c = ch as int;
        if wh is None {
            assert(w * h * c >= w * h) by (nonlinear_arith)
                requires
                    c >= 1,
                    w >= 0,
                    h >= 0,
            ;
        } else if expected is None {
            let p = wh.unwrap() as int;
            assert(p == w * h);
            assert(w * h * c == p * c);
        } else {
            assert(expected.unwrap() == w * h * c);
        }
    }
    expected
}

fn copy_bytes(v: &Vec<u8>) -> (r: Vec<u8>)
    ensures
        r@ == v@,
{
    let mut out: Vec<u8> = Vec::new();
    let mut i: usize = 0;
    while i < v.len()
        invariant
            i <= v@.len(),
            out@ == v@.subrange(0, i as int),
        decreases v@.len() - i,
    {
        out.push(v[i]);
        i += 1;
    }
    proof {
        assert(out@ =~= v@);
    }
    out
}

/// The PNG decoder adapter.
///
/// Holds the wrapped codec beside a copy of the input bytes for the
/// metadata scan, the record produced by header inspection (`Some`
/// exactly in the headers-read state), the classification and text of a
/// failed header parse (so a repeat call answers without re-parsing a
/// stream the failure left mid-way), whether a full decode has been
/// attempted, and the auxiliary-parsing configuration.
pub struct PngAdapter {
    codec: CodecBox,
    data: Vec<u8>,
    metadata: Option<MetadataRecord>,
    header_error: Option<(bool, String)>,
    consumed: bool,
    parse_auxiliary: bool,
}

impl PngAdapter {
    /// Bind a fresh decoder to the raw bytes of a PNG-encoded input,
    /// with auxiliary-data parsing enabled.
    pub fn new(data: Vec<u8>) -> (r: PngAdapter)
        ensures
            r.valid(),
            !r.headers_read(),
            !r.decoded(),
            r.source() == data@,
            r.parses_auxiliary(),
    {
        PngAdapter::new_with_options(data, true)
    }

    /// Bind a fresh decoder to the raw bytes of a PNG-encoded input.
    ///
    /// `parse_auxiliary_metadata` gates the best-effort auxiliary
    /// (EXIF) parse during header inspection; with it off the record's
    /// auxiliary field is always left empty.
    pub fn new_with_options(data: Vec<u8>, parse_auxiliary_metadata: bool) -> (r: PngAdapter)
        ensures
            r.valid(),
            !r.headers_read(),
            !r.decoded(),
            r.source() == data@,
            r.parses_auxiliary() == parse_auxiliary_metadata,
    {
        let copy = copy_bytes(&data);
        PngAdapter {
            codec: codec_box_new(copy),
            data,
            metadata: None,
            header_error: None,
            consumed: false,
            parse_auxiliary: parse_auxiliary_metadata,
        }
    }
}

impl DecoderContract for PngAdapter {
    closed spec fn headers_read(&self) -> bool {
        self.metadata is Some
    }

    closed spec fn decoded(&self) -> bool {
        self.consumed
    }

    closed spec fn record(&self) -> MetaView {
        match self.metadata {
            Some(m) => m@,
            None => vstd::pervasive::arbitrary(),
        }
    }

    closed spec fn valid(&self) -> bool {
        &&& self.data@ == self.codec.bytes@
        &&& match self.metadata {
            Some(m) => png_header_record(self.codec.bytes@) matches Some(x) && m@
                == effective_record(x, self.parse_auxiliary),
            None => true,
        }
        &&& match self.header_error {
            Some(p) => spec_header_parse(self.codec.bytes@) matches Err(q) && p.0 == q.0 && p.1@
                == "png: "@ + q.1,
            None => true,
        }
        &&& !(self.metadata is Some && self.header_error is Some)
        &&& (self.metadata is Some ==> self.codec.parsed@)
        &&& (self.metadata is None && self.header_error is None ==> !self.codec.attempted@
            && !self.codec.parsed@ && !self.codec.used@)
        &&& (self.consumed ==> self.metadata is Some)
        &&& (self.codec.used@ ==> self.consumed)
    }

    closed spec fn source(&self) -> Seq<u8> {
        self.codec.bytes@
    }

    open spec fn header_record_of(bytes: Seq<u8>) -> Option<MetaView> {
        png_header_record(bytes)
    }

    open spec fn header_failure_is_truncation(bytes: Seq<u8>) -> bool {
        match spec_header_parse(bytes) {
            Err(p) => p.0,
            Ok(_) => false,
        }
    }

    open spec fn header_failure_text(bytes: Seq<u8>) -> Seq<char> {
        match spec_header_parse(bytes) {
            Err(p) => "png: "@ + p.1,
            Ok(_) => Seq::empty(),
        }
    }

    open spec fn decode_samples_of(bytes: Seq<u8>) -> DecodeOutcome {
        spec_codec_decode(bytes)
    }

    open spec fn message_prefix() -> Seq<char> {
        "png: "@
    }

    open spec fn inconsistency_text() -> Seq<char> {
        "png: decoded buffer disagrees with the header"@
    }

    closed spec fn parses_auxiliary(&self) -> bool {
        self.parse_auxiliary
    }

    open spec fn has_header_metadata() -> bool {
        true
    }

    open spec fn name_spec() -> Seq<char> {
        "PNG Decoder"@
    }

    fn read_headers(&mut self) -> (r: Result<Option<MetadataRecord>, DecodeError>) {
        match &self.metadata {
            Some(m) => {
                return Ok(Some(m.duplicate()));
            },
            None => {},
        }
        match &self.header_error {
            Some(p) => {
                let truncated = p.0;
                let message = copy_string(&p.1);
                proof {
                    match spec_header_parse(self.codec.bytes@) {
                        Err(q) => lemma_prefixed("png: "@, q.1),
                        Ok(_) => (),
                    }
                }
                return Err(classify_header_failure(truncated, message));
            },
            None => {},
        }
        match codec_decode_headers(&mut self.codec) {
            Err(p) => {
                let truncated = p.0;
                let message = prefix_message("png: ", &p.1);
                let stored = copy_string(&message);
                proof {
                    lemma_prefixed("png: "@, p.1@);
                }
                self.header_error = Some((truncated, stored));
                return Err(classify_header_failure(truncated, message));
            },
            Ok(()) => {},
        }
        let (width, height) = match codec_dimensions(&self.codec) {
            Some(d) => d,
            None => vstd::pervasive::unreached(),
        };
        let depth = match codec_depth(&self.codec) {
            Some(d) => d,
            None => vstd::pervasive::unreached(),
        };
        let colorspace = match codec_colorspace(&self.codec) {
            Some(c) => c,
            None => vstd::pervasive::unreached(),
        };
        let default_gamma = find_gamma(&self.data);
        let exif = if self.parse_auxiliary {
            match codec_info_exif(&self.codec) {
                Some(raw) => parse_exif_tags(&raw),
                None => None,
            }
        } else {
            None
        };
        let record = MetadataRecord {
            format: Some(ImageFormat::Png),
            colorspace,
            depth,
            width,
            height,
            default_gamma,
            exif,
        };
        proof {
            let m = png_header_record(self.codec.bytes@).unwrap();
            assert(record@ == effective_record(m, self.parse_auxiliary));
        }
        let copy = record.duplicate();
        self.metadata = Some(record);
        Ok(Some(copy))
    }

    fn decode(&mut self) -> (r: Result<CanonicalImage, DecodeError>) {
        if self.consumed {
            return Err(DecodeError::AlreadyDecoded);
        }
        let metadata = match self.read_headers() {
            Ok(Some(m)) => m,
            Ok(None) => {
                return vstd::pervasive::unreached();
            },
            Err(e) => {
                return Err(e);
            },
        };
        self.consumed = true;
        let samples = codec_decode(&mut self.codec);
        let width = metadata.width;
        let height = metadata.height;
        let colorspace = metadata.colorspace;
        let ch = channel_count(colorspace);
        match samples {
            Err(m) => {
                let message = prefix_message("png: ", &m);
                proof {
                    lemma_prefixed("png: "@, m@);
                }
                Err(DecodeError::PixelReconstruction(message))
            },
            Ok(RawSamples::Unsupported) => Err(DecodeError::UnsupportedSampleWidth),
            Ok(RawSamples::EightBit(data)) => {
                let expected = expected_samples(width, height, ch);
                if expected != Some(data.len()) || !matches!(metadata.depth, BitDepth::Eight) {
                    return Err(
                        DecodeError::PixelReconstruction(
                            String::from_str("png: decoded buffer disagrees with the header"),
                        ),
                    );
                }
                let mut image = CanonicalImage::from_eight_bit(&data, width, height, colorspace);
                image.set_metadata(metadata);
                Ok(image)
            },
            Ok(RawSamples::SixteenBit(data)) => {
                let expected = expected_samples(width, height, ch);
                if expected != Some(data.len()) || !matches!(metadata.depth, BitDepth::Sixteen) {
                    return Err(
                        DecodeError::PixelReconstruction(
                            String::from_str("png: decoded buffer disagrees with the header"),
                        ),
                    );
                }
                let mut image = CanonicalImage::from_sixteen_bit(&data, width, height, colorspace);
                image.set_metadata(metadata);
                Ok(image)
            },
        }
    }

    fn get_dimensions(&self) -> (r: Option<(usize, usize)>) {
        match &self.metadata {
            Some(m) => Some((m.width, m.height)),
            None => None,
        }
    }

    fn get_out_colorspace(&self) -> (r: Colorspace) {
        match &self.metadata {
            Some(m) => m.colorspace,
            None => vstd::pervasive::unreached(),
        }
    }

    fn get_name(&self) -> (r: &'static str) {
        "PNG Decoder"
    }
}

} // verus!
