//! The metadata record produced by header inspection, and the best-effort
//! parse of a raw auxiliary (EXIF) block into tag entries.

use vstd::prelude::*;
use crate::color::{BitDepth, Colorspace, ImageFormat};

verus! {

/// One raw entry of an EXIF image file directory, exactly as stored:
/// tag identifier, field type code, value count, and the value-or-offset
/// word.
#[derive(Clone, Copy, PartialEq, Eq, Structural, Debug)]
pub struct ExifTag {
    /// Tag identifier.
    pub tag: u16,
    /// Field type code.
    pub kind: u16,
    /// Number of values of the field type.
    pub count: u32,
    /// The value, or the offset of the value, exactly as the entry stores it.
    pub value: u32,
}

/// A two-byte word of `s` at `off`, little- or big-endian.
pub open spec fn spec_u16_at(s: Seq<u8>, off: int, little: bool) -> int
    recommends
        0 <= off,
        off + 2 <= s.len(),
{
    if little {
        s[off] + 256 * s[off + 1]
    } else {
        s[off + 1] + 256 * s[off]
    }
}

/// A four-byte word of `s` at `off`, little- or big-endian.
pub open spec fn spec_u32_at(s: Seq<u8>, off: int, little: bool) -> int
    recommends
        0 <= off,
        off + 4 <= s.len(),
{
    if little {
        s[off] + 256 * (s[off + 1] + 256 * (s[off + 2] + 256 * s[off + 3]))
    } else {
        s[off + 3] + 256 * (s[off + 2] + 256 * (s[off + 1] + 256 * s[off]))
    }
}

pub(crate) fn read_u16_at(data: &Vec<u8>, off: usize, little: bool) -> (r: u16)
    requires
        off + 2 <= data@.len(),
    ensures
        r == spec_u16_at(data@, off as int, little),
{
    let n = data.len();
    proof {
        assert(off + 2 <= n);
    }
    let b0 = data[off] as u16;
    let b1 = data[off + 1] as u16;
    if little {
        b0 + 256 * b1
    } else {
        b1 + 256 * b0
    }
}

pub(crate) fn read_u32_at(data: &Vec<u8>, off: usize, little: bool) -> (r: u32)
    requires
        off + 4 <= data@.len(),
    ensures
        r == spec_u32_at(data@, off as int, little),
{
    let n = data.len();
    proof {
        assert(off + 4 <= n);
    }
    let b0 = data[off] as u32;
    let b1 = data[off + 1] as u32;
    let b2 = data[off + 2] as u32;
    let b3 = data[off + 3] as u32;
    if little {
        b0 + 256 * (b1 + 256 * (b2 + 256 * b3))
    } else {
        b3 + 256 * (b2 + 256 * (b1 + 256 * b0))
    }
}

/// The entry stored at offset `e` of the block.
pub open spec fn spec_exif_entry(s: Seq<u8>, e: int, little: bool) -> ExifTag
    recommends
        0 <= e,
        e + 12 <= s.len(),
{
    ExifTag {
        tag: spec_u16_at(s, e, little) as u16,
        kind: spec_u16_at(s, e + 2, little) as u16,
        count: spec_u32_at(s, e + 4, little) as u32,
        value: spec_u32_at(s, e + 8, little) as u32,
    }
}

/// What a raw auxiliary block parses to: `None` when the block is not a
/// well-formed TIFF header with a complete first image file directory,
/// otherwise the directory's entries in order.
pub open spec fn spec_parse_exif(s: Seq<u8>) -> Option<Seq<ExifTag>> {
    if s.len() < 8 {
        None
    } else {
        let little = s[0] == 0x49 && s[1] == 0x49 && s[2] == 0x2a && s[3] == 0;
        let big = s[0] == 0x4d && s[1] == 0x4d && s[2] == 0 && s[3] == 0x2a;
        if !little && !big {
            None
        } else {
            let ifd = spec_u32_at(s, 4, little);
            if ifd + 2 > s.len() {
                None
            } else {
                let n = spec_u16_at(s, ifd, little);
                if ifd + 2 + 12 * n > s.len() {
                    None
                } else {
                    Some(Seq::new(n as nat, |i: int| spec_exif_entry(s, ifd + 2 + 12 * i, little)))
                }
            }
        }
    }
}

/// Parse a raw auxiliary block into its directory entries.
///
/// Purely additive and best-effort: a block that is not well formed
/// parses to `None`, never to an error.
pub fn parse_exif_tags(data: &Vec<u8>) -> (r: Option<Vec<ExifTag>>)
    ensures
        match r {
            Some(v) => spec_parse_exif(data@) == Some(v@),
            None => spec_parse_exif(data@) is None,
        },
{
    let len = data.len();
    if len < 8 {
        return None;
    }
    let little = data[0] == 0x49 && data[1] == 0x49 && data[2] == 0x2a && data[3] == 0;
    let big = data[0] == 0x4d && data[1] == 0x4d && data[2] == 0 && data[3] == 0x2a;
    if !little && !big {
        return None;
    }
    let ifd32 = read_u32_at(data, 4, little);
    let ifd = ifd32 as usize;
    if ifd > len || len - ifd < 2 {
        return None;
    }
    let n = read_u16_at(data, ifd, little) as usize;
    if (len - ifd - 2) / 12 < n {
        return None;
    }
    proof {
        assert(ifd + 2 + 12 * n <= len) by (nonlinear_arith)
            requires
                ifd + 2 <= len,
                n <= (len - ifd - 2) / 12,
                0 <= n,
                0 <= ifd,
        ;
    }
    let ghost target = spec_parse_exif(data@).unwrap();
    let mut out: Vec<ExifTag> = Vec::new();
    let mut i: usize = 0;
    while i < n
        invariant
            i <= n,
            len == data@.len(),
            ifd + 2 + 12 * n <= len,
            little == (data@[0] == 0x49 && data@[1] == 0x49 && data@[2] == 0x2a && data@[3] == 0),
            len >= 8,
            ifd == spec_u32_at(data@, 4, little),
            n == spec_u16_at(data@, ifd as int, little),
            spec_parse_exif(data@) is Some,
            target == spec_parse_exif(data@).unwrap(),
            target.len() == n,
            out@.len() == i,
            forall|j: int| 0 <= j < i ==> out@[j] == target[j],
        decreases n - i,
    {
        let e = ifd + 2 + 12 * i;
        proof {
            assert(e + 12 <= len) by (nonlinear_arith)
                requires
                    e == ifd + 2 + 12 * i,
                    i < n,
                    ifd + 2 + 12 * n <= len,
            ;
        }
        let tag = read_u16_at(data, e, little);
        let kind = read_u16_at(data, e + 2, little);
        let count = read_u32_at(data, e + 4, little);
        let value = read_u32_at(data, e + 8, little);
        let entry = ExifTag { tag, kind, count, value };
        proof {
            assert(entry == target[i as int]);
        }
        out.push(entry);
        i += 1;
    }
    proof {
        assert(out@ =~= target);
    }
    Some(out)
}

/// The mathematical value of a metadata record: the same fields, with the
/// auxiliary tags as a sequence.
pub ghost struct MetaView {
    pub format: Option<ImageFormat>,
    pub colorspace: Colorspace,
    pub depth: BitDepth,
    pub width: usize,
    pub height: usize,
    pub default_gamma: Option<u32>,
    pub exif: Option<Seq<ExifTag>>,
}

/// The record produced by header inspection: dimensions, colorspace and
/// depth are always present once inspection succeeds; the declared
/// format, the gamma and the parsed auxiliary tags are optional and
/// format-dependent.
pub struct MetadataRecord {
    /// Declared format of the input, when one is known.
    pub format: Option<ImageFormat>,
    /// Colorspace of the pixel data a full decode will produce.
    pub colorspace: Colorspace,
    /// Bits per sample per channel of that pixel data.
    pub depth: BitDepth,
    /// Image width in pixels.
    pub width: usize,
    /// Image height in pixels.
    pub height: usize,
    /// The gamma the format declares, in hundred-thousandths (the exact
    /// integer representation the format stores), when it declares one.
    pub default_gamma: Option<u32>,
    /// Parsed auxiliary tags, when an auxiliary block was present and
    /// well formed.
    pub exif: Option<Vec<ExifTag>>,
}

impl View for MetadataRecord {
    type V = MetaView;

    open spec fn view(&self) -> MetaView {
        MetaView {
            format: self.format,
            colorspace: self.colorspace,
            depth: self.depth,
            width: self.width,
            height: self.height,
            default_gamma: self.default_gamma,
            exif: match self.exif {
                Some(v) => Some(v@),
                None => None,
            },
        }
    }
}

fn copy_tags(v: &Vec<ExifTag>) -> (r: Vec<ExifTag>)
    ensures
        r@ == v@,
{
    let mut out: Vec<ExifTag> = Vec::new();
    let mut i: usize = 0;
    while i < v.len()
        invariant
            i <= v@.len(),
            out@ == v@.subrange(0, i as int),
        decreases v@.len() - i,
    {
        out.push(v[i]);
        i += 1;
    }
    proof {
        assert(out@ =~= v@);
    }
    out
}

impl MetadataRecord {
    /// An equal copy of the record: the view is preserved exactly.
    pub fn duplicate(&self) -> (r: MetadataRecord)
        ensures
            r@ == self@,
    {
        let exif = match &self.exif {
            Some(v) => Some(copy_tags(v)),
            None => None,
        };
        MetadataRecord {
            format: self.format,
            colorspace: self.colorspace,
            depth: self.depth,
            width: self.width,
            height: self.height,
            default_gamma: self.default_gamma,
            exif,
        }
    }

    /// Parse a raw auxiliary block and attach the outcome to the record.
    ///
    /// Best-effort by design: a malformed block leaves the auxiliary
    /// field empty and changes nothing else; it never fails the caller.
    pub fn parse_raw_exif(&mut self, raw: &Vec<u8>)
        ensures
            final(self).format == old(self).format,
            final(self).colorspace == old(self).colorspace,
            final(self).depth == old(self).depth,
            final(self).width == old(self).width,
            final(self).height == old(self).height,
            final(self).default_gamma == old(self).default_gamma,
            final(self)@.exif == spec_parse_exif(raw@),
    {
        self.exif = parse_exif_tags(raw);
    }
}

} // verus!
