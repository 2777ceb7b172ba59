//! The uniform decoding contract every format-specific decoder
//! satisfies: header inspection, dimension and colorspace queries, full
//! decoding into the canonical image value, and a fixed human-readable
//! name. The surrounding pipeline holds a decoder only through this
//! contract, which is what keeps it format-agnostic.
//!
//! The layer is synchronous and deterministic: a decoder reads nothing
//! beyond the in-memory bytes it was bound to. The contract says so by
//! fixing every outcome — success, the produced record and image, the
//! error kind and its diagnostic text — as a function of those bytes,
//! through the abstract observers below, which each format defines over
//! the named results of its codec.

use vstd::prelude::*;
use crate::color::Colorspace;
use crate::errors::{DecodeError, is_prefixed};
use crate::image::{CanonicalImage, DecodeOutcome, samples_consistent, deinterleaved_view};
use crate::metadata::{MetadataRecord, MetaView};
use crate::color::spec_channel_count;

verus! {

/// Whether a full decode of bytes with the given header record and
/// sample outcome succeeds: the header must have parsed, the samples
/// must be of a supported width, and they must agree with the record on
/// depth and count.
pub open spec fn successful_outcome(record: Option<MetaView>, samples: DecodeOutcome) -> bool {
    match (record, samples) {
        (Some(m), DecodeOutcome::Samples(pv)) => samples_consistent(pv, m),
        _ => false,
    }
}

/// The record a decoder hands out, given its auxiliary-parsing
/// configuration: the full record when the best-effort auxiliary parse
/// is enabled, the same record with an empty auxiliary field when it is
/// not.
pub open spec fn effective_record(m: MetaView, parse_auxiliary: bool) -> MetaView {
    if parse_auxiliary {
        m
    } else {
        (MetaView { exif: None, ..m })
    }
}

/// The decoding contract.
///
/// A decoder instance moves through `Unopened`, then `HeadersRead` once
/// header inspection succeeds, then `Decoded` once a full decode has
/// been attempted; the abstract observers below expose exactly that
/// state, and the per-format functions of the input bytes pin down what
/// every operation returns.
pub trait DecoderContract: Sized {
    /// Whether header inspection has completed successfully.
    spec fn headers_read(&self) -> bool;

    /// Whether a full decode has already been attempted.
    spec fn decoded(&self) -> bool;

    /// The metadata record header inspection produced; meaningful only
    /// once `headers_read()` holds.
    spec fn record(&self) -> MetaView;

    /// The decoder's internal consistency; its constructor establishes
    /// it and every operation preserves it.
    spec fn valid(&self) -> bool;

    /// The bytes the decoder is bound to.
    spec fn source(&self) -> Seq<u8>;

    /// The metadata record that header inspection of the given bytes
    /// yields, or `None` when their header does not parse.
    spec fn header_record_of(bytes: Seq<u8>) -> Option<MetaView>;

    /// When the header of the given bytes does not parse: whether the
    /// failure is the input running out.
    spec fn header_failure_is_truncation(bytes: Seq<u8>) -> bool;

    /// When the header of the given bytes does not parse: the diagnostic
    /// text of the failure.
    spec fn header_failure_text(bytes: Seq<u8>) -> Seq<char>;

    /// The sample outcome a full decode of the given bytes yields, once
    /// their header has parsed.
    spec fn decode_samples_of(bytes: Seq<u8>) -> DecodeOutcome;

    /// The format-name prefix every diagnostic text carries.
    spec fn message_prefix() -> Seq<char>;

    /// The fixed diagnostic text used when the codec's decoded samples
    /// disagree with its own parsed header.
    spec fn inconsistency_text() -> Seq<char>;

    /// Whether this decoder instance performs the best-effort
    /// auxiliary-data parse during header inspection (a configuration
    /// choice, on by default).
    spec fn parses_auxiliary(&self) -> bool;

    /// Whether the format defines a separate header-metadata concept at
    /// all; a format that does always answers header inspection with a
    /// record.
    spec fn has_header_metadata() -> bool;

    /// The fixed name of the concrete format.
    spec fn name_spec() -> Seq<char>;

    /// Parse only the structural header of the input.
    ///
    /// Succeeds exactly when the bound bytes carry a parsable header,
    /// and then returns, for a format with a header-metadata concept,
    /// exactly the record those bytes determine — with the auxiliary
    /// field left empty when the instance was configured not to parse
    /// auxiliary data. Calling it again is a
    /// no-op that hands back the record already computed, never
    /// re-parsing; so two calls yield identical records and leave every
    /// later query unchanged. A failure is `Truncated` exactly when the
    /// input ran out, `Malformed` otherwise, and carries the codec's
    /// diagnostic text behind the format-name prefix; an auxiliary-data
    /// parse failure never surfaces here (the record's auxiliary field
    /// is simply left empty).
    fn read_headers(&mut self) -> (r: Result<Option<MetadataRecord>, DecodeError>)
        requires
            old(self).valid(),
        ensures
            final(self).valid(),
            final(self).source() == old(self).source(),
            final(self).decoded() == old(self).decoded(),
            final(self).parses_auxiliary() == old(self).parses_auxiliary(),
            r is Ok ==> final(self).headers_read(),
            r is Err ==> !final(self).headers_read(),
            (r is Ok <==> Self::header_record_of(old(self).source()) is Some),
            r matches Ok(o) ==> (o is Some <==> Self::has_header_metadata()),
            match r {
                Ok(Some(rec)) => (Self::header_record_of(old(self).source()) matches Some(m)
                    && rec@ == effective_record(m, old(self).parses_auxiliary())
                    && rec@ == final(self).record()),
                _ => true,
            },
            old(self).headers_read() ==> *final(self) == *old(self) && r is Ok,
            match r {
                Err(e) => {
                    &&& (e is Truncated || e is Malformed)
                    &&& (e is Truncated <==> Self::header_failure_is_truncation(
                        old(self).source(),
                    ))
                    &&& e.spec_text() == Self::header_failure_text(old(self).source())
                    &&& is_prefixed(Self::message_prefix(), e.spec_text())
                },
                Ok(_) => true,
            },
    ;

    /// Produce the canonical image value for the input.
    ///
    /// Headers are guaranteed to have been read first (reading them here
    /// if the caller never did). Succeeds exactly when the bound bytes
    /// parse and their decoded samples are of a supported width and
    /// agree with the record; the produced image is well formed, carries
    /// exactly the record the bytes determine, and its pixel buffer is
    /// exactly the deinterleaving of the samples the bytes decode to. A
    /// decoder performs at most one full decode attempt: afterwards
    /// every further call is refused with `AlreadyDecoded`.
    fn decode(&mut self) -> (r: Result<CanonicalImage, DecodeError>)
        requires
            old(self).valid(),
        ensures
            final(self).valid(),
            final(self).source() == old(self).source(),
            final(self).parses_auxiliary() == old(self).parses_auxiliary(),
            old(self).decoded() ==> (r matches Err(e) && e is AlreadyDecoded && *final(self)
                == *old(self)),
            !old(self).decoded() ==> (r is Ok <==> successful_outcome(
                Self::header_record_of(old(self).source()),
                Self::decode_samples_of(old(self).source()),
            )),
            match r {
                Ok(img) => {
                    &&& img.wf()
                    &&& final(self).headers_read()
                    &&& final(self).decoded()
                    &&& img.metadata@ == final(self).record()
                    &&& img.metadata.depth == img.depth
                    &&& (Self::header_record_of(old(self).source()) matches Some(m) && img.metadata@
                        == effective_record(m, old(self).parses_auxiliary()))
                    &&& (Self::decode_samples_of(old(self).source()) matches DecodeOutcome::Samples(
                        pv,
                    ) && img.pixels@ == deinterleaved_view(
                        pv,
                        spec_channel_count(img.colorspace) as int,
                    ))
                    &&& (old(self).headers_read() ==> img.metadata@ == old(self).record())
                },
                Err(_) => true,
            },
            !old(self).decoded() ==> match r {
                Err(e) => match Self::header_record_of(old(self).source()) {
                    None => {
                        &&& (e is Truncated || e is Malformed)
                        &&& (e is Truncated <==> Self::header_failure_is_truncation(
                            old(self).source(),
                        ))
                        &&& e.spec_text() == Self::header_failure_text(old(self).source())
                        &&& is_prefixed(Self::message_prefix(), e.spec_text())
                    },
                    Some(_) => match Self::decode_samples_of(old(self).source()) {
                        DecodeOutcome::UnsupportedWidth => e == DecodeError::UnsupportedSampleWidth,
                        DecodeOutcome::Failed(t) => (e matches DecodeError::PixelReconstruction(_)
                            && e.spec_text() == Self::message_prefix() + t),
                        DecodeOutcome::Samples(_) => (e matches DecodeError::PixelReconstruction(_)
                            && e.spec_text() == Self::inconsistency_text()),
                    },
                },
                Ok(_) => true,
            },
    ;

    /// The image dimensions: `Some((width, height))`, equal to the pair
    /// the metadata record carries, exactly when headers have been read,
    /// and `None` — never a default pair — before.
    fn get_dimensions(&self) -> (r: Option<(usize, usize)>)
        ensures
            self.headers_read() ==> (r matches Some(d) && d.0 == self.record().width && d.1
                == self.record().height),
            !self.headers_read() ==> r is None,
    ;

    /// The colorspace of the pixel data a full decode will produce.
    ///
    /// May only be queried once headers have been read: before that no
    /// color information exists.
    fn get_out_colorspace(&self) -> (r: Colorspace)
        requires
            self.headers_read(),
        ensures
            r == self.record().colorspace,
    ;

    /// The fixed, human-readable identifier of the concrete format.
    fn get_name(&self) -> (r: &'static str)
        ensures
            r@ == Self::name_spec(),
    ;
}

} // verus!
