//! The shared error domain: every codec's native failures are translated
//! into exactly these kinds, keeping the codec's diagnostic text.

use vstd::prelude::*;

verus! {

/// The single error vocabulary the adapter surfaces to its callers.
#[derive(Debug)]
pub enum DecodeError {
    /// The input is structurally invalid.
    Malformed(String),
    /// The input ended before the structure it promised was complete.
    Truncated(String),
    /// Sample decoding failed after a structurally valid header.
    PixelReconstruction(String),
    /// The codec produced a sample representation this adapter has no
    /// constructor for: an integration fault between adapter and codec,
    /// not a property of the input data.
    UnsupportedSampleWidth,
    /// A second full decode was requested from the same decoder instance.
    AlreadyDecoded,
}

impl DecodeError {
    /// The diagnostic text the error carries; the two contract-fault
    /// variants carry none.
    pub open spec fn spec_text(&self) -> Seq<char> {
        match self {
            DecodeError::Malformed(m) => m@,
            DecodeError::Truncated(m) => m@,
            DecodeError::PixelReconstruction(m) => m@,
            DecodeError::UnsupportedSampleWidth => Seq::empty(),
            DecodeError::AlreadyDecoded => Seq::empty(),
        }
    }
}

/// Whether `text` begins with `prefix`.
pub open spec fn is_prefixed(prefix: Seq<char>, text: Seq<char>) -> bool {
    text.len() >= prefix.len() && text.subrange(0, prefix.len() as int) == prefix
}

/// An equal copy of a diagnostic string.
pub(crate) fn copy_string(s: &String) -> (r: String)
    ensures
        r@ == s@,
{
    String::from_str(s.as_str())
}

/// Prepend a format-name prefix to a codec diagnostic.
pub(crate) fn prefix_message(prefix: &str, body: &String) -> (r: String)
    ensures
        r@ == prefix@ + body@,
{
    String::from_str(prefix).concat(body.as_str())
}

/// A sequence that begins with `prefix` is prefixed by it.
pub proof fn lemma_prefixed(prefix: Seq<char>, body: Seq<char>)
    ensures
        is_prefixed(prefix, prefix + body),
{
    assert((prefix + body).subrange(0, prefix.len() as int) =~= prefix);
}

/// Decide the error kind for a failed header read from what the codec's
/// error revealed: an input that ran out is `Truncated`, every other
/// header failure is `Malformed`; the rendered diagnostic is kept either
/// way.
pub fn classify_header_failure(input_ran_out: bool, message: String) -> (r: DecodeError)
    ensures
        input_ran_out ==> (r matches DecodeError::Truncated(m) && m@ == message@),
        !input_ran_out ==> (r matches DecodeError::Malformed(m) && m@ == message@),
{
    if input_ran_out {
        DecodeError::Truncated(message)
    } else {
        DecodeError::Malformed(message)
    }
}

} // verus!
