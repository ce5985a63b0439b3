//! The decode-failure taxonomy: backend-tagged errors carrying a diagnostic.

use vstd::prelude::*;
use vstd::string::StringExecFns;
use vstd::assert_seqs_equal;

verus! {

/// A decode-level failure, tagged with the backend it originated in and
/// carrying a human-readable diagnostic. End-of-stream is not an error and
/// never appears here.
#[derive(Debug)]
pub enum DecoderError {
    /// A failure originating in the passthrough backend.
    PassthroughDecoder(String),
    /// A failure originating in the full-decode backend, including the wrapped
    /// decode library's own errors, rendered to text.
    SymphoniaDecoder(String),
}

pub type DecoderResult<T> = Result<T, DecoderError>;

/// The originating backend's tag, as rendered at the head of the diagnostic.
pub open spec fn spec_backend_tag(e: DecoderError) -> Seq<char> {
    match e {
        DecoderError::PassthroughDecoder(_) => "Passthrough Decoder Error: "@,
        DecoderError::SymphoniaDecoder(_) => "Symphonia Decoder Error: "@,
    }
}

/// The wrapped diagnostic message, without the backend tag.
pub open spec fn spec_diagnostic(e: DecoderError) -> Seq<char> {
    match e {
        DecoderError::PassthroughDecoder(m) => m@,
        DecoderError::SymphoniaDecoder(m) => m@,
    }
}

/// The full rendered text of an error: its backend's tag followed by the
/// wrapped diagnostic.
pub open spec fn spec_message(e: DecoderError) -> Seq<char> {
    spec_backend_tag(e) + spec_diagnostic(e)
}

impl DecoderError {
    /// Render the error for display: the originating backend's name followed
    /// by the underlying diagnostic.
    pub fn message(&self) -> (r: String)
        ensures
            r@ == spec_message(*self),
    {
        match self {
            DecoderError::PassthroughDecoder(m) => {
                "Passthrough Decoder Error: ".to_owned().concat(m.as_str())
            },
            DecoderError::SymphoniaDecoder(m) => {
                "Symphonia Decoder Error: ".to_owned().concat(m.as_str())
            },
        }
    }
}

/// The rendered text of every error carries both parts intact: it starts with
/// the originating backend's tag and ends with the wrapped diagnostic.
pub proof fn lemma_message_carries_both_parts(e: DecoderError)
    ensures
        spec_message(e).subrange(0, spec_backend_tag(e).len() as int) == spec_backend_tag(e),
        spec_message(e).subrange(
            spec_backend_tag(e).len() as int,
            spec_message(e).len() as int,
        ) == spec_diagnostic(e),
{
    assert_seqs_equal!(
        spec_message(e).subrange(0, spec_backend_tag(e).len() as int) == spec_backend_tag(e)
    );
    assert_seqs_equal!(
        spec_message(e).subrange(
            spec_backend_tag(e).len() as int,
            spec_message(e).len() as int,
        ) == spec_diagnostic(e)
    );
}

/// Whether the wrapped decode library's error is its io-wrapping variant.
/// That variant's rendering defers to the wrapped io error, whose text can
/// depend on the platform and the process, so nothing is claimed of it.
pub uninterp spec fn symphonia_error_is_io(err: symphonia::core::errors::Error) -> bool;

/// The rendered text of the wrapped decode library's error. For every variant
/// but the io-wrapping one the rendering is a fixed description plus a static
/// detail, a pure function of the error value, so it can be named without
/// being written out.
pub uninterp spec fn symphonia_error_string(err: symphonia::core::errors::Error) -> String;

#[verifier::external_type_specification]
#[verifier::external_body]
pub struct ExSymphoniaError(symphonia::core::errors::Error);

/// Relies on the `Display` rendering of `symphonia::core::errors::Error`: its
/// five non-io variants render a fixed description plus their static detail,
/// determined by the error value alone. The io-wrapping variant defers to the
/// wrapped io error's own rendering, of which nothing is claimed.
#[verifier::external_body]
fn render_symphonia_error(err: &symphonia::core::errors::Error) -> (r: String)
    ensures
        !symphonia_error_is_io(*err) ==> r == symphonia_error_string(*err),
{
    err.to_string()
}

impl From<symphonia::core::errors::Error> for DecoderError {
    /// Turn the wrapped decode library's error into the full-decode
    /// backend's variant by rendering it. The rendered diagnostic is pinned
    /// for every error but the io-wrapping variant.
    fn from(err: symphonia::core::errors::Error) -> (r: DecoderError)
        ensures
            r is SymphoniaDecoder,
            !symphonia_error_is_io(err) ==> r == DecoderError::SymphoniaDecoder(
                symphonia_error_string(err),
            ),
    {
        DecoderError::SymphoniaDecoder(render_symphonia_error(&err))
    }
}

impl vstd::std_specs::convert::FromSpecImpl<symphonia::core::errors::Error> for DecoderError {
    /// The conversion's result is not a total function of the error that the
    /// library could state (the io-wrapping variant's rendering is not
    /// pinned), so the contract lives on `from` itself.
    open spec fn obeys_from_spec() -> bool {
        false
    }

    open spec fn from_spec(err: symphonia::core::errors::Error) -> DecoderError {
        DecoderError::SymphoniaDecoder(symphonia_error_string(err))
    }
}

} // verus!
