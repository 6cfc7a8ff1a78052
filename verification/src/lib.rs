//! Transcoding pipeline orchestration for DICOM files: transfer syntax
//! and photometric interpretation conversion.
//!
//! The pixel codecs themselves (JPEG, JPEG2000, JPEG-LS, RLE, MPEG2) live in
//! a native imaging toolkit reached through one conversion entry point. This
//! crate holds everything around that call: the stable wire identifiers of
//! the transfer syntaxes and photometric interpretations, the mapping from a
//! target transfer syntax to the six scalar codec parameters, the output
//! buffer sizing with its single undersize retry, and the translation of the
//! entry point's status code into a stage-attributed error.
//!
//! A caller drives one conversion through [`PipelineState`]: `start` sizes
//! the buffer and fixes the parameters, [`PipelineState::call`] yields the
//! argument tuple for the native invocation, and `on_outcome` turns the
//! reported (status, size) pair into the next step: retry once with an
//! enlarged buffer, publish the produced length, or fail with a
//! [`GDCMError`].

mod error;
mod params;
mod pipeline;
mod syntax;

pub use crate::error::{Error, GDCMError};
pub use crate::params::{codec_params, lemma_zero_params_not_lossy, spec_codec_params, CodecParams};
pub use crate::pipeline::{
    decode_outcome, spec_decode, spec_status_error, ConversionOutcome, NativeCall, PipelineState,
    Decision, UNDERSIZED,
};
pub use crate::syntax::{
    lemma_photometric_interpretation_id_injective, lemma_transfer_syntax_id_injective,
    PhotometricInterpretation, TransferSyntax,
};
