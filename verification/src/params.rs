use vstd::prelude::*;
use crate::syntax::TransferSyntax;

verus! {

/// The six scalar codec parameters consumed uniformly by the native
/// conversion entry point, whatever the codec family of the target
/// transfer syntax.
#[derive(Copy, Clone, Debug, PartialEq, Eq, Structural)]
pub struct CodecParams {
    /// Lossy compression requested (JPEG, JPEG2000 and JPEG-LS families).
    pub is_lossy: bool,
    /// Quality knob (JPEG quality; first JPEG2000 rate).
    pub quality1: u32,
    /// Second JPEG2000 rate.
    pub quality2: u32,
    /// Third JPEG2000 rate.
    pub quality3: u32,
    /// Irreversible wavelet mode (JPEG2000 only).
    pub irreversible: bool,
    /// Near-lossless tolerance (JPEG-LS only).
    pub allow_error: u32,
}

/// The parameter mapping: every target transfer syntax yields one fixed
/// parameter tuple.
///
/// JPEG variants are lossy iff their quality is nonzero; JPEG-LS
/// near-lossless is lossy iff its tolerance is nonzero, and the tolerance is
/// passed on either way; JPEG2000 variants are lossy iff any rate is nonzero
/// or the irreversible flag is set, with rates and flag passed on verbatim.
/// Every other transfer syntax maps to the all-zero, not-lossy tuple.
pub open spec fn spec_codec_params(ts: TransferSyntax) -> CodecParams {
    match ts {
        TransferSyntax::JPEGBaselineProcess1(q) => CodecParams {
            is_lossy: q > 0,
            quality1: q,
            quality2: 0,
            quality3: 0,
            irreversible: false,
            allow_error: 0,
        },
        TransferSyntax::JPEGExtendedProcess2_4(q) => CodecParams {
            is_lossy: q > 0,
            quality1: q,
            quality2: 0,
            quality3: 0,
            irreversible: false,
            allow_error: 0,
        },
        TransferSyntax::JPEGLSNearLossless(t) => CodecParams {
            is_lossy: t > 0,
            quality1: 0,
            quality2: 0,
            quality3: 0,
            irreversible: false,
            allow_error: t,
        },
        TransferSyntax::JPEG2000(q1, q2, q3, irr) => CodecParams {
            is_lossy: q1 != 0 || q2 != 0 || q3 != 0 || irr,
            quality1: q1,
            quality2: q2,
            quality3: q3,
            irreversible: irr,
            allow_error: 0,
        },
        TransferSyntax::JPEG2000Part2(q1, q2, q3, irr) => CodecParams {
            is_lossy: q1 != 0 || q2 != 0 || q3 != 0 || irr,
            quality1: q1,
            quality2: q2,
            quality3: q3,
            irreversible: irr,
            allow_error: 0,
        },
        _ => CodecParams {
            is_lossy: false,
            quality1: 0,
            quality2: 0,
            quality3: 0,
            irreversible: false,
            allow_error: 0,
        },
    }
}

/// Derive the codec parameter tuple for one target transfer syntax.
///
/// Total over all variants, and pure: the result is a function of the
/// transfer syntax alone, so repeated calls on the same value agree.
pub fn codec_params(ts: TransferSyntax) -> (p: CodecParams)
    ensures
        p == spec_codec_params(ts),
{
    match ts {
        TransferSyntax::JPEGBaselineProcess1(q) => CodecParams {
            is_lossy: q > 0,
            quality1: q,
            quality2: 0,
            quality3: 0,
            irreversible: false,
            allow_error: 0,
        },
        TransferSyntax::JPEGExtendedProcess2_4(q) => CodecParams {
            is_lossy: q > 0,
            quality1: q,
            quality2: 0,
            quality3: 0,
            irreversible: false,
            allow_error: 0,
        },
        TransferSyntax::JPEGLSNearLossless(t) => CodecParams {
            is_lossy: t > 0,
            quality1: 0,
            quality2: 0,
            quality3: 0,
            irreversible: false,
            allow_error: t,
        },
        TransferSyntax::JPEG2000(q1, q2, q3, irr) => CodecParams {
            is_lossy: q1 != 0 || q2 != 0 || q3 != 0 || irr,
            quality1: q1,
            quality2: q2,
            quality3: q3,
            irreversible: irr,
            allow_error: 0,
        },
        TransferSyntax::JPEG2000Part2(q1, q2, q3, irr) => CodecParams {
            is_lossy: q1 != 0 || q2 != 0 || q3 != 0 || irr,
            quality1: q1,
            quality2: q2,
            quality3: q3,
            irreversible: irr,
            allow_error: 0,
        },
        _ => CodecParams {
            is_lossy: false,
            quality1: 0,
            quality2: 0,
            quality3: 0,
            irreversible: false,
            allow_error: 0,
        },
    }
}

/// A transfer syntax whose codec knobs are all zero (or that has none) is
/// never mapped to a lossy request: erasing the knobs of any variant yields
/// the all-zero, not-lossy parameter tuple.
pub proof fn lemma_zero_params_not_lossy(ts: TransferSyntax)
    ensures
        spec_codec_params(ts.erase_params()) == (CodecParams {
            is_lossy: false,
            quality1: 0,
            quality2: 0,
            quality3: 0,
            irreversible: false,
            allow_error: 0,
        }),
{
}

} // verus!
