use vstd::prelude::*;

verus! {

/// Target bitstream encoding of a DICOM dataset. Each variant carries the
/// codec quality knobs its family accepts; `NoConversion` means the stage is skipped.
///
/// Every variant projects to a stable small integer identifier through
/// [`TransferSyntax::to_id`]. That identifier is the wire contract with the
/// native conversion entry point and is fixed explicitly here rather than
/// derived from declaration order.
#[derive(Copy, Clone, Debug)]
pub enum TransferSyntax {
    NoConversion,
    /// [1.2.840.10008.1.2] Implicit VR Endian: Default Transfer Syntax for DICOM.
    ImplicitVRLittleEndian,
    /// [1.2.840.10008.1.2.1] Explicit VR Little Endian.
    ExplicitVRLittleEndian,
    /// [1.2.840.10008.1.2.2] Explicit VR Big Endian.
    ExplicitVRBigEndian,
    /// [1.2.840.10008.1.2.5] RLE Lossless.
    RLELossless,
    /// [1.2.840.10008.1.2.4.50] JPEG Baseline (Process 1). Input parameter: (quality).
    JPEGBaselineProcess1(u32),
    /// [1.2.840.10008.1.2.4.51] JPEG Baseline (Processes 2 & 4). Input parameter: (quality).
    JPEGExtendedProcess2_4(u32),
    /// [1.2.840.10008.1.2.4.57] JPEG Lossless, Nonhierarchical (Processes 14).
    JPEGLosslessProcess14,
    /// [1.2.840.10008.1.2.4.70] JPEG Lossless, Nonhierarchical, First-Order
    /// Prediction (Processes 14 [Selection Value 1]).
    JPEGLosslessProcess14_1,
    /// [1.2.840.10008.1.2.4.80] JPEG-LS Lossless Image Compression.
    JPEGLSLossless,
    /// [1.2.840.10008.1.2.4.81] JPEG-LS Lossy (Near-Lossless) Image Compression.
    /// Input parameter: (allow_error).
    JPEGLSNearLossless(u32),
    /// [1.2.840.10008.1.2.4.90] JPEG 2000 Image Compression (Lossless Only).
    JPEG2000Lossless,
    /// [1.2.840.10008.1.2.4.91] JPEG 2000 Image Compression.
    /// Input parameters: (quality1, quality2, quality3, irreversible).
    JPEG2000(u32, u32, u32, bool),
    /// [1.2.840.10008.1.2.4.92] JPEG 2000 Part 2 Multicomponent Image Compression (Lossless Only).
    JPEG2000Part2Lossless,
    /// [1.2.840.10008.1.2.4.93] JPEG 2000 Part 2 Multicomponent Image Compression.
    /// Input parameters: (quality1, quality2, quality3, irreversible).
    JPEG2000Part2(u32, u32, u32, bool),
    /// [1.2.840.10008.1.2.4.94] MPEG2 Main Profile.
    MPEG2MainProfile,
}

impl TransferSyntax {
    /// The frozen wire identifier of each variant.
    pub open spec fn spec_id(self) -> int {
        match self {
            TransferSyntax::NoConversion => 0,
            TransferSyntax::ImplicitVRLittleEndian => 1,
            TransferSyntax::ExplicitVRLittleEndian => 2,
            TransferSyntax::ExplicitVRBigEndian => 3,
            TransferSyntax::JPEGBaselineProcess1(_) => 4,
            TransferSyntax::JPEGExtendedProcess2_4(_) => 5,
            TransferSyntax::JPEGLosslessProcess14 => 6,
            TransferSyntax::JPEGLosslessProcess14_1 => 7,
            TransferSyntax::JPEGLSLossless => 8,
            TransferSyntax::JPEGLSNearLossless(_) => 9,
            TransferSyntax::JPEG2000Lossless => 10,
            TransferSyntax::JPEG2000(_, _, _, _) => 11,
            TransferSyntax::JPEG2000Part2Lossless => 12,
            TransferSyntax::JPEG2000Part2(_, _, _, _) => 13,
            TransferSyntax::RLELossless => 14,
            TransferSyntax::MPEG2MainProfile => 15,
        }
    }

    /// The same variant with its codec quality knobs erased to zero. Two
    /// transfer syntaxes with equal erasures are the same variant.
    pub open spec fn erase_params(self) -> TransferSyntax {
        match self {
            TransferSyntax::JPEGBaselineProcess1(_) => TransferSyntax::JPEGBaselineProcess1(0),
            TransferSyntax::JPEGExtendedProcess2_4(_) => TransferSyntax::JPEGExtendedProcess2_4(0),
            TransferSyntax::JPEGLSNearLossless(_) => TransferSyntax::JPEGLSNearLossless(0),
            TransferSyntax::JPEG2000(_, _, _, _) => TransferSyntax::JPEG2000(0, 0, 0, false),
            TransferSyntax::JPEG2000Part2(_, _, _, _) => TransferSyntax::JPEG2000Part2(
                0,
                0,
                0,
                false,
            ),
            other => other,
        }
    }

    /// The stable identifier handed to the native conversion entry point.
    pub fn to_id(self) -> (id: i32)
        ensures
            id == self.spec_id(),
            0 <= id <= 15,
    {
        match self {
            TransferSyntax::NoConversion => 0,
            TransferSyntax::ImplicitVRLittleEndian => 1,
            TransferSyntax::ExplicitVRLittleEndian => 2,
            TransferSyntax::ExplicitVRBigEndian => 3,
            TransferSyntax::JPEGBaselineProcess1(_) => 4,
            TransferSyntax::JPEGExtendedProcess2_4(_) => 5,
            TransferSyntax::JPEGLosslessProcess14 => 6,
            TransferSyntax::JPEGLosslessProcess14_1 => 7,
            TransferSyntax::JPEGLSLossless => 8,
            TransferSyntax::JPEGLSNearLossless(_) => 9,
            TransferSyntax::JPEG2000Lossless => 10,
            TransferSyntax::JPEG2000(_, _, _, _) => 11,
            TransferSyntax::JPEG2000Part2Lossless => 12,
            TransferSyntax::JPEG2000Part2(_, _, _, _) => 13,
            TransferSyntax::RLELossless => 14,
            TransferSyntax::MPEG2MainProfile => 15,
        }
    }
}

/// No two transfer syntax variants share a wire identifier: equal
/// identifiers mean equal variants, up to the erased codec parameters.
pub proof fn lemma_transfer_syntax_id_injective(a: TransferSyntax, b: TransferSyntax)
    ensures
        a.spec_id() == b.spec_id() ==> a.erase_params() == b.erase_params(),
{
}

/// Color-space semantics of the decoded pixel data; `NoConversion` skips the
/// photometric conversion stage.
#[derive(Copy, Clone)]
pub enum PhotometricInterpretation {
    NoConversion,
    Monochrome1,
    Monochrome2,
    PaletteColor,
    RGB,
    HSV,
    ARGB,
    CMYK,
    YbrFull,
    YbrFull422,
    YbrPartial422,
    YbrPartial420,
    YbrIct,
    YbrRct,
}

impl PhotometricInterpretation {
    /// The frozen wire identifier of each variant.
    pub open spec fn spec_id(self) -> int {
        match self {
            PhotometricInterpretation::NoConversion => 0,
            PhotometricInterpretation::Monochrome1 => 1,
            PhotometricInterpretation::Monochrome2 => 2,
            PhotometricInterpretation::PaletteColor => 3,
            PhotometricInterpretation::RGB => 4,
            PhotometricInterpretation::HSV => 5,
            PhotometricInterpretation::ARGB => 6,
            PhotometricInterpretation::CMYK => 7,
            PhotometricInterpretation::YbrFull => 8,
            PhotometricInterpretation::YbrFull422 => 9,
            PhotometricInterpretation::YbrPartial422 => 10,
            PhotometricInterpretation::YbrPartial420 => 11,
            PhotometricInterpretation::YbrIct => 12,
            PhotometricInterpretation::YbrRct => 13,
        }
    }

    /// The stable identifier handed to the native conversion entry point.
    pub fn to_id(self) -> (id: i32)
        ensures
            id == self.spec_id(),
            0 <= id <= 13,
    {
        match self {
            PhotometricInterpretation::NoConversion => 0,
            PhotometricInterpretation::Monochrome1 => 1,
            PhotometricInterpretation::Monochrome2 => 2,
            PhotometricInterpretation::PaletteColor => 3,
            PhotometricInterpretation::RGB => 4,
            PhotometricInterpretation::HSV => 5,
            PhotometricInterpretation::ARGB => 6,
            PhotometricInterpretation::CMYK => 7,
            PhotometricInterpretation::YbrFull => 8,
            PhotometricInterpretation::YbrFull422 => 9,
            PhotometricInterpretation::YbrPartial422 => 10,
            PhotometricInterpretation::YbrPartial420 => 11,
            PhotometricInterpretation::YbrIct => 12,
            PhotometricInterpretation::YbrRct => 13,
        }
    }
}

/// No two photometric interpretations share a wire identifier.
pub proof fn lemma_photometric_interpretation_id_injective(
    a: PhotometricInterpretation,
    b: PhotometricInterpretation,
)
    ensures
        a.spec_id() == b.spec_id() ==> a == b,
{
}

} // verus!
