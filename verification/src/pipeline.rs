use vstd::prelude::*;
use crate::error::{Error, GDCMError};
use crate::params::{codec_params, spec_codec_params, CodecParams};
use crate::syntax::{PhotometricInterpretation, TransferSyntax};

verus! {

/// What one invocation of the native conversion entry point reports back:
/// a status code and a produced (or, on undersize, required) byte count.
/// Status 0 is success; the buffer's content is meaningful only then.
#[derive(Copy, Clone, Debug, PartialEq, Eq, Structural)]
pub struct ConversionOutcome {
    pub status: u32,
    pub size: usize,
}

/// The distinguished status reporting that the supplied buffer was too
/// small; the outcome's `size` then carries the exact capacity needed.
pub const UNDERSIZED: u32 = 0xFF;

/// The argument tuple for one invocation of the native conversion entry
/// point. The caller passes its buffer's pointer alongside; the buffer must
/// hold `source_len` input bytes and have capacity for at least `max_size`.
#[derive(Copy, Clone, Debug, PartialEq, Eq, Structural)]
pub struct NativeCall {
    pub source_len: usize,
    pub max_size: usize,
    pub pre_id: i32,
    pub post_id: i32,
    pub photo_id: i32,
    pub is_lossy: bool,
    pub quality1: u32,
    pub quality2: u32,
    pub quality3: u32,
    pub irreversible: bool,
    pub allow_error: u32,
}

/// The orchestrator's decision after one native outcome.
#[derive(Copy, Clone, Debug, PartialEq, Eq)]
pub enum Decision {
    /// Invoke the native entry point once more with the enlarged buffer.
    Retry,
    /// The run is over: truncate the buffer to the given length and publish
    /// it, or discard the buffer and report the error.
    Done(Result<usize, GDCMError>),
}

/// The status-code → error table of the native conversion entry point.
/// Every code outside the table maps to `Unknown`; so does the undersize
/// status, which the orchestrator intercepts before the one permitted retry
/// and treats as a hard failure after it.
pub open spec fn spec_status_error(status: u32) -> GDCMError {
    if status == 0x11 {
        GDCMError::Pre(Error::ReadStream)
    } else if status == 0x12 {
        GDCMError::Pre(Error::FileExplicitFilter)
    } else if status == 0x13 {
        GDCMError::Pre(Error::InvalidTransferSyntax)
    } else if status == 0x14 {
        GDCMError::Pre(Error::ExecuteChange)
    } else if status == 0x15 {
        GDCMError::Pre(Error::DeriveFile)
    } else if status == 0x16 {
        GDCMError::Pre(Error::WriteStream)
    } else if status == 0x21 {
        GDCMError::Photo(Error::ReadStream)
    } else if status == 0x22 {
        GDCMError::Photo(Error::InvalidPhotometricInterpretation)
    } else if status == 0x23 {
        GDCMError::Photo(Error::ExecuteChange)
    } else if status == 0x24 {
        GDCMError::Photo(Error::ExecuteLUTChange)
    } else if status == 0x25 {
        GDCMError::Photo(Error::WriteStream)
    } else if status == 0x31 {
        GDCMError::Post(Error::ReadStream)
    } else if status == 0x32 {
        GDCMError::Post(Error::FileExplicitFilter)
    } else if status == 0x33 {
        GDCMError::Post(Error::InvalidTransferSyntax)
    } else if status == 0x34 {
        GDCMError::Post(Error::ExecuteChange)
    } else if status == 0x35 {
        GDCMError::Post(Error::DeriveFile)
    } else if status == 0x36 {
        GDCMError::Post(Error::WriteStream)
    } else if status == 0x0F {
        GDCMError::PointerNULL
    } else if status == 0x1F {
        GDCMError::EmptyBuffer
    } else {
        GDCMError::Unknown
    }
}

/// How a final outcome resolves: status 0 yields the produced size, any
/// other status the stage-attributed error of the fixed table.
pub open spec fn spec_decode(outcome: ConversionOutcome) -> Result<usize, GDCMError> {
    if outcome.status == 0 {
        Ok(outcome.size)
    } else {
        Err(spec_status_error(outcome.status))
    }
}

/// Resolve a final outcome of the native conversion entry point: the
/// produced size on success, otherwise exactly one entry of the error
/// taxonomy — a raw status code never reaches the caller unwrapped.
pub fn decode_outcome(outcome: ConversionOutcome) -> (r: Result<usize, GDCMError>)
    ensures
        r == spec_decode(outcome),
{
    match outcome.status {
        0x00 => Ok(outcome.size),
        0x11 => Err(GDCMError::Pre(Error::ReadStream)),
        0x12 => Err(GDCMError::Pre(Error::FileExplicitFilter)),
        0x13 => Err(GDCMError::Pre(Error::InvalidTransferSyntax)),
        0x14 => Err(GDCMError::Pre(Error::ExecuteChange)),
        0x15 => Err(GDCMError::Pre(Error::DeriveFile)),
        0x16 => Err(GDCMError::Pre(Error::WriteStream)),
        0x21 => Err(GDCMError::Photo(Error::ReadStream)),
        0x22 => Err(GDCMError::Photo(Error::InvalidPhotometricInterpretation)),
        0x23 => Err(GDCMError::Photo(Error::ExecuteChange)),
        0x24 => Err(GDCMError::Photo(Error::ExecuteLUTChange)),
        0x25 => Err(GDCMError::Photo(Error::WriteStream)),
        0x31 => Err(GDCMError::Post(Error::ReadStream)),
        0x32 => Err(GDCMError::Post(Error::FileExplicitFilter)),
        0x33 => Err(GDCMError::Post(Error::InvalidTransferSyntax)),
        0x34 => Err(GDCMError::Post(Error::ExecuteChange)),
        0x35 => Err(GDCMError::Post(Error::DeriveFile)),
        0x36 => Err(GDCMError::Post(Error::WriteStream)),
        0x0F => Err(GDCMError::PointerNULL),
        0x1F => Err(GDCMError::EmptyBuffer),
        _ => Err(GDCMError::Unknown),
    }
}

/// Relies on Vec::capacity: the number of bytes the vector can hold without
/// reallocating, never less than its length.
#[verifier::external_body]
fn vec_capacity(v: &Vec<u8>) -> (c: usize)
    ensures
        c >= v@.len(),
{
    v.capacity()
}

/// One conversion run through the native entry point: fixed stage
/// identifiers and codec parameters, the buffer capacity to announce, and
/// whether the single permitted undersize retry has been spent.
///
/// A run is driven from outside: `start` it on the input buffer, invoke the
/// native entry point with [`PipelineState::call`]'s arguments and the
/// buffer, and hand the reported outcome to `on_outcome` until it settles on
/// [`Decision::Done`].
pub struct PipelineState {
    pub pre: TransferSyntax,
    pub photo: PhotometricInterpretation,
    pub post: TransferSyntax,
    pub params: CodecParams,
    pub source_len: usize,
    pub max_size: usize,
    pub retried: bool,
}

impl PipelineState {
    /// The codec parameters carried by the run stay those mapped from its
    /// post-stage transfer syntax.
    pub open spec fn wf(self) -> bool {
        self.params == spec_codec_params(self.post)
    }

    /// Begin one conversion run over `source`.
    ///
    /// An empty input is a defined failure, `EmptyBuffer`, and the only
    /// failure here; no native call is to be made for it. Otherwise the
    /// buffer is grown by the caller's estimate — or by three times the
    /// input length, the worst-case expansion from compressed to raw pixel
    /// data — and the capacity actually obtained (not the nominal request)
    /// becomes the `max_size` announced to the native entry point.
    pub fn start(
        source: &mut Vec<u8>,
        estimated_length: Option<usize>,
        transfer_syntax_pre: TransferSyntax,
        photometric_interpretation: PhotometricInterpretation,
        transfer_syntax_post: TransferSyntax,
    ) -> (r: Result<PipelineState, GDCMError>)
        requires
            estimated_length is None ==> old(source)@.len() * 3 <= usize::MAX,
        ensures
            final(source)@ == old(source)@,
            r is Err <==> old(source)@.len() == 0,
            r matches Err(e) ==> e == GDCMError::EmptyBuffer,
            r matches Ok(st) ==> ({
                &&& st.wf()
                &&& st.pre == transfer_syntax_pre
                &&& st.photo == photometric_interpretation
                &&& st.post == transfer_syntax_post
                &&& st.params == spec_codec_params(transfer_syntax_post)
                &&& st.source_len == old(source)@.len()
                &&& st.max_size >= old(source)@.len()
                &&& !st.retried
            }),
    {
        if source.len() == 0 {
            return Err(GDCMError::EmptyBuffer);
        }
        let params = codec_params(transfer_syntax_post);
        let extra: usize = match estimated_length {
            Some(t) => t,
            None => source.len() * 3,
        };
        source.reserve(extra);
        let max_size = vec_capacity(source);
        Ok(
            PipelineState {
                pre: transfer_syntax_pre,
                photo: photometric_interpretation,
                post: transfer_syntax_post,
                params,
                source_len: source.len(),
                max_size,
                retried: false,
            },
        )
    }

    /// The argument tuple for the next invocation of the native conversion
    /// entry point.
    pub fn call(&self) -> (c: NativeCall)
        ensures
            c.source_len == self.source_len,
            c.max_size == self.max_size,
            c.pre_id == self.pre.spec_id(),
            c.post_id == self.post.spec_id(),
            c.photo_id == self.photo.spec_id(),
            c.is_lossy == self.params.is_lossy,
            c.quality1 == self.params.quality1,
            c.quality2 == self.params.quality2,
            c.quality3 == self.params.quality3,
            c.irreversible == self.params.irreversible,
            c.allow_error == self.params.allow_error,
    {
        NativeCall {
            source_len: self.source_len,
            max_size: self.max_size,
            pre_id: self.pre.to_id(),
            post_id: self.post.to_id(),
            photo_id: self.photo.to_id(),
            is_lossy: self.params.is_lossy,
            quality1: self.params.quality1,
            quality2: self.params.quality2,
            quality3: self.params.quality3,
            irreversible: self.params.irreversible,
            allow_error: self.params.allow_error,
        }
    }

    /// Decide from one native outcome how the run goes on.
    ///
    /// A first undersize outcome grows the buffer by the exact size the
    /// native call reported as needed, announces that size as the new
    /// `max_size`, and asks for the one permitted retry. Any other outcome
    /// ends the run: success carries exactly the reported produced size, a
    /// known error status its taxonomy entry, and everything else —
    /// including a second undersize signal, a hard failure by design —
    /// `Unknown`. A retry is never asked for twice.
    pub fn on_outcome(&mut self, source: &mut Vec<u8>, outcome: ConversionOutcome) -> (v: Decision)
        requires
            old(self).wf(),
        ensures
            final(self).wf(),
            final(source)@ == old(source)@,
            final(self).pre == old(self).pre,
            final(self).photo == old(self).photo,
            final(self).post == old(self).post,
            final(self).params == old(self).params,
            final(self).source_len == old(self).source_len,
            old(self).retried ==> v != Decision::Retry,
            (outcome.status == UNDERSIZED && !old(self).retried) ==> ({
                &&& v == Decision::Retry
                &&& final(self).retried
                &&& final(self).max_size == outcome.size
            }),
            !(outcome.status == UNDERSIZED && !old(self).retried) ==> ({
                &&& *final(self) == *old(self)
                &&& v == Decision::Done(spec_decode(outcome))
            }),
    {
        if outcome.status == UNDERSIZED && !self.retried {
            source.reserve(outcome.size);
            self.max_size = outcome.size;
            self.retried = true;
            Decision::Retry
        } else {
            Decision::Done(decode_outcome(outcome))
        }
    }
}

} // verus!
