use gdcm_conv::{
    ConversionOutcome, Error, GDCMError, PhotometricInterpretation, PipelineState, TransferSyntax,
    Decision, UNDERSIZED,
};

#[test]
fn empty_input_fails_before_any_native_call() {
    let mut buf: Vec<u8> = Vec::new();
    let r = PipelineState::start(
        &mut buf,
        None,
        TransferSyntax::JPEG2000Lossless,
        PhotometricInterpretation::NoConversion,
        TransferSyntax::NoConversion,
    );
    assert!(matches!(r, Err(GDCMError::EmptyBuffer)));
    let r2 = PipelineState::start(
        &mut buf,
        Some(4096),
        TransferSyntax::NoConversion,
        PhotometricInterpretation::RGB,
        TransferSyntax::JPEGBaselineProcess1(85),
    );
    assert!(matches!(r2, Err(GDCMError::EmptyBuffer)));
}

#[test]
fn default_reservation_is_three_times_the_input() {
    let mut buf = vec![0u8; 100];
    let mut st = PipelineState::start(
        &mut buf,
        None,
        TransferSyntax::JPEG2000Lossless,
        PhotometricInterpretation::NoConversion,
        TransferSyntax::NoConversion,
    )
    .unwrap();
    assert_eq!(buf.len(), 100);
    assert!(buf.capacity() >= 400);
    let call = st.call();
    assert_eq!(call.source_len, 100);
    assert!(call.max_size >= 400);
    assert_eq!(call.pre_id, 10);
    assert_eq!(call.photo_id, 0);
    assert_eq!(call.post_id, 0);
    match st.on_outcome(&mut buf, ConversionOutcome { status: 0, size: 250 }) {
        Decision::Done(Ok(len)) => {
            assert_eq!(len, 250);
            assert!(len <= call.max_size);
        }
        _ => panic!("expected a successful final decision"),
    }
}

#[test]
fn explicit_estimate_reserves_exactly_that_much_extra() {
    let mut buf = vec![1u8; 50];
    let st = PipelineState::start(
        &mut buf,
        Some(1000),
        TransferSyntax::ExplicitVRLittleEndian,
        PhotometricInterpretation::NoConversion,
        TransferSyntax::NoConversion,
    )
    .unwrap();
    assert_eq!(buf.len(), 50);
    assert!(buf.capacity() >= 1050);
    assert!(st.call().max_size >= 1050);
}

#[test]
fn undersize_retries_exactly_once_with_enlarged_capacity() {
    let mut buf = vec![0u8; 400];
    let mut st = PipelineState::start(
        &mut buf,
        Some(0),
        TransferSyntax::NoConversion,
        PhotometricInterpretation::NoConversion,
        TransferSyntax::NoConversion,
    )
    .unwrap();
    assert!(!st.retried);
    let v = st.on_outcome(&mut buf, ConversionOutcome { status: UNDERSIZED, size: 5000 });
    assert_eq!(v, Decision::Retry);
    assert!(st.retried);
    assert_eq!(st.call().max_size, 5000);
    assert!(buf.capacity() >= 5000);
    assert_eq!(buf.len(), 400);
    let v2 = st.on_outcome(&mut buf, ConversionOutcome { status: UNDERSIZED, size: 9000 });
    assert_eq!(v2, Decision::Done(Err(GDCMError::Unknown)));
    assert_eq!(st.call().max_size, 5000);
}

#[test]
fn retry_then_success_publishes_the_reported_size() {
    let mut buf = vec![0u8; 400];
    let mut st = PipelineState::start(
        &mut buf,
        None,
        TransferSyntax::NoConversion,
        PhotometricInterpretation::NoConversion,
        TransferSyntax::JPEG2000Lossless,
    )
    .unwrap();
    let v = st.on_outcome(&mut buf, ConversionOutcome { status: UNDERSIZED, size: 5000 });
    assert_eq!(v, Decision::Retry);
    let v2 = st.on_outcome(&mut buf, ConversionOutcome { status: 0, size: 4700 });
    assert_eq!(v2, Decision::Done(Ok(4700)));
}

#[test]
fn error_status_ends_the_run_without_retry() {
    let mut buf = vec![0u8; 64];
    let mut st = PipelineState::start(
        &mut buf,
        None,
        TransferSyntax::ExplicitVRLittleEndian,
        PhotometricInterpretation::RGB,
        TransferSyntax::NoConversion,
    )
    .unwrap();
    let v = st.on_outcome(&mut buf, ConversionOutcome { status: 0x23, size: 0 });
    assert_eq!(v, Decision::Done(Err(GDCMError::Photo(Error::ExecuteChange))));
    assert!(!st.retried);
}

#[test]
fn codec_parameters_flow_into_the_native_call() {
    let mut buf = vec![0u8; 10];
    let st = PipelineState::start(
        &mut buf,
        None,
        TransferSyntax::ExplicitVRLittleEndian,
        PhotometricInterpretation::RGB,
        TransferSyntax::JPEGBaselineProcess1(85),
    )
    .unwrap();
    let c = st.call();
    assert!(c.is_lossy);
    assert_eq!(c.quality1, 85);
    assert_eq!(c.quality2, 0);
    assert_eq!(c.quality3, 0);
    assert!(!c.irreversible);
    assert_eq!(c.allow_error, 0);
    assert_eq!(c.pre_id, 2);
    assert_eq!(c.photo_id, 4);
    assert_eq!(c.post_id, 4);
}
