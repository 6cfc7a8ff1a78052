use gdcm_conv::{decode_outcome, ConversionOutcome, Error, GDCMError};

fn decode(status: u32) -> Result<usize, GDCMError> {
    decode_outcome(ConversionOutcome { status, size: 7 })
}

#[test]
fn status_zero_is_success_with_the_reported_size() {
    assert_eq!(decode(0x00), Ok(7));
    assert_eq!(decode_outcome(ConversionOutcome { status: 0, size: 0 }), Ok(0));
    assert_eq!(
        decode_outcome(ConversionOutcome { status: 0, size: usize::MAX }),
        Ok(usize::MAX)
    );
}

#[test]
fn pre_stage_codes_map_to_pre_errors() {
    assert_eq!(decode(0x11), Err(GDCMError::Pre(Error::ReadStream)));
    assert_eq!(decode(0x12), Err(GDCMError::Pre(Error::FileExplicitFilter)));
    assert_eq!(decode(0x13), Err(GDCMError::Pre(Error::InvalidTransferSyntax)));
    assert_eq!(decode(0x14), Err(GDCMError::Pre(Error::ExecuteChange)));
    assert_eq!(decode(0x15), Err(GDCMError::Pre(Error::DeriveFile)));
    assert_eq!(decode(0x16), Err(GDCMError::Pre(Error::WriteStream)));
}

#[test]
fn photometric_codes_map_to_photo_errors() {
    assert_eq!(decode(0x21), Err(GDCMError::Photo(Error::ReadStream)));
    assert_eq!(
        decode(0x22),
        Err(GDCMError::Photo(Error::InvalidPhotometricInterpretation))
    );
    assert_eq!(decode(0x23), Err(GDCMError::Photo(Error::ExecuteChange)));
    assert_eq!(decode(0x24), Err(GDCMError::Photo(Error::ExecuteLUTChange)));
    assert_eq!(decode(0x25), Err(GDCMError::Photo(Error::WriteStream)));
}

#[test]
fn post_stage_codes_map_to_post_errors() {
    assert_eq!(decode(0x31), Err(GDCMError::Post(Error::ReadStream)));
    assert_eq!(decode(0x32), Err(GDCMError::Post(Error::FileExplicitFilter)));
    assert_eq!(decode(0x33), Err(GDCMError::Post(Error::InvalidTransferSyntax)));
    assert_eq!(decode(0x34), Err(GDCMError::Post(Error::ExecuteChange)));
    assert_eq!(decode(0x35), Err(GDCMError::Post(Error::DeriveFile)));
    assert_eq!(decode(0x36), Err(GDCMError::Post(Error::WriteStream)));
}

#[test]
fn non_stage_codes_map_to_their_errors() {
    assert_eq!(decode(0x0F), Err(GDCMError::PointerNULL));
    assert_eq!(decode(0x1F), Err(GDCMError::EmptyBuffer));
}

#[test]
fn every_other_code_maps_to_unknown() {
    let strangers = vec![
        0x01u32,
        0x10,
        0x17,
        0x20,
        0x26,
        0x30,
        0x37,
        0x40,
        0xFE,
        0xFF,
        0x100,
        0xFFFF,
        u32::MAX,
    ];
    for status in strangers {
        assert_eq!(decode(status), Err(GDCMError::Unknown));
    }
}
