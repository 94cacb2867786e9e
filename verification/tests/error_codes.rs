use sel4_invoke::Error;

#[test]
fn status_zero_is_no_error() {
    assert_eq!(Error::from_sys(0), None);
}

#[test]
fn each_error_encodes_to_its_own_code() {
    assert_eq!(Error::InvalidArgument.into_sys(), 1);
    assert_eq!(Error::InvalidCapability.into_sys(), 2);
    assert_eq!(Error::IllegalOperation.into_sys(), 3);
    assert_eq!(Error::RangeError.into_sys(), 4);
    assert_eq!(Error::AlignmentError.into_sys(), 5);
    assert_eq!(Error::FailedLookup.into_sys(), 6);
    assert_eq!(Error::TruncatedMessage.into_sys(), 7);
    assert_eq!(Error::DeleteFirst.into_sys(), 8);
    assert_eq!(Error::RevokeFirst.into_sys(), 9);
    assert_eq!(Error::NotEnoughMemory.into_sys(), 10);
    assert_eq!(Error::InsufficientRights.into_sys(), 11);
    assert_eq!(Error::AddressInUse.into_sys(), 12);
    assert_eq!(Error::InvalidIndex.into_sys(), 13);
    assert_eq!(Error::UnsupportedObjectKind.into_sys(), 14);
}

#[test]
fn each_code_decodes_to_its_own_error() {
    assert_eq!(Error::from_sys(1), Some(Error::InvalidArgument));
    assert_eq!(Error::from_sys(2), Some(Error::InvalidCapability));
    assert_eq!(Error::from_sys(3), Some(Error::IllegalOperation));
    assert_eq!(Error::from_sys(4), Some(Error::RangeError));
    assert_eq!(Error::from_sys(5), Some(Error::AlignmentError));
    assert_eq!(Error::from_sys(6), Some(Error::FailedLookup));
    assert_eq!(Error::from_sys(7), Some(Error::TruncatedMessage));
    assert_eq!(Error::from_sys(8), Some(Error::DeleteFirst));
    assert_eq!(Error::from_sys(9), Some(Error::RevokeFirst));
    assert_eq!(Error::from_sys(10), Some(Error::NotEnoughMemory));
    assert_eq!(Error::from_sys(11), Some(Error::InsufficientRights));
    assert_eq!(Error::from_sys(12), Some(Error::AddressInUse));
    assert_eq!(Error::from_sys(13), Some(Error::InvalidIndex));
    assert_eq!(Error::from_sys(14), Some(Error::UnsupportedObjectKind));
}

#[test]
fn decode_then_encode_is_identity_on_the_taxonomy() {
    for code in 1u64..=14 {
        let decoded = Error::from_sys(code).expect("a nonzero status decodes to an error");
        assert_eq!(decoded.into_sys(), code);
    }
}

#[test]
fn decoding_is_total_outside_the_taxonomy() {
    assert_eq!(Error::from_sys(15), Some(Error::UnsupportedObjectKind));
    assert_eq!(Error::from_sys(99), Some(Error::UnsupportedObjectKind));
    assert_eq!(Error::from_sys(u64::MAX), Some(Error::UnsupportedObjectKind));
}

#[test]
fn wrap_mirrors_the_status() {
    assert_eq!(Error::wrap(0), Ok(()));
    assert_eq!(Error::wrap(5), Err(Error::AlignmentError));
}

#[test]
fn or_keeps_the_value_only_on_success() {
    assert_eq!(Error::or(0, 77), Ok(77));
    assert_eq!(Error::or(6, 77), Err(Error::FailedLookup));
}
