use status_decoder::Exception;
use status_decoder::Status;

#[test]
fn decode_zero_returns_success() {
    let r = Exception::new(0).into_result();
    assert!(r.is_ok());
}

#[test]
fn classify_zero_is_success() {
    assert_eq!(Exception::new(0).classify(), Status::Success);
}

#[test]
fn classify_sentinel_is_unhandled_exception() {
    assert_eq!(Exception::new(u32::MAX).classify(), Status::UnhandledException);
    assert_eq!(Exception::new(4294967295).classify(), Status::UnhandledException);
}

#[test]
fn classify_other_nonzero_codes_are_unexpected() {
    for code in [1u32, 2u32, 7u32, 42u32, 4294967294u32] {
        assert_eq!(Exception::new(code).classify(), Status::UnexpectedValue);
    }
}

#[test]
fn diagnostics_name_each_fatal_class() {
    let unhandled = Exception::new(u32::MAX).classify().diagnostic();
    assert_eq!(unhandled.unwrap(), "Unhandled exception");
    let unexpected = Exception::new(7).classify().diagnostic();
    assert_eq!(unexpected.unwrap(), "Unexpected exception value");
    assert!(Exception::new(0).classify().diagnostic().is_none());
}

#[test]
fn fatal_exactly_outside_success() {
    assert!(!Exception::new(0).classify().is_fatal());
    assert!(Exception::new(u32::MAX).classify().is_fatal());
    assert!(Exception::new(7).classify().is_fatal());
}

#[test]
fn every_representative_code_is_classified() {
    for code in [0u32, 1u32, 2u32, 7u32, 4294967294u32, 4294967295u32] {
        match Exception::new(code).classify() {
            Status::Success => assert_eq!(code, 0),
            Status::UnhandledException => assert_eq!(code, u32::MAX),
            Status::UnexpectedValue => assert!(code != 0 && code != u32::MAX),
        }
    }
}

#[test]
fn repeated_decode_of_zero_stays_success() {
    let mut round: u32 = 0;
    while round < 3 {
        let e = Exception::new(0);
        assert_eq!(e.classify(), Status::Success);
        assert!(e.into_result().is_ok());
        round += 1;
    }
}
