use xrpl_hooks::api::{bool_result, sto_located};
use xrpl_hooks::error::{error_from_code, result_u64, Error};
use xrpl_hooks::location::range_from_location;
use xrpl_hooks::xfl::{compare_result, result_xfl, XFL};

#[test]
fn location_unpacks_offset_and_length() {
    let loc: i64 = (7 << 32) | 13;
    let r = range_from_location(loc);
    assert_eq!(r.start, 7);
    assert_eq!(r.end, 20);
    assert_eq!(r.end - r.start, 13);
}

#[test]
fn location_zero_is_empty_range_at_origin() {
    let r = range_from_location(0);
    assert_eq!(r.start, 0);
    assert_eq!(r.end, 0);
}

#[test]
fn location_extremes() {
    let loc: i64 = (0x7FFF_FFFF << 32) | 0xFFFF_FFFF;
    let r = range_from_location(loc);
    assert_eq!(r.start, 0x7FFF_FFFF);
    assert_eq!(r.end - r.start, 0xFFFF_FFFF);
}

#[test]
fn every_error_code_round_trips() {
    for code in -33..=-1i64 {
        let e = error_from_code(code);
        assert_eq!(e.code() as i64, code);
    }
}

#[test]
fn error_kinds_by_code() {
    assert_eq!(error_from_code(-1), Error::OutOfBounds);
    assert_eq!(error_from_code(-2), Error::InternalError);
    assert_eq!(error_from_code(-3), Error::TooBig);
    assert_eq!(error_from_code(-4), Error::TooSmall);
    assert_eq!(error_from_code(-5), Error::DoesntExist);
    assert_eq!(error_from_code(-6), Error::NoFreeSlots);
    assert_eq!(error_from_code(-7), Error::InvalidArgument);
    assert_eq!(error_from_code(-8), Error::AlreadySet);
    assert_eq!(error_from_code(-9), Error::PrerequisiteNotMet);
    assert_eq!(error_from_code(-10), Error::FeeTooLarge);
    assert_eq!(error_from_code(-11), Error::EmissionFailure);
    assert_eq!(error_from_code(-12), Error::TooManyNonces);
    assert_eq!(error_from_code(-13), Error::TooManyEmittedTxn);
    assert_eq!(error_from_code(-14), Error::NotImplemented);
    assert_eq!(error_from_code(-15), Error::InvalidAccount);
    assert_eq!(error_from_code(-16), Error::GuardViolation);
    assert_eq!(error_from_code(-17), Error::InvalidField);
    assert_eq!(error_from_code(-18), Error::ParseError);
    assert_eq!(error_from_code(-19), Error::RcRollback);
    assert_eq!(error_from_code(-20), Error::RcAccept);
    assert_eq!(error_from_code(-21), Error::NoSuchKeylet);
    assert_eq!(error_from_code(-22), Error::NotAnArray);
    assert_eq!(error_from_code(-23), Error::NotAnObject);
    assert_eq!(error_from_code(-24), Error::InvalidFloat);
    assert_eq!(error_from_code(-25), Error::DivisionByZero);
    assert_eq!(error_from_code(-26), Error::ManitssaOversized);
    assert_eq!(error_from_code(-27), Error::MantissaUndersized);
    assert_eq!(error_from_code(-28), Error::ExponentOversized);
    assert_eq!(error_from_code(-29), Error::ExponentUndersized);
    assert_eq!(error_from_code(-30), Error::Overflow);
    assert_eq!(error_from_code(-31), Error::NotIouAmount);
    assert_eq!(error_from_code(-32), Error::NotAnAmount);
    assert_eq!(error_from_code(-33), Error::CantReturnNegative);
}

#[test]
fn negative_status_becomes_its_error_kind() {
    for code in -33..=-1i64 {
        match result_u64(code) {
            Err(e) => assert_eq!(e.code() as i64, code),
            Ok(_) => panic!("negative status must not become a value"),
        }
    }
}

#[test]
fn non_negative_status_is_the_value() {
    assert_eq!(result_u64(0), Ok(0));
    assert_eq!(result_u64(5), Ok(5));
    assert_eq!(result_u64(i64::MAX), Ok(i64::MAX as u64));
}

#[test]
fn located_bytes_are_the_denoted_range() {
    let sto = vec![10u8, 11, 12, 13, 14, 15];
    let loc: i64 = (2 << 32) | 3;
    assert_eq!(sto_located(&sto, loc), Ok(vec![12, 13, 14]));
}

#[test]
fn located_empty_range() {
    let sto = vec![10u8, 11, 12];
    let loc: i64 = 1 << 32;
    assert_eq!(sto_located(&sto, loc), Ok(vec![]));
}

#[test]
fn negative_lookup_status_propagates_not_decodes() {
    let sto = vec![10u8, 11, 12];
    assert_eq!(sto_located(&sto, -5), Err(Error::DoesntExist));
    assert_eq!(sto_located(&sto, -17), Err(Error::InvalidField));
}

#[test]
fn one_means_yes_everything_else_no() {
    assert!(bool_result(1));
    assert!(!bool_result(0));
    assert!(!bool_result(2));
    assert!(!bool_result(-5));
}

#[test]
fn float_status_reads_back() {
    assert_eq!(result_xfl(42), Ok(XFL(42)));
    assert_eq!(result_xfl(-24), Err(Error::InvalidFloat));
    assert_eq!(compare_result(0), Ok(false));
    assert_eq!(compare_result(1), Ok(true));
    assert_eq!(compare_result(-2), Err(Error::InternalError));
}
