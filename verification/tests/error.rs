use core::ops::ControlFlow;
use otf2::error::Status;
use otf2::error::StatusCode;
use otf2::native::ErrorCode;
use otf2::native::OTF2_ERROR_EACCES;
use otf2::native::OTF2_SUCCESS;

#[test]
fn test_otf2_error_success() {
    let result: Result<(), StatusCode> = ErrorCode(OTF2_SUCCESS).into();
    assert_eq!(result, Ok(()));
}

#[test]
fn test_otf2_error_eacces() {
    let error = StatusCode::from_raw(ErrorCode(OTF2_ERROR_EACCES));
    assert_eq!(error.code(), ErrorCode(OTF2_ERROR_EACCES));
}

#[test]
fn can_use_question_operator_on_status() {
    let fails = || -> StatusCode { StatusCode::from_raw(ErrorCode(OTF2_ERROR_EACCES)) };
    let succeeds = || -> StatusCode { StatusCode::ok() };
    let fallible = |f: fn() -> StatusCode| -> Result<(), StatusCode> {
        Result::<(), StatusCode>::from(f())?;
        Ok(())
    };
    let expect_error = fallible(fails);
    let expect_success = fallible(succeeds);
    assert!(expect_error.is_err());
    assert!(expect_success.is_ok());
}

#[test]
fn can_use_question_operator_on_code() {
    let fails = || -> ErrorCode { ErrorCode(OTF2_ERROR_EACCES) };
    let succeeds = || -> ErrorCode { ErrorCode(OTF2_SUCCESS) };
    let fallible = |f: fn() -> ErrorCode| -> Result<(), StatusCode> {
        f().into_result()?;
        Ok(())
    };
    let expect_error = fallible(fails);
    let expect_success = fallible(succeeds);
    assert!(expect_error.is_err());
    assert!(expect_success.is_ok());
    assert_eq!(
        expect_error,
        Err(StatusCode::from_raw(ErrorCode(OTF2_ERROR_EACCES)))
    );
    assert_eq!(expect_success, Ok(()));
}

#[test]
fn error_test_otf2_error_success() {
    let result: Result<(), Status> = ErrorCode(OTF2_SUCCESS).into();
    assert_eq!(result, Ok(()));
}

#[test]
fn error_test_otf2_error_eacces() {
    let error = Status::from(ErrorCode(OTF2_ERROR_EACCES));
    assert_eq!(error.code(), ErrorCode(OTF2_ERROR_EACCES));
}

#[test]
fn error_can_use_question_operator_on_status() {
    let fails = || -> Status { Status::from(ErrorCode(OTF2_ERROR_EACCES)) };
    let succeeds = || -> Status { Status::from(ErrorCode(OTF2_SUCCESS)) };
    let fallible = |f: fn() -> Status| -> Result<(), Status> {
        f().into_result()?;
        Ok(())
    };
    let expect_error = fallible(fails);
    let expect_success = fallible(succeeds);
    assert!(expect_error.is_err());
    assert!(expect_success.is_ok());
}

#[test]
fn error_can_use_question_operator_on_code() {
    let fails = || -> ErrorCode { ErrorCode(OTF2_ERROR_EACCES) };
    let succeeds = || -> ErrorCode { ErrorCode(OTF2_SUCCESS) };
    let fallible = |f: fn() -> ErrorCode| -> Result<(), Status> {
        Result::<(), Status>::from(f())?;
        Ok(())
    };
    let expect_error = fallible(fails);
    let expect_success = fallible(succeeds);
    assert!(expect_error.is_err());
    assert!(expect_success.is_ok());
    assert_eq!(
        expect_error,
        Err(Status::from(ErrorCode(OTF2_ERROR_EACCES)))
    );
    assert_eq!(expect_success, Ok(()));
}

#[test]
fn branch_continues_after_success_and_breaks_with_the_failure() {
    assert_eq!(StatusCode::ok().branch(), ControlFlow::Continue(()));
    let failed = StatusCode::from_raw(ErrorCode(OTF2_ERROR_EACCES));
    assert_eq!(failed.branch(), ControlFlow::Break(failed));
    assert_eq!(
        ErrorCode(7).branch(),
        ControlFlow::Break(StatusCode::from_raw(ErrorCode(7)))
    );
    assert_eq!(
        ErrorCode::from_residual(failed),
        ErrorCode(OTF2_ERROR_EACCES)
    );
    assert_eq!(StatusCode::from_residual::<u8>(failed), Err(failed));
    assert!(StatusCode::from_output(()).is_ok());
    assert!(!failed.is_ok());
}
