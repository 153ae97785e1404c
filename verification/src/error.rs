//! The status protocol: a native status code becomes a value that ends the
//! surrounding operation at the first failure.
use vstd::prelude::*;
use vstd::std_specs::convert::FromSpecImpl;
use core::ops::ControlFlow;
use crate::native::ErrorCode;
use crate::native::OTF2_SUCCESS;

verus! {

/// A native status code as an error value. On the error side of a result it
/// never holds the success sentinel: the conversions below map success to
/// `Ok(())`, and an error is made of a failure code only.
#[derive(Debug, Copy, Clone, Hash, PartialEq, Eq, Structural)]
pub struct StatusCode(ErrorCode);

/// What a code becomes as a result: success is `Ok(())`, every other code is
/// an error that wraps it.
pub open spec fn status_of(code: ErrorCode) -> Result<(), StatusCode> {
    if code.is_success() {
        Ok(())
    } else {
        Err(StatusCode::spec_from_raw(code))
    }
}

/// An error is a failure: the result of a code is `Ok(())` for success and
/// for nothing else, and the error of any other code wraps that code, which
/// is not the success sentinel.
pub proof fn lemma_error_is_failure(code: ErrorCode)
    ensures
        status_of(code) is Ok <==> code.is_success(),
        status_of(code) matches Err(status) ==> status.spec_code() == code && !status.spec_is_ok(),
{
}

/// A status is its code: two statuses of one code are the same, and the code
/// of the status that wraps a code is that code.
pub proof fn lemma_status_code_is_its_code(status: StatusCode, code: ErrorCode)
    ensures
        StatusCode::spec_from_raw(status.spec_code()) == status,
        StatusCode::spec_from_raw(code).spec_code() == code,
{
}

impl StatusCode {
    /// The native code of this status.
    pub closed spec fn spec_code(self) -> ErrorCode {
        self.0
    }

    /// The status that wraps `code`.
    pub closed spec fn spec_from_raw(code: ErrorCode) -> StatusCode {
        StatusCode(code)
    }

    /// Whether this status wraps the success sentinel.
    pub open spec fn spec_is_ok(self) -> bool {
        self.spec_code().is_success()
    }

    /// The status of an operation that succeeded.
    pub fn ok() -> (status: Self)
        ensures
            status == Self::spec_from_raw(ErrorCode(OTF2_SUCCESS)),
    {
        StatusCode(ErrorCode(OTF2_SUCCESS))
    }

    /// Whether this status reports success.
    pub fn is_ok(&self) -> (b: bool)
        ensures
            b == self.spec_is_ok(),
    {
        self.0.0 == OTF2_SUCCESS
    }

    /// The native code of this status.
    pub fn code(&self) -> (code: ErrorCode)
        ensures
            code == self.spec_code(),
    {
        self.0
    }

    /// The error value of a failure code. Success is no error, so it is left
    /// out.
    pub fn from_raw(code: ErrorCode) -> (status: Self)
        requires
            !code.is_success(),
        ensures
            status == Self::spec_from_raw(code),
    {
        StatusCode(code)
    }

    /// Whether the surrounding operation goes on: it does after success, and
    /// breaks with the status itself after any failure.
    pub fn branch(self) -> (flow: ControlFlow<StatusCode, ()>)
        ensures
            self.spec_is_ok() ==> flow == ControlFlow::<StatusCode, ()>::Continue(()),
            !self.spec_is_ok() ==> flow == ControlFlow::<StatusCode, ()>::Break(self),
    {
        if self.is_ok() {
            ControlFlow::Continue(())
        } else {
            ControlFlow::Break(self)
        }
    }

    /// The status of an operation that ran to its end.
    pub fn from_output(_output: ()) -> (status: Self)
        ensures
            status == Self::spec_from_raw(ErrorCode(OTF2_SUCCESS)),
    {
        StatusCode(ErrorCode(OTF2_SUCCESS))
    }

    /// The failure that a broken-off operation returns.
    pub fn from_residual<T>(residual: StatusCode) -> (r: Result<T, StatusCode>)
        ensures
            r == Err::<T, StatusCode>(residual),
    {
        Err(residual)
    }
}

impl From<StatusCode> for Result<(), StatusCode> {
    fn from(value: StatusCode) -> (r: Self) {
        if value.is_ok() {
            Ok(())
        } else {
            Err(value)
        }
    }
}

impl FromSpecImpl<StatusCode> for Result<(), StatusCode> {
    open spec fn obeys_from_spec() -> bool {
        true
    }

    open spec fn from_spec(value: StatusCode) -> Self {
        status_of(value.spec_code())
    }
}

impl From<ErrorCode> for Result<(), StatusCode> {
    fn from(code: ErrorCode) -> (r: Self) {
        if code.0 == OTF2_SUCCESS {
            Ok(())
        } else {
            Err(StatusCode(code))
        }
    }
}

impl FromSpecImpl<ErrorCode> for Result<(), StatusCode> {
    open spec fn obeys_from_spec() -> bool {
        true
    }

    open spec fn from_spec(code: ErrorCode) -> Self {
        status_of(code)
    }
}

impl ErrorCode {
    /// The code as a result: `Ok(())` for success, else the error that wraps
    /// the code.
    pub fn into_result(self) -> (r: Result<(), StatusCode>)
        ensures
            r == status_of(self),
    {
        if self.0 == OTF2_SUCCESS {
            Ok(())
        } else {
            Err(StatusCode(self))
        }
    }

    /// Whether the surrounding operation goes on after this code: it does
    /// after success, and breaks with the wrapped code after any failure.
    pub fn branch(self) -> (flow: ControlFlow<StatusCode, ()>)
        ensures
            self.is_success() ==> flow == ControlFlow::<StatusCode, ()>::Continue(()),
            !self.is_success() ==> flow == ControlFlow::<StatusCode, ()>::Break(
                StatusCode::spec_from_raw(self),
            ),
    {
        if self.0 == OTF2_SUCCESS {
            ControlFlow::Continue(())
        } else {
            ControlFlow::Break(StatusCode(self))
        }
    }

    /// The code of an operation that ran to its end.
    pub fn from_output(_output: ()) -> (code: Self)
        ensures
            code == ErrorCode(OTF2_SUCCESS),
    {
        ErrorCode(OTF2_SUCCESS)
    }

    /// The code that a broken-off operation returns: the one that broke it.
    pub fn from_residual(residual: StatusCode) -> (code: Self)
        ensures
            code == residual.spec_code(),
    {
        residual.code()
    }
}

/// A native status code that may also report success, as the archive layer
/// passes it on.
#[derive(Debug, Copy, Clone, Hash, PartialEq, Eq, Structural)]
pub struct Status(ErrorCode);

/// The result of an operation that may fail with a status.
pub type StatusResult<T> = Result<T, Status>;

/// What a status becomes as a result: success is `Ok(())`, every other code
/// is the error itself.
pub open spec fn status_result(status: Status) -> Result<(), Status> {
    if status.spec_code().is_success() {
        Ok(())
    } else {
        Err(status)
    }
}

/// A status is its code: two statuses of one code are the same, and the code
/// of the status of a code is that code.
pub proof fn lemma_status_is_its_code(status: Status, code: ErrorCode)
    ensures
        Status::spec_from(status.spec_code()) == status,
        Status::spec_from(code).spec_code() == code,
{
}

impl Status {
    /// The native code of this status.
    pub closed spec fn spec_code(self) -> ErrorCode {
        self.0
    }

    /// The status of `code`.
    pub closed spec fn spec_from(code: ErrorCode) -> Status {
        Status(code)
    }

    /// The native code of this status.
    pub fn code(&self) -> (code: ErrorCode)
        ensures
            code == self.spec_code(),
    {
        self.0
    }

    /// The status as a result: `Ok(())` for success, else the status itself.
    pub fn into_result(self) -> (r: Result<(), Status>)
        ensures
            r == status_result(self),
    {
        if self.0.0 == OTF2_SUCCESS {
            Ok(())
        } else {
            Err(self)
        }
    }

    /// Whether the surrounding operation goes on: it does after success, and
    /// breaks with the status itself after any failure.
    pub fn branch(self) -> (flow: ControlFlow<Status, ()>)
        ensures
            self.spec_code().is_success() ==> flow == ControlFlow::<Status, ()>::Continue(()),
            !self.spec_code().is_success() ==> flow == ControlFlow::<Status, ()>::Break(self),
    {
        if self.0.0 == OTF2_SUCCESS {
            ControlFlow::Continue(())
        } else {
            ControlFlow::Break(self)
        }
    }

    /// The status of an operation that ran to its end.
    pub fn from_output(_output: ()) -> (status: Self)
        ensures
            status == Self::spec_from(ErrorCode(OTF2_SUCCESS)),
    {
        Status(ErrorCode(OTF2_SUCCESS))
    }
}

impl From<ErrorCode> for Status {
    fn from(code: ErrorCode) -> (r: Self) {
        Status(code)
    }
}

impl FromSpecImpl<ErrorCode> for Status {
    open spec fn obeys_from_spec() -> bool {
        true
    }

    open spec fn from_spec(code: ErrorCode) -> Self {
        Status::spec_from(code)
    }
}

impl From<Status> for Result<(), Status> {
    fn from(value: Status) -> (r: Self) {
        value.into_result()
    }
}

impl FromSpecImpl<Status> for Result<(), Status> {
    open spec fn obeys_from_spec() -> bool {
        true
    }

    open spec fn from_spec(value: Status) -> Self {
        status_result(value)
    }
}

impl From<ErrorCode> for Result<(), Status> {
    fn from(code: ErrorCode) -> (r: Self) {
        Status(code).into_result()
    }
}

impl FromSpecImpl<ErrorCode> for Result<(), Status> {
    open spec fn obeys_from_spec() -> bool {
        true
    }

    open spec fn from_spec(code: ErrorCode) -> Self {
        status_result(Status::spec_from(code))
    }
}

} // verus!
