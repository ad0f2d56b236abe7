//! Errors of the snapshot operations.
use vstd::prelude::*;

use crate::status::ResultCode;

verus! {

/// What can go wrong while a snapshot is captured or restored.
#[derive(Clone, Copy, Debug, PartialEq, Eq, Structural)]
pub enum Error {
    /// An allocation failed.
    OutOfMemory,
    /// Malformed or truncated data, or an operation out of turn.
    InvalidValue,
    /// The caller's buffer is too small.
    OutOfSpace {
        /// Bytes that the operation needs.
        required: usize,
    },
    /// A limit set by the caller was exceeded.
    LimitExceeded,
    /// The caller's reader or writer failed.
    IoError,
}

/// The error that a code stands for, if it is one; `len` is the number of bytes
/// reported along with it. A code without a value is an error here.
pub open spec fn error_of(code: ResultCode, len: usize) -> Option<Error> {
    match code {
        ResultCode::Success => None,
        ResultCode::OutOfMemory => Some(Error::OutOfMemory),
        ResultCode::OutOfSpace => Some(Error::OutOfSpace { required: len }),
        ResultCode::LimitExceeded => Some(Error::LimitExceeded),
        ResultCode::IoError => Some(Error::IoError),
        _ => Some(Error::InvalidValue),
    }
}

/// `value` where `code` reports success, the error that it stands for otherwise.
pub open spec fn value_when<T>(code: ResultCode, value: T) -> Result<T, Error> {
    match error_of(code, 0) {
        None => Ok(value),
        Some(e) => Err(e),
    }
}

/// As [`value_when`], with no value where the code says that there is none.
pub open spec fn optional_when<T>(code: ResultCode, len: usize, value: T) -> Result<
    Option<T>,
    Error,
> {
    if code == ResultCode::NoValue {
        Ok(None)
    } else {
        match error_of(code, len) {
            None => Ok(Some(value)),
            Some(e) => Err(e),
        }
    }
}

/// The handle where `code` reports success and the engine gave one.
pub open spec fn handle_when<H>(code: ResultCode, handle: Option<H>) -> Result<H, Error> {
    match error_of(code, 0) {
        Some(e) => Err(e),
        None => match handle {
            Some(h) => Ok(h),
            None => Err(Error::OutOfMemory),
        },
    }
}

/// Turns a code into a result.
pub fn from_result(code: ResultCode) -> (r: Result<(), Error>)
    ensures
        r == value_when(code, ()),
{
    match code {
        ResultCode::Success => Ok(()),
        ResultCode::OutOfMemory => Err(Error::OutOfMemory),
        ResultCode::OutOfSpace => Err(Error::OutOfSpace { required: 0 }),
        ResultCode::LimitExceeded => Err(Error::LimitExceeded),
        ResultCode::IoError => Err(Error::IoError),
        _ => Err(Error::InvalidValue),
    }
}

/// Turns the code of a call that may have nothing to report into a result.
pub fn from_optional_result<T>(code: ResultCode, value: T) -> (r: Result<Option<T>, Error>)
    ensures
        r == optional_when(code, 0, value),
{
    match code {
        ResultCode::NoValue => Ok(None),
        _ => match from_result(code) {
            Ok(()) => Ok(Some(value)),
            Err(e) => Err(e),
        },
    }
}

/// As [`from_optional_result`] for a call that writes into a caller's buffer:
/// where the buffer was too small, `len` bytes are required.
pub fn from_optional_result_with_len(code: ResultCode, len: usize) -> (r: Result<
    Option<usize>,
    Error,
>)
    ensures
        r == optional_when(code, len, len),
{
    match code {
        ResultCode::OutOfSpace => Err(Error::OutOfSpace { required: len }),
        _ => from_optional_result(code, len),
    }
}

/// The handle that a constructor of the engine filled in.
pub fn open_handle<H>(code: ResultCode, handle: Option<H>) -> (r: Result<H, Error>)
    ensures
        r == handle_when(code, handle),
{
    match from_result(code) {
        Err(e) => Err(e),
        Ok(()) => match handle {
            Some(h) => Ok(h),
            None => Err(Error::OutOfMemory),
        },
    }
}

/// Every code that is not success has the error of its own name, and an invalid
/// value stands for the rest. The number goes along with want of space where the
/// call reports one.
pub proof fn law_errors_are_named_after_their_code(
    code: ResultCode,
    len: usize,
    r: Result<(), Error>,
    s: Result<Option<usize>, Error>,
)
    requires
        call_ensures(from_result, (code,), r),
        call_ensures(from_optional_result_with_len, (code, len), s),
    ensures
        r is Ok <==> code == ResultCode::Success,
        s is Ok && s->Ok_0 is Some <==> code == ResultCode::Success,
        s is Ok && s->Ok_0 is None <==> code == ResultCode::NoValue,
        s matches Ok(Some(n)) ==> n == len,
        r matches Err(e) ==> {
            &&& e == Error::OutOfMemory <==> code == ResultCode::OutOfMemory
            &&& e == Error::LimitExceeded <==> code == ResultCode::LimitExceeded
            &&& e == Error::IoError <==> code == ResultCode::IoError
            &&& e is OutOfSpace <==> code == ResultCode::OutOfSpace
            &&& e == Error::InvalidValue <==> code == ResultCode::InvalidValue || code
                == ResultCode::NoValue || code == ResultCode::Unknown
            &&& e matches Error::OutOfSpace { required } ==> required == 0
        },
        s matches Err(e) ==> {
            &&& e == Error::OutOfMemory <==> code == ResultCode::OutOfMemory
            &&& e == Error::LimitExceeded <==> code == ResultCode::LimitExceeded
            &&& e == Error::IoError <==> code == ResultCode::IoError
            &&& e is OutOfSpace <==> code == ResultCode::OutOfSpace
            &&& e == Error::InvalidValue <==> code == ResultCode::InvalidValue || code
                == ResultCode::Unknown
            &&& e matches Error::OutOfSpace { required } ==> required == len
        },
{
}

/// A value comes out exactly where the engine reports success, none where it has
/// none to report; a handle exactly where it reports success and gave one. What
/// comes out is what the engine filled in.
pub proof fn law_values_and_handles_come_with_success<T, H>(
    code: ResultCode,
    value: T,
    handle: Option<H>,
    told: Result<(), Error>,
    r: Result<Option<T>, Error>,
    s: Result<H, Error>,
)
    requires
        call_ensures(from_optional_result::<T>, (code, value), r),
        call_ensures(open_handle::<H>, (code, handle), s),
        call_ensures(from_result, (code,), told),
    ensures
        r is Ok && r->Ok_0 is Some <==> code == ResultCode::Success,
        r is Ok && r->Ok_0 is None <==> code == ResultCode::NoValue,
        r matches Ok(Some(v)) ==> v == value,
        r matches Err(e) ==> told == Err::<(), Error>(e),
        s is Ok <==> code == ResultCode::Success && handle is Some,
        s matches Ok(h) ==> handle == Some(h),
        s matches Err(e) ==> e == (match told {
            Err(t) => t,
            Ok(()) => Error::OutOfMemory,
        }),
{
}

} // verus!
