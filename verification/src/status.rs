//! Result codes of the terminal engine and the errors they become.
use vstd::prelude::*;
use vstd::string::*;

use crate::text::decimal_text;

verus! {

/// A result code of the engine, told apart by what it reports.
#[derive(Clone, Copy, Debug, PartialEq, Eq, Structural)]
pub enum ResultCode {
    /// The operation succeeded.
    Success,
    /// An allocation failed.
    OutOfMemory,
    /// An argument, or the state of the object, was not acceptable.
    InvalidValue,
    /// The caller's buffer is too small.
    OutOfSpace,
    /// The operation succeeded and there is nothing to report.
    NoValue,
    /// A limit set by the caller was exceeded.
    LimitExceeded,
    /// A reader or writer supplied by the caller failed.
    IoError,
    /// A code that this library does not know.
    Unknown,
}

/// What can go wrong in a call of the engine.
#[derive(Clone, Copy, Debug, PartialEq, Eq, Structural)]
pub enum Error {
    OutOfMemory,
    InvalidValue,
    OutOfSpace { required: usize },
}

/// The error that a code stands for, if it is one; `len` is the number of bytes
/// that the engine reported along with it. Every code beyond the four that the
/// engine documents for plain calls counts as an invalid value.
pub open spec fn error_of(code: ResultCode, len: usize) -> Option<Error> {
    match code {
        ResultCode::Success => None,
        ResultCode::OutOfMemory => Some(Error::OutOfMemory),
        ResultCode::OutOfSpace => Some(Error::OutOfSpace { required: len }),
        _ => Some(Error::InvalidValue),
    }
}

/// `value` where `code` reports success, the error that it stands for otherwise.
pub open spec fn value_when<T>(code: ResultCode, len: usize, value: T) -> Result<T, Error> {
    match error_of(code, len) {
        None => Ok(value),
        Some(e) => Err(e),
    }
}

/// The handle where `code` reports success and the engine gave one; a missing
/// handle means that the engine ran out of memory.
pub open spec fn handle_when<H>(code: ResultCode, handle: Option<H>) -> Result<H, Error> {
    match error_of(code, 0) {
        Some(e) => Err(e),
        None => match handle {
            Some(h) => Ok(h),
            None => Err(Error::OutOfMemory),
        },
    }
}

/// Turns the code of a call that reports no length into a result.
pub fn from_result(code: ResultCode) -> (r: Result<(), Error>)
    ensures
        r == value_when(code, 0, ()),
{
    match code {
        ResultCode::Success => Ok(()),
        ResultCode::OutOfMemory => Err(Error::OutOfMemory),
        ResultCode::InvalidValue => Err(Error::InvalidValue),
        ResultCode::OutOfSpace => Err(Error::OutOfSpace { required: 0 }),
        _ => Err(Error::InvalidValue),
    }
}

/// Turns the code of a call that writes into a caller's buffer into a result:
/// on success `len` bytes were written, and where the buffer was too small `len`
/// bytes are required.
pub fn from_result_with_len(code: ResultCode, len: usize) -> (r: Result<usize, Error>)
    ensures
        r == value_when(code, len, len),
{
    match code {
        ResultCode::Success => Ok(len),
        ResultCode::OutOfMemory => Err(Error::OutOfMemory),
        ResultCode::InvalidValue => Err(Error::InvalidValue),
        ResultCode::OutOfSpace => Err(Error::OutOfSpace { required: len }),
        _ => Err(Error::InvalidValue),
    }
}

/// The value that a getter filled in, where its code reports success.
pub fn value_or_error<T>(code: ResultCode, value: T) -> (r: Result<T, Error>)
    ensures
        r == value_when(code, 0, value),
{
    match from_result(code) {
        Ok(()) => Ok(value),
        Err(e) => Err(e),
    }
}

/// The handle that a constructor of the engine filled in.
pub fn open_handle<H>(code: ResultCode, handle: Option<H>) -> (r: Result<H, Error>)
    ensures
        r == handle_when(code, handle),
{
    match from_result(code) {
        Err(e) => Err(e),
        Ok(()) => match handle {
            Some(h) => Ok(h),
            None => Err(Error::OutOfMemory),
        },
    }
}

/// The item that a stepping call filled in, where it reported that there is one.
pub fn item_if<T>(present: bool, item: T) -> (r: Option<T>)
    ensures
        r == (if present { Some(item) } else { None::<T> }),
{
    if present {
        Some(item)
    } else {
        None
    }
}

/// The text of an error, as it is shown to people.
pub open spec fn error_text(e: Error) -> Seq<char> {
    match e {
        Error::OutOfMemory => "out of memory"@,
        Error::InvalidValue => "invalid value"@,
        Error::OutOfSpace { required } => "out of space, "@ + crate::text::decimal(required as nat)
            + " bytes required"@,
    }
}

impl Error {
    /// The text of this error.
    pub fn message(self) -> (s: String)
        ensures
            s@ == error_text(self),
    {
        match self {
            Error::OutOfMemory => "out of memory".to_owned(),
            Error::InvalidValue => "invalid value".to_owned(),
            Error::OutOfSpace { required } => {
                let mut s: String = "out of space, ".to_owned();
                s.append(decimal_text(required as u64).as_str());
                s.append(" bytes required");
                s
            },
        }
    }
}

/// A value comes out of a call exactly when its code reports success.
pub proof fn law_only_success_yields_a_value<T>(code: ResultCode, len: usize, value: T)
    ensures
        value_when(code, len, value) is Ok <==> code == ResultCode::Success,
{
}

/// Success gives no error, want of memory and of space give their own, and every
/// other code an invalid value. The engine's number goes along with want of space
/// where the call reports one, and with nothing else.
pub proof fn law_errors_are_named_after_their_code(
    code: ResultCode,
    len: usize,
    r: Result<(), Error>,
    s: Result<usize, Error>,
)
    requires
        call_ensures(from_result, (code,), r),
        call_ensures(from_result_with_len, (code, len), s),
    ensures
        r is Ok <==> code == ResultCode::Success,
        s is Ok <==> code == ResultCode::Success,
        s matches Ok(n) ==> n == len,
        code == ResultCode::OutOfMemory <==> r == Err::<(), Error>(Error::OutOfMemory),
        code == ResultCode::OutOfMemory <==> s == Err::<usize, Error>(Error::OutOfMemory),
        code == ResultCode::OutOfSpace ==> r == Err::<(), Error>(Error::OutOfSpace { required: 0 }),
        code == ResultCode::OutOfSpace ==> s == Err::<usize, Error>(
            Error::OutOfSpace { required: len },
        ),
        code == ResultCode::InvalidValue || code == ResultCode::NoValue || code
            == ResultCode::LimitExceeded || code == ResultCode::IoError || code
            == ResultCode::Unknown <==> r == Err::<(), Error>(Error::InvalidValue),
        r == Err::<(), Error>(Error::InvalidValue) <==> s == Err::<usize, Error>(
            Error::InvalidValue,
        ),
{
}

/// A value or a handle comes out exactly where the engine reports success, and it
/// is the one that the engine filled in. Success without a handle means that memory
/// ran out.
pub proof fn law_values_and_handles_come_with_success<T, H>(
    code: ResultCode,
    value: T,
    handle: Option<H>,
    told: Result<(), Error>,
    r: Result<T, Error>,
    s: Result<H, Error>,
)
    requires
        call_ensures(value_or_error::<T>, (code, value), r),
        call_ensures(open_handle::<H>, (code, handle), s),
        call_ensures(from_result, (code,), told),
    ensures
        r is Ok <==> code == ResultCode::Success,
        r matches Ok(v) ==> v == value,
        r matches Err(e) ==> told == Err::<(), Error>(e),
        s is Ok <==> code == ResultCode::Success && handle is Some,
        s matches Ok(h) ==> handle == Some(h),
        s matches Err(e) ==> e == (match told {
            Err(t) => t,
            Ok(()) => Error::OutOfMemory,
        }),
{
}

/// An item comes out exactly where there is one.
pub proof fn law_items_come_where_they_are<T>(present: bool, item: T, r: Option<T>)
    requires
        call_ensures(item_if::<T>, (present, item), r),
    ensures
        r is Some <==> present,
        r matches Some(i) ==> i == item,
{
}

/// The texts of errors: want of space spells the number out.
pub proof fn law_texts_name_the_error(e: Error, s: String)
    requires
        call_ensures(Error::message, (e,), s),
    ensures
        e is OutOfMemory ==> s@ == "out of memory"@,
        e is InvalidValue ==> s@ == "invalid value"@,
        e matches Error::OutOfSpace { required } ==> s@ == "out of space, "@
            + crate::text::decimal(required as nat) + " bytes required"@,
{
}

} // verus!
