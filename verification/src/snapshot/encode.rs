//! Encoding a whole snapshot in one call.
use vstd::prelude::*;

use crate::snapshot::error::{
    from_optional_result, from_optional_result_with_len, from_result, Error,
};
use crate::status::ResultCode;

verus! {

/// The end of encoding to a writer.
pub fn encode_snapshot(code: ResultCode) -> (r: Result<(), Error>)
    ensures
        r == crate::snapshot::error::value_when(code, ()),
{
    from_result(code)
}

/// The end of encoding to a buffer that the engine allocates. There is none
/// where the engine has nothing to report, or where it gave no pointer.
pub fn encode_snapshot_alloc<B>(code: ResultCode, bytes: Option<B>) -> (r: Result<Option<B>, Error>)
    ensures
        r == (if code == ResultCode::NoValue {
            Ok::<Option<B>, Error>(None)
        } else {
            crate::snapshot::error::value_when(code, bytes)
        }),
{
    match from_optional_result(code, bytes) {
        Err(e) => Err(e),
        Ok(None) => Ok(None),
        Ok(Some(bytes)) => Ok(bytes),
    }
}

/// The end of encoding to the caller's buffer: the number of bytes written, or
/// the number required where the buffer was too small.
pub fn encode_snapshot_buf(code: ResultCode, written: usize) -> (r: Result<Option<usize>, Error>)
    ensures
        r == crate::snapshot::error::optional_when(code, written, written),
{
    from_optional_result_with_len(code, written)
}

/// Asking with an empty buffer tells the size to ask with: the size reported on
/// refusal is the one that the engine reported.
pub proof fn law_size_query_reports_the_size(written: usize)
    ensures
        crate::snapshot::error::optional_when(ResultCode::OutOfSpace, written, written) == Err::<
            Option<usize>,
            Error,
        >(Error::OutOfSpace { required: written }),
{
}

/// An engine that needs `size` bytes for the snapshot: given a buffer, it answers
/// with that size, and refuses every buffer that is shorter.
pub open spec fn needs(answer: spec_fn(nat) -> (ResultCode, usize), size: usize) -> bool {
    forall|capacity: nat|
        #![trigger answer(capacity)]
        answer(capacity) == if capacity < size {
            (ResultCode::OutOfSpace, size)
        } else {
            (ResultCode::Success, size)
        }
}

/// As long as the engine needs the same number of bytes, every shorter buffer is
/// refused with that number, and every other one gets them.
pub proof fn law_short_buffers_report_one_size(
    answer: spec_fn(nat) -> (ResultCode, usize),
    size: usize,
    capacity: nat,
)
    requires
        needs(answer, size),
    ensures
        ({
            let (code, written) = answer(capacity);
            crate::snapshot::error::optional_when(code, written, written) == if capacity < size {
                Err::<Option<usize>, Error>(Error::OutOfSpace { required: size })
            } else {
                Ok::<Option<usize>, Error>(Some(size))
            }
        }),
{
}

/// Encoding ends as the engine says. A buffer that the engine allocated comes out
/// where it reports success and gave one; the number of bytes in the caller's
/// buffer where it reports success, and the number that is needed with the refusal.
pub proof fn law_encoding_ends_as_the_engine_says<B>(
    code: ResultCode,
    bytes: Option<B>,
    written: usize,
    told: Result<(), Error>,
    r: Result<(), Error>,
    s: Result<Option<B>, Error>,
    t: Result<Option<usize>, Error>,
)
    requires
        call_ensures(encode_snapshot, (code,), r),
        call_ensures(encode_snapshot_alloc::<B>, (code, bytes), s),
        call_ensures(encode_snapshot_buf, (code, written), t),
        call_ensures(from_result, (code,), told),
    ensures
        r == told,
        s is Ok <==> code == ResultCode::Success || code == ResultCode::NoValue,
        s matches Ok(b) ==> b == (if code == ResultCode::Success {
            bytes
        } else {
            None
        }),
        s matches Err(e) ==> told == Err::<(), Error>(e),
        t is Ok && t->Ok_0 is Some <==> code == ResultCode::Success,
        t is Ok && t->Ok_0 is None <==> code == ResultCode::NoValue,
        t matches Ok(Some(n)) ==> n == written,
        code == ResultCode::OutOfSpace <==> t == Err::<Option<usize>, Error>(
            Error::OutOfSpace { required: written },
        ),
        t is Err && code != ResultCode::OutOfSpace ==> told == Err::<(), Error>(t->Err_0),
{
}

} // verus!
