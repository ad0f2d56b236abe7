//! Statuses of the incremental snapshot interface and the errors they become.
use vstd::prelude::*;
use vstd::string::*;

use crate::text::decimal_text;

verus! {

/// A status of the engine, told apart by what it reports.
#[derive(Clone, Copy, Debug, PartialEq, Eq, Structural)]
pub enum SnapshotStatus {
    Success,
    UnsupportedFeature,
    UnknownVersion,
    Corruption,
    Truncated,
    LimitExceeded,
    Stale,
    Pruned,
    WrongGeneration,
    WrongTerminal,
    InvalidHandle,
    ImportBusy,
    OutOfMemory,
    OutOfSpace,
    InvalidState,
    ContinuationUnavailable,
    Reset,
    Resize,
    /// A status that this library does not know.
    Unknown,
}

/// Exact failures of the incremental snapshot operations.
#[derive(Clone, Copy, Debug, PartialEq, Eq, Structural)]
pub enum Error {
    /// The terminal contains semantic state this codec cannot represent.
    UnsupportedFeature,
    /// The snapshot envelope version is not supported.
    UnknownVersion,
    /// Authentication or structural validation failed.
    Corruption,
    /// End of input arrived before FINISH.
    Truncated,
    /// A caller-supplied codec or history limit was exceeded.
    LimitExceeded,
    /// The engine-owned history lease is no longer live.
    Stale,
    /// Requested history was pruned after the cut was acquired.
    Pruned,
    /// The requested screen or history generation does not match.
    WrongGeneration,
    /// An operation was attempted with a different terminal.
    WrongTerminal,
    /// A checkpoint, capability, or engine handle is invalid.
    InvalidHandle,
    /// The destination already has an active history import.
    ImportBusy,
    /// Allocation failed.
    OutOfMemory,
    /// The caller-owned buffer or import budget is too small.
    OutOfSpace {
        /// Exact required byte count, when the operation can report one.
        required_bytes: usize,
        /// Exact required row count, when the operation can report one.
        required_rows: usize,
    },
    /// The operation is not valid in the current state.
    InvalidState,
    /// A canonical parser continuation could not be captured or replayed.
    ContinuationUnavailable,
    /// A terminal reset invalidated the history generation.
    Reset,
    /// A terminal resize invalidated the history generation.
    Resize,
}

/// The error that a status stands for, if it is one; `bytes` and `rows` are what
/// the engine reported along with it.
pub open spec fn error_of(status: SnapshotStatus, bytes: usize, rows: usize) -> Option<Error> {
    match status {
        SnapshotStatus::Success => None,
        SnapshotStatus::UnsupportedFeature => Some(Error::UnsupportedFeature),
        SnapshotStatus::UnknownVersion => Some(Error::UnknownVersion),
        SnapshotStatus::Corruption => Some(Error::Corruption),
        SnapshotStatus::Truncated => Some(Error::Truncated),
        SnapshotStatus::LimitExceeded => Some(Error::LimitExceeded),
        SnapshotStatus::Stale => Some(Error::Stale),
        SnapshotStatus::Pruned => Some(Error::Pruned),
        SnapshotStatus::WrongGeneration => Some(Error::WrongGeneration),
        SnapshotStatus::WrongTerminal => Some(Error::WrongTerminal),
        SnapshotStatus::InvalidHandle => Some(Error::InvalidHandle),
        SnapshotStatus::ImportBusy => Some(Error::ImportBusy),
        SnapshotStatus::OutOfMemory => Some(Error::OutOfMemory),
        SnapshotStatus::OutOfSpace => Some(
            Error::OutOfSpace { required_bytes: bytes, required_rows: rows },
        ),
        SnapshotStatus::InvalidState => Some(Error::InvalidState),
        SnapshotStatus::ContinuationUnavailable => Some(Error::ContinuationUnavailable),
        SnapshotStatus::Reset => Some(Error::Reset),
        SnapshotStatus::Resize => Some(Error::Resize),
        SnapshotStatus::Unknown => Some(Error::InvalidState),
    }
}

/// Success, or the error that the status stands for.
pub open spec fn outcome(status: SnapshotStatus, bytes: usize, rows: usize) -> Result<(), Error> {
    match error_of(status, bytes, rows) {
        None => Ok(()),
        Some(e) => Err(e),
    }
}

/// The handle where `status` reports success and the engine gave one; a missing
/// handle means that the engine ran out of memory.
pub open spec fn handle_when<H>(status: SnapshotStatus, handle: Option<H>) -> Result<H, Error> {
    match error_of(status, 0, 0) {
        Some(e) => Err(e),
        None => match handle {
            Some(h) => Ok(h),
            None => Err(Error::OutOfMemory),
        },
    }
}

/// Turns a status into a result.
pub fn from_status(status: SnapshotStatus, bytes: usize, rows: usize) -> (r: Result<(), Error>)
    ensures
        r == outcome(status, bytes, rows),
{
    match status {
        SnapshotStatus::Success => Ok(()),
        SnapshotStatus::UnsupportedFeature => Err(Error::UnsupportedFeature),
        SnapshotStatus::UnknownVersion => Err(Error::UnknownVersion),
        SnapshotStatus::Corruption => Err(Error::Corruption),
        SnapshotStatus::Truncated => Err(Error::Truncated),
        SnapshotStatus::LimitExceeded => Err(Error::LimitExceeded),
        SnapshotStatus::Stale => Err(Error::Stale),
        SnapshotStatus::Pruned => Err(Error::Pruned),
        SnapshotStatus::WrongGeneration => Err(Error::WrongGeneration),
        SnapshotStatus::WrongTerminal => Err(Error::WrongTerminal),
        SnapshotStatus::InvalidHandle => Err(Error::InvalidHandle),
        SnapshotStatus::ImportBusy => Err(Error::ImportBusy),
        SnapshotStatus::OutOfMemory => Err(Error::OutOfMemory),
        SnapshotStatus::OutOfSpace => Err(
            Error::OutOfSpace { required_bytes: bytes, required_rows: rows },
        ),
        SnapshotStatus::InvalidState => Err(Error::InvalidState),
        SnapshotStatus::ContinuationUnavailable => Err(Error::ContinuationUnavailable),
        SnapshotStatus::Reset => Err(Error::Reset),
        SnapshotStatus::Resize => Err(Error::Resize),
        SnapshotStatus::Unknown => Err(Error::InvalidState),
    }
}

/// The handle that a constructor of the engine filled in.
pub fn open_handle<H>(status: SnapshotStatus, handle: Option<H>) -> (r: Result<H, Error>)
    ensures
        r == handle_when(status, handle),
{
    match from_status(status, 0, 0) {
        Err(e) => Err(e),
        Ok(()) => match handle {
            Some(h) => Ok(h),
            None => Err(Error::OutOfMemory),
        },
    }
}

/// The text of an error.
pub open spec fn error_text(e: Error) -> Seq<char> {
    match e {
        Error::UnsupportedFeature => "unsupported snapshot feature"@,
        Error::UnknownVersion => "unknown snapshot version"@,
        Error::Corruption => "corrupt snapshot or history unit"@,
        Error::Truncated => "truncated snapshot"@,
        Error::LimitExceeded => "snapshot limit exceeded"@,
        Error::Stale => "stale history lease"@,
        Error::Pruned => "history was pruned"@,
        Error::WrongGeneration => "wrong history generation"@,
        Error::WrongTerminal => "wrong terminal"@,
        Error::InvalidHandle => "invalid snapshot handle or token"@,
        Error::ImportBusy => "history import already active"@,
        Error::OutOfMemory => "out of memory"@,
        Error::OutOfSpace { required_bytes, required_rows } => "out of space ("@
            + crate::text::decimal(required_bytes as nat) + " bytes and "@ + crate::text::decimal(
            required_rows as nat,
        ) + " rows required)"@,
        Error::InvalidState => "invalid snapshot state"@,
        Error::ContinuationUnavailable => "snapshot continuation unavailable"@,
        Error::Reset => "terminal reset invalidated history"@,
        Error::Resize => "terminal resize invalidated history"@,
    }
}

impl Error {
    /// The text of this error.
    pub fn message(self) -> (s: String)
        ensures
            s@ == error_text(self),
    {
        match self {
            Error::UnsupportedFeature => "unsupported snapshot feature".to_owned(),
            Error::UnknownVersion => "unknown snapshot version".to_owned(),
            Error::Corruption => "corrupt snapshot or history unit".to_owned(),
            Error::Truncated => "truncated snapshot".to_owned(),
            Error::LimitExceeded => "snapshot limit exceeded".to_owned(),
            Error::Stale => "stale history lease".to_owned(),
            Error::Pruned => "history was pruned".to_owned(),
            Error::WrongGeneration => "wrong history generation".to_owned(),
            Error::WrongTerminal => "wrong terminal".to_owned(),
            Error::InvalidHandle => "invalid snapshot handle or token".to_owned(),
            Error::ImportBusy => "history import already active".to_owned(),
            Error::OutOfMemory => "out of memory".to_owned(),
            Error::OutOfSpace { required_bytes, required_rows } => {
                let mut s: String = "out of space (".to_owned();
                s.append(decimal_text(required_bytes as u64).as_str());
                s.append(" bytes and ");
                s.append(decimal_text(required_rows as u64).as_str());
                s.append(" rows required)");
                s
            },
            Error::InvalidState => "invalid snapshot state".to_owned(),
            Error::ContinuationUnavailable => "snapshot continuation unavailable".to_owned(),
            Error::Reset => "terminal reset invalidated history".to_owned(),
            Error::Resize => "terminal resize invalidated history".to_owned(),
        }
    }
}

/// The text of an error that came after `consumed` bytes of a fragment.
pub open spec fn failure_text(e: Error, consumed: usize) -> Seq<char> {
    error_text(e) + " after consuming "@ + crate::text::decimal(consumed as nat) + " bytes"@
}

/// The text of an error that came after `consumed` bytes of a fragment.
pub fn failure_message(error: Error, consumed: usize) -> (s: String)
    ensures
        s@ == failure_text(error, consumed),
{
    let mut s: String = error.message();
    s.append(" after consuming ");
    s.append(decimal_text(consumed as u64).as_str());
    s.append(" bytes");
    s
}

/// A stable screen identity of the incremental history interface.
#[derive(Clone, Copy, Debug, PartialEq, Eq, Hash, Structural)]
pub struct ScreenKey(pub u16);

impl ScreenKey {
    /// Primary screen history.
    pub fn primary() -> (k: ScreenKey)
        ensures
            k.0 == 0,
    {
        ScreenKey(0)
    }

    /// Alternate screen history.
    pub fn alternate() -> (k: ScreenKey)
        ensures
            k.0 == 1,
    {
        ScreenKey(1)
    }
}

/// Opaque authenticated digest for one READY history cut. It cannot be copied.
pub struct CheckpointToken {
    raw: Vec<u8>,
}

impl View for CheckpointToken {
    type V = Seq<u8>;

    closed spec fn view(&self) -> Seq<u8> {
        self.raw@
    }
}

impl CheckpointToken {
    /// Wraps the digest that the engine gave.
    pub fn new(raw: Vec<u8>) -> (t: CheckpointToken)
        ensures
            t@ == raw@,
    {
        CheckpointToken { raw }
    }

    /// The digest, for handing it back to the engine.
    pub fn raw(&self) -> (r: &Vec<u8>)
        ensures
            r@ == self@,
    {
        &self.raw
    }

    /// How the token is shown: nothing of the digest appears.
    pub fn label(&self) -> (s: &'static str)
        ensures
            s@ == "CheckpointToken(<opaque>)"@,
    {
        "CheckpointToken(<opaque>)"
    }
}

/// Opaque engine capability authorizing one cursor or importer. It cannot be
/// copied.
pub struct CapabilityToken {
    raw: Vec<u8>,
}

impl View for CapabilityToken {
    type V = Seq<u8>;

    closed spec fn view(&self) -> Seq<u8> {
        self.raw@
    }
}

impl CapabilityToken {
    /// Wraps the capability that the engine gave.
    pub fn new(raw: Vec<u8>) -> (t: CapabilityToken)
        ensures
            t@ == raw@,
    {
        CapabilityToken { raw }
    }

    /// How the token is shown: nothing of the capability appears.
    pub fn label(&self) -> (s: &'static str)
        ensures
            s@ == "CapabilityToken(<opaque>)"@,
    {
        "CapabilityToken(<opaque>)"
    }
}

/// An object of the engine that its owner lets go. Where `abort` holds, the
/// operation that it stands for is still under way and has to be aborted before
/// the handle is dropped.
pub struct Released<H> {
    pub handle: H,
    pub abort: bool,
}

/// Distinct statuses stay distinct errors, except that a status which this
/// library does not know is reported as an invalid state.
pub proof fn law_statuses_remain_distinct(
    a: SnapshotStatus,
    b: SnapshotStatus,
    bytes: usize,
    rows: usize,
)
    requires
        a != SnapshotStatus::Unknown,
        b != SnapshotStatus::Unknown,
        error_of(a, bytes, rows) == error_of(b, bytes, rows),
    ensures
        a == b,
{
}

/// Only success carries no error.
pub proof fn law_only_success_is_ok(status: SnapshotStatus, bytes: usize, rows: usize)
    ensures
        outcome(status, bytes, rows) is Ok <==> status == SnapshotStatus::Success,
{
}

/// Every status that is not success has the error of its own name; the engine's
/// numbers go along with want of space, and with nothing else.
pub proof fn law_errors_are_named_after_their_status(
    status: SnapshotStatus,
    bytes: usize,
    rows: usize,
    r: Result<(), Error>,
)
    requires
        call_ensures(from_status, (status, bytes, rows), r),
    ensures
        r is Ok <==> status == SnapshotStatus::Success,
        r matches Err(e) ==> {
            &&& e is UnsupportedFeature <==> status == SnapshotStatus::UnsupportedFeature
            &&& e is UnknownVersion <==> status == SnapshotStatus::UnknownVersion
            &&& e is Corruption <==> status == SnapshotStatus::Corruption
            &&& e is Truncated <==> status == SnapshotStatus::Truncated
            &&& e is LimitExceeded <==> status == SnapshotStatus::LimitExceeded
            &&& e is Stale <==> status == SnapshotStatus::Stale
            &&& e is Pruned <==> status == SnapshotStatus::Pruned
            &&& e is WrongGeneration <==> status == SnapshotStatus::WrongGeneration
            &&& e is WrongTerminal <==> status == SnapshotStatus::WrongTerminal
            &&& e is InvalidHandle <==> status == SnapshotStatus::InvalidHandle
            &&& e is ImportBusy <==> status == SnapshotStatus::ImportBusy
            &&& e is OutOfMemory <==> status == SnapshotStatus::OutOfMemory
            &&& e is OutOfSpace <==> status == SnapshotStatus::OutOfSpace
            &&& e is ContinuationUnavailable <==> status == SnapshotStatus::ContinuationUnavailable
            &&& e is Reset <==> status == SnapshotStatus::Reset
            &&& e is Resize <==> status == SnapshotStatus::Resize
            &&& e is InvalidState <==> status == SnapshotStatus::InvalidState || status
                == SnapshotStatus::Unknown
        },
        r matches Err(Error::OutOfSpace { required_bytes, required_rows }) ==> required_bytes
            == bytes && required_rows == rows,
{
}

/// A handle comes out exactly where the engine reports success and gave one, and it
/// is that one. Success without a handle means that memory ran out.
pub proof fn law_handles_come_with_success<H>(
    status: SnapshotStatus,
    handle: Option<H>,
    told: Result<(), Error>,
    r: Result<H, Error>,
)
    requires
        call_ensures(open_handle::<H>, (status, handle), r),
        call_ensures(from_status, (status, 0usize, 0usize), told),
    ensures
        r is Ok <==> status == SnapshotStatus::Success && handle is Some,
        r matches Ok(h) ==> handle == Some(h),
        r matches Err(e) ==> e == (match told {
            Err(t) => t,
            Ok(()) => Error::OutOfMemory,
        }),
{
}

/// The text of want of space spells both numbers out, and that of a failure how
/// many bytes went before it.
pub proof fn law_texts_spell_numbers_out(
    required_bytes: usize,
    required_rows: usize,
    e: Error,
    consumed: usize,
    s: String,
    t: String,
    u: String,
)
    requires
        call_ensures(Error::message, (Error::OutOfSpace { required_bytes, required_rows },), s),
        call_ensures(Error::message, (e,), t),
        call_ensures(failure_message, (e, consumed), u),
    ensures
        s@ == "out of space ("@ + crate::text::decimal(required_bytes as nat) + " bytes and "@
            + crate::text::decimal(required_rows as nat) + " rows required)"@,
        u@ == t@ + " after consuming "@ + crate::text::decimal(consumed as nat) + " bytes"@,
{
}

/// A token holds the very bytes that it was made of.
pub proof fn law_tokens_keep_their_bytes(raw: Vec<u8>, t: CheckpointToken, bytes: &Vec<u8>)
    requires
        call_ensures(CheckpointToken::new, (raw,), t),
        call_ensures(CheckpointToken::raw, (&t,), bytes),
    ensures
        bytes@ == raw@,
{
}

/// The two screens have different keys: nought and one.
pub proof fn law_screens_have_keys_of_their_own(primary: ScreenKey, alternate: ScreenKey)
    requires
        call_ensures(ScreenKey::primary, (), primary),
        call_ensures(ScreenKey::alternate, (), alternate),
    ensures
        primary.0 == 0,
        alternate.0 == 1,
        primary != alternate,
{
}

} // verus!
