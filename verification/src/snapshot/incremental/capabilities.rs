//! What the linked codec can do.
use vstd::prelude::*;
use vstd::string::*;
use vstd::utf8::*;

use crate::snapshot::incremental::status::{from_status, Error, SnapshotStatus};
use crate::utf8::text_from_utf8;

verus! {

/// Text that the engine owns for as long as the process lives: `bytes` is
/// missing where the engine gave a null pointer, and holds `len` bytes otherwise.
#[derive(Clone, Copy, Debug)]
pub struct LibraryText {
    pub bytes: Option<&'static [u8]>,
    pub len: usize,
}

impl LibraryText {
    /// The bytes that are there are as many as the length says.
    pub open spec fn wf(self) -> bool {
        self.bytes is Some ==> self.bytes->0@.len() == self.len
    }

    /// The bytes of the text.
    pub open spec fn content(self) -> Seq<u8> {
        match self.bytes {
            Some(b) => b@,
            None => Seq::empty(),
        }
    }
}

/// What is wrong with a text of the engine, if anything: a null pointer with a
/// length is not a text, and bytes that are not UTF-8 are corrupt.
pub open spec fn library_fault(raw: LibraryText) -> Option<Error> {
    if raw.bytes is None && raw.len != 0 {
        Some(Error::InvalidHandle)
    } else if !valid_utf8(raw.content()) {
        Some(Error::Corruption)
    } else {
        None
    }
}

/// Reads a text of the engine.
pub fn library_str(raw: LibraryText) -> (r: Result<&'static str, Error>)
    requires
        raw.wf(),
    ensures
        match library_fault(raw) {
            Some(e) => r == Err::<&'static str, Error>(e),
            None => r is Ok && encode_utf8(r->Ok_0@) == raw.content(),
        },
{
    let bytes: &'static [u8] = match raw.bytes {
        None => {
            if raw.len != 0 {
                return Err(Error::InvalidHandle);
            }
            proof {
                reveal_strlit("");
                assert(""@ =~= Seq::<char>::empty());
                assert(encode_utf8(""@) =~= Seq::<u8>::empty());
                assert(valid_utf8(Seq::<u8>::empty()));
            }
            return Ok("");
        },
        Some(bytes) => bytes,
    };
    match text_from_utf8(bytes) {
        Some(s) => Ok(s),
        None => Err(Error::Corruption),
    }
}

/// What the engine answered when it was asked for its capabilities.
#[derive(Clone, Copy, Debug)]
pub struct CapabilitiesReply {
    pub status: SnapshotStatus,
    pub version: u32,
    pub min_decode_version: u16,
    pub max_decode_version: u16,
    pub default_encode_version: u16,
    pub incremental: bool,
    pub ready: bool,
    pub history: bool,
    pub authenticated_tokens: bool,
    pub bounded_records: bool,
    pub bounded_pages: bool,
    pub bounded_units: bool,
    pub max_record_bytes: usize,
    pub max_pages: usize,
    pub max_unit_bytes: usize,
    pub max_rows: usize,
    pub codec_identity: LibraryText,
    pub build_identity: LibraryText,
}

/// Compatibility, identity, and hard limits of the linked incremental codec.
#[derive(Clone, Copy, Debug)]
pub struct Capabilities {
    /// Incremental interface version.
    pub version: u32,
    /// Lowest accepted snapshot envelope version.
    pub min_decode_version: u16,
    /// Highest accepted snapshot envelope version.
    pub max_decode_version: u16,
    /// Envelope version emitted by capture.
    pub default_encode_version: u16,
    /// Incremental capture and decode are implemented.
    pub incremental: bool,
    /// An authenticated READY boundary is available.
    pub ready: bool,
    /// Snapshot history records are available.
    pub history: bool,
    /// History checkpoint and capability tokens are authenticated.
    pub authenticated_tokens: bool,
    /// Capture records have caller-selected strict bounds.
    pub bounded_records: bool,
    /// Snapshot pages have caller-selected strict bounds.
    pub bounded_pages: bool,
    /// Live history units have caller-selected strict bounds.
    pub bounded_units: bool,
    /// Greatest accepted record-byte bound.
    pub max_record_bytes: usize,
    /// Greatest accepted page-count bound.
    pub max_pages: usize,
    /// Greatest accepted history-unit byte bound.
    pub max_unit_bytes: usize,
    /// Greatest accepted history-unit row bound.
    pub max_rows: usize,
    /// Stable codec identity.
    pub codec_identity: &'static str,
    /// Identity of the linked build of the engine.
    pub build_identity: &'static str,
}

impl Capabilities {
    /// Every value is the one that the engine answered with.
    pub open spec fn reports(self, reply: CapabilitiesReply) -> bool {
        &&& self.version == reply.version
        &&& self.min_decode_version == reply.min_decode_version
        &&& self.max_decode_version == reply.max_decode_version
        &&& self.default_encode_version == reply.default_encode_version
        &&& self.incremental == reply.incremental
        &&& self.ready == reply.ready
        &&& self.history == reply.history
        &&& self.authenticated_tokens == reply.authenticated_tokens
        &&& self.bounded_records == reply.bounded_records
        &&& self.bounded_pages == reply.bounded_pages
        &&& self.bounded_units == reply.bounded_units
        &&& self.max_record_bytes == reply.max_record_bytes
        &&& self.max_pages == reply.max_pages
        &&& self.max_unit_bytes == reply.max_unit_bytes
        &&& self.max_rows == reply.max_rows
        &&& encode_utf8(self.codec_identity@) == reply.codec_identity.content()
        &&& encode_utf8(self.build_identity@) == reply.build_identity.content()
    }
}

/// Why the answer cannot be used, if it cannot: a failing status comes first,
/// then the codec identity, then the build identity.
pub open spec fn capabilities_fault(reply: CapabilitiesReply) -> Option<Error> {
    match crate::snapshot::incremental::status::error_of(reply.status, 0, 0) {
        Some(e) => Some(e),
        None => match library_fault(reply.codec_identity) {
            Some(e) => Some(e),
            None => library_fault(reply.build_identity),
        },
    }
}

/// Reads the capabilities that the engine answered with.
pub fn capabilities(reply: CapabilitiesReply) -> (r: Result<Capabilities, Error>)
    requires
        reply.codec_identity.wf(),
        reply.build_identity.wf(),
    ensures
        match capabilities_fault(reply) {
            Some(e) => r == Err::<Capabilities, Error>(e),
            None => r is Ok && r->Ok_0.reports(reply),
        },
{
    if let Err(e) = from_status(reply.status, 0, 0) {
        return Err(e);
    }
    let codec_identity = match library_str(reply.codec_identity) {
        Ok(s) => s,
        Err(e) => {
            return Err(e);
        },
    };
    match library_str(reply.build_identity) {
        Ok(build_identity) => Ok(
            Capabilities {
                version: reply.version,
                min_decode_version: reply.min_decode_version,
                max_decode_version: reply.max_decode_version,
                default_encode_version: reply.default_encode_version,
                incremental: reply.incremental,
                ready: reply.ready,
                history: reply.history,
                authenticated_tokens: reply.authenticated_tokens,
                bounded_records: reply.bounded_records,
                bounded_pages: reply.bounded_pages,
                bounded_units: reply.bounded_units,
                max_record_bytes: reply.max_record_bytes,
                max_pages: reply.max_pages,
                max_unit_bytes: reply.max_unit_bytes,
                max_rows: reply.max_rows,
                codec_identity,
                build_identity,
            },
        ),
        Err(e) => Err(e),
    }
}

/// A text of the engine can be read exactly where it is valid UTF-8, an empty one
/// where the engine gave no pointer and claims no length.
pub proof fn law_texts_of_the_engine_are_read(raw: LibraryText, r: Result<&'static str, Error>)
    requires
        raw.wf(),
        call_ensures(library_str, (raw,), r),
    ensures
        raw.bytes is None ==> (r is Ok <==> raw.len == 0),
        raw.bytes is None && r is Err ==> r->Err_0 == Error::InvalidHandle,
        raw.bytes is None && r is Ok ==> r->Ok_0@.len() == 0,
        raw.bytes matches Some(bytes) ==> (r is Ok <==> valid_utf8(bytes@)),
        raw.bytes is Some && r is Err ==> r->Err_0 == Error::Corruption,
        raw.bytes is Some && r is Ok ==> r->Ok_0@ == decode_utf8(raw.bytes->0@),
{
    if let Ok(s) = r {
        encode_utf8_decode_utf8(s@);
    }
    if raw.bytes is None {
        assert(valid_utf8(Seq::<u8>::empty()));
        if let Ok(s) = r {
            assert(encode_utf8(Seq::<char>::empty()) =~= Seq::<u8>::empty());
            encode_utf8_decode_utf8(Seq::<char>::empty());
        }
    }
}

/// The capabilities are the engine's own, every one of them, where the engine
/// reports success and both of its names can be read. Otherwise the engine's error
/// comes first, then that of the codec's name, then that of the build's.
pub proof fn law_capabilities_are_the_engines_own(
    reply: CapabilitiesReply,
    told: Result<(), Error>,
    codec: Result<&'static str, Error>,
    build: Result<&'static str, Error>,
    r: Result<Capabilities, Error>,
)
    requires
        reply.codec_identity.wf(),
        reply.build_identity.wf(),
        call_ensures(capabilities, (reply,), r),
        call_ensures(from_status, (reply.status, 0usize, 0usize), told),
        call_ensures(library_str, (reply.codec_identity,), codec),
        call_ensures(library_str, (reply.build_identity,), build),
    ensures
        r is Ok <==> told is Ok && codec is Ok && build is Ok,
        r matches Err(e) ==> e == (match (told, codec, build) {
            (Err(t), _, _) => t,
            (Ok(()), Err(c), _) => c,
            (Ok(()), Ok(_), Err(b)) => b,
            (Ok(()), Ok(_), Ok(_)) => e,
        }),
        r matches Ok(c) ==> {
            &&& c.version == reply.version
            &&& c.min_decode_version == reply.min_decode_version
            &&& c.max_decode_version == reply.max_decode_version
            &&& c.default_encode_version == reply.default_encode_version
            &&& c.incremental == reply.incremental
            &&& c.ready == reply.ready
            &&& c.history == reply.history
            &&& c.authenticated_tokens == reply.authenticated_tokens
            &&& c.bounded_records == reply.bounded_records
            &&& c.bounded_pages == reply.bounded_pages
            &&& c.bounded_units == reply.bounded_units
            &&& c.max_record_bytes == reply.max_record_bytes
            &&& c.max_pages == reply.max_pages
            &&& c.max_unit_bytes == reply.max_unit_bytes
            &&& c.max_rows == reply.max_rows
            &&& c.codec_identity@ == codec->Ok_0@
            &&& c.build_identity@ == build->Ok_0@
        },
{
    if let Ok(c) = r {
        encode_utf8_decode_utf8(c.codec_identity@);
        encode_utf8_decode_utf8(c.build_identity@);
        encode_utf8_decode_utf8(codec->Ok_0@);
        encode_utf8_decode_utf8(build->Ok_0@);
    }
}

} // verus!
