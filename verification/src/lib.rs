//! Client library for a low-latency publish-subscribe messaging transport.
//!
//! A process registers publications (send endpoints) and subscriptions
//! (receive endpoints) on named channels and stream ids, sends discrete
//! messages with back-pressure feedback, and consumes messages by polling
//! with flow-control directives.  The transport engine itself is modelled by
//! [`engine::Engine`], an in-memory media driver whose only concurrency
//! primitive is "start an operation, then repeatedly poll it to completion";
//! the types in this crate bridge that polling surface into a task-friendly
//! asynchronous interface with suspension, cancellation and ordering
//! guarantees, all of it verified.

pub mod client;
pub mod context;
pub mod engine;
pub mod error;
pub mod publication;
pub mod subscription;

use vstd::prelude::*;
use vstd::string::StringSliceAdditionalSpecFns;

verus! {

/// Identifies a logical stream within a channel.
#[derive(Copy, Clone, Debug, PartialEq, Eq, Structural)]
pub struct StreamId(pub i32);

/// Identifies one publisher's session on a stream.
#[derive(Copy, Clone, Debug, PartialEq, Eq, Structural)]
pub struct SessionId(pub i32);

/// Identifies one asynchronous registration with the engine.
#[derive(Copy, Clone, Debug, PartialEq, Eq, Structural)]
pub struct CorrelationId(pub i64);

/// Identifies an engine-internal rotating storage segment of a stream.
#[derive(Copy, Clone, Debug, PartialEq, Eq, Structural)]
pub struct TermId(pub i32);

/// A monotonically increasing byte offset into a publication's stream.
#[derive(Copy, Clone, Debug, PartialEq, Eq, Structural)]
pub struct Position(pub i64);

/// Health of a channel: live, failed, or an unrecognised code kept opaque
/// for forward compatibility.
#[derive(Copy, Clone, Debug, PartialEq, Eq, Structural)]
pub enum ChannelStatus {
    Active,
    Errored,
    Other(i64),
}

impl ChannelStatus {
    /// The classification of a raw engine status code.
    pub open spec fn spec_from_code(code: i64) -> ChannelStatus {
        if code == 1 {
            ChannelStatus::Active
        } else if code == -1 {
            ChannelStatus::Errored
        } else {
            ChannelStatus::Other(code)
        }
    }

    /// Classifies a raw engine status code.
    pub fn from_code(code: i64) -> (r: ChannelStatus)
        ensures
            r == ChannelStatus::spec_from_code(code),
    {
        if code == 1 {
            ChannelStatus::Active
        } else if code == -1 {
            ChannelStatus::Errored
        } else {
            ChannelStatus::Other(code)
        }
    }
}

/// An immutable snapshot of per-fragment metadata, copied out of the engine
/// at delivery time so that it outlives the single poll callback it is
/// handed to.
#[derive(Copy, Clone, Debug, PartialEq, Eq, Structural)]
pub struct Header {
    pub version: i8,
    pub flags: u8,
    pub frame_type: i16,
    pub session_id: i32,
    pub stream_id: i32,
    pub term_id: i32,
    pub term_offset: i32,
    pub reserved_value: i64,
}

impl Header {
    pub fn version(&self) -> (r: i8)
        ensures
            r == self.version,
    {
        self.version
    }

    pub fn flags(&self) -> (r: u8)
        ensures
            r == self.flags,
    {
        self.flags
    }

    pub fn frame_type(&self) -> (r: HeaderType)
        ensures
            r == HeaderType(self.frame_type),
    {
        HeaderType(self.frame_type)
    }

    pub fn session_id(&self) -> (r: SessionId)
        ensures
            r == SessionId(self.session_id),
    {
        SessionId(self.session_id)
    }

    pub fn stream_id(&self) -> (r: StreamId)
        ensures
            r == StreamId(self.stream_id),
    {
        StreamId(self.stream_id)
    }

    pub fn term_id(&self) -> (r: TermId)
        ensures
            r == TermId(self.term_id),
    {
        TermId(self.term_id)
    }

    pub fn term_offset(&self) -> (r: i32)
        ensures
            r == self.term_offset,
    {
        self.term_offset
    }

    pub fn reserved_value(&self) -> (r: i64)
        ensures
            r == self.reserved_value,
    {
        self.reserved_value
    }
}

/// The frame type recorded in a [`Header`].
#[derive(Copy, Clone, Debug, PartialEq, Eq, Structural)]
pub struct HeaderType(pub i16);

impl HeaderType {
    pub fn padding_frame() -> (r: HeaderType)
        ensures
            r == HeaderType(0i16),
    {
        HeaderType(0)
    }

    pub fn data_fragment() -> (r: HeaderType)
        ensures
            r == HeaderType(1i16),
    {
        HeaderType(1)
    }

    pub fn nak() -> (r: HeaderType)
        ensures
            r == HeaderType(2i16),
    {
        HeaderType(2)
    }

    pub fn status_message() -> (r: HeaderType)
        ensures
            r == HeaderType(3i16),
    {
        HeaderType(3)
    }

    pub fn error_frame() -> (r: HeaderType)
        ensures
            r == HeaderType(4i16),
    {
        HeaderType(4)
    }

    pub fn setup() -> (r: HeaderType)
        ensures
            r == HeaderType(5i16),
    {
        HeaderType(5)
    }

    pub fn round_trip_time_measurement() -> (r: HeaderType)
        ensures
            r == HeaderType(6i16),
    {
        HeaderType(6)
    }

    pub fn resolution() -> (r: HeaderType)
        ensures
            r == HeaderType(7i16),
    {
        HeaderType(7)
    }

    pub fn extension() -> (r: HeaderType)
        ensures
            r == HeaderType(-1i16),
    {
        HeaderType(-1)
    }
}

/// Outcome of driving a registration future one step.  `Pending` asks the
/// caller to re-drive immediately: the operation is in flight and this is
/// a cooperative busy-poll bridged into the caller's scheduler, not a
/// blocking wait, so a caller wanting less CPU composes a delay between
/// re-drives.  `Ready` carries the resolution.
#[derive(Debug)]
pub enum Drive<T> {
    Pending,
    Ready(T),
}

/// Whether a byte string embeds a zero byte; such a channel URI violates
/// the engine's string contract and is rejected locally.
pub open spec fn uri_has_nul(bytes: Seq<u8>) -> bool {
    exists|i: int| 0 <= i < bytes.len() && bytes[i] == 0
}

/// Whether a channel URI can cross the engine's boundary unaltered: it
/// must embed no zero byte.
pub fn uri_is_representable(uri: &str) -> (r: bool)
    ensures
        r == !uri_has_nul(uri.spec_bytes()),
{
    let bytes = uri.as_bytes();
    let n = bytes.len();
    let mut i: usize = 0;
    while i < n
        invariant
            bytes@ == uri.spec_bytes(),
            n == bytes@.len(),
            i <= n,
            forall|j: int| 0 <= j < i ==> bytes@[j] != 0,
        decreases n - i,
    {
        if bytes[i] == 0 {
            return false;
        }
        i = i + 1;
    }
    true
}

/// An opaque engine-side handle for a pending operation.  The engine hands
/// out plain numeric handles; this wrapper marks one that may be carried
/// between tasks while the operation it names is still in flight.
#[derive(Copy, Clone, Debug, PartialEq, Eq, Structural)]
pub struct SendSyncPtr(pub usize);

impl SendSyncPtr {
    /// The raw handle value, as the engine issued it.
    pub fn as_ptr(&self) -> (r: usize)
        ensures
            r == self.0,
    {
        self.0
    }
}

} // verus!
