//! An in-memory model of the messaging engine (media driver).
//!
//! The engine is the external collaborator of this client library: a store
//! of streams shared by every connected client, reached through a narrow
//! call surface whose only concurrency primitive is "start an operation,
//! then poll it to completion".  This module gives that surface exact
//! semantics: registrations resolve after a bounded number of polls,
//! offers append frames and report flow-control conditions as negative
//! result codes, and subscribers consume frames in arrival order.
//!
//! Result codes follow the engine's convention: a non-negative value is a
//! success (usually a stream position), and the negative values are
//! `-1` not connected, `-2` back pressured, `-3` admin action,
//! `-4` resource closed, `-5` max position exceeded, `-6` generic error.

use vstd::prelude::*;

verus! {

/// The highest position a stream may reach.
pub const MAX_POSITION: i64 = 0x7fff_ffff_ffff_ffff;

/// The highest session id the engine allocates.
pub const MAX_SESSION_ID: i32 = 0x7fff_ffff;

/// The highest correlation id the engine allocates.
pub const MAX_CORRELATION_ID: i64 = 0x7fff_ffff_ffff_ffff;

/// The highest term id a stream may rotate to.
pub const MAX_TERM_ID: i32 = 0x7fff_ffff;

/// One message, as appended to a stream by a publisher and delivered to
/// subscribers.
pub struct Frame {
    pub data: Vec<u8>,
    pub session_id: i32,
    pub term_id: i32,
    pub term_offset: i32,
    pub reserved_value: i64,
}

/// The engine-side record of one live publication.
pub struct Publisher {
    pub session_id: i32,
    pub closed: bool,
    pub destinations: Vec<String>,
}

/// The engine-side record of one live subscription: the index of the next
/// frame it will consume.
pub struct Subscriber {
    pub next_fragment: usize,
    pub closed: bool,
    pub destinations: Vec<String>,
}

/// One logical stream, named by a channel URI and a stream id.
pub struct StreamState {
    pub channel: String,
    pub stream_id: i32,
    pub frames: Vec<Frame>,
    /// Byte position past the last appended or padded byte.
    pub tail: i64,
    /// The storage term frames are currently appended to.
    pub term_id: i32,
    /// Offset within the current term at which the next frame begins.
    pub term_offset: usize,
    pub publishers: Vec<Publisher>,
    pub subscribers: Vec<Subscriber>,
}

/// What a pending registration will resolve to.
pub enum RegistrationKind {
    AddPublication,
    AddSubscription,
    PublicationDestination { stream_slot: usize, publisher_slot: usize, remove: bool },
    SubscriptionDestination { stream_slot: usize, subscriber_slot: usize, remove: bool },
}

/// A pending asynchronous operation: submitted to the engine, resolved
/// after `remaining` further polls.
pub struct Registration {
    pub kind: RegistrationKind,
    pub channel: String,
    pub stream_id: i32,
    pub remaining: u32,
    pub resolved: bool,
    pub correlation_id: i64,
}

/// The in-memory engine: every stream, every pending registration, and the
/// allocation state shared by all clients of one driver.
pub struct Engine {
    pub streams: Vec<StreamState>,
    pub registrations: Vec<Registration>,
    pub next_session_id: i32,
    pub next_correlation_id: i64,
    /// How many polls a registration stays pending before it resolves; the
    /// engine is responsive, so this is finite by construction.
    pub registration_latency: u32,
    /// Longest payload an offer or claim may carry.
    pub max_payload: usize,
    /// Capacity of one storage term of a stream.
    pub term_length: usize,
    /// How many unconsumed frames a subscriber may lag behind before the
    /// stream back-pressures its publishers.
    pub window: usize,
    pub closed: bool,
}

/// Whether a stream carries the given channel and stream id.
pub open spec fn stream_matches(st: StreamState, channel: Seq<char>, stream_id: i32) -> bool {
    st.channel@ == channel && st.stream_id == stream_id
}

impl StreamState {
    /// Internal consistency of one stream, against the engine's term length.
    pub open spec fn wf(&self, term_length: usize) -> bool {
        &&& 0 <= self.tail <= MAX_POSITION
        &&& 0 <= self.term_id <= MAX_TERM_ID
        &&& self.term_offset <= term_length
        &&& forall|k: int|
            0 <= k < self.subscribers@.len() ==> (#[trigger] self.subscribers@[k]).next_fragment
                <= self.frames@.len()
    }

    /// Whether some open subscriber is attached: a publisher on this stream
    /// counts as connected exactly then.
    pub open spec fn has_open_subscriber(&self) -> bool {
        exists|k: int| 0 <= k < self.subscribers@.len() && !(#[trigger] self.subscribers@[k]).closed
    }

    /// Whether some open publisher is attached: a subscriber on this stream
    /// counts as connected exactly then.
    pub open spec fn has_open_publisher(&self) -> bool {
        exists|k: int| 0 <= k < self.publishers@.len() && !(#[trigger] self.publishers@[k]).closed
    }

    /// Whether some open subscriber lags `window` frames or more behind the
    /// appended frames; the stream back-pressures its publishers then.
    pub open spec fn has_slow_subscriber(&self, window: usize) -> bool {
        exists|k: int|
            0 <= k < self.subscribers@.len() && !(#[trigger] self.subscribers@[k]).closed
                && self.frames@.len() - self.subscribers@[k].next_fragment >= window
    }
}

/// Outcome of polling a pending add-publication registration.
#[derive(Copy, Clone, Debug, PartialEq, Eq, Structural)]
pub enum AddPublicationPoll {
    Pending,
    Ready { stream_slot: usize, publisher_slot: usize, session_id: i32, correlation_id: i64 },
    Error(i32),
}

/// Outcome of polling a pending add-subscription registration.
#[derive(Copy, Clone, Debug, PartialEq, Eq, Structural)]
pub enum AddSubscriptionPoll {
    Pending,
    Ready { stream_slot: usize, subscriber_slot: usize, correlation_id: i64 },
    Error(i32),
}

/// Whether some stream of `e` carries the channel and stream id.
pub open spec fn has_stream(e: Engine, channel: Seq<char>, stream_id: i32) -> bool {
    exists|i: int|
        0 <= i < e.streams@.len() && stream_matches(#[trigger] e.streams@[i], channel, stream_id)
}

/// `st1` is `st0` with one open publisher of session `sid` appended.
pub open spec fn publisher_appended(st0: StreamState, st1: StreamState, sid: i32) -> bool {
    &&& st1.publishers@.len() == st0.publishers@.len() + 1
    &&& st1.publishers@.take(st0.publishers@.len() as int) =~= st0.publishers@
    &&& st1.publishers@.last().session_id == sid
    &&& !st1.publishers@.last().closed
    &&& st1.publishers@.last().destinations@ == Seq::<String>::empty()
    &&& st1.channel == st0.channel
    &&& st1.stream_id == st0.stream_id
    &&& st1.frames@ == st0.frames@
    &&& st1.tail == st0.tail
    &&& st1.term_id == st0.term_id
    &&& st1.term_offset == st0.term_offset
    &&& st1.subscribers@ == st0.subscribers@
}

/// `st1` is `st0` with one open subscriber appended, joined at the current
/// end of the stream: it consumes only frames appended after it resolved.
pub open spec fn subscriber_appended(st0: StreamState, st1: StreamState) -> bool {
    &&& st1.subscribers@.len() == st0.subscribers@.len() + 1
    &&& st1.subscribers@.take(st0.subscribers@.len() as int) =~= st0.subscribers@
    &&& st1.subscribers@.last().next_fragment == st0.frames@.len()
    &&& !st1.subscribers@.last().closed
    &&& st1.subscribers@.last().destinations@ == Seq::<String>::empty()
    &&& st1.channel == st0.channel
    &&& st1.stream_id == st0.stream_id
    &&& st1.frames@ == st0.frames@
    &&& st1.tail == st0.tail
    &&& st1.term_id == st0.term_id
    &&& st1.term_offset == st0.term_offset
    &&& st1.publishers@ == st0.publishers@
}

/// A stream freshly created by a resolving registration: empty, at
/// position zero.
pub open spec fn fresh_stream(st: StreamState, channel: Seq<char>, stream_id: i32) -> bool {
    &&& st.channel@ == channel
    &&& st.stream_id == stream_id
    &&& st.frames@.len() == 0
    &&& st.tail == 0
    &&& st.term_id == 0
    &&& st.term_offset == 0
}

/// The registration at `h` is marked resolved; no other registration and no
/// other field of it changed.
pub open spec fn resolves_registration(e0: Engine, e1: Engine, h: int) -> bool {
    &&& e1.registrations@.len() == e0.registrations@.len()
    &&& forall|j: int|
        0 <= j < e0.registrations@.len() && j != h ==> e1.registrations@[j]
            == #[trigger] e0.registrations@[j]
    &&& e1.registrations@[h].resolved
    &&& e1.registrations@[h].kind == e0.registrations@[h].kind
    &&& e1.registrations@[h].channel == e0.registrations@[h].channel
    &&& e1.registrations@[h].stream_id == e0.registrations@[h].stream_id
    &&& e1.registrations@[h].remaining == e0.registrations@[h].remaining
    &&& e1.registrations@[h].correlation_id == e0.registrations@[h].correlation_id
}

/// The add-publication registration at `h` resolved: a new session was
/// allocated and one publisher joined the matching stream, created fresh if
/// the engine carried none.
pub open spec fn publication_resolved(e0: Engine, e1: Engine, h: int, slot: int, pslot: int) -> bool {
    let ch = e0.registrations@[h].channel@;
    let sid = e0.registrations@[h].stream_id;
    &&& resolves_registration(e0, e1, h)
    &&& e1.next_session_id == e0.next_session_id + 1
    &&& e1.next_correlation_id == e0.next_correlation_id
    &&& e1.closed == e0.closed
    &&& e0.same_config(e1)
    &&& if has_stream(e0, ch, sid) {
        &&& slot < e0.streams@.len()
        &&& stream_matches(e0.streams@[slot], ch, sid)
        &&& e1.streams@.len() == e0.streams@.len()
        &&& (forall|j: int|
            0 <= j < e0.streams@.len() && j != slot ==> e1.streams@[j] == #[trigger] e0.streams@[j])
        &&& publisher_appended(e0.streams@[slot], e1.streams@[slot], e0.next_session_id)
        &&& pslot == e0.streams@[slot].publishers@.len()
    } else {
        &&& slot == e0.streams@.len()
        &&& e1.streams@.len() == e0.streams@.len() + 1
        &&& e1.streams@.take(e0.streams@.len() as int) =~= e0.streams@
        &&& fresh_stream(e1.streams@.last(), ch, sid)
        &&& e1.streams@.last().subscribers@.len() == 0
        &&& e1.streams@.last().publishers@.len() == 1
        &&& e1.streams@.last().publishers@[0].session_id == e0.next_session_id
        &&& !e1.streams@.last().publishers@[0].closed
        &&& pslot == 0
    }
}

/// The add-subscription registration at `h` resolved: one subscriber joined
/// the matching stream at its current end, the stream created fresh if the
/// engine carried none.
pub open spec fn subscription_resolved(e0: Engine, e1: Engine, h: int, slot: int, kslot: int) -> bool {
    let ch = e0.registrations@[h].channel@;
    let sid = e0.registrations@[h].stream_id;
    &&& resolves_registration(e0, e1, h)
    &&& e1.next_session_id == e0.next_session_id
    &&& e1.next_correlation_id == e0.next_correlation_id
    &&& e1.closed == e0.closed
    &&& e0.same_config(e1)
    &&& if has_stream(e0, ch, sid) {
        &&& slot < e0.streams@.len()
        &&& stream_matches(e0.streams@[slot], ch, sid)
        &&& e1.streams@.len() == e0.streams@.len()
        &&& (forall|j: int|
            0 <= j < e0.streams@.len() && j != slot ==> e1.streams@[j] == #[trigger] e0.streams@[j])
        &&& subscriber_appended(e0.streams@[slot], e1.streams@[slot])
        &&& kslot == e0.streams@[slot].subscribers@.len()
    } else {
        &&& slot == e0.streams@.len()
        &&& e1.streams@.len() == e0.streams@.len() + 1
        &&& e1.streams@.take(e0.streams@.len() as int) =~= e0.streams@
        &&& fresh_stream(e1.streams@.last(), ch, sid)
        &&& e1.streams@.last().publishers@.len() == 0
        &&& e1.streams@.last().subscribers@.len() == 1
        &&& e1.streams@.last().subscribers@[0].next_fragment == 0
        &&& !e1.streams@.last().subscribers@[0].closed
        &&& kslot == 0
    }
}

impl Registration {
    /// Whether the slots a destination registration names exist.
    pub open spec fn wf(&self, streams: Seq<StreamState>) -> bool {
        match self.kind {
            RegistrationKind::PublicationDestination { stream_slot, publisher_slot, remove: _ } => {
                &&& stream_slot < streams.len()
                &&& publisher_slot < streams[stream_slot as int].publishers@.len()
            },
            RegistrationKind::SubscriptionDestination { stream_slot, subscriber_slot, remove: _ } => {
                &&& stream_slot < streams.len()
                &&& subscriber_slot < streams[stream_slot as int].subscribers@.len()
            },
            _ => true,
        }
    }
}

impl Engine {
    /// Internal consistency of the whole engine.
    pub open spec fn wf(&self) -> bool {
        &&& 0 < self.max_payload <= self.term_length <= 0x7fff_ffff
        &&& 1 <= self.window
        &&& 1 <= self.next_session_id <= MAX_SESSION_ID
        &&& 1 <= self.next_correlation_id <= MAX_CORRELATION_ID
        &&& forall|s: int|
            0 <= s < self.streams@.len() ==> (#[trigger] self.streams@[s]).wf(self.term_length)
        &&& forall|h: int|
            0 <= h < self.registrations@.len() ==> (#[trigger] self.registrations@[h]).wf(
                self.streams@,
            )
    }

    /// The engine's configuration, unchanged by every operation.
    pub open spec fn same_config(self, other: Engine) -> bool {
        &&& other.registration_latency == self.registration_latency
        &&& other.max_payload == self.max_payload
        &&& other.term_length == self.term_length
        &&& other.window == self.window
    }

    /// Everything but the stream at `s` is as in `self`.
    pub open spec fn only_stream_changed(self, other: Engine, s: int) -> bool {
        &&& other.streams@.len() == self.streams@.len()
        &&& forall|j: int|
            0 <= j < self.streams@.len() && j != s ==> other.streams@[j] == #[trigger] self.streams@[j]
        &&& other.registrations@ == self.registrations@
        &&& other.next_session_id == self.next_session_id
        &&& other.next_correlation_id == self.next_correlation_id
        &&& other.closed == self.closed
        &&& self.same_config(other)
    }

    /// Everything but the registration at `h` is as in `self`, and at `h`
    /// only the `remaining` and `resolved` fields may differ.
    pub open spec fn only_registration_changed(self, other: Engine, h: int) -> bool {
        &&& other.streams@ == self.streams@
        &&& other.registrations@.len() == self.registrations@.len()
        &&& forall|j: int|
            0 <= j < self.registrations@.len() && j != h ==> other.registrations@[j]
                == #[trigger] self.registrations@[j]
        &&& other.registrations@[h].kind == self.registrations@[h].kind
        &&& other.registrations@[h].channel == self.registrations@[h].channel
        &&& other.registrations@[h].stream_id == self.registrations@[h].stream_id
        &&& other.registrations@[h].correlation_id == self.registrations@[h].correlation_id
        &&& other.next_session_id == self.next_session_id
        &&& other.next_correlation_id == self.next_correlation_id
        &&& other.closed == self.closed
        &&& self.same_config(other)
    }

    /// Whether a new registration can be accepted.
    pub open spec fn can_register(self) -> bool {
        !self.closed && self.next_correlation_id < MAX_CORRELATION_ID
    }

    /// A fresh engine with no streams, no registrations, and the given
    /// configuration.
    pub fn new(registration_latency: u32, max_payload: usize, term_length: usize, window: usize) -> (
        r: Engine)
        requires
            0 < max_payload <= term_length <= 0x7fff_ffff,
            1 <= window,
        ensures
            r.wf(),
            r.streams@.len() == 0,
            r.registrations@.len() == 0,
            !r.closed,
            r.registration_latency == registration_latency,
            r.max_payload == max_payload,
            r.term_length == term_length,
            r.window == window,
            r.next_session_id == 1,
            r.next_correlation_id == 1,
    {
        Engine {
            streams: Vec::new(),
            registrations: Vec::new(),
            next_session_id: 1,
            next_correlation_id: 1,
            registration_latency,
            max_payload,
            term_length,
            window,
            closed: false,
        }
    }

    /// Prepares a client connection: succeeds exactly while the engine is
    /// open.  Relied on by `Aeron::connect`.
    pub fn client_init(&self) -> (r: i32)
        ensures
            r == if self.closed {
                -4i32
            } else {
                0i32
            },
    {
        if self.closed {
            -4
        } else {
            0
        }
    }

    /// Starts a prepared client connection: succeeds exactly while the
    /// engine is open.
    pub fn client_start(&self) -> (r: i32)
        ensures
            r == if self.closed {
                -4i32
            } else {
                0i32
            },
    {
        if self.closed {
            -4
        } else {
            0
        }
    }

    /// Shuts the engine down; every later operation fails with a closed
    /// code.
    pub fn close(&mut self)
        ensures
            final(self).closed,
            final(self).streams@ == old(self).streams@,
            final(self).registrations@ == old(self).registrations@,
            final(self).next_session_id == old(self).next_session_id,
            final(self).next_correlation_id == old(self).next_correlation_id,
            old(self).same_config(*final(self)),
            old(self).wf() ==> final(self).wf(),
    {
        self.closed = true;
    }

    /// The first stream slot carrying the channel and stream id, if any.
    pub fn find_stream(&self, channel: &String, stream_id: i32) -> (r: Option<usize>)
        ensures
            match r {
                Some(i) => i < self.streams@.len() && stream_matches(
                    self.streams@[i as int],
                    channel@,
                    stream_id,
                ),
                None => forall|i: int|
                    0 <= i < self.streams@.len() ==> !stream_matches(
                        #[trigger] self.streams@[i],
                        channel@,
                        stream_id,
                    ),
            },
    {
        let n = self.streams.len();
        let mut i: usize = 0;
        while i < n
            invariant
                n == self.streams@.len(),
                i <= n,
                forall|j: int|
                    0 <= j < i ==> !stream_matches(#[trigger] self.streams@[j], channel@, stream_id),
            decreases n - i,
        {
            if self.streams[i].channel == *channel && self.streams[i].stream_id == stream_id {
                return Some(i);
            }
            i = i + 1;
        }
        None
    }

    /// Submits an asynchronous add-publication: the returned handle is
    /// polled with `async_add_publication_poll`.
    pub fn async_add_publication(&mut self, channel: &str, stream_id: i32) -> (r: Result<
        usize,
        i32,
    >)
        requires
            old(self).wf(),
        ensures
            final(self).wf(),
            old(self).closed ==> r == Err::<usize, i32>(-4i32) && *final(self) == *old(self),
            !old(self).closed && old(self).next_correlation_id == MAX_CORRELATION_ID ==> r
                == Err::<usize, i32>(-6i32) && *final(self) == *old(self),
            old(self).can_register() ==> ({
                &&& (r matches Ok(h) && h == old(self).registrations@.len())
                &&& final(self).registrations@.len() == old(self).registrations@.len() + 1
                &&& final(self).registrations@.take(old(self).registrations@.len() as int) =~= old(self).registrations@
                &&& final(self).registrations@.last().kind is AddPublication
                &&& final(self).registrations@.last().channel@ == channel@
                &&& final(self).registrations@.last().stream_id == stream_id
                &&& final(self).registrations@.last().remaining == old(self).registration_latency
                &&& !final(self).registrations@.last().resolved
                &&& final(self).registrations@.last().correlation_id == old(self).next_correlation_id
                &&& final(self).next_correlation_id == old(self).next_correlation_id + 1
                &&& final(self).streams@ == old(self).streams@
                &&& final(self).next_session_id == old(self).next_session_id
                &&& final(self).closed == old(self).closed
                &&& old(self).same_config(*final(self))
            }),
    {
        self.start_registration(RegistrationKind::AddPublication, channel, stream_id)
    }

    /// Submits an asynchronous add-subscription: the returned handle is
    /// polled with `async_add_subscription_poll`.
    pub fn async_add_subscription(&mut self, channel: &str, stream_id: i32) -> (r: Result<
        usize,
        i32,
    >)
        requires
            old(self).wf(),
        ensures
            final(self).wf(),
            old(self).closed ==> r == Err::<usize, i32>(-4i32) && *final(self) == *old(self),
            !old(self).closed && old(self).next_correlation_id == MAX_CORRELATION_ID ==> r
                == Err::<usize, i32>(-6i32) && *final(self) == *old(self),
            old(self).can_register() ==> ({
                &&& (r matches Ok(h) && h == old(self).registrations@.len())
                &&& final(self).registrations@.len() == old(self).registrations@.len() + 1
                &&& final(self).registrations@.take(old(self).registrations@.len() as int) =~= old(self).registrations@
                &&& final(self).registrations@.last().kind is AddSubscription
                &&& final(self).registrations@.last().channel@ == channel@
                &&& final(self).registrations@.last().stream_id == stream_id
                &&& final(self).registrations@.last().remaining == old(self).registration_latency
                &&& !final(self).registrations@.last().resolved
                &&& final(self).registrations@.last().correlation_id == old(self).next_correlation_id
                &&& final(self).next_correlation_id == old(self).next_correlation_id + 1
                &&& final(self).streams@ == old(self).streams@
                &&& final(self).next_session_id == old(self).next_session_id
                &&& final(self).closed == old(self).closed
                &&& old(self).same_config(*final(self))
            }),
    {
        self.start_registration(RegistrationKind::AddSubscription, channel, stream_id)
    }

    /// Shared submission path of the two add registrations.
    fn start_registration(&mut self, kind: RegistrationKind, channel: &str, stream_id: i32) -> (r:
        Result<usize, i32>)
        requires
            old(self).wf(),
            kind is AddPublication || kind is AddSubscription,
        ensures
            final(self).wf(),
            old(self).closed ==> r == Err::<usize, i32>(-4i32) && *final(self) == *old(self),
            !old(self).closed && old(self).next_correlation_id == MAX_CORRELATION_ID ==> r
                == Err::<usize, i32>(-6i32) && *final(self) == *old(self),
            old(self).can_register() ==> ({
                &&& (r matches Ok(h) && h == old(self).registrations@.len())
                &&& final(self).registrations@.len() == old(self).registrations@.len() + 1
                &&& final(self).registrations@.take(old(self).registrations@.len() as int) =~= old(self).registrations@
                &&& final(self).registrations@.last().kind == kind
                &&& final(self).registrations@.last().channel@ == channel@
                &&& final(self).registrations@.last().stream_id == stream_id
                &&& final(self).registrations@.last().remaining == old(self).registration_latency
                &&& !final(self).registrations@.last().resolved
                &&& final(self).registrations@.last().correlation_id == old(self).next_correlation_id
                &&& final(self).next_correlation_id == old(self).next_correlation_id + 1
                &&& final(self).streams@ == old(self).streams@
                &&& final(self).next_session_id == old(self).next_session_id
                &&& final(self).closed == old(self).closed
                &&& old(self).same_config(*final(self))
            }),
    {
        if self.closed {
            return Err(-4);
        }
        if self.next_correlation_id == MAX_CORRELATION_ID {
            return Err(-6);
        }
        let correlation_id = self.next_correlation_id;
        self.next_correlation_id = correlation_id + 1;
        let handle = self.registrations.len();
        self.registrations.push(
            Registration {
                kind,
                channel: channel.to_owned(),
                stream_id,
                remaining: self.registration_latency,
                resolved: false,
                correlation_id,
            },
        );
        Ok(handle)
    }

    /// One non-blocking poll of a pending add-publication.  While the
    /// registration is in flight the poll is `Pending` and the remaining
    /// poll count strictly decreases, so a caller that re-drives makes
    /// progress; at zero the registration resolves to a live publisher or
    /// to an error code, exactly once.
    pub fn async_add_publication_poll(&mut self, handle: usize) -> (r: AddPublicationPoll)
        requires
            old(self).wf(),
            handle < old(self).registrations@.len(),
            old(self).registrations@[handle as int].kind is AddPublication,
            !old(self).registrations@[handle as int].resolved,
        ensures
            final(self).wf(),
            ({
                let reg = old(self).registrations@[handle as int];
                &&& (old(self).closed ==> r == AddPublicationPoll::Error(-4i32) && old(self).only_registration_changed(*final(self), handle as int) && final(self).registrations@[handle as int].resolved && final(self).registrations@[
                    handle as int].remaining == reg.remaining)
                &&& (!old(self).closed && reg.remaining > 0 ==> r is Pending && old(self).only_registration_changed(*final(self), handle as int) && !final(self).registrations@[handle as int].resolved && final(self).registrations@[
                    handle as int].remaining == reg.remaining - 1)
                &&& (!old(self).closed && reg.remaining == 0 && reg.channel@.len() == 0 ==> r
                    == AddPublicationPoll::Error(-6i32) && old(self).only_registration_changed(
                    *final(self),
                    handle as int,
                ) && final(self).registrations@[handle as int].resolved && final(self).registrations@[handle as int].remaining == reg.remaining)
                &&& (!old(self).closed && reg.remaining == 0 && reg.channel@.len() > 0 && old(self).next_session_id == MAX_SESSION_ID ==> r == AddPublicationPoll::Error(-6i32)
                    && old(self).only_registration_changed(*final(self), handle as int) && final(self).registrations@[handle as int].resolved && final(self).registrations@[
                    handle as int].remaining == reg.remaining)
                &&& (!old(self).closed && reg.remaining == 0 && reg.channel@.len() > 0 && old(self).next_session_id < MAX_SESSION_ID ==> (r matches AddPublicationPoll::Ready {
                    stream_slot,
                    publisher_slot,
                    session_id,
                    correlation_id,
                } && session_id == old(self).next_session_id && correlation_id
                    == reg.correlation_id && publication_resolved(
                    *old(self),
                    *final(self),
                    handle as int,
                    stream_slot as int,
                    publisher_slot as int,
                )))
            }),
    {
        if self.closed {
            let rg = &mut self.registrations[handle];
            rg.resolved = true;
            return AddPublicationPoll::Error(-4);
        }
        let rem = self.registrations[handle].remaining;
        if rem > 0 {
            let rg = &mut self.registrations[handle];
            rg.remaining = rem - 1;
            return AddPublicationPoll::Pending;
        }
        let reg_channel = self.registrations[handle].channel.clone();
        let reg_stream_id = self.registrations[handle].stream_id;
        let correlation_id = self.registrations[handle].correlation_id;
        if reg_channel.as_str().is_empty() {
            let rg = &mut self.registrations[handle];
            rg.resolved = true;
            return AddPublicationPoll::Error(-6);
        }
        if self.next_session_id == MAX_SESSION_ID {
            let rg = &mut self.registrations[handle];
            rg.resolved = true;
            return AddPublicationPoll::Error(-6);
        }
        let stream_slot = match self.find_stream(&reg_channel, reg_stream_id) {
            Some(i) => i,
            None => {
                let slot = self.streams.len();
                self.streams.push(
                    StreamState {
                        channel: reg_channel.clone(),
                        stream_id: reg_stream_id,
                        frames: Vec::new(),
                        tail: 0,
                        term_id: 0,
                        term_offset: 0,
                        publishers: Vec::new(),
                        subscribers: Vec::new(),
                    },
                );
                slot
            },
        };
        let session_id = self.next_session_id;
        self.next_session_id = session_id + 1;
        let st = &mut self.streams[stream_slot];
        let publisher_slot = st.publishers.len();
        st.publishers.push(Publisher { session_id, closed: false, destinations: Vec::new() });
        let rg = &mut self.registrations[handle];
        rg.resolved = true;
        AddPublicationPoll::Ready { stream_slot, publisher_slot, session_id, correlation_id }
    }

    /// One non-blocking poll of a pending add-subscription; the same
    /// contract shape as `async_add_publication_poll`, resolving to a live
    /// subscriber joined at the stream's current end.
    pub fn async_add_subscription_poll(&mut self, handle: usize) -> (r: AddSubscriptionPoll)
        requires
            old(self).wf(),
            handle < old(self).registrations@.len(),
            old(self).registrations@[handle as int].kind is AddSubscription,
            !old(self).registrations@[handle as int].resolved,
        ensures
            final(self).wf(),
            ({
                let reg = old(self).registrations@[handle as int];
                &&& (old(self).closed ==> r == AddSubscriptionPoll::Error(-4i32) && old(self).only_registration_changed(*final(self), handle as int) && final(self).registrations@[handle as int].resolved && final(self).registrations@[
                    handle as int].remaining == reg.remaining)
                &&& (!old(self).closed && reg.remaining > 0 ==> r is Pending && old(self).only_registration_changed(*final(self), handle as int) && !final(self).registrations@[handle as int].resolved && final(self).registrations@[
                    handle as int].remaining == reg.remaining - 1)
                &&& (!old(self).closed && reg.remaining == 0 && reg.channel@.len() == 0 ==> r
                    == AddSubscriptionPoll::Error(-6i32) && old(self).only_registration_changed(
                    *final(self),
                    handle as int,
                ) && final(self).registrations@[handle as int].resolved && final(self).registrations@[handle as int].remaining == reg.remaining)
                &&& (!old(self).closed && reg.remaining == 0 && reg.channel@.len() > 0 ==> (
                r matches AddSubscriptionPoll::Ready { stream_slot, subscriber_slot, correlation_id }
                    && correlation_id == reg.correlation_id && subscription_resolved(
                    *old(self),
                    *final(self),
                    handle as int,
                    stream_slot as int,
                    subscriber_slot as int,
                )))
            }),
    {
        if self.closed {
            let rg = &mut self.registrations[handle];
            rg.resolved = true;
            return AddSubscriptionPoll::Error(-4);
        }
        let rem = self.registrations[handle].remaining;
        if rem > 0 {
            let rg = &mut self.registrations[handle];
            rg.remaining = rem - 1;
            return AddSubscriptionPoll::Pending;
        }
        let reg_channel = self.registrations[handle].channel.clone();
        let reg_stream_id = self.registrations[handle].stream_id;
        let correlation_id = self.registrations[handle].correlation_id;
        if reg_channel.as_str().is_empty() {
            let rg = &mut self.registrations[handle];
            rg.resolved = true;
            return AddSubscriptionPoll::Error(-6);
        }
        let stream_slot = match self.find_stream(&reg_channel, reg_stream_id) {
            Some(i) => i,
            None => {
                let slot = self.streams.len();
                self.streams.push(
                    StreamState {
                        channel: reg_channel.clone(),
                        stream_id: reg_stream_id,
                        frames: Vec::new(),
                        tail: 0,
                        term_id: 0,
                        term_offset: 0,
                        publishers: Vec::new(),
                        subscribers: Vec::new(),
                    },
                );
                slot
            },
        };
        let st = &mut self.streams[stream_slot];
        let subscriber_slot = st.subscribers.len();
        let joined_at = st.frames.len();
        st.subscribers.push(
            Subscriber { next_fragment: joined_at, closed: false, destinations: Vec::new() },
        );
        let rg = &mut self.registrations[handle];
        rg.resolved = true;
        AddSubscriptionPoll::Ready { stream_slot, subscriber_slot, correlation_id }
    }
}


/// The result code an offer or claim of `len` bytes receives on the stream
/// at `s` from the publisher at `p`: the position past the appended frame
/// on success, otherwise the flow-control or error condition, checked in
/// the engine's order.
pub open spec fn send_code(e: Engine, s: int, p: int, len: int) -> i64 {
    let st = e.streams@[s];
    if e.closed || st.publishers@[p].closed {
        -4i64
    } else if len > e.max_payload {
        -6i64
    } else if !st.has_open_subscriber() {
        -1i64
    } else if st.has_slow_subscriber(e.window) {
        -2i64
    } else if st.term_offset + len > e.term_length {
        if st.term_id == MAX_TERM_ID || st.tail + (e.term_length - st.term_offset) > MAX_POSITION {
            -5i64
        } else {
            -3i64
        }
    } else if st.tail + len > MAX_POSITION {
        -5i64
    } else {
        (st.tail + len) as i64
    }
}

/// The result code a commit of `len` bytes receives: commits skip the
/// connectivity and back-pressure gates (their space was claimed), rotate
/// silently at a term boundary, and succeed with code zero.
pub open spec fn commit_code(e: Engine, s: int, p: int, len: int) -> i32 {
    let st = e.streams@[s];
    if e.closed || st.publishers@[p].closed {
        -4i32
    } else if len > e.max_payload {
        -6i32
    } else if st.term_offset + len > e.term_length {
        if st.term_id == MAX_TERM_ID || st.tail + (e.term_length - st.term_offset) + len
            > MAX_POSITION {
            -5i32
        } else {
            0i32
        }
    } else if st.tail + len > MAX_POSITION {
        -5i32
    } else {
        0i32
    }
}

/// `st1` is `st0` with one frame of `data` appended by session `sid`, its
/// header fields drawn from the stream's term state, and the tail advanced
/// past it.
pub open spec fn stream_appended(st0: StreamState, st1: StreamState, data: Seq<u8>, sid: i32, rv: i64) -> bool {
    &&& st1.frames@.len() == st0.frames@.len() + 1
    &&& st1.frames@.take(st0.frames@.len() as int) =~= st0.frames@
    &&& st1.frames@.last().data@ == data
    &&& st1.frames@.last().session_id == sid
    &&& st1.frames@.last().term_id == st0.term_id
    &&& st1.frames@.last().term_offset == st0.term_offset
    &&& st1.frames@.last().reserved_value == rv
    &&& st1.tail == st0.tail + data.len()
    &&& st1.term_id == st0.term_id
    &&& st1.term_offset == st0.term_offset + data.len()
    &&& st1.channel == st0.channel
    &&& st1.stream_id == st0.stream_id
    &&& st1.publishers@ == st0.publishers@
    &&& st1.subscribers@ == st0.subscribers@
}

/// `st1` is `st0` rotated to a fresh term: the rest of the current term is
/// padded (the tail advances past it) and appending restarts at offset
/// zero of the next term.  No frame is added.
pub open spec fn stream_rotated(st0: StreamState, st1: StreamState, term_length: usize) -> bool {
    &&& st1.term_id == st0.term_id + 1
    &&& st1.term_offset == 0
    &&& st1.tail == st0.tail + (term_length - st0.term_offset)
    &&& st1.frames@ == st0.frames@
    &&& st1.channel == st0.channel
    &&& st1.stream_id == st0.stream_id
    &&& st1.publishers@ == st0.publishers@
    &&& st1.subscribers@ == st0.subscribers@
}

impl Engine {
    /// Whether the stream at `s` has an open subscriber and none lagging a
    /// full window: exactly then an offer is neither not-connected nor
    /// back-pressured.  Fills `connected` and `slow` in one pass.
    fn scan_subscribers(&self, stream_slot: usize) -> (r: (bool, bool))
        requires
            self.wf(),
            stream_slot < self.streams@.len(),
        ensures
            r.0 == self.streams@[stream_slot as int].has_open_subscriber(),
            r.1 == self.streams@[stream_slot as int].has_slow_subscriber(self.window),
    {
        let nsubs = self.streams[stream_slot].subscribers.len();
        let nframes = self.streams[stream_slot].frames.len();
        let mut connected = false;
        let mut slow = false;
        let mut k: usize = 0;
        while k < nsubs
            invariant
                self.wf(),
                stream_slot < self.streams@.len(),
                nsubs == self.streams@[stream_slot as int].subscribers@.len(),
                nframes == self.streams@[stream_slot as int].frames@.len(),
                k <= nsubs,
                connected == exists|j: int|
                    0 <= j < k && !(#[trigger] self.streams@[stream_slot as int].subscribers@[j]).closed,
                slow == exists|j: int|
                    0 <= j < k && !(#[trigger] self.streams@[stream_slot as int].subscribers@[j]).closed
                        && nframes - self.streams@[stream_slot as int].subscribers@[j].next_fragment
                        >= self.window,
            decreases nsubs - k,
        {
            let sub = &self.streams[stream_slot].subscribers[k];
            if !sub.closed {
                connected = true;
                if nframes - sub.next_fragment >= self.window {
                    slow = true;
                }
            }
            k = k + 1;
        }
        (connected, slow)
    }

    /// Copies `data` onto the stream as one frame, or reports why the
    /// engine would not take it.  A non-negative result is the stream
    /// position past the new frame; `-1` no subscriber is connected (the
    /// message is dropped), `-2` a subscriber lags a full window behind,
    /// `-3` the frame did not fit the current term, which was rotated (the
    /// caller retries), `-4` closed, `-5` the stream is at its position
    /// limit, `-6` the payload exceeds the longest the engine accepts.
    pub fn offer(&mut self, stream_slot: usize, publisher_slot: usize, data: &[u8], reserved_value: i64) -> (r: i64)
        requires
            old(self).wf(),
            stream_slot < old(self).streams@.len(),
            publisher_slot < old(self).streams@[stream_slot as int].publishers@.len(),
        ensures
            final(self).wf(),
            r == send_code(*old(self), stream_slot as int, publisher_slot as int, data@.len() as int),
            r >= 0 ==> old(self).only_stream_changed(*final(self), stream_slot as int)
                && stream_appended(
                old(self).streams@[stream_slot as int],
                final(self).streams@[stream_slot as int],
                data@,
                old(self).streams@[stream_slot as int].publishers@[publisher_slot as int].session_id,
                reserved_value,
            ) && r == old(self).streams@[stream_slot as int].tail + data@.len(),
            r == -3 ==> old(self).only_stream_changed(*final(self), stream_slot as int)
                && stream_rotated(
                old(self).streams@[stream_slot as int],
                final(self).streams@[stream_slot as int],
                old(self).term_length,
            ),
            r < 0 && r != -3 ==> *final(self) == *old(self),
            final(self).streams@[stream_slot as int].tail >= old(self).streams@[stream_slot as int].tail,
    {
        let len = data.len();
        if self.closed || self.streams[stream_slot].publishers[publisher_slot].closed {
            return -4;
        }
        if len > self.max_payload {
            return -6;
        }
        let (connected, slow) = self.scan_subscribers(stream_slot);
        if !connected {
            return -1;
        }
        if slow {
            return -2;
        }
        let term_offset = self.streams[stream_slot].term_offset;
        if len > self.term_length - term_offset {
            let pad = self.term_length - term_offset;
            let term_id = self.streams[stream_slot].term_id;
            if term_id == MAX_TERM_ID || self.streams[stream_slot].tail > MAX_POSITION - (pad as i64) {
                return -5;
            }
            let st = &mut self.streams[stream_slot];
            st.term_id = term_id + 1;
            st.tail = st.tail + pad as i64;
            st.term_offset = 0;
            return -3;
        }
        if self.streams[stream_slot].tail > MAX_POSITION - (len as i64) {
            return -5;
        }
        let session_id = self.streams[stream_slot].publishers[publisher_slot].session_id;
        let frame_data = vstd::slice::slice_to_vec(data);
        let st = &mut self.streams[stream_slot];
        let frame = Frame {
            data: frame_data,
            session_id,
            term_id: st.term_id,
            term_offset: st.term_offset as i32,
            reserved_value,
        };
        st.frames.push(frame);
        st.term_offset = st.term_offset + len;
        st.tail = st.tail + len as i64;
        st.tail
    }

    /// Probes whether a claim of `length` bytes would be taken: the same
    /// decision as `offer`, but on success nothing is reserved and the
    /// engine is left untouched, so an abandoned or aborted claim cannot
    /// move the stream.  A term that cannot hold the claim is rotated, as
    /// for an offer.
    pub fn try_claim(&mut self, stream_slot: usize, publisher_slot: usize, length: usize) -> (r: i64)
        requires
            old(self).wf(),
            stream_slot < old(self).streams@.len(),
            publisher_slot < old(self).streams@[stream_slot as int].publishers@.len(),
        ensures
            final(self).wf(),
            r == send_code(*old(self), stream_slot as int, publisher_slot as int, length as int),
            r >= 0 ==> *final(self) == *old(self) && r == old(self).streams@[stream_slot as int].tail
                + length,
            r == -3 ==> old(self).only_stream_changed(*final(self), stream_slot as int)
                && stream_rotated(
                old(self).streams@[stream_slot as int],
                final(self).streams@[stream_slot as int],
                old(self).term_length,
            ),
            r < 0 && r != -3 ==> *final(self) == *old(self),
            final(self).streams@[stream_slot as int].tail >= old(self).streams@[stream_slot as int].tail,
    {
        if self.closed || self.streams[stream_slot].publishers[publisher_slot].closed {
            return -4;
        }
        if length > self.max_payload {
            return -6;
        }
        let (connected, slow) = self.scan_subscribers(stream_slot);
        if !connected {
            return -1;
        }
        if slow {
            return -2;
        }
        let term_offset = self.streams[stream_slot].term_offset;
        if length > self.term_length - term_offset {
            let pad = self.term_length - term_offset;
            let term_id = self.streams[stream_slot].term_id;
            if term_id == MAX_TERM_ID || self.streams[stream_slot].tail > MAX_POSITION - (pad as i64) {
                return -5;
            }
            let st = &mut self.streams[stream_slot];
            st.term_id = term_id + 1;
            st.tail = st.tail + pad as i64;
            st.term_offset = 0;
            return -3;
        }
        if self.streams[stream_slot].tail > MAX_POSITION - (length as i64) {
            return -5;
        }
        self.streams[stream_slot].tail + length as i64
    }

    /// Appends the filled bytes of a claim as one frame.  The space was
    /// promised by `try_claim`, so connectivity and back-pressure are not
    /// re-checked; a frame that no longer fits the current term rotates it
    /// silently and lands at the start of the next.  Returns zero on
    /// success.
    pub fn commit(&mut self, stream_slot: usize, publisher_slot: usize, data: &[u8]) -> (r: i32)
        requires
            old(self).wf(),
            stream_slot < old(self).streams@.len(),
            publisher_slot < old(self).streams@[stream_slot as int].publishers@.len(),
        ensures
            final(self).wf(),
            r == commit_code(*old(self), stream_slot as int, publisher_slot as int, data@.len() as int),
            r == 0 && old(self).streams@[stream_slot as int].term_offset + data@.len() <= old(self).term_length ==> old(self).only_stream_changed(*final(self), stream_slot as int)
                && stream_appended(
                old(self).streams@[stream_slot as int],
                final(self).streams@[stream_slot as int],
                data@,
                old(self).streams@[stream_slot as int].publishers@[publisher_slot as int].session_id,
                0,
            ),
            r == 0 && old(self).streams@[stream_slot as int].term_offset + data@.len() > old(self).term_length ==> old(self).only_stream_changed(*final(self), stream_slot as int) && ({
                let st0 = old(self).streams@[stream_slot as int];
                let st1 = final(self).streams@[stream_slot as int];
                &&& st1.frames@.len() == st0.frames@.len() + 1
                &&& st1.frames@.take(st0.frames@.len() as int) =~= st0.frames@
                &&& st1.frames@.last().data@ == data@
                &&& st1.frames@.last().session_id == st0.publishers@[publisher_slot as int].session_id
                &&& st1.frames@.last().term_id == st0.term_id + 1
                &&& st1.frames@.last().term_offset == 0
                &&& st1.frames@.last().reserved_value == 0
                &&& st1.term_id == st0.term_id + 1
                &&& st1.term_offset == data@.len()
                &&& st1.tail == st0.tail + (old(self).term_length - st0.term_offset) + data@.len()
                &&& st1.channel == st0.channel
                &&& st1.stream_id == st0.stream_id
                &&& st1.publishers@ == st0.publishers@
                &&& st1.subscribers@ == st0.subscribers@
            }),
            r != 0 ==> *final(self) == *old(self),
            final(self).streams@[stream_slot as int].tail >= old(self).streams@[stream_slot as int].tail,
    {
        let len = data.len();
        if self.closed || self.streams[stream_slot].publishers[publisher_slot].closed {
            return -4;
        }
        if len > self.max_payload {
            return -6;
        }
        let session_id = self.streams[stream_slot].publishers[publisher_slot].session_id;
        let term_offset = self.streams[stream_slot].term_offset;
        if len > self.term_length - term_offset {
            let pad = self.term_length - term_offset;
            let term_id = self.streams[stream_slot].term_id;
            if term_id == MAX_TERM_ID || self.streams[stream_slot].tail > MAX_POSITION - (pad as i64)
                || self.streams[stream_slot].tail + (pad as i64) > MAX_POSITION - (len as i64) {
                return -5;
            }
            let frame_data = vstd::slice::slice_to_vec(data);
            let st = &mut self.streams[stream_slot];
            let frame = Frame {
                data: frame_data,
                session_id,
                term_id: term_id + 1,
                term_offset: 0,
                reserved_value: 0,
            };
            st.frames.push(frame);
            st.term_id = term_id + 1;
            st.tail = st.tail + pad as i64 + len as i64;
            st.term_offset = len;
            return 0;
        }
        if self.streams[stream_slot].tail > MAX_POSITION - (len as i64) {
            return -5;
        }
        let frame_data = vstd::slice::slice_to_vec(data);
        let st = &mut self.streams[stream_slot];
        let frame = Frame {
            data: frame_data,
            session_id,
            term_id: st.term_id,
            term_offset: st.term_offset as i32,
            reserved_value: 0,
        };
        st.frames.push(frame);
        st.term_offset = st.term_offset + len;
        st.tail = st.tail + len as i64;
        0
    }
}


/// Everything of `st1` is as in `st0` except that the publisher at `p` is
/// marked closed.
pub open spec fn publisher_closed(st0: StreamState, st1: StreamState, p: int) -> bool {
    &&& st1.publishers@.len() == st0.publishers@.len()
    &&& forall|j: int|
        0 <= j < st0.publishers@.len() && j != p ==> st1.publishers@[j] == #[trigger] st0.publishers@[j]
    &&& st1.publishers@[p].closed
    &&& st1.publishers@[p].session_id == st0.publishers@[p].session_id
    &&& st1.publishers@[p].destinations == st0.publishers@[p].destinations
    &&& st1.channel == st0.channel
    &&& st1.stream_id == st0.stream_id
    &&& st1.frames@ == st0.frames@
    &&& st1.tail == st0.tail
    &&& st1.term_id == st0.term_id
    &&& st1.term_offset == st0.term_offset
    &&& st1.subscribers@ == st0.subscribers@
}

/// Everything of `st1` is as in `st0` except that the subscriber at `k` is
/// marked closed.
pub open spec fn subscriber_closed(st0: StreamState, st1: StreamState, k: int) -> bool {
    &&& st1.subscribers@.len() == st0.subscribers@.len()
    &&& forall|j: int|
        0 <= j < st0.subscribers@.len() && j != k ==> st1.subscribers@[j] == #[trigger] st0.subscribers@[j]
    &&& st1.subscribers@[k].closed
    &&& st1.subscribers@[k].next_fragment == st0.subscribers@[k].next_fragment
    &&& st1.subscribers@[k].destinations == st0.subscribers@[k].destinations
    &&& st1.channel == st0.channel
    &&& st1.stream_id == st0.stream_id
    &&& st1.frames@ == st0.frames@
    &&& st1.tail == st0.tail
    &&& st1.term_id == st0.term_id
    &&& st1.term_offset == st0.term_offset
    &&& st1.publishers@ == st0.publishers@
}

/// Everything of `st1` is as in `st0` except the destination list of the
/// publisher at `p`.
pub open spec fn publisher_destinations_changed(st0: StreamState, st1: StreamState, p: int) -> bool {
    &&& st1.publishers@.len() == st0.publishers@.len()
    &&& forall|j: int|
        0 <= j < st0.publishers@.len() && j != p ==> st1.publishers@[j] == #[trigger] st0.publishers@[j]
    &&& st1.publishers@[p].closed == st0.publishers@[p].closed
    &&& st1.publishers@[p].session_id == st0.publishers@[p].session_id
    &&& st1.channel == st0.channel
    &&& st1.stream_id == st0.stream_id
    &&& st1.frames@ == st0.frames@
    &&& st1.tail == st0.tail
    &&& st1.term_id == st0.term_id
    &&& st1.term_offset == st0.term_offset
    &&& st1.subscribers@ == st0.subscribers@
}

/// Everything of `st1` is as in `st0` except the destination list of the
/// subscriber at `k`.
pub open spec fn subscriber_destinations_changed(st0: StreamState, st1: StreamState, k: int) -> bool {
    &&& st1.subscribers@.len() == st0.subscribers@.len()
    &&& forall|j: int|
        0 <= j < st0.subscribers@.len() && j != k ==> st1.subscribers@[j] == #[trigger] st0.subscribers@[j]
    &&& st1.subscribers@[k].closed == st0.subscribers@[k].closed
    &&& st1.subscribers@[k].next_fragment == st0.subscribers@[k].next_fragment
    &&& st1.channel == st0.channel
    &&& st1.stream_id == st0.stream_id
    &&& st1.frames@ == st0.frames@
    &&& st1.tail == st0.tail
    &&& st1.term_id == st0.term_id
    &&& st1.term_offset == st0.term_offset
    &&& st1.publishers@ == st0.publishers@
}

/// `d1` is `d0` with `ch` appended.
pub open spec fn destination_added(d0: Seq<String>, d1: Seq<String>, ch: Seq<char>) -> bool {
    &&& d1.len() == d0.len() + 1
    &&& d1.take(d0.len() as int) =~= d0
    &&& d1.last()@ == ch
}

/// `d1` is `d0` with one entry equal to `ch` removed.
pub open spec fn destination_removed(d0: Seq<String>, d1: Seq<String>, ch: Seq<char>) -> bool {
    exists|i: int|
        0 <= i < d0.len() && (#[trigger] d0[i])@ == ch && d1 =~= d0.subrange(0, i) + d0.subrange(
            i + 1,
            d0.len() as int,
        )
}

/// Whether `d` holds an entry equal to `ch`.
pub open spec fn has_destination(d: Seq<String>, ch: Seq<char>) -> bool {
    exists|i: int| 0 <= i < d.len() && (#[trigger] d[i])@ == ch
}

impl Engine {
    /// Marks the publisher at `p` closed.  Closing is local and
    /// best-effort: it succeeds (code zero) whatever the engine's state.
    pub fn publication_close(&mut self, stream_slot: usize, publisher_slot: usize) -> (r: i32)
        requires
            old(self).wf(),
            stream_slot < old(self).streams@.len(),
            publisher_slot < old(self).streams@[stream_slot as int].publishers@.len(),
        ensures
            final(self).wf(),
            r == 0,
            old(self).only_stream_changed(*final(self), stream_slot as int),
            publisher_closed(
                old(self).streams@[stream_slot as int],
                final(self).streams@[stream_slot as int],
                publisher_slot as int,
            ),
    {
        let st = &mut self.streams[stream_slot];
        let p = &mut st.publishers[publisher_slot];
        p.closed = true;
        0
    }

    /// Marks the subscriber at `k` closed.  Closing is local and
    /// best-effort: it succeeds (code zero) whatever the engine's state.
    pub fn subscription_close(&mut self, stream_slot: usize, subscriber_slot: usize) -> (r: i32)
        requires
            old(self).wf(),
            stream_slot < old(self).streams@.len(),
            subscriber_slot < old(self).streams@[stream_slot as int].subscribers@.len(),
        ensures
            final(self).wf(),
            r == 0,
            old(self).only_stream_changed(*final(self), stream_slot as int),
            subscriber_closed(
                old(self).streams@[stream_slot as int],
                final(self).streams@[stream_slot as int],
                subscriber_slot as int,
            ),
    {
        let st = &mut self.streams[stream_slot];
        let k = &mut st.subscribers[subscriber_slot];
        k.closed = true;
        0
    }

    /// Raw channel status of a publication: `1` while it and the engine are
    /// open, `-1` once either is closed.
    pub fn publication_channel_status(&self, stream_slot: usize, publisher_slot: usize) -> (r: i64)
        requires
            self.wf(),
            stream_slot < self.streams@.len(),
            publisher_slot < self.streams@[stream_slot as int].publishers@.len(),
        ensures
            r == if !self.closed && !self.streams@[stream_slot as int].publishers@[
                publisher_slot as int].closed {
                1i64
            } else {
                -1i64
            },
    {
        if !self.closed && !self.streams[stream_slot].publishers[publisher_slot].closed {
            1
        } else {
            -1
        }
    }

    /// Raw channel status of a subscription: `1` while it and the engine
    /// are open, `-1` once either is closed.
    pub fn subscription_channel_status(&self, stream_slot: usize, subscriber_slot: usize) -> (r: i64)
        requires
            self.wf(),
            stream_slot < self.streams@.len(),
            subscriber_slot < self.streams@[stream_slot as int].subscribers@.len(),
        ensures
            r == if !self.closed && !self.streams@[stream_slot as int].subscribers@[
                subscriber_slot as int].closed {
                1i64
            } else {
                -1i64
            },
    {
        if !self.closed && !self.streams[stream_slot].subscribers[subscriber_slot].closed {
            1
        } else {
            -1
        }
    }

    /// Whether an open subscriber is attached to the publication's stream.
    pub fn publication_is_connected(&self, stream_slot: usize, publisher_slot: usize) -> (r: bool)
        requires
            self.wf(),
            stream_slot < self.streams@.len(),
            publisher_slot < self.streams@[stream_slot as int].publishers@.len(),
        ensures
            r == (!self.closed && !self.streams@[stream_slot as int].publishers@[
                publisher_slot as int].closed && self.streams@[stream_slot as int].has_open_subscriber()),
    {
        if self.closed || self.streams[stream_slot].publishers[publisher_slot].closed {
            return false;
        }
        let (connected, _slow) = self.scan_subscribers(stream_slot);
        connected
    }

    /// Whether an open publisher is attached to the subscription's stream.
    pub fn subscription_is_connected(&self, stream_slot: usize, subscriber_slot: usize) -> (r: bool)
        requires
            self.wf(),
            stream_slot < self.streams@.len(),
            subscriber_slot < self.streams@[stream_slot as int].subscribers@.len(),
        ensures
            r == (!self.closed && !self.streams@[stream_slot as int].subscribers@[
                subscriber_slot as int].closed && self.streams@[stream_slot as int].has_open_publisher()),
    {
        if self.closed || self.streams[stream_slot].subscribers[subscriber_slot].closed {
            return false;
        }
        let npubs = self.streams[stream_slot].publishers.len();
        let mut k: usize = 0;
        let mut connected = false;
        while k < npubs
            invariant
                stream_slot < self.streams@.len(),
                npubs == self.streams@[stream_slot as int].publishers@.len(),
                k <= npubs,
                connected == exists|j: int|
                    0 <= j < k && !(#[trigger] self.streams@[stream_slot as int].publishers@[j]).closed,
            decreases npubs - k,
        {
            if !self.streams[stream_slot].publishers[k].closed {
                connected = true;
            }
            k = k + 1;
        }
        connected
    }

    /// Whether the publication at `p` or the engine is closed.
    pub fn publication_is_closed(&self, stream_slot: usize, publisher_slot: usize) -> (r: bool)
        requires
            self.wf(),
            stream_slot < self.streams@.len(),
            publisher_slot < self.streams@[stream_slot as int].publishers@.len(),
        ensures
            r == (self.closed || self.streams@[stream_slot as int].publishers@[
                publisher_slot as int].closed),
    {
        self.closed || self.streams[stream_slot].publishers[publisher_slot].closed
    }

    /// Whether the subscription at `k` or the engine is closed.
    pub fn subscription_is_closed(&self, stream_slot: usize, subscriber_slot: usize) -> (r: bool)
        requires
            self.wf(),
            stream_slot < self.streams@.len(),
            subscriber_slot < self.streams@[stream_slot as int].subscribers@.len(),
        ensures
            r == (self.closed || self.streams@[stream_slot as int].subscribers@[
                subscriber_slot as int].closed),
    {
        self.closed || self.streams[stream_slot].subscribers[subscriber_slot].closed
    }

    /// Submits the asynchronous addition or removal of a destination
    /// endpoint of a publication; the returned handle is polled with
    /// `async_destination_poll`.
    pub fn publication_async_destination(&mut self, stream_slot: usize, publisher_slot: usize, channel: &str, remove: bool) -> (r: Result<usize, i32>)
        requires
            old(self).wf(),
            stream_slot < old(self).streams@.len(),
            publisher_slot < old(self).streams@[stream_slot as int].publishers@.len(),
        ensures
            final(self).wf(),
            old(self).closed ==> r == Err::<usize, i32>(-4i32) && *final(self) == *old(self),
            !old(self).closed && old(self).next_correlation_id == MAX_CORRELATION_ID ==> r
                == Err::<usize, i32>(-6i32) && *final(self) == *old(self),
            old(self).can_register() ==> ({
                &&& (r matches Ok(h) && h == old(self).registrations@.len())
                &&& final(self).registrations@.len() == old(self).registrations@.len() + 1
                &&& final(self).registrations@.take(old(self).registrations@.len() as int) =~= old(self).registrations@
                &&& final(self).registrations@.last().kind == (RegistrationKind::PublicationDestination { stream_slot, publisher_slot, remove })
                &&& final(self).registrations@.last().channel@ == channel@
                &&& final(self).registrations@.last().remaining == old(self).registration_latency
                &&& !final(self).registrations@.last().resolved
                &&& final(self).registrations@.last().correlation_id == old(self).next_correlation_id
                &&& final(self).next_correlation_id == old(self).next_correlation_id + 1
                &&& final(self).streams@ == old(self).streams@
                &&& final(self).next_session_id == old(self).next_session_id
                &&& final(self).closed == old(self).closed
                &&& old(self).same_config(*final(self))
            }),
    {
        if self.closed {
            return Err(-4);
        }
        if self.next_correlation_id == MAX_CORRELATION_ID {
            return Err(-6);
        }
        let correlation_id = self.next_correlation_id;
        self.next_correlation_id = correlation_id + 1;
        let handle = self.registrations.len();
        let stream_id = self.streams[stream_slot].stream_id;
        self.registrations.push(
            Registration {
                kind: RegistrationKind::PublicationDestination { stream_slot, publisher_slot, remove },
                channel: channel.to_owned(),
                stream_id,
                remaining: self.registration_latency,
                resolved: false,
                correlation_id,
            },
        );
        Ok(handle)
    }

    /// Submits the asynchronous addition or removal of a destination
    /// endpoint of a subscription; the returned handle is polled with
    /// `async_destination_poll`.
    pub fn subscription_async_destination(&mut self, stream_slot: usize, subscriber_slot: usize, channel: &str, remove: bool) -> (r: Result<usize, i32>)
        requires
            old(self).wf(),
            stream_slot < old(self).streams@.len(),
            subscriber_slot < old(self).streams@[stream_slot as int].subscribers@.len(),
        ensures
            final(self).wf(),
            old(self).closed ==> r == Err::<usize, i32>(-4i32) && *final(self) == *old(self),
            !old(self).closed && old(self).next_correlation_id == MAX_CORRELATION_ID ==> r
                == Err::<usize, i32>(-6i32) && *final(self) == *old(self),
            old(self).can_register() ==> ({
                &&& (r matches Ok(h) && h == old(self).registrations@.len())
                &&& final(self).registrations@.len() == old(self).registrations@.len() + 1
                &&& final(self).registrations@.take(old(self).registrations@.len() as int) =~= old(self).registrations@
                &&& final(self).registrations@.last().kind == (RegistrationKind::SubscriptionDestination { stream_slot, subscriber_slot, remove })
                &&& final(self).registrations@.last().channel@ == channel@
                &&& final(self).registrations@.last().remaining == old(self).registration_latency
                &&& !final(self).registrations@.last().resolved
                &&& final(self).registrations@.last().correlation_id == old(self).next_correlation_id
                &&& final(self).next_correlation_id == old(self).next_correlation_id + 1
                &&& final(self).streams@ == old(self).streams@
                &&& final(self).next_session_id == old(self).next_session_id
                &&& final(self).closed == old(self).closed
                &&& old(self).same_config(*final(self))
            }),
    {
        if self.closed {
            return Err(-4);
        }
        if self.next_correlation_id == MAX_CORRELATION_ID {
            return Err(-6);
        }
        let correlation_id = self.next_correlation_id;
        self.next_correlation_id = correlation_id + 1;
        let handle = self.registrations.len();
        let stream_id = self.streams[stream_slot].stream_id;
        self.registrations.push(
            Registration {
                kind: RegistrationKind::SubscriptionDestination { stream_slot, subscriber_slot, remove },
                channel: channel.to_owned(),
                stream_id,
                remaining: self.registration_latency,
                resolved: false,
                correlation_id,
            },
        );
        Ok(handle)
    }

    /// Removes the first destination equal to `ch` from `dests`, reporting
    /// whether one was found.
    fn remove_destination_entry(dests: &mut Vec<String>, ch: &String) -> (r: bool)
        ensures
            r == has_destination(old(dests)@, ch@),
            r ==> destination_removed(old(dests)@, final(dests)@, ch@),
            !r ==> final(dests)@ == old(dests)@,
    {
        let n = dests.len();
        let mut i: usize = 0;
        while i < n
            invariant
                dests@ == old(dests)@,
                n == dests@.len(),
                i <= n,
                forall|j: int| 0 <= j < i ==> (#[trigger] dests@[j])@ != ch@,
            decreases n - i,
        {
            if dests[i] == *ch {
                let ghost found: int = i as int;
                dests.remove(i);
                proof {
                    assert(0 <= found < old(dests)@.len() && (old(dests)@[found])@ == ch@);
                    assert(dests@ =~= old(dests)@.subrange(0, found) + old(dests)@.subrange(
                        found + 1,
                        old(dests)@.len() as int,
                    ));
                }
                return true;
            }
            i = i + 1;
        }
        false
    }

    /// One non-blocking poll of a pending destination change: `0` while in
    /// flight, `1` once the destination list has been updated, `-6` if a
    /// removal names a destination the resource does not carry, `-4` if
    /// the engine shut down first.  Polling an already-resolved handle
    /// returns `1` and changes nothing.
    pub fn async_destination_poll(&mut self, handle: usize) -> (r: i32)
        requires
            old(self).wf(),
            handle < old(self).registrations@.len(),
            old(self).registrations@[handle as int].kind is PublicationDestination || old(self).registrations@[handle as int].kind is SubscriptionDestination,
        ensures
            final(self).wf(),
            ({
                let reg = old(self).registrations@[handle as int];
                &&& (reg.resolved ==> r == 1 && *final(self) == *old(self))
                &&& (!reg.resolved && old(self).closed ==> r == -4 && old(self).only_registration_changed(*final(self), handle as int)
                    && final(self).registrations@[handle as int].resolved
                    && final(self).registrations@[handle as int].remaining == reg.remaining)
                &&& (!reg.resolved && !old(self).closed && reg.remaining > 0 ==> r == 0
                    && old(self).only_registration_changed(*final(self), handle as int)
                    && !final(self).registrations@[handle as int].resolved
                    && final(self).registrations@[handle as int].remaining == reg.remaining - 1)
                &&& (!reg.resolved && !old(self).closed && reg.remaining == 0 ==> ({
                    &&& resolves_registration(*old(self), *final(self), handle as int)
                    &&& final(self).next_session_id == old(self).next_session_id
                    &&& final(self).next_correlation_id == old(self).next_correlation_id
                    &&& final(self).closed == old(self).closed
                    &&& old(self).same_config(*final(self))
                    &&& match reg.kind {
                        RegistrationKind::PublicationDestination { stream_slot, publisher_slot, remove } => {
                            let d0 = old(self).streams@[stream_slot as int].publishers@[publisher_slot as int].destinations@;
                            let d1 = final(self).streams@[stream_slot as int].publishers@[publisher_slot as int].destinations@;
                            &&& final(self).streams@.len() == old(self).streams@.len()
                            &&& (forall|j: int|
                                0 <= j < old(self).streams@.len() && j != stream_slot ==> final(self).streams@[j]
                                    == #[trigger] old(self).streams@[j])
                            &&& publisher_destinations_changed(
                                old(self).streams@[stream_slot as int],
                                final(self).streams@[stream_slot as int],
                                publisher_slot as int,
                            )
                            &&& (!remove ==> r == 1 && destination_added(d0, d1, reg.channel@))
                            &&& (remove && has_destination(d0, reg.channel@) ==> r == 1
                                && destination_removed(d0, d1, reg.channel@))
                            &&& (remove && !has_destination(d0, reg.channel@) ==> r == -6 && d1 == d0)
                        },
                        RegistrationKind::SubscriptionDestination { stream_slot, subscriber_slot, remove } => {
                            let d0 = old(self).streams@[stream_slot as int].subscribers@[subscriber_slot as int].destinations@;
                            let d1 = final(self).streams@[stream_slot as int].subscribers@[subscriber_slot as int].destinations@;
                            &&& final(self).streams@.len() == old(self).streams@.len()
                            &&& (forall|j: int|
                                0 <= j < old(self).streams@.len() && j != stream_slot ==> final(self).streams@[j]
                                    == #[trigger] old(self).streams@[j])
                            &&& subscriber_destinations_changed(
                                old(self).streams@[stream_slot as int],
                                final(self).streams@[stream_slot as int],
                                subscriber_slot as int,
                            )
                            &&& (!remove ==> r == 1 && destination_added(d0, d1, reg.channel@))
                            &&& (remove && has_destination(d0, reg.channel@) ==> r == 1
                                && destination_removed(d0, d1, reg.channel@))
                            &&& (remove && !has_destination(d0, reg.channel@) ==> r == -6 && d1 == d0)
                        },
                        _ => false,
                    }
                }))
            }),
    {
        if self.registrations[handle].resolved {
            return 1;
        }
        if self.closed {
            let rg = &mut self.registrations[handle];
            rg.resolved = true;
            return -4;
        }
        let rem = self.registrations[handle].remaining;
        if rem > 0 {
            let rg = &mut self.registrations[handle];
            rg.remaining = rem - 1;
            return 0;
        }
        let ch = self.registrations[handle].channel.clone();
        let is_pub_dest = match &self.registrations[handle].kind {
            RegistrationKind::PublicationDestination { stream_slot: _, publisher_slot: _, remove: _ } => true,
            _ => false,
        };
        let r: i32;
        if is_pub_dest {
            let (stream_slot, publisher_slot, remove) = match &self.registrations[handle].kind {
                RegistrationKind::PublicationDestination { stream_slot, publisher_slot, remove } => (
                    *stream_slot,
                    *publisher_slot,
                    *remove,
                ),
                _ => (0, 0, false),
            };
            let st = &mut self.streams[stream_slot];
            let publisher = &mut st.publishers[publisher_slot];
            if remove {
                if Self::remove_destination_entry(&mut publisher.destinations, &ch) {
                    r = 1;
                } else {
                    r = -6;
                }
            } else {
                publisher.destinations.push(ch);
                r = 1;
            }
        } else {
            let (stream_slot, subscriber_slot, remove) = match &self.registrations[handle].kind {
                RegistrationKind::SubscriptionDestination { stream_slot, subscriber_slot, remove } => (
                    *stream_slot,
                    *subscriber_slot,
                    *remove,
                ),
                _ => (0, 0, false),
            };
            let st = &mut self.streams[stream_slot];
            let subscriber = &mut st.subscribers[subscriber_slot];
            if remove {
                if Self::remove_destination_entry(&mut subscriber.destinations, &ch) {
                    r = 1;
                } else {
                    r = -6;
                }
            } else {
                subscriber.destinations.push(ch);
                r = 1;
            }
        }
        let rg = &mut self.registrations[handle];
        rg.resolved = true;
        r
    }
}

} // verus!
