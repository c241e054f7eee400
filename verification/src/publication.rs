//! The send endpoint and its registration future.
//!
//! [`AddPublication`] is the asynchronous bridge: constructing it records
//! the intended channel and stream id only; the first drive validates the
//! URI and issues the engine's non-blocking start call, and every later
//! drive polls the opaque pending handle until it resolves to a live
//! [`Publication`] or an error.  A resolved [`Publication`] sends by
//! copying ([`Publication::offer`]) or by zero-copy reservation
//! ([`Publication::try_claim`], then [`BufferClaim::commit`] or
//! [`BufferClaim::abort`]).

use vstd::prelude::*;
use vstd::string::StringSliceAdditionalSpecFns;

use crate::client::Aeron;
use crate::context::{ErrorHandler, NewPublicationHandler, NewSubscriptionHandler};
use crate::engine::{
    publication_resolved, send_code, stream_appended, stream_rotated, AddPublicationPoll,
    Engine, RegistrationKind, MAX_SESSION_ID,
};
use crate::error::{aeron_error, aeron_result, spec_error_message, Error};
use crate::{
    uri_has_nul, uri_is_representable, ChannelStatus, CorrelationId, Drive, Position, SendSyncPtr,
    SessionId, StreamId,
};

verus! {

/// A live send endpoint: one publisher slot on one engine stream.
#[derive(Debug)]
pub struct Publication {
    pub stream_slot: usize,
    pub publisher_slot: usize,
    pub session_id: i32,
}

/// Outcome of an offer that is not a hard error: accepted at a position,
/// or one of the three retryable flow-control conditions, which drive
/// different back-off strategies.
#[derive(Copy, Clone, Debug, PartialEq, Eq, Structural)]
pub enum OfferResult {
    Accepted(Position),
    BackPressured,
    NotConnected,
    AdminAction,
}

/// Supplies the 64-bit reserved value stamped into a frame immediately
/// before it is finalised, with a mutable view of the frame bytes.  The
/// supplier runs synchronously on the offering thread; it may rewrite the
/// bytes but not change their number.  Implementations describe what they
/// write through the two specification functions.
pub trait ReservedValueSupplier {
    open spec fn frame_spec(&self, frame: Seq<u8>) -> Seq<u8> {
        frame
    }

    open spec fn value_spec(&self, frame: Seq<u8>) -> i64 {
        0
    }

    fn supply(&mut self, frame: &mut Vec<u8>) -> (value: i64)
        ensures
            final(frame)@ == old(self).frame_spec(old(frame)@),
            final(frame)@.len() == old(frame)@.len(),
            value == old(self).value_spec(old(frame)@),
    ;
}

impl Publication {
    /// Whether this endpoint names a live slot of the engine.
    pub open spec fn valid(&self, e: Engine) -> bool {
        &&& self.stream_slot < e.streams@.len()
        &&& self.publisher_slot < e.streams@[self.stream_slot as int].publishers@.len()
        &&& e.streams@[self.stream_slot as int].publishers@[self.publisher_slot as int].session_id
            == self.session_id
    }

    /// Health of the channel: `Active` while the endpoint and the engine
    /// are open, `Errored` once either closed.
    pub fn channel_status(&self, engine: &Engine) -> (r: ChannelStatus)
        requires
            engine.wf(),
            self.valid(*engine),
        ensures
            r is Active <==> !engine.closed && !engine.streams@[self.stream_slot as int].publishers@[
                self.publisher_slot as int].closed,
            r is Active || r is Errored,
    {
        ChannelStatus::from_code(
            engine.publication_channel_status(self.stream_slot, self.publisher_slot),
        )
    }

    /// Whether an open subscriber is attached to this stream.
    pub fn is_connected(&self, engine: &Engine) -> (r: bool)
        requires
            engine.wf(),
            self.valid(*engine),
        ensures
            r == (!engine.closed && !engine.streams@[self.stream_slot as int].publishers@[
                self.publisher_slot as int].closed && engine.streams@[
                self.stream_slot as int].has_open_subscriber()),
    {
        engine.publication_is_connected(self.stream_slot, self.publisher_slot)
    }

    /// Whether this endpoint or the engine has been closed.
    pub fn is_closed(&self, engine: &Engine) -> (r: bool)
        requires
            engine.wf(),
            self.valid(*engine),
        ensures
            r == (engine.closed || engine.streams@[self.stream_slot as int].publishers@[
                self.publisher_slot as int].closed),
    {
        engine.publication_is_closed(self.stream_slot, self.publisher_slot)
    }

    /// Copies `data` into the transport.  `Ok(OfferResult::Accepted(p))` carries
    /// the stream position past the accepted message; the three
    /// flow-control outcomes are normal and retryable; any other negative
    /// engine code is surfaced as a transport error.
    pub fn offer(&self, engine: &mut Engine, data: &[u8]) -> (r: Result<OfferResult, Error>)
        requires
            old(engine).wf(),
            self.valid(*old(engine)),
        ensures
            final(engine).wf(),
            self.valid(*final(engine)),
            ({
                let code = send_code(
                    *old(engine),
                    self.stream_slot as int,
                    self.publisher_slot as int,
                    data@.len() as int,
                );
                &&& (code >= 0 ==> r == Ok::<OfferResult, Error>(OfferResult::Accepted(Position(code)))
                    && code == old(engine).streams@[self.stream_slot as int].tail + data@.len()
                    && old(engine).only_stream_changed(*final(engine), self.stream_slot as int)
                    && stream_appended(
                    old(engine).streams@[self.stream_slot as int],
                    final(engine).streams@[self.stream_slot as int],
                    data@,
                    self.session_id,
                    0,
                ))
                &&& (code == -1 ==> r == Ok::<OfferResult, Error>(OfferResult::NotConnected)
                    && *final(engine) == *old(engine))
                &&& (code == -2 ==> r == Ok::<OfferResult, Error>(OfferResult::BackPressured)
                    && *final(engine) == *old(engine))
                &&& (code == -3 ==> r == Ok::<OfferResult, Error>(OfferResult::AdminAction) && old(engine).only_stream_changed(*final(engine), self.stream_slot as int) && stream_rotated(
                    old(engine).streams@[self.stream_slot as int],
                    final(engine).streams@[self.stream_slot as int],
                    old(engine).term_length,
                ))
                &&& (code < -3 ==> ({
                    &&& r matches Err(Error::Transport(c, m))
                    &&& c == code
                    &&& m@ == spec_error_message(c)
                    &&& *final(engine) == *old(engine)
                }))
            }),
            final(engine).streams@[self.stream_slot as int].tail >= old(engine).streams@[
                self.stream_slot as int].tail,
    {
        let res = engine.offer(self.stream_slot, self.publisher_slot, data, 0);
        if res >= 0 {
            return Ok(OfferResult::Accepted(Position(res)));
        }
        match res {
            -1 => Ok(OfferResult::NotConnected),
            -2 => Ok(OfferResult::BackPressured),
            -3 => Ok(OfferResult::AdminAction),
            _ => Err(aeron_error(res as i32)),
        }
    }

    /// As [`Publication::offer`], but immediately before the frame is
    /// handed to the engine the supplier is invoked with a mutable view of
    /// the frame bytes, and its return value is stamped into the frame's
    /// reserved field.
    pub fn offer_with_reserved_value_supplier<F: ReservedValueSupplier>(
        &self,
        engine: &mut Engine,
        data: &[u8],
        reserved_value_supplier: &mut F,
    ) -> (r: Result<OfferResult, Error>)
        requires
            old(engine).wf(),
            self.valid(*old(engine)),
        ensures
            final(engine).wf(),
            self.valid(*final(engine)),
            ({
                let frame = old(reserved_value_supplier).frame_spec(data@);
                let rv = old(reserved_value_supplier).value_spec(data@);
                let code = send_code(
                    *old(engine),
                    self.stream_slot as int,
                    self.publisher_slot as int,
                    data@.len() as int,
                );
                &&& (code >= 0 ==> r == Ok::<OfferResult, Error>(OfferResult::Accepted(Position(code)))
                    && code == old(engine).streams@[self.stream_slot as int].tail + data@.len()
                    && old(engine).only_stream_changed(*final(engine), self.stream_slot as int)
                    && stream_appended(
                    old(engine).streams@[self.stream_slot as int],
                    final(engine).streams@[self.stream_slot as int],
                    frame,
                    self.session_id,
                    rv,
                ))
                &&& (code == -1 ==> r == Ok::<OfferResult, Error>(OfferResult::NotConnected)
                    && *final(engine) == *old(engine))
                &&& (code == -2 ==> r == Ok::<OfferResult, Error>(OfferResult::BackPressured)
                    && *final(engine) == *old(engine))
                &&& (code == -3 ==> r == Ok::<OfferResult, Error>(OfferResult::AdminAction) && old(engine).only_stream_changed(*final(engine), self.stream_slot as int) && stream_rotated(
                    old(engine).streams@[self.stream_slot as int],
                    final(engine).streams@[self.stream_slot as int],
                    old(engine).term_length,
                ))
                &&& (code < -3 ==> ({
                    &&& r matches Err(Error::Transport(c, m))
                    &&& c == code
                    &&& m@ == spec_error_message(c)
                    &&& *final(engine) == *old(engine)
                }))
            }),
    {
        let mut frame = vstd::slice::slice_to_vec(data);
        let reserved_value = reserved_value_supplier.supply(&mut frame);
        let res = engine.offer(
            self.stream_slot,
            self.publisher_slot,
            frame.as_slice(),
            reserved_value,
        );
        if res >= 0 {
            return Ok(OfferResult::Accepted(Position(res)));
        }
        match res {
            -1 => Ok(OfferResult::NotConnected),
            -2 => Ok(OfferResult::BackPressured),
            -3 => Ok(OfferResult::AdminAction),
            _ => Err(aeron_error(res as i32)),
        }
    }

    /// Reserves `length` bytes of send buffer without copying: on success
    /// the claim's buffer is zeroed and the returned position is where the
    /// committed frame will end, the engine itself untouched — so a claim
    /// that is aborted, or never consumed, cannot move the stream.  Every
    /// negative engine code is surfaced as an error, the flow-control
    /// conditions included.
    pub fn try_claim(&self, engine: &mut Engine, length: usize) -> (r: Result<
        (BufferClaim, Position),
        Error,
    >)
        requires
            old(engine).wf(),
            self.valid(*old(engine)),
        ensures
            final(engine).wf(),
            self.valid(*final(engine)),
            ({
                let code = send_code(
                    *old(engine),
                    self.stream_slot as int,
                    self.publisher_slot as int,
                    length as int,
                );
                &&& (code >= 0 ==> ({
                    &&& r matches Ok((claim, position))
                    &&& position == Position(code)
                    &&& code == old(engine).streams@[self.stream_slot as int].tail + length
                    &&& claim.data@.len() == length
                    &&& forall|i: int| 0 <= i < length ==> claim.data@[i] == 0
                    &&& claim.stream_slot == self.stream_slot
                    &&& claim.publisher_slot == self.publisher_slot
                    &&& *final(engine) == *old(engine)
                }))
                &&& (code == -3 ==> ({
                    &&& r matches Err(Error::Transport(c, _))
                    &&& c == -3
                    &&& old(engine).only_stream_changed(*final(engine), self.stream_slot as int)
                    &&& stream_rotated(
                        old(engine).streams@[self.stream_slot as int],
                        final(engine).streams@[self.stream_slot as int],
                        old(engine).term_length,
                    )
                }))
                &&& (code < 0 && code != -3 ==> ({
                    &&& r matches Err(Error::Transport(c, m))
                    &&& c == code
                    &&& m@ == spec_error_message(c)
                    &&& *final(engine) == *old(engine)
                }))
            }),
            final(engine).streams@[self.stream_slot as int].tail >= old(engine).streams@[
                self.stream_slot as int].tail,
    {
        let res = engine.try_claim(self.stream_slot, self.publisher_slot, length);
        if res >= 0 {
            let buffer = vec![0u8; length];
            Ok(
                (
                    BufferClaim {
                        data: buffer,
                        stream_slot: self.stream_slot,
                        publisher_slot: self.publisher_slot,
                    },
                    Position(res),
                ),
            )
        } else {
            Err(aeron_error(res as i32))
        }
    }

    /// Submits the asynchronous addition of a destination endpoint to this
    /// publication's channel; poll the returned handle to completion.
    pub fn add_destination(&self, engine: &mut Engine, uri: &str) -> (r: Result<
        AsyncDestination,
        Error,
    >)
        requires
            old(engine).wf(),
            self.valid(*old(engine)),
        ensures
            final(engine).wf(),
            self.valid(*final(engine)),
            uri_has_nul(uri.spec_bytes()) ==> (r matches Err(e) && e is InvalidArgument) && *final(engine) == *old(engine),
            !uri_has_nul(uri.spec_bytes()) && !old(engine).can_register() ==> (r matches Err(
                Error::Transport(c, _),
            ) && (c == -4 || c == -6)) && *final(engine) == *old(engine),
            !uri_has_nul(uri.spec_bytes()) && old(engine).can_register() ==> ({
                &&& r matches Ok(d)
                &&& d.inner.0 == old(engine).registrations@.len()
                &&& d.consistent(*final(engine))
                &&& final(engine).registrations@.len() == old(engine).registrations@.len() + 1
                &&& final(engine).registrations@.last().kind == (
                RegistrationKind::PublicationDestination {
                    stream_slot: self.stream_slot,
                    publisher_slot: self.publisher_slot,
                    remove: false,
                })
                &&& final(engine).registrations@.last().channel@ == uri@
                &&& !final(engine).registrations@.last().resolved
                &&& final(engine).streams@ == old(engine).streams@
            }),
    {
        if !uri_is_representable(uri) {
            return Err(Error::InvalidArgument);
        }
        match engine.publication_async_destination(
            self.stream_slot,
            self.publisher_slot,
            uri,
            false,
        ) {
            Ok(handle) => Ok(AsyncDestination { inner: SendSyncPtr(handle) }),
            Err(code) => Err(aeron_error(code)),
        }
    }

    /// Submits the asynchronous removal of a destination endpoint from
    /// this publication's channel; poll the returned handle to completion.
    pub fn remove_destination(&self, engine: &mut Engine, uri: &str) -> (r: Result<
        AsyncDestination,
        Error,
    >)
        requires
            old(engine).wf(),
            self.valid(*old(engine)),
        ensures
            final(engine).wf(),
            self.valid(*final(engine)),
            uri_has_nul(uri.spec_bytes()) ==> (r matches Err(e) && e is InvalidArgument) && *final(engine) == *old(engine),
            !uri_has_nul(uri.spec_bytes()) && !old(engine).can_register() ==> (r matches Err(
                Error::Transport(c, _),
            ) && (c == -4 || c == -6)) && *final(engine) == *old(engine),
            !uri_has_nul(uri.spec_bytes()) && old(engine).can_register() ==> ({
                &&& r matches Ok(d)
                &&& d.inner.0 == old(engine).registrations@.len()
                &&& d.consistent(*final(engine))
                &&& final(engine).registrations@.len() == old(engine).registrations@.len() + 1
                &&& final(engine).registrations@.last().kind == (
                RegistrationKind::PublicationDestination {
                    stream_slot: self.stream_slot,
                    publisher_slot: self.publisher_slot,
                    remove: true,
                })
                &&& final(engine).registrations@.last().channel@ == uri@
                &&& !final(engine).registrations@.last().resolved
                &&& final(engine).streams@ == old(engine).streams@
            }),
    {
        if !uri_is_representable(uri) {
            return Err(Error::InvalidArgument);
        }
        match engine.publication_async_destination(
            self.stream_slot,
            self.publisher_slot,
            uri,
            true,
        ) {
            Ok(handle) => Ok(AsyncDestination { inner: SendSyncPtr(handle) }),
            Err(code) => Err(aeron_error(code)),
        }
    }

    /// Releases the endpoint.  Closing is best-effort and infallible from
    /// the caller's side: there is no channel to surface a teardown
    /// failure, so none is reported.
    pub fn close(&self, engine: &mut Engine)
        requires
            old(engine).wf(),
            self.valid(*old(engine)),
        ensures
            final(engine).wf(),
            self.valid(*final(engine)),
            old(engine).only_stream_changed(*final(engine), self.stream_slot as int),
            crate::engine::publisher_closed(
                old(engine).streams@[self.stream_slot as int],
                final(engine).streams@[self.stream_slot as int],
                self.publisher_slot as int,
            ),
    {
        let _ = engine.publication_close(self.stream_slot, self.publisher_slot);
    }
}


/// A claim's position never falls behind any earlier successful send: the
/// position `try_claim` returns is the stream's tail plus the claimed
/// length, every operation only advances the tail, and every accepted
/// send returned the tail it advanced to.  So driving `try_claim` after
/// any successful send on the same publication yields a position at least
/// the one that send returned.
pub proof fn lemma_claim_position_non_decreasing(
    e: Engine,
    s: int,
    p: int,
    length: int,
    prior_position: i64,
)
    requires
        e.wf(),
        0 <= s < e.streams@.len(),
        0 <= p < e.streams@[s].publishers@.len(),
        0 <= length,
        prior_position <= e.streams@[s].tail,
        send_code(e, s, p, length) >= 0,
    ensures
        send_code(e, s, p, length) >= prior_position,
        send_code(e, s, p, length) == e.streams@[s].tail + length,
{
}

/// A reserved, not-yet-committed region of the send buffer: exclusively
/// owned by the caller between claim and commit or abort, both terminal.
/// Consume every claim by exactly one of them; until committed it
/// reserves nothing, so an abandoned or aborted claim leaves the stream
/// position untouched.
#[derive(Debug)]
pub struct BufferClaim {
    pub data: Vec<u8>,
    pub stream_slot: usize,
    pub publisher_slot: usize,
}

impl BufferClaim {
    /// Whether the claim names a live slot of the engine.
    pub open spec fn valid(&self, e: Engine) -> bool {
        &&& self.stream_slot < e.streams@.len()
        &&& self.publisher_slot < e.streams@[self.stream_slot as int].publishers@.len()
    }

    /// The claimed bytes, for the caller to fill before committing.
    pub fn data(&mut self) -> (r: &mut Vec<u8>)
        ensures
            *r == old(self).data,
            final(self).data == *final(r),
            final(self).stream_slot == old(self).stream_slot,
            final(self).publisher_slot == old(self).publisher_slot,
    {
        &mut self.data
    }

    /// Publishes the claimed bytes as one frame.  The space was promised
    /// by the claim, so flow control is not re-checked; a frame that no
    /// longer fits the current term lands at the start of the next.
    pub fn commit(self, engine: &mut Engine) -> (r: Result<(), Error>)
        requires
            old(engine).wf(),
            self.valid(*old(engine)),
        ensures
            final(engine).wf(),
            ({
                let code = crate::engine::commit_code(
                    *old(engine),
                    self.stream_slot as int,
                    self.publisher_slot as int,
                    self.data@.len() as int,
                );
                &&& (code == 0 <==> r is Ok)
                &&& (code == 0 ==> old(engine).only_stream_changed(
                    *final(engine),
                    self.stream_slot as int,
                ) && final(engine).streams@[self.stream_slot as int].frames@.len() == old(engine).streams@[self.stream_slot as int].frames@.len() + 1 && final(engine).streams@[
                    self.stream_slot as int].frames@.last().data@ == self.data@ && final(engine).streams@[self.stream_slot as int].tail >= old(engine).streams@[
                    self.stream_slot as int].tail + self.data@.len())
                &&& (code == 0 && old(engine).streams@[self.stream_slot as int].term_offset
                    + self.data@.len() <= old(engine).term_length ==> stream_appended(
                    old(engine).streams@[self.stream_slot as int],
                    final(engine).streams@[self.stream_slot as int],
                    self.data@,
                    old(engine).streams@[self.stream_slot as int].publishers@[
                        self.publisher_slot as int].session_id,
                    0,
                ))
                &&& (code != 0 ==> (r matches Err(Error::Transport(c, _)) && c == code) && *final(engine) == *old(engine))
            }),
            final(engine).streams@[self.stream_slot as int].tail >= old(engine).streams@[
                self.stream_slot as int].tail,
    {
        let code = engine.commit(self.stream_slot, self.publisher_slot, self.data.as_slice());
        aeron_result(code)
    }

    /// Releases the claim without publishing.  The claim reserved nothing
    /// in the engine, so aborting touches no engine state at all: the
    /// stream position is unaffected by the claim.
    pub fn abort(self) -> (r: Result<(), Error>)
        ensures
            r is Ok,
    {
        Ok(())
    }
}

/// The two-state registration bridge for a publication: `Unstarted` holds
/// what the first drive will submit, `Polling` the engine's opaque pending
/// handle, and the transition is one-way.
#[derive(Debug)]
pub enum AddPublicationState {
    Unstarted { uri: String, stream_id: StreamId },
    Polling { inner: SendSyncPtr },
    Resolved,
}

/// A pending add-publication operation, driven by the caller's scheduler
/// through [`AddPublication::poll`] until it resolves.
#[must_use]
#[derive(Debug)]
pub struct AddPublication {
    pub state: AddPublicationState,
}

/// The bound on the drives a registration future may still need: fresh
/// futures have the whole registration latency ahead, polling ones the
/// remaining count of their pending registration, resolved ones nothing.
pub open spec fn drive_measure(state: AddPublicationState, e: Engine) -> int {
    match state {
        AddPublicationState::Unstarted { .. } => e.registration_latency + 2,
        AddPublicationState::Polling { inner } => e.registrations@[inner.0 as int].remaining + 1,
        AddPublicationState::Resolved => 0,
    }
}

impl AddPublication {
    /// Whether the future's pending handle, if any, names an unresolved
    /// add-publication registration of the engine.
    pub open spec fn consistent(&self, e: Engine) -> bool {
        match self.state {
            AddPublicationState::Polling { inner } => {
                &&& inner.0 < e.registrations@.len()
                &&& e.registrations@[inner.0 as int].kind is AddPublication
                &&& !e.registrations@[inner.0 as int].resolved
            },
            _ => true,
        }
    }

    /// Records the intended channel and stream id; no engine interaction
    /// happens until the future is driven.
    pub(crate) fn new(uri: &str, stream_id: StreamId) -> (r: Result<AddPublication, Error>)
        ensures
            r matches Ok(f) && (f.state matches AddPublicationState::Unstarted {
                uri: u,
                stream_id: sid,
            } && u@ == uri@ && sid == stream_id),
    {
        Ok(AddPublication { state: AddPublicationState::Unstarted { uri: uri.to_owned(), stream_id } })
    }

    /// Drives the registration one step.  The first drive validates the
    /// URI (a forbidden byte fails immediately, and `Polling` is never
    /// entered) and issues the engine's start call; later drives poll the
    /// pending handle.  `Pending` asks the caller to re-drive; while in
    /// flight the registration's remaining poll count strictly decreases,
    /// so repeated drives resolve.  Driving a resolved future again has no
    /// effect on the engine or the client.
    pub fn poll<E: ErrorHandler, P: NewPublicationHandler, S: NewSubscriptionHandler>(
        &mut self,
        client: &mut Aeron<E, P, S>,
        engine: &mut Engine,
    ) -> (r: Drive<Result<Publication, Error>>)
        requires
            old(engine).wf(),
            old(self).consistent(*old(engine)),
        ensures
            final(engine).wf(),
            final(self).consistent(*final(engine)),
            ({
                match old(self).state {
                    AddPublicationState::Unstarted { uri, stream_id } => {
                        let nul = uri_has_nul(vstd::utf8::encode_utf8(uri@));
                        &&& (nul ==> ({
                            &&& r matches Drive::Ready(res)
                            &&& res matches Err(e)
                            &&& e is InvalidArgument
                            &&& final(self).state is Resolved
                            &&& *final(engine) == *old(engine)
                            &&& *final(client) == *old(client)
                        }))
                        &&& (!nul && old(engine).can_register() ==> ({
                            &&& r is Pending
                            &&& final(self).state matches AddPublicationState::Polling { inner }
                                && inner.0 == old(engine).registrations@.len()
                            &&& final(engine).registrations@.len() == old(
                                engine,
                            ).registrations@.len() + 1
                            &&& final(engine).registrations@.last().kind is AddPublication
                            &&& final(engine).registrations@.last().channel@ == uri@
                            &&& final(engine).registrations@.last().stream_id == stream_id.0
                            &&& final(engine).registrations@.last().remaining == old(
                                engine,
                            ).registration_latency
                            &&& final(engine).registrations@.last().correlation_id == old(
                                engine,
                            ).next_correlation_id
                            &&& final(engine).streams@ == old(engine).streams@
                            &&& final(engine).closed == old(engine).closed
                            &&& final(engine).next_session_id == old(engine).next_session_id
                            &&& final(engine).next_correlation_id == old(
                                engine,
                            ).next_correlation_id + 1
                            &&& old(engine).same_config(*final(engine))
                            &&& *final(client) == *old(client)
                        }))
                        &&& (!nul && !old(engine).can_register() ==> ({
                            &&& r matches Drive::Ready(res)
                            &&& res matches Err(Error::Transport(c, _))
                            &&& c == -4 || c == -6
                            &&& final(self).state is Resolved
                            &&& *final(engine) == *old(engine)
                            &&& *final(client) == *old(client)
                        }))
                    },
                    AddPublicationState::Polling { inner } => {
                        let reg = old(engine).registrations@[inner.0 as int];
                        &&& (!old(engine).closed && reg.remaining > 0 ==> ({
                            &&& r is Pending
                            &&& final(self).state == old(self).state
                            &&& old(engine).only_registration_changed(*final(engine), inner.0 as int)
                            &&& final(engine).registrations@[inner.0 as int].remaining
                                == reg.remaining - 1
                            &&& !final(engine).registrations@[inner.0 as int].resolved
                            &&& *final(client) == *old(client)
                        }))
                        &&& (!old(engine).closed && reg.remaining == 0 && reg.channel@.len() > 0
                            && old(engine).next_session_id < MAX_SESSION_ID ==> ({
                            &&& r matches Drive::Ready(res)
                            &&& res matches Ok(p)
                            &&& p.session_id == old(engine).next_session_id
                            &&& p.valid(*final(engine))
                            &&& publication_resolved(
                                *old(engine),
                                *final(engine),
                                inner.0 as int,
                                p.stream_slot as int,
                                p.publisher_slot as int,
                            )
                            &&& final(self).state is Resolved
                            &&& final(client).context.on_new_publication == (match old(
                                client,
                            ).context.on_new_publication {
                                Some(h) => Some(
                                    h.after_new_publication(
                                        reg.channel@,
                                        StreamId(reg.stream_id),
                                        SessionId(old(engine).next_session_id),
                                        CorrelationId(reg.correlation_id),
                                    ),
                                ),
                                None => None::<P>,
                            })
                            &&& final(client).context.error_handler == old(
                                client,
                            ).context.error_handler
                            &&& final(client).context.on_new_subscription == old(
                                client,
                            ).context.on_new_subscription
                            &&& final(client).context.dir == old(client).context.dir
                        }))
                        &&& (old(engine).closed || (reg.remaining == 0 && (reg.channel@.len() == 0
                            || old(engine).next_session_id == MAX_SESSION_ID)) ==> ({
                            &&& r matches Drive::Ready(res)
                            &&& res matches Err(Error::Transport(c, _))
                            &&& c == -4 || c == -6
                            &&& final(self).state is Resolved
                            &&& old(engine).only_registration_changed(*final(engine), inner.0 as int)
                            &&& final(client).context.error_handler == (match old(
                                client,
                            ).context.error_handler {
                                Some(h) => Some(h.after_error(c, spec_error_message(c))),
                                None => None::<E>,
                            })
                            &&& final(client).context.on_new_publication == old(
                                client,
                            ).context.on_new_publication
                            &&& final(client).context.on_new_subscription == old(
                                client,
                            ).context.on_new_subscription
                            &&& final(client).context.dir == old(client).context.dir
                        }))
                    },
                    AddPublicationState::Resolved => {
                        &&& r matches Drive::Ready(res)
                        &&& res matches Err(e)
                        &&& e is AlreadyResolved
                        &&& final(self).state is Resolved
                        &&& *final(engine) == *old(engine)
                        &&& *final(client) == *old(client)
                    },
                }
            }),
            r is Pending ==> drive_measure(final(self).state, *final(engine)) < drive_measure(
                old(self).state,
                *old(engine),
            ),
    {
        match &self.state {
            AddPublicationState::Unstarted { uri, stream_id } => {
                let uri_c = uri.clone();
                let sid = *stream_id;
                if !uri_is_representable(uri_c.as_str()) {
                    self.state = AddPublicationState::Resolved;
                    return Drive::Ready(Err(Error::InvalidArgument));
                }
                match engine.async_add_publication(uri_c.as_str(), sid.0) {
                    Ok(handle) => {
                        self.state = AddPublicationState::Polling { inner: SendSyncPtr(handle) };
                        Drive::Pending
                    },
                    Err(code) => {
                        self.state = AddPublicationState::Resolved;
                        Drive::Ready(Err(aeron_error(code)))
                    },
                }
            },
            AddPublicationState::Polling { inner } => {
                let handle = inner.0;
                let channel = engine.registrations[handle].channel.clone();
                let raw_stream_id = engine.registrations[handle].stream_id;
                match engine.async_add_publication_poll(handle) {
                    AddPublicationPoll::Pending => Drive::Pending,
                    AddPublicationPoll::Ready {
                        stream_slot,
                        publisher_slot,
                        session_id,
                        correlation_id,
                    } => {
                        self.state = AddPublicationState::Resolved;
                        client.context.dispatch_new_publication(
                            channel,
                            StreamId(raw_stream_id),
                            SessionId(session_id),
                            CorrelationId(correlation_id),
                        );
                        Drive::Ready(Ok(Publication { stream_slot, publisher_slot, session_id }))
                    },
                    AddPublicationPoll::Error(code) => {
                        self.state = AddPublicationState::Resolved;
                        let err = aeron_error(code);
                        let message = match &err {
                            Error::Transport(_, m) => m.clone(),
                            _ => String::new(),
                        };
                        client.context.dispatch_error(code, message);
                        Drive::Ready(Err(err))
                    },
                }
            },
            AddPublicationState::Resolved => Drive::Ready(Err(Error::AlreadyResolved)),
        }
    }

    /// Drives the future to completion.  Against the engine, which is
    /// responsive by construction, this always terminates with a live
    /// publication or an error: each pending drive strictly decreases the
    /// drive measure.  The loop re-drives immediately; callers wanting
    /// idle back-off poll step by step instead.
    /// The channel a not-yet-started future will submit; empty otherwise.
    pub open spec fn pending_channel(self) -> Seq<char> {
        match self.state {
            AddPublicationState::Unstarted { uri, .. } => uri@,
            _ => Seq::<char>::empty(),
        }
    }

    /// Whether resolution is owed: an unstarted future for a well-formed,
    /// non-empty channel, against an open engine that can still allocate
    /// correlation and session ids, resolves successfully.
    pub open spec fn resolution_owed(self, e: Engine) -> bool {
        &&& self.state matches AddPublicationState::Unstarted { uri, .. }
            && !uri_has_nul(vstd::utf8::encode_utf8(uri@)) && uri@.len() > 0
        &&& !e.closed
        &&& e.next_correlation_id < crate::engine::MAX_CORRELATION_ID
        &&& e.next_session_id < MAX_SESSION_ID
    }

    pub fn resolve<E: ErrorHandler, P: NewPublicationHandler, S: NewSubscriptionHandler>(
        &mut self,
        client: &mut Aeron<E, P, S>,
        engine: &mut Engine,
    ) -> (r: Result<Publication, Error>)
        requires
            old(engine).wf(),
            old(self).consistent(*old(engine)),
        ensures
            final(engine).wf(),
            final(self).state is Resolved,
            r matches Ok(p) ==> p.valid(*final(engine)),
            (old(self).state matches AddPublicationState::Unstarted { uri, .. } && uri_has_nul(
                vstd::utf8::encode_utf8(uri@),
            )) ==> (r matches Err(e) && e is InvalidArgument),
            old(self).resolution_owed(*old(engine)) ==> r is Ok,
            old(self).state matches AddPublicationState::Unstarted { uri, stream_id } ==> (
            r matches Ok(p) ==> resolved_publication_effect(
                *old(engine),
                *final(engine),
                uri@,
                stream_id.0,
                p,
            ) && final(client).context.on_new_publication == (match old(
                client,
            ).context.on_new_publication {
                Some(h) => Some(
                    h.after_new_publication(
                        uri@,
                        stream_id,
                        SessionId(p.session_id),
                        CorrelationId(old(engine).next_correlation_id),
                    ),
                ),
                None => None::<P>,
            }) && final(client).context.error_handler == old(client).context.error_handler
                && final(client).context.on_new_subscription == old(
                client,
            ).context.on_new_subscription && final(client).context.dir == old(
                client,
            ).context.dir),
    {
        let ghost f0 = *old(self);
        let ghost owed = old(self).resolution_owed(*old(engine));
        let ghost uri0: Seq<char> = old(self).pending_channel();
        loop
            invariant
                engine.wf(),
                self.consistent(*engine),
                owed == f0.resolution_owed(*old(engine)),
                f0 == *old(self),
                owed ==> !engine.closed,
                owed ==> engine.next_session_id < MAX_SESSION_ID,
                (f0.state matches AddPublicationState::Unstarted { uri, .. } && uri_has_nul(
                    vstd::utf8::encode_utf8(uri@),
                )) ==> *self == f0,
                owed ==> match self.state {
                    AddPublicationState::Unstarted { uri, .. } => uri@ == uri0 && !uri_has_nul(
                        vstd::utf8::encode_utf8(uri@),
                    ) && uri@.len() > 0 && engine.next_correlation_id
                        < crate::engine::MAX_CORRELATION_ID,
                    AddPublicationState::Polling { inner } => engine.registrations@[
                        inner.0 as int].channel@ == uri0 && uri0.len() > 0,
                    AddPublicationState::Resolved => false,
                },
                f0.state is Unstarted ==> *client == *old(client),
                f0.state is Unstarted ==> match self.state {
                    AddPublicationState::Unstarted { .. } => *self == f0 && *engine == *old(engine),
                    AddPublicationState::Polling { inner } => ({
                        let reg = engine.registrations@[inner.0 as int];
                        &&& reg.channel@ == f0.pending_channel()
                        &&& (f0.state matches AddPublicationState::Unstarted { uri: _, stream_id }
                            && reg.stream_id == stream_id.0)
                        &&& reg.correlation_id == old(engine).next_correlation_id
                        &&& engine.streams@ == old(engine).streams@
                        &&& engine.closed == old(engine).closed
                        &&& old(engine).same_config(*engine)
                        &&& engine.next_session_id == old(engine).next_session_id
                        &&& engine.next_correlation_id == old(engine).next_correlation_id + 1
                    }),
                    AddPublicationState::Resolved => false,
                },
            decreases drive_measure(self.state, *engine),
        {
            match self.poll(client, engine) {
                Drive::Pending => (),
                Drive::Ready(res) => {
                    return res;
                },
            }
        }
    }
}


/// The composite effect of resolving an add-publication registration for
/// `uri` and `stream_id` against engine state `e0`: one open publisher of
/// `p`'s session joined the matching stream, created empty if `e0`
/// carried none, and no other stream, frame or subscriber changed.
pub open spec fn resolved_publication_effect(
    e0: Engine,
    e1: Engine,
    uri: Seq<char>,
    stream_id: i32,
    p: Publication,
) -> bool {
    &&& p.valid(e1)
    &&& crate::engine::stream_matches(e1.streams@[p.stream_slot as int], uri, stream_id)
    &&& !e1.streams@[p.stream_slot as int].publishers@[p.publisher_slot as int].closed
    &&& e1.closed == e0.closed
    &&& e0.same_config(e1)
    &&& e1.next_session_id == e0.next_session_id + 1
    &&& e1.next_correlation_id == e0.next_correlation_id + 1
    &&& if crate::engine::has_stream(e0, uri, stream_id) {
        &&& (p.stream_slot as int) < e0.streams@.len()
        &&& e1.streams@.len() == e0.streams@.len()
        &&& (forall|j: int|
            0 <= j < e0.streams@.len() && j != p.stream_slot as int ==> e1.streams@[j]
                == #[trigger] e0.streams@[j])
        &&& crate::engine::publisher_appended(
            e0.streams@[p.stream_slot as int],
            e1.streams@[p.stream_slot as int],
            p.session_id,
        )
        &&& p.publisher_slot == e0.streams@[p.stream_slot as int].publishers@.len()
    } else {
        &&& p.stream_slot == e0.streams@.len()
        &&& e1.streams@.len() == e0.streams@.len() + 1
        &&& e1.streams@.take(e0.streams@.len() as int) =~= e0.streams@
        &&& crate::engine::fresh_stream(e1.streams@.last(), uri, stream_id)
        &&& e1.streams@.last().subscribers@.len() == 0
        &&& e1.streams@.last().publishers@.len() == 1
        &&& p.publisher_slot == 0
    }
}

/// A simple poll-to-completion handle for a pending destination change:
/// poll until it returns `Ok(true)`.
#[derive(Debug)]
pub struct AsyncDestination {
    pub inner: SendSyncPtr,
}

impl AsyncDestination {
    /// Whether the handle names a destination registration of the engine.
    pub open spec fn consistent(&self, e: Engine) -> bool {
        &&& self.inner.0 < e.registrations@.len()
        &&& e.registrations@[self.inner.0 as int].kind is PublicationDestination
    }

    /// One non-blocking poll: `Ok(false)` while in flight, `Ok(true)` once
    /// the destination change is applied (and on every later poll), an
    /// error if the engine shut down or a removal named an unknown
    /// destination.
    pub fn poll(&self, engine: &mut Engine) -> (r: Result<bool, Error>)
        requires
            old(engine).wf(),
            self.consistent(*old(engine)),
        ensures
            final(engine).wf(),
            self.consistent(*final(engine)),
            ({
                let reg = old(engine).registrations@[self.inner.0 as int];
                &&& (reg.resolved ==> r == Ok::<bool, Error>(true) && *final(engine) == *old(engine))
                &&& (!reg.resolved && old(engine).closed ==> (r matches Err(Error::Transport(c, _))
                    && c == -4) && old(engine).only_registration_changed(
                    *final(engine),
                    self.inner.0 as int,
                ))
                &&& (!reg.resolved && !old(engine).closed && reg.remaining > 0 ==> r == Ok::<
                    bool,
                    Error,
                >(false) && old(engine).only_registration_changed(*final(engine), self.inner.0 as int)
                    && final(engine).registrations@[self.inner.0 as int].remaining
                    == reg.remaining - 1)
                &&& (!reg.resolved && !old(engine).closed && reg.remaining == 0 ==> (
                match reg.kind {
                    RegistrationKind::PublicationDestination {
                        stream_slot,
                        publisher_slot,
                        remove,
                    } => ({
                        let d0 = old(engine).streams@[stream_slot as int].publishers@[
                            publisher_slot as int].destinations@;
                        let d1 = final(engine).streams@[stream_slot as int].publishers@[
                            publisher_slot as int].destinations@;
                        &&& crate::engine::resolves_registration(
                            *old(engine),
                            *final(engine),
                            self.inner.0 as int,
                        )
                        &&& (!remove ==> r == Ok::<bool, Error>(true)
                            && crate::engine::destination_added(d0, d1, reg.channel@))
                        &&& (remove && crate::engine::has_destination(d0, reg.channel@) ==> r
                            == Ok::<bool, Error>(true) && crate::engine::destination_removed(
                            d0,
                            d1,
                            reg.channel@,
                        ))
                        &&& (remove && !crate::engine::has_destination(d0, reg.channel@) ==> (
                        r matches Err(Error::Transport(c, _)) && c == -6) && d1 == d0)
                    }),
                    _ => false,
                }))
            }),
    {
        let res = engine.async_destination_poll(self.inner.0);
        if res >= 0 {
            Ok(res != 0)
        } else {
            Err(aeron_error(res))
        }
    }
}

} // verus!
