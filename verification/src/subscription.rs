//! The receive endpoint, its polling modes, and its registration future.
//!
//! A [`Subscription`] consumes frames in arrival order through one of
//! three mutually exclusive, synchronous, non-blocking polling modes:
//! plain fragment delivery ([`Subscription::poll`]), flow-controlled
//! delivery driven by the handler's [`HandlerAction`]
//! ([`Subscription::controlled_poll`]), and raw block delivery
//! ([`Subscription::block_poll`]).  Handlers run on the polling thread,
//! once per fragment or block, before the poll call returns; they must
//! not block and must not re-enter the client.

use vstd::prelude::*;
use vstd::string::StringSliceAdditionalSpecFns;

use crate::client::Aeron;
use crate::context::{ErrorHandler, NewPublicationHandler, NewSubscriptionHandler};
use crate::engine::{
    send_code, stream_appended, subscription_resolved, AddSubscriptionPoll, Engine, Frame,
    RegistrationKind,
};
use crate::error::{aeron_error, spec_error_message, Error};
use crate::{
    uri_has_nul, uri_is_representable, ChannelStatus, CorrelationId, Drive, Header, SendSyncPtr,
    SessionId, StreamId, TermId,
};

verus! {

/// A live receive endpoint: one subscriber slot on one engine stream.
#[derive(Debug)]
pub struct Subscription {
    pub stream_slot: usize,
    pub subscriber_slot: usize,
}

/// What a controlled-poll handler tells the transport after each
/// fragment: keep delivering, stop after consuming this fragment, stop
/// without consuming it (it is redelivered next poll), or consume it and
/// commit the position at once.
#[derive(Copy, Clone, Debug, PartialEq, Eq, Structural)]
pub enum HandlerAction {
    Continue,
    Break,
    Abort,
    Commit,
}

/// Handler for plain fragment delivery: one call per fragment, with the
/// bytes and a header snapshot that outlives the call.  `after_fragment`
/// is each implementation's own account of how one delivery changes it;
/// the polls' contracts promise delivery over it.
pub trait FragmentHandler: Sized {
    open spec fn after_fragment(self, data: Seq<u8>, header: Header) -> Self {
        self
    }

    fn on_fragment(&mut self, data: &[u8], header: &Header)
        ensures
            *final(self) == old(self).after_fragment(data@, *header),
    ;
}

/// Handler for flow-controlled fragment delivery.  `action_spec` is each
/// implementation's own account of the action it returns for given bytes
/// and header, and `after_fragment` of how one delivery changes it; the
/// controlled poll's contract is stated over both.
pub trait ControlledFragmentHandler: Sized {
    open spec fn action_spec(&self, data: Seq<u8>, header: Header) -> HandlerAction {
        HandlerAction::Continue
    }

    open spec fn after_fragment(self, data: Seq<u8>, header: Header) -> Self {
        self
    }

    fn on_fragment(&mut self, data: &[u8], header: &Header) -> (action: HandlerAction)
        ensures
            action == old(self).action_spec(data@, *header),
            *final(self) == old(self).after_fragment(data@, *header),
    ;
}

/// Handler for raw block delivery: one contiguous run of frames of a
/// single session and term, concatenated without per-fragment framing.
/// `after_block` is each implementation's own account of how one
/// delivery changes it; the block poll's contract promises delivery over
/// it.
pub trait BlockHandler: Sized {
    open spec fn after_block(self, data: Seq<u8>, session_id: SessionId, term_id: TermId) -> Self {
        self
    }

    fn on_block(&mut self, data: &[u8], session_id: SessionId, term_id: TermId)
        ensures
            *final(self) == old(self).after_block(data@, session_id, term_id),
    ;
}

/// The fragment index past the block delivered from `i`: frames are taken
/// while they continue the same session and term and fit the remaining
/// byte budget.
pub open spec fn block_end(frames: Seq<Frame>, i: int, sid: i32, tid: i32, budget: int) -> int
    decreases frames.len() - i,
{
    if i < 0 || i >= frames.len() {
        i
    } else if frames[i].session_id != sid || frames[i].term_id != tid || frames[i].data@.len()
        > budget {
        i
    } else {
        block_end(frames, i + 1, sid, tid, budget - frames[i].data@.len())
    }
}

/// The bytes of frames `start..end`, concatenated.
pub open spec fn concat_data(frames: Seq<Frame>, start: int, end: int) -> Seq<u8>
    decreases end - start,
{
    if start >= end {
        Seq::<u8>::empty()
    } else {
        frames[start].data@ + concat_data(frames, start + 1, end)
    }
}

/// Everything of `st1` is as in `st0` except that the subscriber at `k`
/// moved its consumption position to `next`.
pub open spec fn subscriber_at(st0: crate::engine::StreamState, st1: crate::engine::StreamState, k: int, next: int) -> bool {
    &&& st1.subscribers@.len() == st0.subscribers@.len()
    &&& forall|j: int|
        0 <= j < st0.subscribers@.len() && j != k ==> st1.subscribers@[j] == #[trigger] st0.subscribers@[j]
    &&& st1.subscribers@[k].next_fragment == next
    &&& st1.subscribers@[k].closed == st0.subscribers@[k].closed
    &&& st1.subscribers@[k].destinations == st0.subscribers@[k].destinations
    &&& st1.channel == st0.channel
    &&& st1.stream_id == st0.stream_id
    &&& st1.frames@ == st0.frames@
    &&& st1.tail == st0.tail
    &&& st1.term_id == st0.term_id
    &&& st1.term_offset == st0.term_offset
    &&& st1.publishers@ == st0.publishers@
}

/// The header snapshot delivered with a frame: a data fragment of the
/// unfragmented protocol version, stamped with the frame's stream
/// coordinates.
pub open spec fn spec_frame_header(frame: Frame, stream_id: i32) -> Header {
    Header {
        version: 1i8,
        flags: 0xc0u8,
        frame_type: 1i16,
        session_id: frame.session_id,
        stream_id,
        term_id: frame.term_id,
        term_offset: frame.term_offset,
        reserved_value: frame.reserved_value,
    }
}

/// Copies a frame's metadata out of the engine into a header snapshot.
fn frame_header(frame: &Frame, stream_id: i32) -> (h: Header)
    ensures
        h == spec_frame_header(*frame, stream_id),
{
    Header {
        version: 1,
        flags: 0xc0,
        frame_type: 1,
        session_id: frame.session_id,
        stream_id,
        term_id: frame.term_id,
        term_offset: frame.term_offset,
        reserved_value: frame.reserved_value,
    }
}

/// The handler state after the fragments `i..stop` have been delivered
/// in order, each with its bytes and its header snapshot.
pub open spec fn fragments_delivered<F: FragmentHandler>(
    h: F,
    frames: Seq<Frame>,
    stream_id: i32,
    i: int,
    stop: int,
) -> F
    decreases stop - i,
{
    if i >= stop {
        h
    } else {
        fragments_delivered(
            h.after_fragment(frames[i].data@, spec_frame_header(frames[i], stream_id)),
            frames,
            stream_id,
            i + 1,
            stop,
        )
    }
}

/// The handler state and the consumption index after a controlled poll
/// walks the fragments `i..stop`: each fragment is delivered in turn, and
/// the handler's action after it steers the walk — `Continue` and
/// `Commit` go on, `Break` stops past the fragment, `Abort` stops before
/// it.
pub open spec fn controlled_run<F: ControlledFragmentHandler>(
    h: F,
    frames: Seq<Frame>,
    stream_id: i32,
    i: int,
    stop: int,
) -> (F, int)
    decreases stop - i,
{
    if i >= stop {
        (h, i)
    } else {
        let header = spec_frame_header(frames[i], stream_id);
        let action = h.action_spec(frames[i].data@, header);
        let next = h.after_fragment(frames[i].data@, header);
        if action == HandlerAction::Abort {
            (next, i)
        } else if action == HandlerAction::Break {
            (next, i + 1)
        } else {
            controlled_run(next, frames, stream_id, i + 1, stop)
        }
    }
}

impl Subscription {
    /// Whether this endpoint names a live slot of the engine.
    pub open spec fn valid(&self, e: Engine) -> bool {
        &&& self.stream_slot < e.streams@.len()
        &&& self.subscriber_slot < e.streams@[self.stream_slot as int].subscribers@.len()
    }

    /// This subscriber's next consumption index.
    pub open spec fn spec_position(&self, e: Engine) -> int {
        e.streams@[self.stream_slot as int].subscribers@[self.subscriber_slot as int].next_fragment as int
    }

    /// Whether the endpoint is open in an open engine.
    pub open spec fn spec_open(&self, e: Engine) -> bool {
        !e.closed && !e.streams@[self.stream_slot as int].subscribers@[
            self.subscriber_slot as int].closed
    }

    /// Delivers up to `fragment_limit` fragments, each as a byte slice
    /// plus a header snapshot, to `handler`, and consumes them: the
    /// handler is invoked once per consumed fragment, in arrival order,
    /// before the call returns, and its final state is its own
    /// `after_fragment` folded over exactly those fragments.  There is no
    /// flow-control feedback: consumption always advances past every
    /// delivered fragment, stopping at the limit or the end of the
    /// stream.  On a closed endpoint nothing is delivered.
    pub fn poll<F: FragmentHandler>(
        &self,
        engine: &mut Engine,
        handler: &mut F,
        fragment_limit: usize,
    )
        requires
            old(engine).wf(),
            self.valid(*old(engine)),
        ensures
            final(engine).wf(),
            self.valid(*final(engine)),
            !self.spec_open(*old(engine)) ==> *final(engine) == *old(engine) && *final(handler)
                == *old(handler),
            self.spec_open(*old(engine)) ==> ({
                let start = self.spec_position(*old(engine));
                let frames = old(engine).streams@[self.stream_slot as int].frames@;
                let len = frames.len() as int;
                let stop = if start + fragment_limit < len {
                    start + fragment_limit
                } else {
                    len
                };
                &&& old(engine).only_stream_changed(*final(engine), self.stream_slot as int)
                &&& subscriber_at(
                    old(engine).streams@[self.stream_slot as int],
                    final(engine).streams@[self.stream_slot as int],
                    self.subscriber_slot as int,
                    stop,
                )
                &&& *final(handler) == fragments_delivered(
                    *old(handler),
                    frames,
                    old(engine).streams@[self.stream_slot as int].stream_id,
                    start,
                    stop,
                )
            }),
    {
        if engine.subscription_is_closed(self.stream_slot, self.subscriber_slot) {
            return ;
        }
        let ghost e0 = *engine;
        let ghost h0 = *handler;
        let start = engine.streams[self.stream_slot].subscribers[self.subscriber_slot].next_fragment;
        let nframes = engine.streams[self.stream_slot].frames.len();
        let stream_id = engine.streams[self.stream_slot].stream_id;
        let ghost frames = engine.streams@[self.stream_slot as int].frames@;
        let stop = if fragment_limit < nframes - start {
            start + fragment_limit
        } else {
            nframes
        };
        let mut i = start;
        while i < stop
            invariant
                *engine == e0,
                engine.wf(),
                self.valid(*engine),
                frames == engine.streams@[self.stream_slot as int].frames@,
                stream_id == engine.streams@[self.stream_slot as int].stream_id,
                start <= i <= stop <= engine.streams@[self.stream_slot as int].frames@.len(),
                fragments_delivered(h0, frames, stream_id, start as int, stop as int)
                    == fragments_delivered(*handler, frames, stream_id, i as int, stop as int),
            decreases stop - i,
        {
            let ghost pre = *handler;
            let frame = &engine.streams[self.stream_slot].frames[i];
            let header = frame_header(frame, stream_id);
            handler.on_fragment(frame.data.as_slice(), &header);
            proof {
                assert(fragments_delivered(pre, frames, stream_id, i as int, stop as int)
                    == fragments_delivered(
                    pre.after_fragment(frames[i as int].data@, header),
                    frames,
                    stream_id,
                    i + 1,
                    stop as int,
                ));
            }
            i = i + 1;
        }
        let st = &mut engine.streams[self.stream_slot];
        let sub = &mut st.subscribers[self.subscriber_slot];
        sub.next_fragment = stop;
    }

    /// Delivers like [`Subscription::poll`], but after each fragment the
    /// handler's action steers consumption: `Continue` and `Commit` keep
    /// delivering, `Break` stops after consuming the fragment, `Abort`
    /// stops without consuming it, so the same fragment is redelivered on
    /// the next poll.  The handler's final state and the new consumption
    /// position are exactly the walk `controlled_run` describes over the
    /// handler's own `action_spec` and `after_fragment`.  A handler that
    /// always aborts never advances the position; one that always
    /// continues consumes up to the limit.
    pub fn controlled_poll<F: ControlledFragmentHandler>(
        &self,
        engine: &mut Engine,
        handler: &mut F,
        fragment_limit: usize,
    )
        requires
            old(engine).wf(),
            self.valid(*old(engine)),
        ensures
            final(engine).wf(),
            self.valid(*final(engine)),
            !self.spec_open(*old(engine)) ==> *final(engine) == *old(engine),
            self.spec_open(*old(engine)) ==> ({
                let start = self.spec_position(*old(engine));
                let len = old(engine).streams@[self.stream_slot as int].frames@.len() as int;
                let stop = if start + fragment_limit < len {
                    start + fragment_limit
                } else {
                    len
                };
                &&& old(engine).only_stream_changed(*final(engine), self.stream_slot as int)
                &&& subscriber_at(
                    old(engine).streams@[self.stream_slot as int],
                    final(engine).streams@[self.stream_slot as int],
                    self.subscriber_slot as int,
                    self.spec_position(*final(engine)),
                )
                &&& start <= self.spec_position(*final(engine)) <= stop
                &&& ({
                    let run = controlled_run(
                        *old(handler),
                        old(engine).streams@[self.stream_slot as int].frames@,
                        old(engine).streams@[self.stream_slot as int].stream_id,
                        start,
                        stop,
                    );
                    &&& *final(handler) == run.0
                    &&& self.spec_position(*final(engine)) == run.1
                })
                &&& ((forall|f: F, d: Seq<u8>, h: Header| #[trigger] f.action_spec(d, h)
                    == HandlerAction::Abort) ==> self.spec_position(*final(engine)) == start)
                &&& ((forall|f: F, d: Seq<u8>, h: Header| #[trigger] f.action_spec(d, h)
                    == HandlerAction::Continue) ==> self.spec_position(*final(engine)) == stop)
            }),
            !self.spec_open(*old(engine)) ==> *final(handler) == *old(handler),
    {
        if engine.subscription_is_closed(self.stream_slot, self.subscriber_slot) {
            return ;
        }
        let ghost e0 = *engine;
        let ghost h0 = *handler;
        let start = engine.streams[self.stream_slot].subscribers[self.subscriber_slot].next_fragment;
        let nframes = engine.streams[self.stream_slot].frames.len();
        let stream_id = engine.streams[self.stream_slot].stream_id;
        let ghost frames = engine.streams@[self.stream_slot as int].frames@;
        let stop = if fragment_limit < nframes - start {
            start + fragment_limit
        } else {
            nframes
        };
        let mut i = start;
        let mut consumed = start;
        let mut halted = false;
        while i < stop && !halted
            invariant
                *engine == e0,
                engine.wf(),
                self.valid(*engine),
                frames == engine.streams@[self.stream_slot as int].frames@,
                stream_id == engine.streams@[self.stream_slot as int].stream_id,
                start <= i <= stop <= engine.streams@[self.stream_slot as int].frames@.len(),
                start <= consumed <= i,
                consumed <= stop,
                !halted ==> consumed == i,
                halted ==> controlled_run(h0, frames, stream_id, start as int, stop as int) == (
                    *handler,
                    consumed as int,
                ),
                !halted ==> controlled_run(h0, frames, stream_id, start as int, stop as int)
                    == controlled_run(*handler, frames, stream_id, i as int, stop as int),
                (forall|f: F, d: Seq<u8>, h: Header| #[trigger] f.action_spec(d, h)
                    == HandlerAction::Abort) ==> consumed == start,
                (forall|f: F, d: Seq<u8>, h: Header| #[trigger] f.action_spec(d, h)
                    == HandlerAction::Continue) ==> !halted && consumed == i,
            decreases stop - i,
        {
            let ghost pre = *handler;
            let frame = &engine.streams[self.stream_slot].frames[i];
            let header = frame_header(frame, stream_id);
            let action = handler.on_fragment(frame.data.as_slice(), &header);
            proof {
                assert(controlled_run(pre, frames, stream_id, i as int, stop as int) == ({
                    let next = pre.after_fragment(frames[i as int].data@, header);
                    if pre.action_spec(frames[i as int].data@, header) == HandlerAction::Abort {
                        (next, i as int)
                    } else if pre.action_spec(frames[i as int].data@, header)
                        == HandlerAction::Break {
                        (next, i + 1)
                    } else {
                        controlled_run(next, frames, stream_id, i + 1, stop as int)
                    }
                }));
            }
            match action {
                HandlerAction::Continue => {
                    consumed = i + 1;
                },
                HandlerAction::Commit => {
                    consumed = i + 1;
                },
                HandlerAction::Break => {
                    consumed = i + 1;
                    halted = true;
                },
                HandlerAction::Abort => {
                    halted = true;
                },
            }
            i = i + 1;
        }
        let st = &mut engine.streams[self.stream_slot];
        let sub = &mut st.subscribers[self.subscriber_slot];
        sub.next_fragment = consumed;
    }

    /// Delivers one contiguous raw block: the longest run of unconsumed
    /// frames sharing the first frame's session and term whose bytes fit
    /// `block_length_limit`, concatenated, along with that session and
    /// term.  The handler is invoked exactly once if the run is
    /// non-empty — its final state is its own `after_block` of the
    /// concatenated bytes, session and term — and the run is consumed;
    /// otherwise nothing happens and the handler is untouched.
    pub fn block_poll<F: BlockHandler>(
        &self,
        engine: &mut Engine,
        handler: &mut F,
        block_length_limit: usize,
    )
        requires
            old(engine).wf(),
            self.valid(*old(engine)),
        ensures
            final(engine).wf(),
            self.valid(*final(engine)),
            !self.spec_open(*old(engine)) ==> *final(engine) == *old(engine),
            self.spec_open(*old(engine)) ==> ({
                let frames = old(engine).streams@[self.stream_slot as int].frames@;
                let start = self.spec_position(*old(engine));
                let stop = if start < frames.len() {
                    block_end(
                        frames,
                        start,
                        frames[start].session_id,
                        frames[start].term_id,
                        block_length_limit as int,
                    )
                } else {
                    start
                };
                &&& old(engine).only_stream_changed(*final(engine), self.stream_slot as int)
                &&& subscriber_at(
                    old(engine).streams@[self.stream_slot as int],
                    final(engine).streams@[self.stream_slot as int],
                    self.subscriber_slot as int,
                    stop,
                )
                &&& (stop > start ==> *final(handler) == old(handler).after_block(
                    concat_data(frames, start, stop),
                    SessionId(frames[start].session_id),
                    TermId(frames[start].term_id),
                ))
                &&& (stop == start ==> *final(handler) == *old(handler))
            }),
            !self.spec_open(*old(engine)) ==> *final(handler) == *old(handler),
    {
        if engine.subscription_is_closed(self.stream_slot, self.subscriber_slot) {
            return ;
        }
        let ghost e0 = *engine;
        let start = engine.streams[self.stream_slot].subscribers[self.subscriber_slot].next_fragment;
        let nframes = engine.streams[self.stream_slot].frames.len();
        if start >= nframes {
            let st = &mut engine.streams[self.stream_slot];
            let sub = &mut st.subscribers[self.subscriber_slot];
            sub.next_fragment = start;
            return ;
        }
        let session_id = engine.streams[self.stream_slot].frames[start].session_id;
        let term_id = engine.streams[self.stream_slot].frames[start].term_id;
        let ghost frames = engine.streams@[self.stream_slot as int].frames@;
        let mut block: Vec<u8> = Vec::new();
        let mut budget = block_length_limit;
        let mut j = start;
        let mut halted = false;
        while j < nframes && !halted
            invariant
                *engine == e0,
                engine.wf(),
                self.valid(*engine),
                frames == engine.streams@[self.stream_slot as int].frames@,
                start <= j <= nframes,
                nframes == frames.len(),
                budget <= block_length_limit,
                block@ == concat_data(frames, start as int, j as int),
                block_end(frames, start as int, session_id, term_id, block_length_limit as int)
                    == block_end(frames, j as int, session_id, term_id, budget as int),
                halted ==> block_end(frames, j as int, session_id, term_id, budget as int)
                    == j as int,
            decreases nframes - j + (if halted { 0int } else { 1int }),
        {
            let frame = &engine.streams[self.stream_slot].frames[j];
            if frame.session_id != session_id || frame.term_id != term_id || frame.data.len()
                > budget {
                halted = true;
            } else {
                let flen = frame.data.len();
                block.extend_from_slice(frame.data.as_slice());
                proof {
                    assert(concat_data(frames, start as int, j + 1) =~= concat_data(
                        frames,
                        start as int,
                        j as int,
                    ) + frames[j as int].data@) by {
                        lemma_concat_data_snoc(frames, start as int, j as int);
                    }
                }
                budget = budget - flen;
                j = j + 1;
            }
        }
        proof {
            assert(block_end(frames, j as int, session_id, term_id, budget as int) == j as int);
        }
        if j > start {
            handler.on_block(block.as_slice(), SessionId(session_id), TermId(term_id));
        }
        let st = &mut engine.streams[self.stream_slot];
        let sub = &mut st.subscribers[self.subscriber_slot];
        sub.next_fragment = j;
    }

    /// Health of the channel: `Active` while the endpoint and the engine
    /// are open, `Errored` once either closed.
    pub fn channel_status(&self, engine: &Engine) -> (r: ChannelStatus)
        requires
            engine.wf(),
            self.valid(*engine),
        ensures
            r is Active <==> self.spec_open(*engine),
            r is Active || r is Errored,
    {
        ChannelStatus::from_code(
            engine.subscription_channel_status(self.stream_slot, self.subscriber_slot),
        )
    }

    /// Whether an open publisher is attached to this stream.
    pub fn is_connected(&self, engine: &Engine) -> (r: bool)
        requires
            engine.wf(),
            self.valid(*engine),
        ensures
            r == (self.spec_open(*engine) && engine.streams@[
                self.stream_slot as int].has_open_publisher()),
    {
        engine.subscription_is_connected(self.stream_slot, self.subscriber_slot)
    }

    /// Whether this endpoint or the engine has been closed.
    pub fn is_closed(&self, engine: &Engine) -> (r: bool)
        requires
            engine.wf(),
            self.valid(*engine),
        ensures
            r == !self.spec_open(*engine),
    {
        engine.subscription_is_closed(self.stream_slot, self.subscriber_slot)
    }

    /// Submits the asynchronous addition of a destination endpoint to this
    /// subscription's channel; poll the returned handle to completion.
    pub fn add_destination(&self, engine: &mut Engine, uri: &str) -> (r: Result<
        AsyncDestination,
        Error,
    >)
        requires
            old(engine).wf(),
            self.valid(*old(engine)),
        ensures
            final(engine).wf(),
            self.valid(*final(engine)),
            uri_has_nul(uri.spec_bytes()) ==> (r matches Err(e) && e is InvalidArgument) && *final(engine) == *old(engine),
            !uri_has_nul(uri.spec_bytes()) && !old(engine).can_register() ==> (r matches Err(
                Error::Transport(c, _),
            ) && (c == -4 || c == -6)) && *final(engine) == *old(engine),
            !uri_has_nul(uri.spec_bytes()) && old(engine).can_register() ==> ({
                &&& r matches Ok(d)
                &&& d.inner.0 == old(engine).registrations@.len()
                &&& d.consistent(*final(engine))
                &&& final(engine).registrations@.len() == old(engine).registrations@.len() + 1
                &&& final(engine).registrations@.last().kind == (
                RegistrationKind::SubscriptionDestination {
                    stream_slot: self.stream_slot,
                    subscriber_slot: self.subscriber_slot,
                    remove: false,
                })
                &&& final(engine).registrations@.last().channel@ == uri@
                &&& !final(engine).registrations@.last().resolved
                &&& final(engine).streams@ == old(engine).streams@
            }),
    {
        if !uri_is_representable(uri) {
            return Err(Error::InvalidArgument);
        }
        match engine.subscription_async_destination(
            self.stream_slot,
            self.subscriber_slot,
            uri,
            false,
        ) {
            Ok(handle) => Ok(AsyncDestination { inner: SendSyncPtr(handle) }),
            Err(code) => Err(aeron_error(code)),
        }
    }

    /// Submits the asynchronous removal of a destination endpoint from
    /// this subscription's channel; poll the returned handle to
    /// completion.
    pub fn remove_destination(&self, engine: &mut Engine, uri: &str) -> (r: Result<
        AsyncDestination,
        Error,
    >)
        requires
            old(engine).wf(),
            self.valid(*old(engine)),
        ensures
            final(engine).wf(),
            self.valid(*final(engine)),
            uri_has_nul(uri.spec_bytes()) ==> (r matches Err(e) && e is InvalidArgument) && *final(engine) == *old(engine),
            !uri_has_nul(uri.spec_bytes()) && !old(engine).can_register() ==> (r matches Err(
                Error::Transport(c, _),
            ) && (c == -4 || c == -6)) && *final(engine) == *old(engine),
            !uri_has_nul(uri.spec_bytes()) && old(engine).can_register() ==> ({
                &&& r matches Ok(d)
                &&& d.inner.0 == old(engine).registrations@.len()
                &&& d.consistent(*final(engine))
                &&& final(engine).registrations@.len() == old(engine).registrations@.len() + 1
                &&& final(engine).registrations@.last().kind == (
                RegistrationKind::SubscriptionDestination {
                    stream_slot: self.stream_slot,
                    subscriber_slot: self.subscriber_slot,
                    remove: true,
                })
                &&& final(engine).registrations@.last().channel@ == uri@
                &&& !final(engine).registrations@.last().resolved
                &&& final(engine).streams@ == old(engine).streams@
            }),
    {
        if !uri_is_representable(uri) {
            return Err(Error::InvalidArgument);
        }
        match engine.subscription_async_destination(
            self.stream_slot,
            self.subscriber_slot,
            uri,
            true,
        ) {
            Ok(handle) => Ok(AsyncDestination { inner: SendSyncPtr(handle) }),
            Err(code) => Err(aeron_error(code)),
        }
    }

    /// Releases the endpoint.  Closing is best-effort and infallible from
    /// the caller's side.
    pub fn close(&self, engine: &mut Engine)
        requires
            old(engine).wf(),
            self.valid(*old(engine)),
        ensures
            final(engine).wf(),
            self.valid(*final(engine)),
            old(engine).only_stream_changed(*final(engine), self.stream_slot as int),
            crate::engine::subscriber_closed(
                old(engine).streams@[self.stream_slot as int],
                final(engine).streams@[self.stream_slot as int],
                self.subscriber_slot as int,
            ),
    {
        let _ = engine.subscription_close(self.stream_slot, self.subscriber_slot);
    }
}

/// Appending one more frame extends the concatenation on the right.
proof fn lemma_concat_data_snoc(frames: Seq<Frame>, start: int, j: int)
    requires
        start <= j < frames.len(),
    ensures
        concat_data(frames, start, j + 1) =~= concat_data(frames, start, j) + frames[j].data@,
    decreases j - start,
{
    if start == j {
        assert(concat_data(frames, start, j) =~= Seq::<u8>::empty());
        assert(concat_data(frames, start, j + 1) =~= frames[start].data@ + concat_data(
            frames,
            start + 1,
            j + 1,
        ));
        assert(concat_data(frames, start + 1, j + 1) =~= Seq::<u8>::empty());
    } else {
        lemma_concat_data_snoc(frames, start + 1, j);
        assert(concat_data(frames, start, j + 1) =~= frames[start].data@ + concat_data(
            frames,
            start + 1,
            j + 1,
        ));
        assert(concat_data(frames, start, j) =~= frames[start].data@ + concat_data(
            frames,
            start + 1,
            j,
        ));
    }
}


/// Round trip: a payload accepted by an offer is the next fragment a
/// subscriber of the same stream consumes.  If the subscriber stood at
/// the end of the stream before the offer, then after the offer the new
/// frame lies within the range any poll with a positive fragment limit
/// delivers, its bytes are identical to the payload, the header handed to
/// the poll handler carries the sender's session id, and any fragment
/// handler polled then receives exactly that one delivery.
pub proof fn lemma_offer_poll_round_trip<F: FragmentHandler>(
    e0: Engine,
    e1: Engine,
    s: int,
    p: int,
    k: int,
    data: Seq<u8>,
    fragment_limit: usize,
    h: F,
)
    requires
        e0.wf(),
        0 <= s < e0.streams@.len(),
        0 <= p < e0.streams@[s].publishers@.len(),
        0 <= k < e0.streams@[s].subscribers@.len(),
        send_code(e0, s, p, data.len() as int) >= 0,
        e0.only_stream_changed(e1, s),
        stream_appended(
            e0.streams@[s],
            e1.streams@[s],
            data,
            e0.streams@[s].publishers@[p].session_id,
            0,
        ),
        e0.streams@[s].subscribers@[k].next_fragment == e0.streams@[s].frames@.len(),
        fragment_limit >= 1,
    ensures
        ({
            let start = e1.streams@[s].subscribers@[k].next_fragment as int;
            let delivered = e1.streams@[s].frames@[start];
            &&& start < e1.streams@[s].frames@.len()
            &&& start < start + fragment_limit
            &&& delivered.data@ == data
            &&& spec_frame_header(delivered, e1.streams@[s].stream_id).session_id == e0.streams@[
                s].publishers@[p].session_id
            &&& fragments_delivered(
                h,
                e1.streams@[s].frames@,
                e1.streams@[s].stream_id,
                start,
                start + 1,
            ) == h.after_fragment(data, spec_frame_header(delivered, e1.streams@[s].stream_id))
        }),
{
    assert(e1.streams@[s].frames@.last() == e1.streams@[s].frames@[e0.streams@[s].frames@.len() as int]);
    let start = e1.streams@[s].subscribers@[k].next_fragment as int;
    let frames = e1.streams@[s].frames@;
    let sid = e1.streams@[s].stream_id;
    let h1 = h.after_fragment(frames[start].data@, spec_frame_header(frames[start], sid));
    assert(fragments_delivered(h, frames, sid, start, start + 1) == fragments_delivered(
        h1,
        frames,
        sid,
        start + 1,
        start + 1,
    ));
}

/// The two-state registration bridge for a subscription; the mirror of
/// [`crate::publication::AddPublicationState`].
#[derive(Debug)]
pub enum AddSubscriptionState {
    Unstarted { uri: String, stream_id: StreamId },
    Polling { inner: SendSyncPtr },
    Resolved,
}

/// A pending add-subscription operation, driven by the caller's scheduler
/// through [`AddSubscription::poll`] until it resolves.
#[must_use]
#[derive(Debug)]
pub struct AddSubscription {
    pub state: AddSubscriptionState,
}

/// The bound on the drives this future may still need; the mirror of
/// [`crate::publication::drive_measure`].
pub open spec fn sub_drive_measure(state: AddSubscriptionState, e: Engine) -> int {
    match state {
        AddSubscriptionState::Unstarted { .. } => e.registration_latency + 2,
        AddSubscriptionState::Polling { inner } => e.registrations@[inner.0 as int].remaining + 1,
        AddSubscriptionState::Resolved => 0,
    }
}

impl AddSubscription {
    /// Whether the future's pending handle, if any, names an unresolved
    /// add-subscription registration of the engine.
    pub open spec fn consistent(&self, e: Engine) -> bool {
        match self.state {
            AddSubscriptionState::Polling { inner } => {
                &&& inner.0 < e.registrations@.len()
                &&& e.registrations@[inner.0 as int].kind is AddSubscription
                &&& !e.registrations@[inner.0 as int].resolved
            },
            _ => true,
        }
    }

    /// Records the intended channel and stream id; no engine interaction
    /// happens until the future is driven.
    pub(crate) fn new(uri: &str, stream_id: StreamId) -> (r: Result<AddSubscription, Error>)
        ensures
            r matches Ok(f) && (f.state matches AddSubscriptionState::Unstarted {
                uri: u,
                stream_id: sid,
            } && u@ == uri@ && sid == stream_id),
    {
        Ok(
            AddSubscription {
                state: AddSubscriptionState::Unstarted { uri: uri.to_owned(), stream_id },
            },
        )
    }

    /// Drives the registration one step; the same contract shape as
    /// [`crate::publication::AddPublication::poll`], resolving to a live
    /// [`Subscription`] joined at the stream's current end.
    pub fn poll<E: ErrorHandler, P: NewPublicationHandler, S: NewSubscriptionHandler>(
        &mut self,
        client: &mut Aeron<E, P, S>,
        engine: &mut Engine,
    ) -> (r: Drive<Result<Subscription, Error>>)
        requires
            old(engine).wf(),
            old(self).consistent(*old(engine)),
        ensures
            final(engine).wf(),
            final(self).consistent(*final(engine)),
            ({
                match old(self).state {
                    AddSubscriptionState::Unstarted { uri, stream_id } => {
                        let nul = uri_has_nul(vstd::utf8::encode_utf8(uri@));
                        &&& (nul ==> ({
                            &&& r matches Drive::Ready(res)
                            &&& res matches Err(e)
                            &&& e is InvalidArgument
                            &&& final(self).state is Resolved
                            &&& *final(engine) == *old(engine)
                            &&& *final(client) == *old(client)
                        }))
                        &&& (!nul && old(engine).can_register() ==> ({
                            &&& r is Pending
                            &&& final(self).state matches AddSubscriptionState::Polling { inner }
                                && inner.0 == old(engine).registrations@.len()
                            &&& final(engine).registrations@.len() == old(
                                engine,
                            ).registrations@.len() + 1
                            &&& final(engine).registrations@.last().kind is AddSubscription
                            &&& final(engine).registrations@.last().channel@ == uri@
                            &&& final(engine).registrations@.last().stream_id == stream_id.0
                            &&& final(engine).registrations@.last().remaining == old(
                                engine,
                            ).registration_latency
                            &&& final(engine).registrations@.last().correlation_id == old(
                                engine,
                            ).next_correlation_id
                            &&& final(engine).streams@ == old(engine).streams@
                            &&& final(engine).closed == old(engine).closed
                            &&& final(engine).next_session_id == old(engine).next_session_id
                            &&& final(engine).next_correlation_id == old(
                                engine,
                            ).next_correlation_id + 1
                            &&& old(engine).same_config(*final(engine))
                            &&& *final(client) == *old(client)
                        }))
                        &&& (!nul && !old(engine).can_register() ==> ({
                            &&& r matches Drive::Ready(res)
                            &&& res matches Err(Error::Transport(c, _))
                            &&& c == -4 || c == -6
                            &&& final(self).state is Resolved
                            &&& *final(engine) == *old(engine)
                            &&& *final(client) == *old(client)
                        }))
                    },
                    AddSubscriptionState::Polling { inner } => {
                        let reg = old(engine).registrations@[inner.0 as int];
                        &&& (!old(engine).closed && reg.remaining > 0 ==> ({
                            &&& r is Pending
                            &&& final(self).state == old(self).state
                            &&& old(engine).only_registration_changed(*final(engine), inner.0 as int)
                            &&& final(engine).registrations@[inner.0 as int].remaining
                                == reg.remaining - 1
                            &&& !final(engine).registrations@[inner.0 as int].resolved
                            &&& *final(client) == *old(client)
                        }))
                        &&& (!old(engine).closed && reg.remaining == 0 && reg.channel@.len() > 0
                            ==> ({
                            &&& r matches Drive::Ready(res)
                            &&& res matches Ok(s)
                            &&& s.valid(*final(engine))
                            &&& subscription_resolved(
                                *old(engine),
                                *final(engine),
                                inner.0 as int,
                                s.stream_slot as int,
                                s.subscriber_slot as int,
                            )
                            &&& final(self).state is Resolved
                            &&& final(client).context.on_new_subscription == (match old(
                                client,
                            ).context.on_new_subscription {
                                Some(h) => Some(
                                    h.after_new_subscription(
                                        reg.channel@,
                                        StreamId(reg.stream_id),
                                        CorrelationId(reg.correlation_id),
                                    ),
                                ),
                                None => None::<S>,
                            })
                            &&& final(client).context.error_handler == old(
                                client,
                            ).context.error_handler
                            &&& final(client).context.on_new_publication == old(
                                client,
                            ).context.on_new_publication
                            &&& final(client).context.dir == old(client).context.dir
                        }))
                        &&& (old(engine).closed || (reg.remaining == 0 && reg.channel@.len() == 0)
                            ==> ({
                            &&& r matches Drive::Ready(res)
                            &&& res matches Err(Error::Transport(c, _))
                            &&& c == -4 || c == -6
                            &&& final(self).state is Resolved
                            &&& old(engine).only_registration_changed(*final(engine), inner.0 as int)
                            &&& final(client).context.error_handler == (match old(
                                client,
                            ).context.error_handler {
                                Some(h) => Some(h.after_error(c, spec_error_message(c))),
                                None => None::<E>,
                            })
                            &&& final(client).context.on_new_publication == old(
                                client,
                            ).context.on_new_publication
                            &&& final(client).context.on_new_subscription == old(
                                client,
                            ).context.on_new_subscription
                            &&& final(client).context.dir == old(client).context.dir
                        }))
                    },
                    AddSubscriptionState::Resolved => {
                        &&& r matches Drive::Ready(res)
                        &&& res matches Err(e)
                        &&& e is AlreadyResolved
                        &&& final(self).state is Resolved
                        &&& *final(engine) == *old(engine)
                        &&& *final(client) == *old(client)
                    },
                }
            }),
            r is Pending ==> sub_drive_measure(final(self).state, *final(engine))
                < sub_drive_measure(old(self).state, *old(engine)),
    {
        match &self.state {
            AddSubscriptionState::Unstarted { uri, stream_id } => {
                let uri_c = uri.clone();
                let sid = *stream_id;
                if !uri_is_representable(uri_c.as_str()) {
                    self.state = AddSubscriptionState::Resolved;
                    return Drive::Ready(Err(Error::InvalidArgument));
                }
                match engine.async_add_subscription(uri_c.as_str(), sid.0) {
                    Ok(handle) => {
                        self.state = AddSubscriptionState::Polling { inner: SendSyncPtr(handle) };
                        Drive::Pending
                    },
                    Err(code) => {
                        self.state = AddSubscriptionState::Resolved;
                        Drive::Ready(Err(aeron_error(code)))
                    },
                }
            },
            AddSubscriptionState::Polling { inner } => {
                let handle = inner.0;
                let channel = engine.registrations[handle].channel.clone();
                let raw_stream_id = engine.registrations[handle].stream_id;
                match engine.async_add_subscription_poll(handle) {
                    AddSubscriptionPoll::Pending => Drive::Pending,
                    AddSubscriptionPoll::Ready { stream_slot, subscriber_slot, correlation_id } => {
                        self.state = AddSubscriptionState::Resolved;
                        client.context.dispatch_new_subscription(
                            channel,
                            StreamId(raw_stream_id),
                            CorrelationId(correlation_id),
                        );
                        Drive::Ready(Ok(Subscription { stream_slot, subscriber_slot }))
                    },
                    AddSubscriptionPoll::Error(code) => {
                        self.state = AddSubscriptionState::Resolved;
                        let err = aeron_error(code);
                        let message = match &err {
                            Error::Transport(_, m) => m.clone(),
                            _ => String::new(),
                        };
                        client.context.dispatch_error(code, message);
                        Drive::Ready(Err(err))
                    },
                }
            },
            AddSubscriptionState::Resolved => Drive::Ready(Err(Error::AlreadyResolved)),
        }
    }

    /// The channel a not-yet-started future will submit; empty otherwise.
    pub open spec fn pending_channel(self) -> Seq<char> {
        match self.state {
            AddSubscriptionState::Unstarted { uri, .. } => uri@,
            _ => Seq::<char>::empty(),
        }
    }

    /// Whether resolution is owed: an unstarted future for a well-formed,
    /// non-empty channel, against an open engine that can still allocate
    /// correlation ids, resolves successfully.
    pub open spec fn resolution_owed(self, e: Engine) -> bool {
        &&& self.state matches AddSubscriptionState::Unstarted { uri, .. }
            && !uri_has_nul(vstd::utf8::encode_utf8(uri@)) && uri@.len() > 0
        &&& !e.closed
        &&& e.next_correlation_id < crate::engine::MAX_CORRELATION_ID
    }

    /// Drives the future to completion; the mirror of
    /// [`crate::publication::AddPublication::resolve`].
    pub fn resolve<E: ErrorHandler, P: NewPublicationHandler, S: NewSubscriptionHandler>(
        &mut self,
        client: &mut Aeron<E, P, S>,
        engine: &mut Engine,
    ) -> (r: Result<Subscription, Error>)
        requires
            old(engine).wf(),
            old(self).consistent(*old(engine)),
        ensures
            final(engine).wf(),
            final(self).state is Resolved,
            r matches Ok(s) ==> s.valid(*final(engine)),
            (old(self).state matches AddSubscriptionState::Unstarted { uri, .. } && uri_has_nul(
                vstd::utf8::encode_utf8(uri@),
            )) ==> (r matches Err(e) && e is InvalidArgument),
            old(self).resolution_owed(*old(engine)) ==> r is Ok,
            old(self).state matches AddSubscriptionState::Unstarted { uri, stream_id } ==> (
            r matches Ok(s) ==> resolved_subscription_effect(
                *old(engine),
                *final(engine),
                uri@,
                stream_id.0,
                s,
            ) && final(client).context.on_new_subscription == (match old(
                client,
            ).context.on_new_subscription {
                Some(h) => Some(
                    h.after_new_subscription(
                        uri@,
                        stream_id,
                        CorrelationId(old(engine).next_correlation_id),
                    ),
                ),
                None => None::<S>,
            }) && final(client).context.error_handler == old(client).context.error_handler
                && final(client).context.on_new_publication == old(
                client,
            ).context.on_new_publication && final(client).context.dir == old(
                client,
            ).context.dir),
    {
        let ghost f0 = *old(self);
        let ghost owed = old(self).resolution_owed(*old(engine));
        let ghost uri0: Seq<char> = old(self).pending_channel();
        loop
            invariant
                engine.wf(),
                self.consistent(*engine),
                owed == f0.resolution_owed(*old(engine)),
                f0 == *old(self),
                owed ==> !engine.closed,
                (f0.state matches AddSubscriptionState::Unstarted { uri, .. } && uri_has_nul(
                    vstd::utf8::encode_utf8(uri@),
                )) ==> *self == f0,
                owed ==> match self.state {
                    AddSubscriptionState::Unstarted { uri, .. } => uri@ == uri0 && !uri_has_nul(
                        vstd::utf8::encode_utf8(uri@),
                    ) && uri@.len() > 0 && engine.next_correlation_id
                        < crate::engine::MAX_CORRELATION_ID,
                    AddSubscriptionState::Polling { inner } => engine.registrations@[
                        inner.0 as int].channel@ == uri0 && uri0.len() > 0,
                    AddSubscriptionState::Resolved => false,
                },
                f0.state is Unstarted ==> *client == *old(client),
                f0.state is Unstarted ==> match self.state {
                    AddSubscriptionState::Unstarted { .. } => *self == f0 && *engine == *old(engine),
                    AddSubscriptionState::Polling { inner } => ({
                        let reg = engine.registrations@[inner.0 as int];
                        &&& reg.channel@ == f0.pending_channel()
                        &&& (f0.state matches AddSubscriptionState::Unstarted { uri: _, stream_id }
                            && reg.stream_id == stream_id.0)
                        &&& reg.correlation_id == old(engine).next_correlation_id
                        &&& engine.streams@ == old(engine).streams@
                        &&& engine.closed == old(engine).closed
                        &&& old(engine).same_config(*engine)
                        &&& engine.next_session_id == old(engine).next_session_id
                        &&& engine.next_correlation_id == old(engine).next_correlation_id + 1
                    }),
                    AddSubscriptionState::Resolved => false,
                },
            decreases sub_drive_measure(self.state, *engine),
        {
            match self.poll(client, engine) {
                Drive::Pending => (),
                Drive::Ready(res) => {
                    return res;
                },
            }
        }
    }
}


/// The composite effect of resolving an add-subscription registration for
/// `uri` and `stream_id` against engine state `e0`: one open subscriber
/// joined the matching stream at its current end, the stream created
/// empty if `e0` carried none, and no other stream, frame or publisher
/// changed.
pub open spec fn resolved_subscription_effect(
    e0: Engine,
    e1: Engine,
    uri: Seq<char>,
    stream_id: i32,
    s: Subscription,
) -> bool {
    &&& s.valid(e1)
    &&& crate::engine::stream_matches(e1.streams@[s.stream_slot as int], uri, stream_id)
    &&& !e1.streams@[s.stream_slot as int].subscribers@[s.subscriber_slot as int].closed
    &&& e1.closed == e0.closed
    &&& e0.same_config(e1)
    &&& e1.next_session_id == e0.next_session_id
    &&& e1.next_correlation_id == e0.next_correlation_id + 1
    &&& if crate::engine::has_stream(e0, uri, stream_id) {
        &&& (s.stream_slot as int) < e0.streams@.len()
        &&& e1.streams@.len() == e0.streams@.len()
        &&& (forall|j: int|
            0 <= j < e0.streams@.len() && j != s.stream_slot as int ==> e1.streams@[j]
                == #[trigger] e0.streams@[j])
        &&& crate::engine::subscriber_appended(
            e0.streams@[s.stream_slot as int],
            e1.streams@[s.stream_slot as int],
        )
        &&& s.subscriber_slot == e0.streams@[s.stream_slot as int].subscribers@.len()
    } else {
        &&& s.stream_slot == e0.streams@.len()
        &&& e1.streams@.len() == e0.streams@.len() + 1
        &&& e1.streams@.take(e0.streams@.len() as int) =~= e0.streams@
        &&& crate::engine::fresh_stream(e1.streams@.last(), uri, stream_id)
        &&& e1.streams@.last().publishers@.len() == 0
        &&& e1.streams@.last().subscribers@.len() == 1
        &&& e1.streams@.last().subscribers@[0].next_fragment == 0
        &&& s.subscriber_slot == 0
    }
}

/// A simple poll-to-completion handle for a pending destination change of
/// a subscription; poll until it returns `Ok(true)`.
#[derive(Debug)]
pub struct AsyncDestination {
    pub inner: SendSyncPtr,
}

impl AsyncDestination {
    /// Whether the handle names a destination registration of the engine.
    pub open spec fn consistent(&self, e: Engine) -> bool {
        &&& self.inner.0 < e.registrations@.len()
        &&& e.registrations@[self.inner.0 as int].kind is SubscriptionDestination
    }

    /// One non-blocking poll; the same contract shape as the publication
    /// variant.
    pub fn poll(&self, engine: &mut Engine) -> (r: Result<bool, Error>)
        requires
            old(engine).wf(),
            self.consistent(*old(engine)),
        ensures
            final(engine).wf(),
            self.consistent(*final(engine)),
            ({
                let reg = old(engine).registrations@[self.inner.0 as int];
                &&& (reg.resolved ==> r == Ok::<bool, Error>(true) && *final(engine) == *old(engine))
                &&& (!reg.resolved && old(engine).closed ==> (r matches Err(Error::Transport(c, _))
                    && c == -4) && old(engine).only_registration_changed(
                    *final(engine),
                    self.inner.0 as int,
                ))
                &&& (!reg.resolved && !old(engine).closed && reg.remaining > 0 ==> r == Ok::<
                    bool,
                    Error,
                >(false) && old(engine).only_registration_changed(*final(engine), self.inner.0 as int)
                    && final(engine).registrations@[self.inner.0 as int].remaining
                    == reg.remaining - 1)
                &&& (!reg.resolved && !old(engine).closed && reg.remaining == 0 ==> (
                match reg.kind {
                    RegistrationKind::SubscriptionDestination {
                        stream_slot,
                        subscriber_slot,
                        remove,
                    } => ({
                        let d0 = old(engine).streams@[stream_slot as int].subscribers@[
                            subscriber_slot as int].destinations@;
                        let d1 = final(engine).streams@[stream_slot as int].subscribers@[
                            subscriber_slot as int].destinations@;
                        &&& crate::engine::resolves_registration(
                            *old(engine),
                            *final(engine),
                            self.inner.0 as int,
                        )
                        &&& (!remove ==> r == Ok::<bool, Error>(true)
                            && crate::engine::destination_added(d0, d1, reg.channel@))
                        &&& (remove && crate::engine::has_destination(d0, reg.channel@) ==> r
                            == Ok::<bool, Error>(true) && crate::engine::destination_removed(
                            d0,
                            d1,
                            reg.channel@,
                        ))
                        &&& (remove && !crate::engine::has_destination(d0, reg.channel@) ==> (
                        r matches Err(Error::Transport(c, _)) && c == -6) && d1 == d0)
                    }),
                    _ => false,
                }))
            }),
    {
        let res = engine.async_destination_poll(self.inner.0);
        if res >= 0 {
            Ok(res != 0)
        } else {
            Err(aeron_error(res))
        }
    }
}

} // verus!
