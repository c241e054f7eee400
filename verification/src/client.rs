//! The client handle: the root of every other resource.
//!
//! Connecting consumes a finalised [`Context`] and validates the engine is
//! up; the handle then issues registration futures on demand.  The futures
//! themselves carry no reference back — they are driven with the client
//! and the engine passed explicitly, so one client may have any number of
//! registrations in flight.

use vstd::prelude::*;

use crate::context::{Context, ErrorHandler, NewPublicationHandler, NewSubscriptionHandler};
use crate::engine::Engine;
use crate::error::{aeron_result, spec_error_message, Error};
use crate::publication::AddPublication;
use crate::subscription::AddSubscription;
use crate::StreamId;

verus! {

/// A live client connection; owns the context it was configured from.
pub struct Aeron<E: ErrorHandler, P: NewPublicationHandler, S: NewSubscriptionHandler> {
    pub context: Context<E, P, S>,
}

impl<E: ErrorHandler, P: NewPublicationHandler, S: NewSubscriptionHandler> Aeron<E, P, S> {
    /// Connects a client, consuming the context.  Succeeds exactly while
    /// the engine is open.
    pub fn connect(context: Context<E, P, S>, engine: &Engine) -> (r: Result<Aeron<E, P, S>, Error>)
        ensures
            engine.closed ==> (r matches Err(Error::Transport(c, m)) && c == -4 && m@
                == spec_error_message(-4i32)),
            !engine.closed ==> (r matches Ok(a) && a.context == context),
    {
        match aeron_result(engine.client_init()) {
            Err(e) => {
                return Err(e);
            },
            Ok(()) => (),
        }
        match aeron_result(engine.client_start()) {
            Err(e) => {
                return Err(e);
            },
            Ok(()) => (),
        }
        Ok(Aeron { context })
    }

    /// A future that will register a publication on the channel and
    /// stream id.  Constructing it performs no engine interaction.
    pub fn add_publication(&self, uri: &str, stream_id: StreamId) -> (r: Result<
        AddPublication,
        Error,
    >)
        ensures
            r matches Ok(f) && (f.state matches crate::publication::AddPublicationState::Unstarted {
                uri: u,
                stream_id: sid,
            } && u@ == uri@ && sid == stream_id),
    {
        AddPublication::new(uri, stream_id)
    }

    /// A future that will register a subscription on the channel and
    /// stream id.  Constructing it performs no engine interaction.
    pub fn add_subscription(&self, uri: &str, stream_id: StreamId) -> (r: Result<
        AddSubscription,
        Error,
    >)
        ensures
            r matches Ok(f) && (f.state
                matches crate::subscription::AddSubscriptionState::Unstarted {
                uri: u,
                stream_id: sid,
            } && u@ == uri@ && sid == stream_id),
    {
        AddSubscription::new(uri, stream_id)
    }
}

} // verus!
