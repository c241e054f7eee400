//! One-shot client configuration and the notification handler layer.
//!
//! A [`Context`] is prepared once, handed to [`crate::client::Aeron::connect`],
//! and carries the caller's notification handlers from then on.  The engine
//! only understands plain calls, so each handler shape is a trait with one
//! method; the dispatch methods here are the bridge that builds the event
//! value and invokes the caller's handler, and the handler state must stay
//! valid for as long as the client may dispatch to it — the lifetime of the
//! client itself, which owning it guarantees.

use vstd::prelude::*;

use crate::{CorrelationId, SessionId, StreamId};

verus! {

/// An engine error delivered to the error notification handler.
#[derive(Debug, Clone)]
#[non_exhaustive]
pub struct ErrorEvent {
    pub code: i32,
    pub message: String,
}

/// Notice that a publication resolved somewhere on the client.
#[derive(Debug, Clone)]
#[non_exhaustive]
pub struct NewPublication {
    pub channel: String,
    pub stream_id: StreamId,
    pub session_id: SessionId,
    pub correlation_id: CorrelationId,
}

/// Notice that a subscription resolved somewhere on the client.
#[derive(Debug, Clone)]
#[non_exhaustive]
pub struct NewSubscription {
    pub channel: String,
    pub stream_id: StreamId,
    pub correlation_id: CorrelationId,
}

/// Handler for error notifications.  Invoked synchronously while the
/// client is driven; it must not block and must not re-enter the client.
/// `after_error` is each implementation's own account of how one
/// invocation changes it; contracts that promise the handler ran are
/// stated over it.
pub trait ErrorHandler: Sized {
    open spec fn after_error(self, code: i32, message: Seq<char>) -> Self {
        self
    }

    fn on_error(&mut self, event: &ErrorEvent)
        ensures
            *final(self) == old(self).after_error(event.code, event.message@),
    ;
}

/// Handler for new-publication notifications; the same calling discipline
/// and specification device as [`ErrorHandler`].
pub trait NewPublicationHandler: Sized {
    open spec fn after_new_publication(
        self,
        channel: Seq<char>,
        stream_id: StreamId,
        session_id: SessionId,
        correlation_id: CorrelationId,
    ) -> Self {
        self
    }

    fn on_new_publication(&mut self, event: &NewPublication)
        ensures
            *final(self) == old(self).after_new_publication(
                event.channel@,
                event.stream_id,
                event.session_id,
                event.correlation_id,
            ),
    ;
}

/// Handler for new-subscription notifications; the same calling
/// discipline and specification device as [`ErrorHandler`].
pub trait NewSubscriptionHandler: Sized {
    open spec fn after_new_subscription(
        self,
        channel: Seq<char>,
        stream_id: StreamId,
        correlation_id: CorrelationId,
    ) -> Self {
        self
    }

    fn on_new_subscription(&mut self, event: &NewSubscription)
        ensures
            *final(self) == old(self).after_new_subscription(
                event.channel@,
                event.stream_id,
                event.correlation_id,
            ),
    ;
}

/// One-shot configuration: the recognised options are the three
/// notification handlers and the working directory.  Finalise it, then
/// hand it to connect, which consumes it.
pub struct Context<E: ErrorHandler, P: NewPublicationHandler, S: NewSubscriptionHandler> {
    pub error_handler: Option<E>,
    pub on_new_publication: Option<P>,
    pub on_new_subscription: Option<S>,
    pub dir: String,
}

impl<E: ErrorHandler, P: NewPublicationHandler, S: NewSubscriptionHandler> Context<E, P, S> {
    /// A fresh context with no handlers installed and no directory set.
    pub fn new() -> (r: Result<Context<E, P, S>, crate::error::Error>)
        ensures
            r matches Ok(c) && c.error_handler is None && c.on_new_publication is None
                && c.on_new_subscription is None && c.dir@ == Seq::<char>::empty(),
    {
        Ok(
            Context {
                error_handler: None,
                on_new_publication: None,
                on_new_subscription: None,
                dir: String::new(),
            },
        )
    }

    /// Installs the error notification handler.
    pub fn set_error_handler(&mut self, error_handler: E)
        ensures
            final(self).error_handler == Some(error_handler),
            final(self).on_new_publication == old(self).on_new_publication,
            final(self).on_new_subscription == old(self).on_new_subscription,
            final(self).dir == old(self).dir,
    {
        self.error_handler = Some(error_handler);
    }

    /// Installs the new-publication notification handler.
    pub fn set_on_new_publication(&mut self, on_new_publication: P)
        ensures
            final(self).on_new_publication == Some(on_new_publication),
            final(self).error_handler == old(self).error_handler,
            final(self).on_new_subscription == old(self).on_new_subscription,
            final(self).dir == old(self).dir,
    {
        self.on_new_publication = Some(on_new_publication);
    }

    /// Installs the new-subscription notification handler.
    pub fn set_on_new_subscription(&mut self, on_new_subscription: S)
        ensures
            final(self).on_new_subscription == Some(on_new_subscription),
            final(self).error_handler == old(self).error_handler,
            final(self).on_new_publication == old(self).on_new_publication,
            final(self).dir == old(self).dir,
    {
        self.on_new_subscription = Some(on_new_subscription);
    }

    /// Sets the working directory the client will use to reach the
    /// engine.
    pub fn set_dir(&mut self, dir: &str)
        ensures
            final(self).dir@ == dir@,
            final(self).error_handler == old(self).error_handler,
            final(self).on_new_publication == old(self).on_new_publication,
            final(self).on_new_subscription == old(self).on_new_subscription,
    {
        self.dir = dir.to_owned();
    }

    /// The engine's working directory, or the empty string while unset.
    pub fn get_dir(&self) -> (r: String)
        ensures
            r@ == self.dir@,
    {
        self.dir.clone()
    }

    /// Builds the error event and invokes the installed handler exactly
    /// once, if one is installed: the bridge between the engine's plain
    /// (code, message) convention and the caller's handler object.
    pub(crate) fn dispatch_error(&mut self, code: i32, message: String)
        ensures
            final(self).error_handler == (match old(self).error_handler {
                Some(h) => Some(h.after_error(code, message@)),
                None => None::<E>,
            }),
            final(self).on_new_publication == old(self).on_new_publication,
            final(self).on_new_subscription == old(self).on_new_subscription,
            final(self).dir == old(self).dir,
    {
        let event = ErrorEvent { code, message };
        match &mut self.error_handler {
            Some(h) => h.on_error(&event),
            None => (),
        }
    }

    /// Builds the new-publication event and invokes the installed
    /// handler exactly once, if one is installed.
    pub(crate) fn dispatch_new_publication(
        &mut self,
        channel: String,
        stream_id: StreamId,
        session_id: SessionId,
        correlation_id: CorrelationId,
    )
        ensures
            final(self).on_new_publication == (match old(self).on_new_publication {
                Some(h) => Some(
                    h.after_new_publication(channel@, stream_id, session_id, correlation_id),
                ),
                None => None::<P>,
            }),
            final(self).error_handler == old(self).error_handler,
            final(self).on_new_subscription == old(self).on_new_subscription,
            final(self).dir == old(self).dir,
    {
        let event = NewPublication { channel, stream_id, session_id, correlation_id };
        match &mut self.on_new_publication {
            Some(h) => h.on_new_publication(&event),
            None => (),
        }
    }

    /// Builds the new-subscription event and invokes the installed
    /// handler exactly once, if one is installed.
    pub(crate) fn dispatch_new_subscription(
        &mut self,
        channel: String,
        stream_id: StreamId,
        correlation_id: CorrelationId,
    )
        ensures
            final(self).on_new_subscription == (match old(self).on_new_subscription {
                Some(h) => Some(h.after_new_subscription(channel@, stream_id, correlation_id)),
                None => None::<S>,
            }),
            final(self).error_handler == old(self).error_handler,
            final(self).on_new_publication == old(self).on_new_publication,
            final(self).dir == old(self).dir,
    {
        let event = NewSubscription { channel, stream_id, correlation_id };
        match &mut self.on_new_subscription {
            Some(h) => h.on_new_subscription(&event),
            None => (),
        }
    }
}

} // verus!
