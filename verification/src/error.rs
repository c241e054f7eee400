//! Error taxonomy of the client.
//!
//! Configuration errors (a malformed channel URI) are detected locally and
//! never reach the engine.  Engine errors are surfaced as an opaque
//! (code, message) pair.  Flow-control outcomes of an offer (not connected,
//! back pressured, admin action) are not errors; see
//! [`crate::publication::OfferResult`].

use vstd::prelude::*;

verus! {

/// An error surfaced to the immediate caller of a registration, send or
/// claim operation.
#[derive(Debug)]
pub enum Error {
    /// The channel URI embeds a forbidden byte and was rejected locally,
    /// before any engine interaction.
    InvalidArgument,
    /// The engine returned a negative result code, paired with a
    /// human-readable description.
    Transport(i32, String),
    /// A registration future was driven again after it had already
    /// resolved; the extra drive has no effect.
    AlreadyResolved,
}

/// The description paired with each known engine result code.
pub open spec fn spec_error_message(code: i32) -> Seq<char> {
    if code == -1 {
        "not connected"@
    } else if code == -2 {
        "back pressured"@
    } else if code == -3 {
        "admin action"@
    } else if code == -4 {
        "resource closed"@
    } else if code == -5 {
        "max position exceeded"@
    } else {
        "engine error"@
    }
}

impl Error {
    /// A human-readable description of the error.
    pub fn message(&self) -> (r: String)
        ensures
            self is InvalidArgument ==> r@ == "invalid argument"@,
            (*self) matches Error::Transport(code, _) ==> r@ == spec_error_message(code),
            self is AlreadyResolved ==> r@ == "already resolved"@,
    {
        match self {
            Error::InvalidArgument => "invalid argument".to_owned(),
            Error::Transport(code, _) => error_message(*code),
            Error::AlreadyResolved => "already resolved".to_owned(),
        }
    }
}

/// The description the engine pairs with a result code.
fn error_message(code: i32) -> (r: String)
    ensures
        r@ == spec_error_message(code),
{
    if code == -1 {
        "not connected".to_owned()
    } else if code == -2 {
        "back pressured".to_owned()
    } else if code == -3 {
        "admin action".to_owned()
    } else if code == -4 {
        "resource closed".to_owned()
    } else if code == -5 {
        "max position exceeded".to_owned()
    } else {
        "engine error".to_owned()
    }
}

/// Interprets an engine result code where zero is the only success value:
/// `Ok` exactly on zero, otherwise the mapped [`Error`].
pub fn aeron_result(code: i32) -> (r: Result<(), Error>)
    ensures
        code == 0 <==> r is Ok,
        code != 0 ==> (r matches Err(Error::Transport(c, m)) && c == code && m@
            == spec_error_message(code)),
{
    if code == 0 {
        Ok(())
    } else {
        Err(aeron_error(code))
    }
}

/// Maps a negative engine result code to a [`Error::Transport`] carrying
/// the code and its description.
pub(crate) fn aeron_error(code: i32) -> (e: Error)
    ensures
        e matches Error::Transport(c, m) && c == code && m@ == spec_error_message(code),
{
    Error::Transport(code, error_message(code))
}

} // verus!
