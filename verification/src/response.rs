//! The response of a handler that sets a flash message.

use vstd::prelude::*;
use crate::codec::encode;
use crate::cycle::OutgoingPayload;
use crate::error::EncodeError;
use crate::message::Message;
use crate::payload::Payload;

verus! {

/// The "flashing" response: an ordinary response together with the message
/// to show on the next request, if any.
pub struct Response<R, T> {
    responder: R,
    message: Option<Message<T>>,
}

/// A redirect, as a handler answers with it: the status code and where to
/// go.
#[derive(Debug, Clone, PartialEq, Eq)]
pub struct Redirect {
    pub status: u16,
    pub location: String,
}

/// The status of a redirect after a form was handled: 303 See Other.
pub const SEE_OTHER: u16 = 303;

/// Why a flashing response gave no response.
#[derive(Debug)]
pub enum RespondError<E> {
    /// The inner response failed; its error is passed on as it is.
    Inner(E),
    /// The message could not be written.
    Encode(EncodeError),
}

impl<R, T> Response<R, T> {
    /// The inner response.
    pub closed spec fn responder(&self) -> R {
        self.responder
    }

    /// The message, if one is set.
    pub closed spec fn message(&self) -> Option<T> {
        match self.message {
            Some(m) => Some(m.value()),
            None => None,
        }
    }

    /// Pairs an optional message with a response.
    pub fn new(message: Option<T>, responder: R) -> (response: Self)
        ensures
            response.message() == message,
            response.responder() == responder,
    {
        Response {
            responder,
            message: match message {
                Some(value) => Some(Message::new(value)),
                None => None,
            },
        }
    }

    /// Takes the response apart: the inner response, to produce the actual
    /// response from, and the message, to stage once that is done.
    pub fn into_parts(self) -> (parts: (R, Option<Message<T>>))
        ensures
            parts.0 == self.responder(),
            match parts.1 {
                Some(m) => self.message() == Some(m.value()),
                None => self.message() is None,
            },
    {
        (self.responder, self.message)
    }
}

impl<T> Response<Redirect, T> {
    /// Create a new flashing response with given message and redirect
    /// location.
    pub fn with_redirect(message: T, location: &str) -> (response: Self)
        ensures
            response.message() == Some(message),
            response.responder().status == SEE_OTHER,
            response.responder().location@ == location@,
    {
        let redirect = Redirect { status: SEE_OTHER, location: location.to_owned() };
        Response { responder: redirect, message: Some(Message::new(message)) }
    }
}

/// What `respond_to` returns.
///
/// - Where the inner response failed, its error, whatever the message.
/// - Otherwise the response it produced: with no cookie text where no
///   message is set, with the message's cookie text where one is set, and
///   the encode error in its place where the message has no JSON text.
pub open spec fn responded<T: Payload, P, E>(
    message: Option<T>,
    produced: Result<P, E>,
    r: Result<OutgoingPayload<P>, RespondError<E>>,
) -> bool {
    match produced {
        Err(e) => r == Err::<OutgoingPayload<P>, RespondError<E>>(RespondError::Inner(e)),
        Ok(response) => match message {
            None => r == Ok::<OutgoingPayload<P>, RespondError<E>>(
                OutgoingPayload { encoded: None, response },
            ),
            Some(value) => match value.json() {
                None => r == Err::<OutgoingPayload<P>, RespondError<E>>(
                    RespondError::Encode(EncodeError),
                ),
                Some(payload) => {
                    &&& r matches Ok(out)
                    &&& out.response == response
                    &&& out.encoded matches Some(text)
                    &&& text@ == crate::codec::envelope(payload)
                },
            },
        },
    }
}

/// Finishes a flashing response once its inner response has produced the
/// actual response: stages the message's cookie text beside it.
pub fn respond_to<T: Payload, P, E>(message: Option<Message<T>>, produced: Result<P, E>) -> (r:
    Result<OutgoingPayload<P>, RespondError<E>>)
    ensures
        responded(
            match message {
                Some(m) => Some(m.value()),
                None => None,
            },
            produced,
            r,
        ),
{
    match produced {
        Err(e) => Err(RespondError::Inner(e)),
        Ok(response) => match message {
            None => Ok(OutgoingPayload { encoded: None, response }),
            Some(m) => {
                let value = m.into_inner();
                match encode(&value) {
                    Ok(text) => Ok(OutgoingPayload { encoded: Some(text), response }),
                    Err(e) => Err(RespondError::Encode(e)),
                }
            },
        },
    }
}

} // verus!
