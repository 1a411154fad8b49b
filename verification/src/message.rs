//! The typed message a handler receives.

use vstd::prelude::*;
use crate::codec::decode;
use crate::cycle::CycleState;
use crate::error::MissingFlashError;
use crate::payload::Payload;

verus! {

/// The flash message wrapper: exactly one value of the declared type.
#[derive(Debug)]
pub struct Message<T>(T);

impl<T> Message<T> {
    /// The wrapped value.
    pub closed spec fn value(&self) -> T {
        self.0
    }

    /// Wraps `inner`.
    pub fn new(inner: T) -> (m: Self)
        ensures
            m.value() == inner,
    {
        Message(inner)
    }

    /// Hands the wrapped value back.
    pub fn into_inner(self) -> (inner: T)
        ensures
            inner == self.value(),
    {
        self.0
    }
}

/// What `from_request` may return for what a request brought.
///
/// It fails where the request brought no flash cookie, where the cookie's
/// value is no envelope, and where what the envelope holds stands for no
/// value of `T`; otherwise it gives a message that the envelope's payload
/// stands for.
pub open spec fn extracted<T: Payload>(
    state: CycleState,
    r: Result<Message<T>, MissingFlashError>,
) -> bool {
    match state {
        CycleState::NoCookie => r is Err,
        CycleState::CookiePresent(cookie) => match crate::codec::envelope_payload(cookie.value@) {
            None => r is Err,
            Some(payload) => match r {
                Ok(m) => T::reads(payload, &m.value()),
                Err(_) => forall|value: T| !T::reads(payload, &value),
            },
        },
    }
}

impl<T: Payload> Message<T> {
    /// Reads the message that came with a request from what the middleware
    /// kept for it. A cookie that is missing and one that cannot be read
    /// give the same error.
    pub fn from_request(state: &CycleState) -> (r: Result<Self, MissingFlashError>)
        ensures
            extracted(*state, r),
    {
        match state {
            CycleState::CookiePresent(cookie) => match decode::<T>(cookie.value.as_str()) {
                Ok(value) => Ok(Message::new(value)),
                Err(_) => Err(MissingFlashError),
            },
            CycleState::NoCookie => Err(MissingFlashError),
        }
    }
}

} // verus!
