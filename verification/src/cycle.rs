//! One request and its response, as the middleware sees them.

use vstd::prelude::*;
use crate::cookie::{FlashCookie, SetCookie};
use crate::error::HeaderConstructionError;

verus! {

/// What the request brought. The middleware keeps this with the request for
/// as long as the request is handled; only the message extractor reads it.
#[derive(Debug)]
pub enum CycleState {
    /// The request brought no flash cookie.
    NoCookie,
    /// The request brought this flash cookie.
    CookiePresent(FlashCookie),
}

/// How a cycle ended.
#[derive(Debug, Clone, Copy, PartialEq, Eq, Structural)]
pub enum Outcome {
    /// A new flash cookie was written; it takes the place of any old one.
    Refreshed,
    /// The old flash cookie was deleted and no new one was written.
    Expired,
    /// There was no flash cookie and none was written.
    Untouched,
}

/// The end of a cycle: how it ended, and the cookies to send in `Set-Cookie`
/// headers, in order.
#[derive(Debug)]
pub struct Exit {
    pub outcome: Outcome,
    pub set_cookies: Vec<SetCookie>,
}

/// Why a cycle gave no response.
#[derive(Debug)]
pub enum CycleError<E> {
    /// The handler failed; its error is passed on as it is.
    Handler(E),
    /// A cookie could not be written as a header.
    Header(HeaderConstructionError),
}

/// What a handler's response hands to the middleware: the response itself
/// and, where a message was set, the cookie text for it.
#[derive(Debug)]
pub struct OutgoingPayload<P> {
    pub encoded: Option<String>,
    pub response: P,
}

} // verus!
