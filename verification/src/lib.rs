//! Flash messages: a one-time message handed from one response to the next
//! request through a single cookie.

pub mod codec;
pub mod cookie;
pub mod cycle;
pub mod error;
pub mod jar;
pub mod laws;
pub mod message;
pub mod middleware;
pub mod payload;
pub mod response;
