//! What holds of a flash message across cycles: it is written once, read
//! once and then deleted.

use vstd::prelude::*;
use crate::cookie::FlashCookie;
use crate::cycle::{CycleError, CycleState, Exit, Outcome};
use crate::error::{DecodeError, HeaderConstructionError, MissingFlashError};
use crate::message::Message;
use crate::payload::{Payload, RawJson};

verus! {

/// Round trip of a string. Where the JSON text that is written for a string
/// reads back as that string, decoding what `encode` wrote gives a string
/// with the same characters.
pub proof fn string_round_trip(value: String, payload: Seq<char>, r: Result<String, DecodeError>)
    requires
        crate::payload::json_string_text(value@) == Some(payload),
        crate::payload::json_string_value(payload) == Some(value@),
        crate::codec::decoded(crate::codec::envelope(payload), r),
    ensures
        r matches Ok(back) && back@ == value@,
{
    crate::codec::round_trip(value, payload, r);
}

/// Round trip of raw JSON. Decoding what `encode` wrote for a message that
/// holds a JSON text gives a message that holds the same text.
pub proof fn raw_json_round_trip(value: RawJson, r: Result<RawJson, DecodeError>)
    requires
        crate::payload::json_valid(value.0@),
        crate::codec::decoded(crate::codec::envelope(value.0@), r),
    ensures
        r matches Ok(back) && back.0@ == value.0@,
{
    crate::codec::round_trip(value, value.0@, r);
}

/// A text that may stand as a header value still may once another text is
/// put behind it, as far as its own characters go.
proof fn header_text_of_front(front: Seq<char>, rest: Seq<char>)
    requires
        crate::cookie::header_text(front + rest),
    ensures
        crate::cookie::header_text(front),
{
    assert forall|i: int| 0 <= i < front.len() implies crate::cookie::header_char(
        #[trigger] front[i],
    ) by {
        assert((front + rest)[i] == front[i]);
    }
}

/// A live cookie that can be sent has a name that may stand in a header
/// value.
pub proof fn live_cookie_name_is_header_text(name: Seq<char>, value: Seq<char>, path: Seq<char>)
    requires
        crate::cookie::header_text(crate::cookie::live_header(name, value, path)),
    ensures
        crate::cookie::header_text(name),
{
    let rest = seq!['='] + value + seq![';', ' ', 'P', 'a', 't', 'h', '='] + path;
    assert(crate::cookie::live_header(name, value, path) =~= name + rest);
    header_text_of_front(name, rest);
}

/// One-shot delivery. A cycle whose request brought no flash cookie and
/// whose handler staged `text` ends, where it ends with a response, with
/// the one cookie that carries `text`. A later cycle whose request presents
/// that cookie and whose handler stages nothing then ends with exactly one
/// cookie, which deletes the flash cookie, and with no cookie that carries a
/// value.
pub proof fn one_shot_delivery<E>(
    name: Seq<char>,
    before: Seq<FlashCookie>,
    text: String,
    first: Result<Exit, CycleError<E>>,
    after: Seq<FlashCookie>,
    second: Result<Exit, CycleError<E>>,
)
    requires
        !crate::cookie::has_cookie(before, name),
        crate::middleware::exchanged(name, before, Ok::<Option<String>, E>(Some(text)), first),
        exists|i: int|
            0 <= i < after.len() && (#[trigger] after[i]).name@ == name && after[i].value@ == text@,
        crate::middleware::exchanged(name, after, Ok::<Option<String>, E>(None), second),
    ensures
        match first {
            Ok(exit) => {
                &&& exit.outcome == Outcome::Refreshed
                &&& exit.set_cookies@.len() == 1
                &&& exit.set_cookies[0]@ == crate::cookie::live_cookie(name, text@)
            },
            Err(e) => e == CycleError::<E>::Header(HeaderConstructionError),
        },
        first is Ok ==> {
            &&& second matches Ok(exit)
            &&& exit.outcome == Outcome::Expired
            &&& exit.set_cookies@.len() == 1
            &&& crate::cookie::is_removal(exit.set_cookies[0]@, name, crate::cookie::root_path())
            &&& forall|i: int|
                0 <= i < exit.set_cookies@.len() ==> (#[trigger] exit.set_cookies[i])@.value.len()
                    == 0
        },
{
    if first is Ok {
        live_cookie_name_is_header_text(name, text@, crate::cookie::root_path());
        assert(crate::cookie::has_cookie(after, name));
    }
}

/// Refresh overrides deletion. Where the request brought a flash cookie and
/// the handler staged `text`, the response has exactly one cookie, the live
/// cookie that carries `text`, and no cookie that deletes the flash cookie;
/// or there is no response, because that cookie cannot be written as a
/// header.
pub proof fn refresh_overrides_deletion<E>(
    name: Seq<char>,
    cookies: Seq<FlashCookie>,
    text: String,
    r: Result<Exit, CycleError<E>>,
)
    requires
        crate::cookie::has_cookie(cookies, name),
        crate::middleware::exchanged(name, cookies, Ok::<Option<String>, E>(Some(text)), r),
    ensures
        match r {
            Ok(exit) => {
                &&& exit.outcome == Outcome::Refreshed
                &&& exit.set_cookies@.len() == 1
                &&& exit.set_cookies[0]@ == crate::cookie::live_cookie(name, text@)
                &&& forall|i: int|
                    0 <= i < exit.set_cookies@.len() ==> !crate::cookie::is_removal(
                        (#[trigger] exit.set_cookies[i])@,
                        name,
                        crate::cookie::root_path(),
                    )
            },
            Err(e) => e == CycleError::<E>::Header(HeaderConstructionError)
                && !crate::cookie::header_text(
                crate::cookie::live_header(name, text@, crate::cookie::root_path()),
            ),
        },
{
}

/// Idempotent no-op. A cycle whose request brought no flash cookie and whose
/// handler staged nothing ends with a response that has no cookie at all.
pub proof fn idle_cycle_sends_nothing<E>(
    name: Seq<char>,
    cookies: Seq<FlashCookie>,
    r: Result<Exit, CycleError<E>>,
)
    requires
        !crate::cookie::has_cookie(cookies, name),
        crate::middleware::exchanged(name, cookies, Ok::<Option<String>, E>(None), r),
    ensures
        r matches Ok(exit) && exit.outcome == Outcome::Untouched && exit.set_cookies@.len() == 0,
{
}

/// Fail-open. Where the handler failed, the cycle ends with the handler's
/// error and writes or deletes no cookie, whatever the request brought.
pub proof fn failed_handler_passes_through<E>(
    name: Seq<char>,
    cookies: Seq<FlashCookie>,
    error: E,
    r: Result<Exit, CycleError<E>>,
)
    requires
        crate::middleware::exchanged(name, cookies, Err::<Option<String>, E>(error), r),
    ensures
        r == Err::<Exit, CycleError<E>>(CycleError::Handler(error)),
{
}

/// Absent-cookie rejection. Where the request brought no cookie of the
/// middleware's name, extracting a message fails with the missing-flash
/// error, whatever the message type.
pub proof fn absent_cookie_rejected<T: Payload>(
    name: Seq<char>,
    cookies: Seq<FlashCookie>,
    state: CycleState,
    r: Result<Message<T>, MissingFlashError>,
)
    requires
        !crate::cookie::has_cookie(cookies, name),
        crate::middleware::entered(name, cookies, state),
        crate::message::extracted(state, r),
    ensures
        state == CycleState::NoCookie,
        r == Err::<Message<T>, MissingFlashError>(MissingFlashError),
{
    match state {
        CycleState::CookiePresent(c) => {
            let i = choose|i: int|
                crate::cookie::is_first_named(cookies, name, i) && c == cookies[i];
            assert(cookies[i].name@ == name);
        },
        CycleState::NoCookie => {
            assert(r->Err_0 == MissingFlashError);
        },
    }
}

/// Whether a cookie value holds a message of type `T`: it is an envelope,
/// and what it holds stands for some value of `T`.
pub open spec fn holds_message<T: Payload>(value: Seq<char>) -> bool {
    crate::codec::envelope_payload(value) matches Some(payload) && exists|message: T|
        T::reads(payload, &message)
}

/// Malformed-cookie rejection. Extracting a message from a cookie whose
/// value holds no message of the type fails, and fails with the very error
/// that an absent cookie gives.
pub proof fn malformed_cookie_rejected<T: Payload>(
    cookie: FlashCookie,
    r: Result<Message<T>, MissingFlashError>,
    absent: Result<Message<T>, MissingFlashError>,
)
    requires
        !holds_message::<T>(cookie.value@),
        crate::message::extracted(CycleState::CookiePresent(cookie), r),
        crate::message::extracted(CycleState::NoCookie, absent),
    ensures
        r is Err,
        r == absent,
{
    match r {
        Ok(m) => {
            let payload = crate::codec::envelope_payload(cookie.value@)->Some_0;
            assert(T::reads(payload, &m.value()));
        },
        Err(e) => {
            assert(e == MissingFlashError);
            assert(absent->Err_0 == MissingFlashError);
        },
    }
}

/// A text that does not begin, after white space, with an opening brace is
/// no envelope.
pub proof fn no_brace_no_envelope(text: Seq<char>)
    requires
        ({
            let open = crate::codec::skip_space(text, 0);
            open >= text.len() || text[open] != '{'
        }),
    ensures
        crate::codec::envelope_payload(text) is None,
{
}

/// Delivery. A message `value` whose JSON text `payload` reads back as
/// `value` is written as the envelope around `payload`. Where the next
/// request's flash cookie has that value, the middleware keeps it and the
/// extractor gives a message that `payload` stands for: `value` itself,
/// where `payload` stands for nothing else.
pub proof fn message_is_delivered<T: Payload>(
    name: Seq<char>,
    value: T,
    payload: Seq<char>,
    cookies: Seq<FlashCookie>,
    at: int,
    state: CycleState,
    r: Result<Message<T>, MissingFlashError>,
)
    requires
        value.json() == Some(payload),
        T::reads(payload, &value),
        crate::cookie::is_first_named(cookies, name, at),
        cookies[at].value@ == crate::codec::envelope(payload),
        crate::middleware::entered(name, cookies, state),
        crate::message::extracted(state, r),
    ensures
        state == CycleState::CookiePresent(cookies[at]),
        r matches Ok(m) && T::reads(payload, &m.value()),
        (forall|other: T| T::reads(payload, &other) ==> other == value) ==> (r matches Ok(m)
            && m.value() == value),
{
    crate::codec::envelope_round_trip(payload);
    match state {
        CycleState::CookiePresent(c) => {
            let i = choose|i: int|
                crate::cookie::is_first_named(cookies, name, i) && c == cookies[i];
            assert(i == at) by {
                if i < at {
                    assert(cookies[i].name@ != name);
                }
                if at < i {
                    assert(cookies[at].name@ != name);
                }
            }
            match r {
                Ok(m) => {},
                Err(_) => {
                    assert(!T::reads(
                        crate::codec::envelope_payload(c.value@)->Some_0,
                        &value,
                    ));
                },
            }
        },
        CycleState::NoCookie => {
            assert(cookies[at].name@ == name);
        },
    }
}

} // verus!
