//! The middleware: it reads the flash cookie when a request comes in and
//! decides which cookies to send when the response goes out.

use vstd::prelude::*;
use vstd::string::*;
use crate::cookie::{find, header_value_ok, render_live, FlashCookie, SetCookie};
use crate::cycle::{CycleError, CycleState, Exit, OutgoingPayload, Outcome};
use crate::error::HeaderConstructionError;
use crate::jar::deletions;

verus! {

/// The flash middleware transformer: it holds the cookie name that every
/// middleware made from it uses.
pub struct Flash {
    cookie_name: String,
}

/// The actual flash middleware, around the service `S`.
pub struct FlashMiddleware<S> {
    cookie_name: String,
    service: S,
}

impl Flash {
    /// The cookie name.
    pub closed spec fn name(&self) -> Seq<char> {
        self.cookie_name@
    }

    /// Create a new flash middleware transformer, using the given string as
    /// the cookie name.
    pub fn new(cookie_name: &str) -> (flash: Self)
        ensures
            flash.name() == cookie_name@,
    {
        Flash { cookie_name: cookie_name.to_owned() }
    }

    /// The cookie name.
    pub fn cookie_name(&self) -> (name: &str)
        ensures
            name@ == self.name(),
    {
        self.cookie_name.as_str()
    }

    /// Puts the middleware around a service. It uses this transformer's
    /// cookie name.
    pub fn new_transform<S>(&self, service: S) -> (middleware: FlashMiddleware<S>)
        ensures
            middleware.name() == self.name(),
            middleware.inner() == service,
    {
        FlashMiddleware { cookie_name: self.cookie_name.clone(), service }
    }
}

impl Default for Flash {
    /// The transformer for the cookie name `_flash`.
    fn default() -> (flash: Self)
        ensures
            flash.name() == "_flash"@,
    {
        Flash::new("_flash")
    }
}

/// What `on_request` keeps for a request that brought `cookies`.
pub open spec fn entered(name: Seq<char>, cookies: Seq<FlashCookie>, state: CycleState) -> bool {
    match state {
        CycleState::CookiePresent(c) => exists|i: int|
            crate::cookie::is_first_named(cookies, name, i) && c == cookies[i],
        CycleState::NoCookie => !crate::cookie::has_cookie(cookies, name),
    }
}

/// The cookies of a response by which a cycle may end, in order, with how it
/// ended. `staged` is the cookie text that the handler's response carries,
/// if any; `cookies` are the cookies of the request.
///
/// - With a text staged, the one cookie is the live cookie that carries it.
/// - With none staged and a flash cookie in the request, the one cookie
///   deletes it, and can be sent exactly where the name may stand in a
///   header value.
/// - With neither, there is no cookie.
pub open spec fn planned(
    name: Seq<char>,
    cookies: Seq<FlashCookie>,
    staged: Option<Seq<char>>,
    outcome: Outcome,
    list: Seq<SetCookie>,
) -> bool {
    match staged {
        Some(text) => outcome == Outcome::Refreshed && list.len() == 1 && list[0]@
            == crate::cookie::live_cookie(name, text),
        None => if crate::cookie::has_cookie(cookies, name) {
            &&& outcome == Outcome::Expired
            &&& list.len() == 1
            &&& crate::cookie::is_removal(list[0]@, name, crate::cookie::root_path())
            &&& crate::cookie::header_text(list[0].header@) <==> crate::cookie::header_text(name)
        } else {
            outcome == Outcome::Untouched && list.len() == 0
        },
    }
}

/// Whether every cookie of a list has a text that may stand as a header
/// value.
pub open spec fn all_sendable(list: Seq<SetCookie>) -> bool {
    forall|i: int| 0 <= i < list.len() ==> crate::cookie::header_text((#[trigger] list[i]).header@)
}

/// The view of the text a handler staged.
pub open spec fn staged_text(staged: Option<String>) -> Option<Seq<char>> {
    match staged {
        Some(text) => Some(text@),
        None => None,
    }
}

/// Whether the cookie that is due can be written as a header: the live
/// cookie where a text is staged, the removal cookie where none is staged
/// and the request brought a flash cookie. Where no cookie is due, nothing
/// stands in the way.
pub open spec fn can_send(name: Seq<char>, cookies: Seq<FlashCookie>, staged: Option<Seq<char>>) -> bool {
    match staged {
        Some(text) => crate::cookie::header_text(
            crate::cookie::live_header(name, text, crate::cookie::root_path()),
        ),
        None => crate::cookie::has_cookie(cookies, name) ==> crate::cookie::header_text(name),
    }
}

/// What `on_response` returns.
///
/// - Where the handler failed, its error and nothing else.
/// - Otherwise, where the cookie that is due can be written as a header, a
///   planned exit; where it cannot, the header error.
pub open spec fn exchanged<E>(
    name: Seq<char>,
    cookies: Seq<FlashCookie>,
    handled: Result<Option<String>, E>,
    r: Result<Exit, CycleError<E>>,
) -> bool {
    match handled {
        Err(e) => r == Err::<Exit, CycleError<E>>(CycleError::Handler(e)),
        Ok(staged) => if can_send(name, cookies, staged_text(staged)) {
            &&& r matches Ok(exit)
            &&& planned(name, cookies, staged_text(staged), exit.outcome, exit.set_cookies@)
            &&& all_sendable(exit.set_cookies@)
        } else {
            r == Err::<Exit, CycleError<E>>(CycleError::Header(HeaderConstructionError))
        },
    }
}

/// What a whole cycle returns, given what the handler returned: the
/// handler's response with the exit that `on_response` gives for the cookie
/// text beside it, or the error that `on_response` gives.
pub open spec fn cycled<P, E>(
    name: Seq<char>,
    cookies: Seq<FlashCookie>,
    out: Result<OutgoingPayload<P>, E>,
    r: Result<(P, Exit), CycleError<E>>,
) -> bool {
    match out {
        Err(e) => r == Err::<(P, Exit), CycleError<E>>(CycleError::Handler(e)),
        Ok(payload) => match r {
            Ok(pair) => pair.0 == payload.response && exchanged(
                name,
                cookies,
                Ok::<Option<String>, E>(payload.encoded),
                Ok::<Exit, CycleError<E>>(pair.1),
            ),
            Err(e) => exchanged(
                name,
                cookies,
                Ok::<Option<String>, E>(payload.encoded),
                Err::<Exit, CycleError<E>>(e),
            ),
        },
    }
}

/// Checks that every cookie of a list can be sent: `Ok` with the list where
/// each text may stand as a header value, the error where one may not.
pub fn sendable(list: Vec<SetCookie>) -> (r: Result<Vec<SetCookie>, HeaderConstructionError>)
    ensures
        match r {
            Ok(same) => same == list && all_sendable(list@),
            Err(_) => !all_sendable(list@),
        },
{
    let mut i: usize = 0;
    while i < list.len()
        invariant
            i <= list.len(),
            forall|j: int| 0 <= j < i ==> crate::cookie::header_text((#[trigger] list@[j]).header@),
        decreases list.len() - i,
    {
        if !header_value_ok(list[i].header.as_str()) {
            return Err(HeaderConstructionError);
        }
        i = i + 1;
    }
    Ok(list)
}

impl<S> FlashMiddleware<S> {
    /// The cookie name.
    pub closed spec fn name(&self) -> Seq<char> {
        self.cookie_name@
    }

    /// The cookie name.
    pub fn cookie_name(&self) -> (name: &str)
        ensures
            name@ == self.name(),
    {
        self.cookie_name.as_str()
    }

    /// The service inside.
    pub closed spec fn inner(&self) -> S {
        self.service
    }

    /// The service inside.
    pub fn service(&self) -> (service: &S)
        ensures
            *service == self.inner(),
    {
        &self.service
    }

    /// The service inside, to call it. The cookie name stays as it is.
    pub fn service_mut(&mut self) -> (service: &mut S)
        ensures
            *service == old(self).inner(),
            final(self).inner() == *final(service),
            final(self).name() == old(self).name(),
    {
        &mut self.service
    }

    /// A request comes in: looks for the flash cookie among the request's
    /// cookies and gives what is to be kept with the request. The cookie is
    /// copied as it is, and the request keeps its own.
    pub fn on_request(&self, cookies: &Vec<FlashCookie>) -> (state: CycleState)
        ensures
            entered(self.name(), cookies@, state),
    {
        match find(cookies, &self.cookie_name) {
            Some(cookie) => CycleState::CookiePresent(cookie.duplicate()),
            None => CycleState::NoCookie,
        }
    }

    /// Decides which cookies a response sends, before any of them is checked
    /// against what a header can hold.
    pub fn plan(&self, cookies: &Vec<FlashCookie>, staged: Option<String>) -> (r: (
        Outcome,
        Vec<SetCookie>,
    ))
        ensures
            planned(self.name(), cookies@, staged_text(staged), r.0, r.1@),
    {
        match staged {
            Some(text) => {
                proof {
                    reveal_strlit("/");
                }
                assert("/"@ =~= crate::cookie::root_path());
                let header = render_live(self.cookie_name.as_str(), text.as_str(), "/");
                let cookie = SetCookie {
                    name: self.cookie_name.clone(),
                    value: text,
                    path: Some("/".to_owned()),
                    max_age: None,
                    expires: None,
                    header,
                };
                let mut list: Vec<SetCookie> = Vec::new();
                list.push(cookie);
                (Outcome::Refreshed, list)
            },
            None => {
                let found = find(cookies, &self.cookie_name);
                let list = deletions(found, self.cookie_name.as_str());
                if found.is_some() {
                    (Outcome::Expired, list)
                } else {
                    (Outcome::Untouched, list)
                }
            },
        }
    }

    /// One whole cycle, for a handler that is an ordinary function: reads
    /// the flash cookie, runs the handler to its end with what was kept for
    /// the request, and only then decides which cookies to send.
    pub fn handle<P, E, F>(&self, cookies: &Vec<FlashCookie>, next: F) -> (r: Result<
        (P, Exit),
        CycleError<E>,
    >) where F: FnOnce(&CycleState) -> Result<OutgoingPayload<P>, E>
        requires
            forall|state: CycleState|
                entered(self.name(), cookies@, state) ==> call_requires(next, (&state,)),
        ensures
            exists|state: CycleState, out: Result<OutgoingPayload<P>, E>|
                entered(self.name(), cookies@, state) && call_ensures(next, (&state,), out)
                    && cycled(self.name(), cookies@, out, r),
    {
        let state = self.on_request(cookies);
        let out = next(&state);
        let ghost handled = out;
        let r = match out {
            Err(e) => Err(CycleError::Handler(e)),
            Ok(payload) => match self.on_response(cookies, Ok(payload.encoded)) {
                Ok(exit) => Ok((payload.response, exit)),
                Err(e) => Err(e),
            },
        };
        assert(cycled(self.name(), cookies@, handled, r));
        r
    }

    /// The handler is done: decides how the cycle ends. `handled` is the
    /// handler's error, or the cookie text that its response carries, if
    /// any; `cookies` are the cookies of the request, read again.
    pub fn on_response<E>(&self, cookies: &Vec<FlashCookie>, handled: Result<Option<String>, E>) -> (r:
        Result<Exit, CycleError<E>>)
        ensures
            exchanged(self.name(), cookies@, handled, r),
    {
        match handled {
            Err(e) => Err(CycleError::Handler(e)),
            Ok(staged) => {
                let ghost text = staged_text(staged);
                let (outcome, list) = self.plan(cookies, staged);
                match sendable(list) {
                    Ok(set_cookies) => Ok(Exit { outcome, set_cookies }),
                    Err(e) => Err(CycleError::Header(e)),
                }
            },
        }
    }
}

} // verus!
