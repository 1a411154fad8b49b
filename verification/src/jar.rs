//! The cookie jar that works out how to delete a cookie.
//!
//! A `CookieJar` is told which cookies the client already has, then which of
//! them to remove, and answers with the cookies to send so that the client
//! ends up in that state.

use vstd::prelude::*;
use actix_web::cookie::{Cookie, CookieJar};
use crate::cookie::{FlashCookie, SetCookie, SetCookieView};

verus! {

#[verifier::external_type_specification]
#[verifier::external_body]
pub struct ExCookieJar(CookieJar);

/// The names of the cookies that a jar holds as already present at the
/// client.
pub uninterp spec fn jar_present(jar: CookieJar) -> Set<Seq<char>>;

/// The changes a jar has recorded, by cookie name: for each, the cookie to
/// send.
pub uninterp spec fn jar_changes(jar: CookieJar) -> Map<Seq<char>, SetCookieView>;

/// `CookieJar::new`: a jar that holds nothing and has recorded nothing.
#[verifier::external_body]
pub(crate) fn jar_new() -> (empty: CookieJar)
    ensures
        jar_present(empty) == Set::<Seq<char>>::empty(),
        (jar_changes(empty) == Map::<Seq<char>, SetCookieView>::empty()),
{
    CookieJar::new()
}

/// `CookieJar::add_original`: the cookie counts as present at the client;
/// the recorded changes stay as they are.
#[verifier::external_body]
pub(crate) fn jar_add_present(jar: &mut CookieJar, cookie: &FlashCookie)
    ensures
        jar_present(*final(jar)) == jar_present(*old(jar)).insert(cookie.name@),
        jar_changes(*final(jar)) == jar_changes(*old(jar)),
{
    let mut c = Cookie::new(cookie.name.clone(), cookie.value.clone());
    if let Some(p) = &cookie.path {
        c.set_path(p.clone());
    }
    jar.add_original(c);
}

/// `CookieJar::remove`, for a cookie of the given name and path. Where a
/// cookie of that name counts as present, the jar records under the name a
/// cookie with an empty value, the given path, a `Max-Age` of zero and an
/// expiry a year before the call; otherwise it drops what it had recorded
/// under the name. Nothing else changes.
///
/// The text of the recorded cookie is the name, `=; Path=`, the path,
/// `; Max-Age=0; Expires=` and the date of the expiry, which is written in
/// ASCII letters, digits, commas, colons and spaces. So the text may stand
/// as a header value exactly where the name and the path may.
#[verifier::external_body]
pub(crate) fn jar_remove(jar: &mut CookieJar, name: &str, path: &str)
    ensures
        jar_present(*final(jar)) == jar_present(*old(jar)),
        jar_changes(*final(jar)).remove(name@) == jar_changes(*old(jar)).remove(name@),
        jar_present(*old(jar)).contains(name@) ==> jar_changes(*final(jar)).contains_key(name@)
            && crate::cookie::is_removal(jar_changes(*final(jar))[name@], name@, path@),
        jar_present(*old(jar)).contains(name@) ==> (crate::cookie::header_text(
            jar_changes(*final(jar))[name@].header,
        ) <==> crate::cookie::header_text(name@) && crate::cookie::header_text(path@)),
        !jar_present(*old(jar)).contains(name@) ==> !jar_changes(*final(jar)).contains_key(name@),
{
    let mut c = Cookie::named(name.to_owned());
    c.set_path(path.to_owned());
    jar.remove(c);
}

/// `CookieJar::delta`: the recorded changes, one cookie for each name, in no
/// stated order, each with its text as `Cookie`'s `Display` writes it.
#[verifier::external_body]
pub(crate) fn jar_delta(jar: &CookieJar) -> (list: Vec<SetCookie>)
    ensures
        list.len() == jar_changes(*jar).dom().len(),
        (forall|i: int|
            0 <= i < list.len() ==> jar_changes(*jar).contains_key(#[trigger] list[i].name@)
                && jar_changes(*jar)[list[i].name@] == list[i]@),
        (forall|i: int, j: int|
            0 <= i < j < list.len() ==> #[trigger] list[i].name@ != #[trigger] list[j].name@),
{
    let mut list = Vec::new();
    for c in jar.delta() {
        list.push(SetCookie {
            name: c.name().to_owned(),
            value: c.value().to_owned(),
            path: c.path().map(|p| p.to_owned()),
            max_age: c.max_age().map(|d| d.whole_seconds()),
            expires: c.expires().map(|t| t.unix_timestamp()),
            header: c.to_string(),
        });
    }
    list
}

/// The cookies to send so that the client drops the cookie `name` at the
/// path `/`, given the cookie of that name that the request brought, if any.
///
/// The request's cookie is put into a fresh jar as present, its removal at
/// `/` is asked for, and the jar's recorded changes are the answer: one
/// removal cookie where the request brought a cookie of that name, and
/// nothing where it brought none. The removal cookie can be sent exactly
/// where the name may stand in a header value.
pub fn deletions(found: Option<&FlashCookie>, name: &str) -> (list: Vec<SetCookie>)
    ensures
        match found {
            Some(c) if c.name@ == name@ => {
                &&& list.len() == 1
                &&& crate::cookie::is_removal(list[0]@, name@, crate::cookie::root_path())
                &&& crate::cookie::header_text(list[0].header@) <==> crate::cookie::header_text(
                    name@,
                )
            },
            _ => list.len() == 0,
        },
{
    let mut jar = jar_new();
    if let Some(cookie) = found {
        jar_add_present(&mut jar, cookie);
        proof {
            reveal_strlit("/");
        }
        jar_remove(&mut jar, name, "/");
        assert("/"@ =~= crate::cookie::root_path());
    }
    let list = jar_delta(&jar);
    proof {
        let changes = jar_changes(jar);
        let none = Map::<Seq<char>, SetCookieView>::empty();
        match found {
            Some(c) if c.name@ == name@ => {
                assert(changes.remove(name@) =~= none);
                assert(changes.dom() =~= set![name@]);
                assert(list[0].name@ == name@);
            },
            Some(c) => {
                assert(changes.remove(name@) =~= none);
                assert(changes =~= none);
            },
            None => {},
        }
    }
    list
}

} // verus!
