//! Cookies as plain values: the one a request brought, and the ones a
//! response sends out.

use vstd::prelude::*;
use actix_web::cookie::Cookie;
use actix_web::http::HeaderValue;

verus! {

/// The raw flash cookie as it was read from a request.
#[derive(Debug, Clone, PartialEq, Eq)]
pub struct FlashCookie {
    pub name: String,
    pub value: String,
    pub path: Option<String>,
}

/// What a `FlashCookie` holds.
pub struct FlashCookieView {
    pub name: Seq<char>,
    pub value: Seq<char>,
    pub path: Option<Seq<char>>,
}

impl View for FlashCookie {
    type V = FlashCookieView;

    open spec fn view(&self) -> FlashCookieView {
        FlashCookieView {
            name: self.name@,
            value: self.value@,
            path: match self.path {
                Some(p) => Some(p@),
                None => None,
            },
        }
    }
}

impl FlashCookie {
    /// A copy of the cookie.
    pub fn duplicate(&self) -> (copy: FlashCookie)
        ensures
            copy == *self,
    {
        FlashCookie {
            name: self.name.clone(),
            value: self.value.clone(),
            path: match &self.path {
                Some(p) => Some(p.clone()),
                None => None,
            },
        }
    }
}

/// Whether some cookie of the list has the given name.
pub open spec fn has_cookie(cookies: Seq<FlashCookie>, name: Seq<char>) -> bool {
    exists|i: int| 0 <= i < cookies.len() && (#[trigger] cookies[i]).name@ == name
}

/// Whether `i` is the place of the first cookie of the list that has the
/// given name.
pub open spec fn is_first_named(cookies: Seq<FlashCookie>, name: Seq<char>, i: int) -> bool {
    &&& 0 <= i < cookies.len()
    &&& cookies[i].name@ == name
    &&& forall|j: int| 0 <= j < i ==> (#[trigger] cookies[j]).name@ != name
}

/// Looks for the cookie of the given name among those a request brought:
/// the first of them, or `None` where no cookie has that name.
pub fn find<'a>(cookies: &'a Vec<FlashCookie>, name: &String) -> (found: Option<&'a FlashCookie>)
    ensures
        match found {
            Some(c) => exists|i: int| is_first_named(cookies@, name@, i) && *c == cookies@[i],
            None => !has_cookie(cookies@, name@),
        },
{
    let mut i: usize = 0;
    while i < cookies.len()
        invariant
            i <= cookies.len(),
            forall|j: int| 0 <= j < i ==> (#[trigger] cookies@[j]).name@ != name@,
        decreases cookies.len() - i,
    {
        if cookies[i].name == *name {
            assert(is_first_named(cookies@, name@, i as int));
            return Some(&cookies[i]);
        }
        i = i + 1;
    }
    None
}

/// A cookie on its way out: its attributes, and the text that stands for it
/// in a `Set-Cookie` header.
#[derive(Debug, Clone, PartialEq, Eq)]
pub struct SetCookie {
    pub name: String,
    pub value: String,
    pub path: Option<String>,
    /// `Max-Age`, in whole seconds.
    pub max_age: Option<i64>,
    /// `Expires`, in seconds since the Unix epoch.
    pub expires: Option<i64>,
    /// The header value.
    pub header: String,
}

/// What a `SetCookie` holds.
pub struct SetCookieView {
    pub name: Seq<char>,
    pub value: Seq<char>,
    pub path: Option<Seq<char>>,
    pub max_age: Option<int>,
    pub expires: Option<int>,
    pub header: Seq<char>,
}

impl View for SetCookie {
    type V = SetCookieView;

    open spec fn view(&self) -> SetCookieView {
        SetCookieView {
            name: self.name@,
            value: self.value@,
            path: match self.path {
                Some(p) => Some(p@),
                None => None,
            },
            max_age: match self.max_age {
                Some(n) => Some(n as int),
                None => None,
            },
            expires: match self.expires {
                Some(n) => Some(n as int),
                None => None,
            },
            header: self.header@,
        }
    }
}

/// The path every flash cookie is written and deleted at.
pub open spec fn root_path() -> Seq<char> {
    seq!['/']
}

/// The header text of a cookie that has a name, a value and a path and no
/// other attribute: `name=value; Path=path`.
pub open spec fn live_header(name: Seq<char>, value: Seq<char>, path: Seq<char>) -> Seq<char> {
    name + seq!['='] + value + seq![';', ' ', 'P', 'a', 't', 'h', '='] + path
}

/// The cookie that carries a message: the given name and value at the path
/// `/`, with no expiry.
pub open spec fn live_cookie(name: Seq<char>, value: Seq<char>) -> SetCookieView {
    SetCookieView {
        name,
        value,
        path: Some(root_path()),
        max_age: None,
        expires: None,
        header: live_header(name, value, root_path()),
    }
}

/// Whether a cookie tells the client to delete the cookie `name` at `path`:
/// same name, empty value, that path, a `Max-Age` of zero and an expiry.
pub open spec fn is_removal(c: SetCookieView, name: Seq<char>, path: Seq<char>) -> bool {
    &&& c.name == name
    &&& c.value.len() == 0
    &&& c.path == Some(path)
    &&& c.max_age == Some(0int)
    &&& c.expires is Some
}

/// Whether a character may stand in a header value: a tab, or anything that
/// is neither a control character nor DEL.
pub open spec fn header_char(c: char) -> bool {
    c == '\t' || (c as u32 >= 32 && c as u32 != 127)
}

/// Whether a text may stand as a header value.
pub open spec fn header_text(s: Seq<char>) -> bool {
    forall|i: int| 0 <= i < s.len() ==> header_char(#[trigger] s[i])
}

/// Renders a cookie with `Cookie`'s `Display`, after building it with
/// `Cookie::new` and `set_path`. With no attribute but the path set, the
/// text is the name, `=`, the value, `; Path=` and the path.
#[verifier::external_body]
pub(crate) fn render_live(name: &str, value: &str, path: &str) -> (text: String)
    ensures
        text@ == live_header(name@, value@, path@),
{
    let mut c = Cookie::new(name.to_owned(), value.to_owned());
    c.set_path(path.to_owned());
    c.to_string()
}

/// Asks `HeaderValue::from_str` whether it accepts a text. It refuses a text
/// exactly where one of its bytes is a control character other than tab, or
/// DEL; the bytes of a character beyond ASCII are none of these.
#[verifier::external_body]
pub(crate) fn header_value_ok(text: &str) -> (ok: bool)
    ensures
        ok == header_text(text@),
{
    HeaderValue::from_str(text).is_ok()
}

} // verus!
