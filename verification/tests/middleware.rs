use actix_flash::cookie::{find, FlashCookie, SetCookie};
use actix_flash::cycle::{CycleError, CycleState, Exit, Outcome};
use actix_flash::error::HeaderConstructionError;
use actix_flash::middleware::{sendable, Flash, FlashMiddleware};
use std::time::{SystemTime, UNIX_EPOCH};

fn cookie(name: &str, value: &str) -> FlashCookie {
    FlashCookie { name: name.to_owned(), value: value.to_owned(), path: None }
}

fn middleware(name: &str) -> FlashMiddleware<()> {
    Flash::new(name).new_transform(())
}

fn exit(r: Result<Exit, CycleError<()>>) -> Exit {
    match r {
        Ok(exit) => exit,
        Err(_) => panic!("the cycle gave no response"),
    }
}

fn now() -> i64 {
    SystemTime::now().duration_since(UNIX_EPOCH).unwrap().as_secs() as i64
}

#[test]
fn flash_keeps_the_cookie_name() {
    assert_eq!(Flash::new("notice").cookie_name(), "notice");
    assert_eq!(Flash::default().cookie_name(), "_flash");
}

#[test]
fn new_transform_hands_the_name_and_the_service_on() {
    let mut m = Flash::new("notice").new_transform(41u8);
    assert_eq!(m.cookie_name(), "notice");
    assert_eq!(*m.service(), 41);
    *m.service_mut() += 1;
    assert_eq!(*m.service(), 42);
    assert_eq!(m.cookie_name(), "notice");
}

#[test]
fn find_gives_the_first_cookie_of_the_name() {
    let cookies = vec![cookie("a", "1"), cookie("_flash", "x"), cookie("_flash", "y")];
    assert_eq!(find(&cookies, &"_flash".to_owned()), Some(&cookies[1]));
    assert_eq!(find(&cookies, &"a".to_owned()), Some(&cookies[0]));
    assert_eq!(find(&cookies, &"b".to_owned()), None);
    assert_eq!(find(&Vec::new(), &"a".to_owned()), None);
}

#[test]
fn duplicate_copies_every_field() {
    let c = FlashCookie { name: "n".to_owned(), value: "v".to_owned(), path: Some("/p".to_owned()) };
    assert_eq!(c.duplicate(), c);
    assert_eq!(cookie("n", "v").duplicate(), cookie("n", "v"));
}

#[test]
fn on_request_keeps_the_flash_cookie() {
    let cookies = vec![cookie("session", "s"), cookie("_flash", "{\"_\":\"x\"}")];
    match middleware("_flash").on_request(&cookies) {
        CycleState::CookiePresent(c) => assert_eq!(c, cookies[1]),
        CycleState::NoCookie => panic!("the request brought the cookie"),
    }
}

#[test]
fn on_request_without_the_flash_cookie() {
    let cookies = vec![cookie("session", "s"), cookie("_flash2", "x")];
    assert!(matches!(middleware("_flash").on_request(&cookies), CycleState::NoCookie));
    assert!(matches!(middleware("_flash").on_request(&Vec::new()), CycleState::NoCookie));
}

#[test]
fn a_cycle_with_nothing_to_do_sends_no_cookie() {
    let cookies = vec![cookie("session", "s")];
    let end = exit(middleware("_flash").on_response(&cookies, Ok(None)));
    assert_eq!(end.outcome, Outcome::Untouched);
    assert!(end.set_cookies.is_empty());
}

#[test]
fn a_staged_message_is_written_at_the_root_path() {
    let staged = "{\"_\":\"This is the message\"}".to_owned();
    let end = exit(middleware("_flash").on_response(&Vec::new(), Ok(Some(staged.clone()))));
    assert_eq!(end.outcome, Outcome::Refreshed);
    assert_eq!(
        end.set_cookies,
        vec![SetCookie {
            name: "_flash".to_owned(),
            value: staged,
            path: Some("/".to_owned()),
            max_age: None,
            expires: None,
            header: "_flash={\"_\":\"This is the message\"}; Path=/".to_owned(),
        }]
    );
}

#[test]
fn an_old_cookie_is_deleted_when_nothing_is_staged() {
    let cookies = vec![cookie("_flash", "{\"_\":\"old\"}")];
    let end = exit(middleware("_flash").on_response(&cookies, Ok(None)));
    assert_eq!(end.outcome, Outcome::Expired);
    assert_eq!(end.set_cookies.len(), 1);
    let removal = &end.set_cookies[0];
    assert_eq!(removal.name, "_flash");
    assert_eq!(removal.value, "");
    assert_eq!(removal.path.as_deref(), Some("/"));
    assert_eq!(removal.max_age, Some(0));
    assert!(removal.expires.unwrap() < now());
    assert!(removal.header.starts_with("_flash=; Path=/; Max-Age=0; Expires="));
    assert!(removal.header.ends_with(" GMT"));
}

#[test]
fn the_path_of_the_old_cookie_does_not_matter() {
    let old = FlashCookie {
        name: "_flash".to_owned(),
        value: "x".to_owned(),
        path: Some("/admin".to_owned()),
    };
    let end = exit(middleware("_flash").on_response(&vec![old], Ok(None)));
    assert_eq!(end.set_cookies.len(), 1);
    assert_eq!(end.set_cookies[0].path.as_deref(), Some("/"));
}

#[test]
fn two_old_cookies_give_one_deletion() {
    let cookies = vec![cookie("_flash", "x"), cookie("_flash", "y")];
    let end = exit(middleware("_flash").on_response(&cookies, Ok(None)));
    assert_eq!(end.outcome, Outcome::Expired);
    assert_eq!(end.set_cookies.len(), 1);
}

#[test]
fn a_refresh_sends_the_new_cookie_and_no_deletion() {
    let cookies = vec![cookie("_flash", "{\"_\":\"old\"}")];
    let staged = "{\"_\":\"new\"}".to_owned();
    let end = exit(middleware("_flash").on_response(&cookies, Ok(Some(staged.clone()))));
    assert_eq!(end.outcome, Outcome::Refreshed);
    assert_eq!(end.set_cookies.len(), 1);
    assert_eq!(end.set_cookies[0].value, staged);
    assert_eq!(end.set_cookies[0].max_age, None);
    assert_eq!(end.set_cookies[0].header, "_flash={\"_\":\"new\"}; Path=/");
}

#[test]
fn the_configured_name_is_the_one_that_counts() {
    let cookies = vec![cookie("_flash", "x")];
    let end = exit(middleware("notice").on_response(&cookies, Ok(None)));
    assert_eq!(end.outcome, Outcome::Untouched);
    let end = exit(middleware("notice").on_response(&cookies, Ok(Some("1".to_owned()))));
    assert_eq!(end.set_cookies[0].header, "notice=1; Path=/");
}

#[test]
fn a_failed_handler_passes_through() {
    let cookies = vec![cookie("_flash", "x")];
    match middleware("_flash").on_response(&cookies, Err("boom")) {
        Err(CycleError::Handler(e)) => assert_eq!(e, "boom"),
        _ => panic!("the handler's error is passed on"),
    }
}

#[test]
fn a_value_that_no_header_can_hold_fails_the_response() {
    let r = middleware("_flash").on_response::<()>(&Vec::new(), Ok(Some("a\u{7f}b".to_owned())));
    assert!(matches!(r, Err(CycleError::Header(HeaderConstructionError))));
    let r = middleware("_flash").on_response::<()>(&Vec::new(), Ok(Some("a\nb".to_owned())));
    assert!(matches!(r, Err(CycleError::Header(HeaderConstructionError))));
}

#[test]
fn a_name_that_no_header_can_hold_fails_the_response() {
    let cookies = vec![cookie("bad\nname", "x")];
    let r = middleware("bad\nname").on_response::<()>(&cookies, Ok(None));
    assert!(matches!(r, Err(CycleError::Header(HeaderConstructionError))));
    let r = middleware("bad\nname").on_response::<()>(&cookies, Ok(Some("1".to_owned())));
    assert!(matches!(r, Err(CycleError::Header(HeaderConstructionError))));
    let end = exit(middleware("bad\nname").on_response(&Vec::new(), Ok(None)));
    assert!(end.set_cookies.is_empty());
}

#[test]
fn tabs_and_characters_beyond_ascii_can_be_sent() {
    let end = exit(middleware("_flash").on_response(&Vec::new(), Ok(Some("a\tb \u{e9}".to_owned()))));
    assert_eq!(end.set_cookies[0].header, "_flash=a\tb \u{e9}; Path=/");
}

#[test]
fn plan_decides_before_anything_is_checked() {
    let (outcome, list) = middleware("_flash").plan(&Vec::new(), Some("a\nb".to_owned()));
    assert_eq!(outcome, Outcome::Refreshed);
    assert_eq!(list.len(), 1);
    assert_eq!(list[0].header, "_flash=a\nb; Path=/");
    assert_eq!(sendable(list), Err(HeaderConstructionError));
}

#[test]
fn sendable_hands_a_good_list_back() {
    let (_, list) = middleware("_flash").plan(&Vec::new(), Some("ok".to_owned()));
    assert_eq!(sendable(list.clone()), Ok(list));
    assert_eq!(sendable(Vec::new()), Ok(Vec::new()));
}
