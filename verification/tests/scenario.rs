use actix_flash::cookie::FlashCookie;
use actix_flash::cycle::{CycleState, Outcome};
use actix_flash::message::Message;
use actix_flash::middleware::Flash;
use actix_flash::response::{respond_to, Response};

/// What a client keeps of a `Set-Cookie` header value: the name and value.
fn kept(header: &str) -> FlashCookie {
    let pair = header.split(';').next().unwrap();
    let (name, value) = pair.split_once('=').unwrap();
    FlashCookie { name: name.to_owned(), value: value.to_owned(), path: None }
}

#[test]
fn set_flash_then_show_flash() {
    let mut middleware = Flash::default().new_transform(());

    // GET /set_flash, with no cookie.
    let cookies: Vec<FlashCookie> = Vec::new();
    let state = middleware.on_request(&cookies);
    assert!(matches!(state, CycleState::NoCookie));
    let (redirect, message) =
        Response::with_redirect("This is the message".to_owned(), "/show_flash").into_parts();
    assert_eq!(redirect.status, 303);
    assert_eq!(redirect.location, "/show_flash");
    let out = match respond_to::<String, _, ()>(message, Ok(redirect)) {
        Ok(out) => out,
        Err(_) => panic!("the redirect is produced"),
    };
    let end = match middleware.on_response::<()>(&cookies, Ok(out.encoded)) {
        Ok(end) => end,
        Err(_) => panic!("the cookie can be sent"),
    };
    assert_eq!(end.outcome, Outcome::Refreshed);
    assert_eq!(end.set_cookies.len(), 1);
    assert_eq!(end.set_cookies[0].header, "_flash={\"_\":\"This is the message\"}; Path=/");

    // GET /show_flash, with the cookie of the first response.
    let cookies = vec![kept(&end.set_cookies[0].header)];
    let state = middleware.on_request(&cookies);
    let body = match Message::<String>::from_request(&state) {
        Ok(message) => message.into_inner(),
        Err(_) => panic!("the message came with the request"),
    };
    assert_eq!(body, "This is the message");
    let end = match middleware.on_response::<()>(&cookies, Ok(None)) {
        Ok(end) => end,
        Err(_) => panic!("the deletion can be sent"),
    };
    assert_eq!(end.outcome, Outcome::Expired);
    assert_eq!(end.set_cookies.len(), 1);
    assert_eq!(end.set_cookies[0].name, "_flash");
    assert_eq!(end.set_cookies[0].value, "");
    assert!(end.set_cookies[0].header.starts_with("_flash=; Path=/; Max-Age=0; Expires="));

    // A third request, after the client dropped the cookie.
    let cookies: Vec<FlashCookie> = Vec::new();
    let state = middleware.on_request(&cookies);
    assert!(Message::<String>::from_request(&state).is_err());
    let end = match middleware.on_response::<()>(&cookies, Ok(None)) {
        Ok(end) => end,
        Err(_) => panic!("nothing to send"),
    };
    assert_eq!(end.outcome, Outcome::Untouched);
    assert!(end.set_cookies.is_empty());
    let _ = middleware.service_mut();
}

#[test]
fn a_whole_cycle_in_one_call() {
    let middleware = Flash::default().new_transform(());

    // The handler sets a message.
    let first = middleware.handle::<&str, (), _>(&Vec::new(), |state| {
        assert!(matches!(state, CycleState::NoCookie));
        let message = Some(Message::new("saved".to_owned()));
        respond_to::<String, _, ()>(message, Ok("redirect")).map_err(|_| ())
    });
    let (response, end) = match first {
        Ok(pair) => pair,
        Err(_) => panic!("the cycle gives a response"),
    };
    assert_eq!(response, "redirect");
    assert_eq!(end.outcome, Outcome::Refreshed);
    assert_eq!(end.set_cookies[0].header, "_flash={\"_\":\"saved\"}; Path=/");

    // The next handler reads it and sets none.
    let cookies = vec![kept(&end.set_cookies[0].header)];
    let second = middleware.handle::<String, (), _>(&cookies, |state| {
        let message = Message::<String>::from_request(state).map_err(|_| ())?;
        respond_to::<String, _, ()>(None, Ok(message.into_inner())).map_err(|_| ())
    });
    let (response, end) = match second {
        Ok(pair) => pair,
        Err(_) => panic!("the cycle gives a response"),
    };
    assert_eq!(response, "saved");
    assert_eq!(end.outcome, Outcome::Expired);
    assert_eq!(end.set_cookies.len(), 1);
    assert_eq!(end.set_cookies[0].value, "");

    // A handler that fails: its error comes back and nothing is sent.
    let third = middleware.handle::<String, u16, _>(&cookies, |_| Err(500));
    assert!(matches!(third, Err(actix_flash::cycle::CycleError::Handler(500))));

    // A handler that needs a message and gets none.
    let fourth = middleware.handle::<String, (), _>(&Vec::new(), |state| {
        let message = Message::<String>::from_request(state).map_err(|_| ())?;
        respond_to::<String, _, ()>(None, Ok(message.into_inner())).map_err(|_| ())
    });
    assert!(matches!(fourth, Err(actix_flash::cycle::CycleError::Handler(()))));
}
