use actix_flash::codec::{decode, enclose, encode, payload_of};
use actix_flash::error::{DecodeError, EncodeError};
use actix_flash::payload::{Payload, RawJson};

#[test]
fn encode_wraps_the_json_text_of_a_string() {
    let text = encode(&"This is the message".to_owned()).unwrap();
    assert_eq!(text, "{\"_\":\"This is the message\"}");
}

#[test]
fn encode_escapes_what_json_escapes() {
    let text = encode(&"say \"hi\"\n\\".to_owned()).unwrap();
    assert_eq!(text, "{\"_\":\"say \\\"hi\\\"\\n\\\\\"}");
}

#[test]
fn encode_of_the_empty_string() {
    assert_eq!(encode(&String::new()).unwrap(), "{\"_\":\"\"}");
}

#[test]
fn decode_reads_back_what_encode_wrote() {
    for message in ["", "saved", "a \"quoted\" line\nand a second", "tab\there", "caf\u{e9} \u{1f600}"] {
        let text = encode(&message.to_owned()).unwrap();
        assert_eq!(decode::<String>(&text), Ok(message.to_owned()));
    }
}

#[test]
fn decode_reads_the_escapes_of_json() {
    assert_eq!(decode::<String>("{\"_\":\"a\\nb \\u0041\"}"), Ok("a\nb A".to_owned()));
}

#[test]
fn enclose_puts_the_envelope_around_any_text() {
    assert_eq!(enclose("[1,2]"), "{\"_\":[1,2]}");
    assert_eq!(enclose(""), "{\"_\":}");
    assert_eq!(enclose("}"), "{\"_\":}}");
}

#[test]
fn payload_of_takes_the_payload_out() {
    assert_eq!(payload_of("{\"_\":[1,2]}"), Some("[1,2]"));
    assert_eq!(payload_of("{\"_\":}"), Some(""));
    assert_eq!(payload_of("{\"_\":}}"), Some("}"));
    assert_eq!(payload_of("{\"_\":\"caf\u{e9}\"}"), Some("\"caf\u{e9}\""));
}

#[test]
fn payload_of_an_enclosed_text_is_the_text() {
    for text in ["", "1", "\"x\"", " { } ", "}", "{\"_\":1}", "\u{e9}\u{1f600}"] {
        assert_eq!(payload_of(&enclose(text)), Some(text));
    }
}

#[test]
fn payload_of_allows_white_space_around_the_parts() {
    assert_eq!(payload_of(" \t{\n \"_\" \r: 1 } \n"), Some(" 1 "));
    assert_eq!(payload_of("{ \"_\":true}"), Some("true"));
    assert_eq!(decode::<String>("  { \"_\" : \"x\" }  "), Ok("x".to_owned()));
}

#[test]
fn payload_of_refuses_what_is_no_envelope() {
    for text in [
        "",
        "   ",
        "not-json",
        "{",
        "{}",
        "{\"_\"",
        "{\"_\"}",
        "{\"_\":",
        "{\"_\":1",
        "{\"_\":1} x",
        "x{\"_\":1}",
        "{\"wrong_key\": 1}",
        "{\"__\":1}",
        "{\"_ \":1}",
        "{'_':1}",
        "[1]",
        "\"_\":1}",
        "{\"a\":0,\"_\":1}",
    ] {
        assert_eq!(payload_of(text), None, "{:?}", text);
    }
}

#[test]
fn decode_refuses_what_is_no_envelope() {
    assert_eq!(decode::<String>("not-json"), Err(DecodeError::NotAnEnvelope));
    assert_eq!(decode::<String>("{\"wrong_key\": 1}"), Err(DecodeError::NotAnEnvelope));
    assert_eq!(decode::<String>(""), Err(DecodeError::NotAnEnvelope));
    assert_eq!(decode::<String>("[\"x\"]"), Err(DecodeError::NotAnEnvelope));
}

#[test]
fn decode_refuses_a_payload_of_another_type() {
    assert_eq!(decode::<String>("{\"_\": 1}"), Err(DecodeError::BadPayload));
    assert_eq!(decode::<String>("{\"_\":null}"), Err(DecodeError::BadPayload));
    assert_eq!(decode::<String>("{\"_\":[\"x\"]}"), Err(DecodeError::BadPayload));
}

#[test]
fn decode_refuses_a_payload_that_is_no_json() {
    assert_eq!(decode::<String>("{\"_\":}"), Err(DecodeError::BadPayload));
    assert_eq!(decode::<String>("{\"_\":\"x}"), Err(DecodeError::BadPayload));
    assert_eq!(decode::<String>("{\"_\":\"x\",\"a\":1}"), Err(DecodeError::BadPayload));
    assert_eq!(decode::<String>("{\"_\":\"x\",\"_\":\"y\"}"), Err(DecodeError::BadPayload));
}

#[test]
fn raw_json_goes_in_and_out_as_it_is() {
    let raw = RawJson("{\"id\": 7, \"tags\": [\"a\", \"b\"]}".to_owned());
    let text = encode(&raw).unwrap();
    assert_eq!(text, "{\"_\":{\"id\": 7, \"tags\": [\"a\", \"b\"]}}");
    assert_eq!(decode::<RawJson>(&text), Ok(raw));
}

#[test]
fn raw_json_that_is_no_json_cannot_be_written() {
    assert_eq!(encode(&RawJson("not-json".to_owned())), Err(EncodeError));
    assert_eq!(encode(&RawJson(String::new())), Err(EncodeError));
    assert_eq!(encode(&RawJson("1 2".to_owned())), Err(EncodeError));
}

#[test]
fn raw_json_that_is_no_json_cannot_be_read() {
    assert_eq!(decode::<RawJson>("{\"_\":1,\"a\":2}"), Err(DecodeError::BadPayload));
    assert_eq!(decode::<RawJson>("{\"_\":}"), Err(DecodeError::BadPayload));
    assert_eq!(decode::<RawJson>("{\"_\": 1 }"), Ok(RawJson(" 1 ".to_owned())));
}

#[test]
fn payloads_write_and_read_json() {
    assert_eq!("x\ty".to_owned().to_json(), Ok("\"x\\ty\"".to_owned()));
    assert_eq!(String::from_json("\"x\\ty\""), Some("x\ty".to_owned()));
    assert_eq!(String::from_json("x"), None);
    assert_eq!(String::from_json("7"), None);
    assert_eq!(RawJson("7".to_owned()).to_json(), Ok("7".to_owned()));
    assert_eq!(RawJson::from_json("7"), Some(RawJson("7".to_owned())));
    assert_eq!(RawJson::from_json("seven"), None);
}
