use scryfall::error::{Error, ScryfallError};
use scryfall::json::decode_error_payload;
use scryfall::uri::{decode_target, resolve_response, BodyDecode, BodyTarget, TransportReply, Uri};

const URL: &str = "https://api.example.com/cards/named?exact=test";

fn response(status: u16, status_text: &str, body: &str) -> TransportReply {
    TransportReply::Response {
        status,
        status_text: status_text.to_string(),
        body: body.to_string(),
    }
}

#[test]
fn classify_success_client_error_and_other() {
    assert_eq!(decode_target(&response(200, "OK", "{}")), BodyTarget::Item);
    assert_eq!(decode_target(&response(299, "OK", "{}")), BodyTarget::Item);
    assert_eq!(decode_target(&response(404, "Not Found", "{}")), BodyTarget::ErrorPayload);
    assert_eq!(decode_target(&response(400, "Bad Request", "{}")), BodyTarget::ErrorPayload);
    assert_eq!(decode_target(&response(500, "Server Error", "{}")), BodyTarget::Nothing);
    assert_eq!(decode_target(&response(301, "Moved", "{}")), BodyTarget::Nothing);
    let failure = TransportReply::Failure { message: "timed out".to_string() };
    assert_eq!(decode_target(&failure), BodyTarget::Nothing);
}

#[test]
fn not_found_yields_application_error_not_decode_error() {
    // A 404 whose body is {"status":404,"message":"not found"} yields
    // an application-level error carrying that payload, not a decode
    // error.
    let body = "{\"status\":404,\"message\":\"not found\"}";
    let reply = response(404, "Not Found", body);
    assert_eq!(decode_target(&reply), BodyTarget::ErrorPayload);
    let payload = decode_error_payload(body).expect("the payload decodes");
    assert_eq!(payload.status, 404);
    assert_eq!(payload.message, "not found");
    let r = resolve_response::<i32>(URL, reply, BodyDecode::ErrorPayload(payload));
    match r {
        Err(Error::ScryfallError(e)) => {
            assert_eq!(e.status, 404);
            assert_eq!(e.message, "not found");
        }
        other => panic!("expected an application error, got {:?}", other),
    }
}

#[test]
fn success_status_yields_decoded_item() {
    let reply = response(200, "OK", "17");
    let r = resolve_response::<i32>(URL, reply, BodyDecode::Item(17));
    assert_eq!(r, Ok(17));
}

#[test]
fn success_status_with_unreadable_body_is_a_decode_error() {
    let reply = response(200, "OK", "not json");
    let r = resolve_response::<i32>(URL, reply, BodyDecode::Undecoded);
    assert_eq!(r, Err(Error::DecodeError { url: URL.to_string() }));
}

#[test]
fn client_error_with_unreadable_payload_is_a_decode_error() {
    let reply = response(422, "Unprocessable Entity", "not json");
    assert_eq!(decode_error_payload("not json"), None);
    let r = resolve_response::<i32>(URL, reply, BodyDecode::Undecoded);
    assert_eq!(r, Err(Error::DecodeError { url: URL.to_string() }));
}

#[test]
fn other_status_is_an_http_error() {
    let reply = response(503, "Service Unavailable", "");
    let r = resolve_response::<i32>(URL, reply, BodyDecode::Undecoded);
    assert_eq!(
        r,
        Err(Error::HttpError { status: 503, status_text: "Service Unavailable".to_string() })
    );
}

#[test]
fn transport_failure_carries_message_and_url() {
    let reply = TransportReply::Failure { message: "connection refused".to_string() };
    let r = resolve_response::<i32>(URL, reply, BodyDecode::Undecoded);
    assert_eq!(
        r,
        Err(Error::TransportError {
            message: "connection refused".to_string(),
            url: URL.to_string(),
        })
    );
}

#[test]
fn error_payload_needs_both_fields_in_range() {
    assert_eq!(decode_error_payload("{\"status\":404}"), None);
    assert_eq!(decode_error_payload("{\"message\":\"no status\"}"), None);
    assert_eq!(decode_error_payload("{\"status\":\"404\",\"message\":\"text status\"}"), None);
    assert_eq!(decode_error_payload("{\"status\":70000,\"message\":\"too large\"}"), None);
    assert_eq!(
        decode_error_payload("{\"status\":400,\"message\":\"bad\",\"details\":\"extra\"}"),
        Some(ScryfallError { status: 400, message: "bad".to_string() })
    );
}

#[test]
fn parse_accepts_absolute_urls_only() {
    let u = Uri::<i32>::parse("https://api.example.com/cards/search?q=zurgo")
        .expect("an absolute URL parses");
    assert_eq!(u.as_str(), "https://api.example.com/cards/search?q=zurgo");
    assert!(Uri::<i32>::parse("not a url").is_none());
    assert!(Uri::<i32>::parse("/cards/search").is_none());
}

#[test]
fn parse_normalizes_to_canonical_form() {
    // Would fail if the URL wrapper handed its argument back unchanged:
    // the canonical serialization gains the root path.
    let u = Uri::<i32>::parse("https://api.example.com").expect("an absolute URL parses");
    assert_eq!(u.as_str(), "https://api.example.com/");
}

#[test]
fn uri_identity_is_the_url_alone() {
    let a = Uri::<i32>::from_url("https://api.example.com/a".to_string());
    let b = Uri::<u64>::from_url("https://api.example.com/a".to_string());
    let c = Uri::<i32>::from_url("https://api.example.com/c".to_string());
    assert!(a.same_url(&b));
    assert!(!a.same_url(&c));
    let d = a.duplicate();
    assert!(a.same_url(&d));
}
