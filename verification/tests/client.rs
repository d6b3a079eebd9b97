use see_rust_sdk::address::is_valid_url;
use see_rust_sdk::address::scheme_is_web;
use see_rust_sdk::client::decoded_payload;
use see_rust_sdk::client::server_error;
use see_rust_sdk::client::status_of_code;
use see_rust_sdk::client::Client;
use see_rust_sdk::client::Dispatch;
use see_rust_sdk::client::Method;
use see_rust_sdk::client::Payload;
use see_rust_sdk::config::Config;
use see_rust_sdk::error::Error;
use see_rust_sdk::error::ErrorResponse;
use see_rust_sdk::url::models::DeleteResponse;

fn client_for(base_url: &str) -> Client {
    Client::new(Config::new(base_url)).unwrap()
}

fn reader() -> Client {
    client_for("https://api.example.com")
}

fn decode_delete(body: &String) -> Result<DeleteResponse, String> {
    let value: serde_json::Value = serde_json::from_str(body).map_err(|e| e.to_string())?;
    let code = value.get("code").and_then(|c| c.as_u64()).ok_or("missing field `code`")?;
    let message = value.get("message").and_then(|m| m.as_str()).ok_or("missing field `message`")?;
    let data = value.get("data").and_then(|d| d.as_str()).map(|d| d.to_string());
    Ok(DeleteResponse { code: code as u16, message: message.to_string(), data })
}

fn decode_envelope(body: &String) -> Option<ErrorResponse> {
    let value: serde_json::Value = serde_json::from_str(body).ok()?;
    let code = value.get("code")?.as_i64()?;
    let message = value.get("message")?.as_str()?.to_string();
    let data = value.get("data")?.as_str()?.to_string();
    Some(ErrorResponse { code, message, data })
}

fn never_payload(_: &String) -> Result<DeleteResponse, String> {
    panic!("the payload decoder must not run for this status")
}

fn never_envelope(_: &String) -> Option<ErrorResponse> {
    panic!("the envelope decoder must not run for this status")
}

#[test]
fn client_keeps_its_configuration() {
    let client = Client::new(Config::new("https://custom.api").with_api_key("k")).unwrap();
    assert_eq!(client.config().base_url, "https://custom.api");
    assert_eq!(client.config().api_key.as_deref(), Some("k"));

    let client = Client::with_default_config().unwrap();
    assert_eq!(client.config().base_url, "https://s.ee");
    assert_eq!(client.config().api_key, None);
    assert_eq!(client.config().max_retries, 3);
}

#[test]
fn valid_urls_are_http_or_https() {
    let client = Client::with_default_config().unwrap();
    assert!(client.is_valid_url("https://example.com"));
    assert!(client.is_valid_url("http://example.com/path?q=1#frag"));
    assert!(!client.is_valid_url("ftp://example.com"));
    assert!(!client.is_valid_url("not-a-url"));
    assert!(!client.is_valid_url(""));
    assert!(!client.is_valid_url("mailto:someone@example.com"));
    assert!(!client.is_valid_url("//example.com/no-scheme"));
}

#[test]
fn validity_goes_by_the_parsed_scheme() {
    assert!(is_valid_url("HTTP://EXAMPLE.COM"));
    assert!(is_valid_url("  https://example.com  "));
    assert!(!is_valid_url("https://"));
    assert!(!is_valid_url("httpx://example.com"));
    assert!(!is_valid_url("https//example.com"));
}

#[test]
fn web_schemes_are_exactly_two() {
    assert!(scheme_is_web("http"));
    assert!(scheme_is_web("https"));
    assert!(!scheme_is_web("HTTP"));
    assert!(!scheme_is_web("ftp"));
    assert!(!scheme_is_web("http:"));
    assert!(!scheme_is_web("httpss"));
    assert!(!scheme_is_web(""));
}

#[test]
fn api_url_is_base_then_path() {
    let client = client_for("https://api.example.com");
    assert_eq!(client.build_api_url("/test"), "https://api.example.com/test");
}

#[test]
fn api_url_is_not_normalised() {
    assert_eq!(client_for("https://api.example.com/").build_api_url("/test"), "https://api.example.com//test");
    assert_eq!(client_for("https://api.example.com").build_api_url("test"), "https://api.example.comtest");
    assert_eq!(client_for("https://api.example.com").build_api_url(""), "https://api.example.com");
    assert_eq!(client_for("").build_api_url("/a b"), "/a b");
}

#[test]
fn authorization_is_the_raw_key_or_absent() {
    let keyed = Client::new(Config::default().with_api_key("secret-key")).unwrap();
    assert_eq!(keyed.authorization().as_deref(), Some("secret-key"));
    let empty = Client::new(Config::default().with_api_key("")).unwrap();
    assert_eq!(empty.authorization().as_deref(), Some(""));
    let bare = Client::with_default_config().unwrap();
    assert_eq!(bare.authorization(), None);
}

#[test]
fn plan_with_a_record_carries_it_as_json() {
    let client = Client::new(Config::new("https://api.example.com").with_api_key("k")).unwrap();
    let plan: Dispatch<u32, ()> = client.prepare_request(Method::Put, "/thing", 7);
    assert_eq!(plan.method, Method::Put);
    assert_eq!(plan.url, "https://api.example.com/thing");
    assert_eq!(plan.authorization.as_deref(), Some("k"));
    assert!(matches!(plan.payload, Payload::Json(7)));
}

#[test]
fn plan_without_a_record_carries_nothing() {
    let plan: Dispatch<(), DeleteResponse> =
        client_for("https://api.example.com").prepare_request_no_body(Method::Delete, "/shorten");
    assert_eq!(plan.method, Method::Delete);
    assert_eq!(plan.url, "https://api.example.com/shorten");
    assert_eq!(plan.authorization, None);
    assert!(matches!(plan.payload, Payload::Empty));
}

#[test]
fn multipart_plan_names_the_part_and_the_file() {
    let client = client_for("https://api.example.com");
    let plan: Dispatch<(), ()> =
        client.prepare_multipart_request(Method::Post, "/up", "attachment", "/tmp/a.bin");
    assert_eq!(plan.method, Method::Post);
    assert_eq!(plan.url, "https://api.example.com/up");
    match plan.payload {
        Payload::File { field, path } => {
            assert_eq!(field, "attachment");
            assert_eq!(path, "/tmp/a.bin");
        }
        _ => panic!("expected a file payload"),
    }
}

#[test]
fn success_status_decodes_the_body() {
    let body = String::from("{\"code\":200,\"message\":\"ok\",\"data\":\"gone\"}");
    let reply = reader().handle_response(200, body, decode_delete, never_envelope).unwrap();
    assert_eq!(reply.code, 200);
    assert_eq!(reply.message, "ok");
    assert_eq!(reply.data.as_deref(), Some("gone"));

    let body = String::from("{\"code\":201,\"message\":\"made\",\"data\":null}");
    let reply = reader().handle_response(201, body, decode_delete, never_envelope).unwrap();
    assert_eq!(reply.code, 201);
    assert_eq!(reply.data, None);
}

#[test]
fn success_status_with_a_malformed_body_is_a_json_error() {
    let outcome =
        reader().handle_response(200, String::from("<html>"), decode_delete, never_envelope);
    match outcome {
        Err(Error::JsonError(text)) => assert!(text.contains("expected value")),
        other => panic!("expected a JSON error, got {:?}", other),
    }

    let outcome = reader().handle_response(
        201,
        String::from("{\"message\":\"no code\"}"),
        decode_delete,
        never_envelope,
    );
    match outcome {
        Err(Error::JsonError(text)) => assert_eq!(text, "missing field `code`"),
        other => panic!("expected a JSON error, got {:?}", other),
    }
}

#[test]
fn status_404_is_not_found_whatever_the_body() {
    for body in ["", "{\"code\":500,\"message\":\"m\",\"data\":\"d\"}", "{\"code\":200}"] {
        let outcome =
            reader().handle_response(404, String::from(body), never_payload, never_envelope);
        assert!(matches!(outcome, Err(Error::NotFound)));
    }
}

#[test]
fn status_429_is_rate_limited_whatever_the_body() {
    for body in ["", "{\"code\":500,\"message\":\"m\",\"data\":\"d\"}", "slow down"] {
        let outcome =
            reader().handle_response(429, String::from(body), never_payload, never_envelope);
        assert!(matches!(outcome, Err(Error::RateLimited)));
    }
}

#[test]
fn other_status_with_an_envelope_reports_the_envelope() {
    let body = String::from("{\"code\":4001,\"message\":\"slug taken\",\"data\":\"\"}");
    let outcome = reader().handle_response(400, body, never_payload, decode_envelope);
    match outcome {
        Err(Error::ServerError { status, message }) => {
            assert_eq!(status, 4001);
            assert_eq!(message, "slug taken");
        }
        other => panic!("expected a server error, got {:?}", other),
    }
}

#[test]
fn other_status_without_an_envelope_reports_status_and_body() {
    let outcome = reader().handle_response(
        500,
        String::from("Internal Server Error"),
        never_payload,
        decode_envelope,
    );
    match outcome {
        Err(Error::ServerError { status, message }) => {
            assert_eq!(status, 500);
            assert_eq!(message, "Internal Server Error");
        }
        other => panic!("expected a server error, got {:?}", other),
    }

    let body = String::from("{\"code\":\"E1\",\"message\":\"wrong shape\"}");
    let outcome = reader().handle_response(503, body.clone(), never_payload, decode_envelope);
    match outcome {
        Err(Error::ServerError { status, message }) => {
            assert_eq!(status, 503);
            assert_eq!(message, body);
        }
        other => panic!("expected a server error, got {:?}", other),
    }
}

#[test]
fn other_2xx_and_3xx_statuses_are_server_errors() {
    for status in [0u16, 202, 204, 301, 400, 401, 403, 405, 428, 430, 500, 65535] {
        let outcome =
            reader().handle_response(status, String::from("body"), never_payload, decode_envelope);
        match outcome {
            Err(Error::ServerError { status: reported, message }) => {
                assert_eq!(reported, status);
                assert_eq!(message, "body");
            }
            other => panic!("expected a server error for {}, got {:?}", status, other),
        }
    }
}

#[test]
fn a_failed_reply_is_never_a_success() {
    let ok_body = "{\"code\":200,\"message\":\"ok\",\"data\":\"gone\"}";
    let first = reader().handle_response(200, String::from(ok_body), decode_delete, decode_envelope);
    assert!(first.is_ok());
    for status in [404u16, 410, 500] {
        let again =
            reader().handle_response(status, String::from(ok_body), decode_delete, decode_envelope);
        assert!(matches!(again, Err(Error::NotFound) | Err(Error::ServerError { .. })));
    }
}

#[test]
fn decoded_payload_keeps_the_record_or_reports_the_decoder() {
    assert!(matches!(decoded_payload::<u8>(Ok(5)), Ok(5)));
    match decoded_payload::<u8>(Err(String::from("bad"))) {
        Err(Error::JsonError(text)) => assert_eq!(text, "bad"),
        other => panic!("expected a JSON error, got {:?}", other),
    }
}

#[test]
fn server_error_prefers_the_envelope() {
    let envelope =
        ErrorResponse { code: 403, message: String::from("forbidden"), data: String::from("x") };
    match server_error(500, String::from("raw"), Some(envelope)) {
        Error::ServerError { status, message } => {
            assert_eq!(status, 403);
            assert_eq!(message, "forbidden");
        }
        other => panic!("expected a server error, got {:?}", other),
    }
    match server_error(500, String::from("raw"), None) {
        Error::ServerError { status, message } => {
            assert_eq!(status, 500);
            assert_eq!(message, "raw");
        }
        other => panic!("expected a server error, got {:?}", other),
    }
}

#[test]
fn envelope_code_that_is_a_status_is_reported_as_it_is() {
    assert_eq!(status_of_code(0), 0);
    assert_eq!(status_of_code(500), 500);
    assert_eq!(status_of_code(32767), 32767);
    assert_eq!(status_of_code(32768), 32768);
    assert_eq!(status_of_code(40001), 40001);
    assert_eq!(status_of_code(65535), 65535);
}

#[test]
fn envelope_code_outside_the_status_range_wraps() {
    assert_eq!(status_of_code(-1), 65535);
    assert_eq!(status_of_code(-500), 65036);
    assert_eq!(status_of_code(-32768), 32768);
    assert_eq!(status_of_code(-65536), 0);
    assert_eq!(status_of_code(-65537), 65535);
    assert_eq!(status_of_code(65536), 0);
    assert_eq!(status_of_code(65537), 1);
    assert_eq!(status_of_code(100_000), 34464);
    assert_eq!(status_of_code(i64::MAX), 65535);
    assert_eq!(status_of_code(i64::MIN), 0);
}

#[test]
fn envelope_with_a_large_code_reports_that_code() {
    let body = String::from("{\"code\":40001,\"message\":\"invalid slug\",\"data\":\"\"}");
    let outcome: Result<DeleteResponse, Error> =
        reader().handle_response(400, body, never_payload, decode_envelope);
    match outcome {
        Err(Error::ServerError { status, message }) => {
            assert_eq!(status, 40001);
            assert_eq!(message, "invalid slug");
        }
        other => panic!("expected a server error, got {:?}", other),
    }
}

#[test]
fn envelope_with_a_negative_code_reports_the_wrapped_code() {
    let body = String::from("{\"code\":-1,\"message\":\"unknown\",\"data\":\"\"}");
    let outcome: Result<DeleteResponse, Error> =
        reader().handle_response(500, body, never_payload, decode_envelope);
    match outcome {
        Err(Error::ServerError { status, message }) => {
            assert_eq!(status, 65535);
            assert_eq!(message, "unknown");
        }
        other => panic!("expected a server error, got {:?}", other),
    }
}
