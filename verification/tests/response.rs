use bnet_auth_export::error::{decimal_text, ExportError};
use bnet_auth_export::response::{
    find_field, parse_json_response, parsed_field, read_required_text, required_text,
    screen_response, HttpResponse, JsonDocument, JsonField, JsonMember,
};
use bnet_auth_export::step::Step;

fn answer(status: u16, content_type: &str, body: &str) -> HttpResponse {
    HttpResponse { status, content_type: content_type.to_string(), body: body.to_string() }
}

#[test]
fn failure_status_is_reported_before_anything_else() {
    let page = format!("<html>{}</html>", "x".repeat(2000));
    let r = screen_response(&answer(401, "text/html", &page), "restore request", 1000);
    let expected: String = page.chars().take(1000).collect();
    assert_eq!(
        r,
        Err(ExportError::HttpStatus {
            label: "restore request".to_string(),
            status: 401,
            body: expected,
        })
    );
}

#[test]
fn failure_status_with_json_body_is_still_a_status_failure() {
    let r = read_required_text(
        &answer(500, "application/json", "{\"access_token\":\"t\"}"),
        Step::Exchange,
    );
    assert_eq!(
        r,
        Err(ExportError::HttpStatus {
            label: "SSO token exchange".to_string(),
            status: 500,
            body: "{\"access_token\":\"t\"}".to_string(),
        })
    );
}

#[test]
fn success_statuses_are_200_to_299() {
    assert_eq!(screen_response(&answer(200, "application/json", ""), "l", 5), Ok(()));
    assert_eq!(screen_response(&answer(299, "application/json", ""), "l", 5), Ok(()));
    assert!(screen_response(&answer(199, "application/json", ""), "l", 5).is_err());
    assert!(screen_response(&answer(300, "application/json", ""), "l", 5).is_err());
}

#[test]
fn other_content_is_reported_with_its_type() {
    let r = screen_response(&answer(200, "text/html", "<html>hello</html>"), "restore request", 6);
    assert_eq!(
        r,
        Err(ExportError::NonJson {
            label: "restore request".to_string(),
            content_type: "text/html".to_string(),
            body: "<html>".to_string(),
        })
    );
}

#[test]
fn absent_content_type_is_reported_as_missing() {
    let r = screen_response(&answer(200, "", "{}"), "restore request", 10);
    assert_eq!(
        r,
        Err(ExportError::NonJson {
            label: "restore request".to_string(),
            content_type: "(missing)".to_string(),
            body: "{}".to_string(),
        })
    );
}

#[test]
fn field_is_read_from_the_body() {
    let r = parse_json_response(
        &answer(200, "application/json; charset=utf-8", "{\"other\": 1, \"deviceSecret\": \"ab12\"}"),
        "restore request",
        "deviceSecret",
        1000,
    );
    assert_eq!(r, Ok(Some("ab12".to_string())));
}

#[test]
fn absent_and_null_fields_are_none() {
    let absent = parse_json_response(&answer(200, "application/json", "{}"), "l", "deviceSecret", 10);
    assert_eq!(absent, Ok(None));
    let null = parse_json_response(
        &answer(200, "application/json", "{\"deviceSecret\": null}"),
        "l",
        "deviceSecret",
        10,
    );
    assert_eq!(null, Ok(None));
}

#[test]
fn bodies_of_another_shape_fail_to_parse() {
    let label = "restore request";
    for body in ["", "<html>", "{\"deviceSecret\": ", "[1, 2]", "\"text\"", "{\"deviceSecret\": 5}", "{\"deviceSecret\": [\"a\"]}"] {
        let r = parse_json_response(&answer(200, "application/json", body), label, "deviceSecret", 10);
        let e = r.unwrap_err();
        assert!(matches!(&e, ExportError::JsonParse { label: l, .. } if l == label), "{}", body);
        assert_eq!(e.message(), "failed to parse restore request JSON response");
        assert!(e.cause().is_some());
    }
}

#[test]
fn parse_failure_keeps_the_words_of_the_parser() {
    let r = parse_json_response(&answer(200, "application/json", ""), "l", "deviceSecret", 10);
    assert_eq!(
        r,
        Err(ExportError::JsonParse {
            label: "l".to_string(),
            cause: "EOF while parsing a value at line 1 column 0".to_string(),
        })
    );
    let r = parse_json_response(&answer(200, "application/json", "{\"a\": tru}"), "l", "a", 10);
    assert_eq!(r.unwrap_err().cause(), Some("expected ident at line 1 column 10".to_string()));
}

#[test]
fn parse_failure_of_another_shape_says_what_was_expected() {
    let r = parse_json_response(&answer(200, "application/json", "[1, 2]"), "l", "a", 10);
    assert_eq!(r.unwrap_err().cause(), Some("expected a JSON object".to_string()));
    let r = parse_json_response(&answer(200, "application/json", "{\"a\": 5}"), "l", "a", 10);
    assert_eq!(r.unwrap_err().cause(), Some("expected a string or null".to_string()));
}

#[test]
fn only_parse_failures_have_a_cause() {
    assert_eq!(ExportError::InvalidHex.cause(), None);
    assert_eq!(ExportError::BearerTokenNotSet.cause(), None);
    assert_eq!(ExportError::MissingField { step: Step::Restore }.cause(), None);
    assert_eq!(ExportError::unread().cause(), None);
}

#[test]
fn each_lookup_has_its_outcome() {
    assert_eq!(parsed_field(JsonField::Text("v".to_string()), "l"), Ok(Some("v".to_string())));
    assert_eq!(parsed_field(JsonField::Absent, "l"), Ok(None));
    assert_eq!(parsed_field(JsonField::Null, "l"), Ok(None));
    assert_eq!(
        parsed_field(JsonField::Malformed("bad".to_string()), "l"),
        Err(ExportError::JsonParse { label: "l".to_string(), cause: "bad".to_string() })
    );
    assert_eq!(
        parsed_field(JsonField::NotObject, "l"),
        Err(ExportError::JsonParse { label: "l".to_string(), cause: "expected a JSON object".to_string() })
    );
    assert_eq!(
        parsed_field(JsonField::Mistyped, "l"),
        Err(ExportError::JsonParse { label: "l".to_string(), cause: "expected a string or null".to_string() })
    );
}

#[test]
fn required_text_is_trimmed() {
    assert_eq!(required_text(Some("  tok \n".to_string()), Step::Exchange), Ok("tok".to_string()));
    assert_eq!(required_text(Some("a b".to_string()), Step::Restore), Ok("a b".to_string()));
}

#[test]
fn required_text_must_not_be_blank() {
    let missing = Err(ExportError::MissingField { step: Step::Exchange });
    assert_eq!(required_text(None, Step::Exchange), missing);
    assert_eq!(required_text(Some(String::new()), Step::Exchange), missing);
    assert_eq!(required_text(Some(" \t ".to_string()), Step::Exchange), missing);
    assert_eq!(
        required_text(Some("  ".to_string()), Step::Restore),
        Err(ExportError::MissingField { step: Step::Restore })
    );
}

#[test]
fn decimal_numerals() {
    assert_eq!(decimal_text(0), "0");
    assert_eq!(decimal_text(7), "7");
    assert_eq!(decimal_text(10), "10");
    assert_eq!(decimal_text(401), "401");
    assert_eq!(decimal_text(65535), "65535");
}

#[test]
fn messages_name_the_step_and_the_cause() {
    assert_eq!(
        ExportError::HttpStatus { label: "restore request".to_string(), status: 401, body: "<html>".to_string() }
            .message(),
        "restore request failed with HTTP 401. Response: <html>"
    );
    assert_eq!(
        ExportError::NonJson {
            label: "SSO token exchange".to_string(),
            content_type: "(missing)".to_string(),
            body: "hi".to_string(),
        }
        .message(),
        "SSO token exchange returned non-JSON content (Content-Type: (missing)). Response: hi"
    );
    assert_eq!(
        ExportError::JsonParse { label: "restore request".to_string(), cause: "x".to_string() }
            .message(),
        "failed to parse restore request JSON response"
    );
    assert_eq!(
        ExportError::MissingField { step: Step::Exchange }.message(),
        "SSO response did not include access_token"
    );
    assert_eq!(
        ExportError::MissingField { step: Step::Restore }.message(),
        "restore response missing deviceSecret"
    );
    assert_eq!(
        ExportError::BearerTokenNotSet.message(),
        "bearer token not set; SSO token exchange must run first"
    );
    assert_eq!(ExportError::InvalidHex.message(), "deviceSecret is not valid hex");
    assert_eq!(
        ExportError::unsent(Step::Exchange, "https://oauth.battle.net/oauth/sso").message(),
        "request failed for Battle.net SSO token exchange"
    );
    assert_eq!(
        ExportError::unsent(Step::Restore, "https://host/v1/authenticator/device").message(),
        "request failed for https://host/v1/authenticator/device"
    );
    assert_eq!(ExportError::unread().message(), "failed reading response body");
}

fn sample_document() -> JsonDocument {
    JsonDocument::Object(vec![
        ("token_type".to_string(), JsonMember::Text("bearer".to_string())),
        ("expires_in".to_string(), JsonMember::Other),
        ("sub".to_string(), JsonMember::Null),
        ("access_token".to_string(), JsonMember::Text("tok".to_string())),
        ("access_token".to_string(), JsonMember::Text("later".to_string())),
    ])
}

#[test]
fn lookup_finds_the_member_by_its_key() {
    let document = sample_document();
    assert_eq!(find_field(&document, "access_token"), JsonField::Text("tok".to_string()));
    assert_eq!(find_field(&document, "token_type"), JsonField::Text("bearer".to_string()));
    assert_eq!(find_field(&document, "expires_in"), JsonField::Mistyped);
    assert_eq!(find_field(&document, "sub"), JsonField::Null);
    assert_eq!(find_field(&document, "Access_Token"), JsonField::Absent);
    assert_eq!(find_field(&document, ""), JsonField::Absent);
}

#[test]
fn lookup_in_other_documents() {
    assert_eq!(find_field(&JsonDocument::Object(Vec::new()), "a"), JsonField::Absent);
    assert_eq!(find_field(&JsonDocument::NotObject, "a"), JsonField::NotObject);
    assert_eq!(
        find_field(&JsonDocument::Malformed("bad".to_string()), "a"),
        JsonField::Malformed("bad".to_string())
    );
}

#[test]
fn keys_are_matched_exactly() {
    let r = parse_json_response(
        &answer(200, "application/json", "{\"devicesecret\": \"a\", \"deviceSecret \": \"b\", \"nested\": {\"deviceSecret\": \"c\"}}"),
        "restore request",
        "deviceSecret",
        10,
    );
    assert_eq!(r, Ok(None));
}

#[test]
fn escapes_in_the_body_are_resolved() {
    let r = parse_json_response(
        &answer(200, "application/json", "{\"device\\u0053ecret\": \"a\\u0062\\n\"}"),
        "restore request",
        "deviceSecret",
        10,
    );
    assert_eq!(r, Ok(Some("ab\n".to_string())));
}

#[test]
fn what_is_fixed_for_each_step() {
    assert_eq!(Step::Exchange.label(), "SSO token exchange");
    assert_eq!(Step::Restore.label(), "restore request");
    assert_eq!(Step::Exchange.field(), "access_token");
    assert_eq!(Step::Restore.field(), "deviceSecret");
    assert_eq!(Step::Exchange.body_limit(), 500);
    assert_eq!(Step::Restore.body_limit(), 1000);
}

#[test]
fn repeated_key_is_read_as_one_member() {
    let r = parse_json_response(
        &answer(200, "application/json", "{\"access_token\": \"a\", \"access_token\": \"b\"}"),
        "SSO token exchange",
        "access_token",
        500,
    );
    assert_eq!(r, Ok(Some("b".to_string())));
}
