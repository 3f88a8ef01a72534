use arpstore_client::errors::Error;
use arpstore_client::response::{decide_outcome, ends_with_code, interpret_response, normalize_message};

#[test]
fn normalization_strips_quotes_and_unescapes_newlines() {
    assert_eq!(normalize_message("\"line1\\nline2\""), "line1\nline2");
}

#[test]
fn normalization_without_quotes() {
    assert_eq!(normalize_message("plain"), "plain");
    assert_eq!(normalize_message("a\\nb"), "a\nb");
}

#[test]
fn normalization_strips_only_one_quote_layer() {
    assert_eq!(normalize_message("\"\"x\"\""), "\"x\"");
}

#[test]
fn normalization_edge_cases() {
    assert_eq!(normalize_message(""), "");
    assert_eq!(normalize_message("\""), "\"");
    assert_eq!(normalize_message("\"\""), "");
    assert_eq!(normalize_message("\\n"), "\n");
    assert_eq!(normalize_message("\\"), "\\");
    assert_eq!(normalize_message("x\\"), "x\\");
}

#[test]
fn suffix_matching() {
    assert!(ends_with_code("Subscription active for PRODUCT-42", "PRODUCT-42"));
    assert!(!ends_with_code("Subscription active for PRODUCT-42", "PRODUCT-99"));
    assert!(ends_with_code("abc", ""));
    assert!(!ends_with_code("ab", "abc"));
}

#[test]
fn matching_suffix_is_valid() {
    let r = decide_outcome(200, "\"Subscription active for PRODUCT-42\"", "PRODUCT-42");
    assert_eq!(r, Ok(()));
}

#[test]
fn non_matching_suffix_is_invalid_for_product() {
    let r = decide_outcome(200, "\"Subscription active for PRODUCT-42\"", "PRODUCT-99");
    assert_eq!(
        r,
        Err(Error::InvalidForProduct(
            "The subscription is not for this product!".to_string()
        ))
    );
}

#[test]
fn non_200_surfaces_server_message() {
    let r = decide_outcome(403, "\"bad key\"", "PRODUCT-42");
    assert_eq!(r, Err(Error::ApiError("bad key".to_string())));
}

#[test]
fn full_response_valid_subscription() {
    let body = "{\"message\":\"Subscription active for PRODUCT-42\"}";
    assert_eq!(interpret_response(200, body, "PRODUCT-42"), Ok(()));
}

#[test]
fn full_response_wrong_product() {
    let body = "{\"message\":\"Subscription active for PRODUCT-42\"}";
    assert_eq!(
        interpret_response(200, body, "PRODUCT-99"),
        Err(Error::InvalidForProduct(
            "The subscription is not for this product!".to_string()
        ))
    );
}

#[test]
fn full_response_api_error_carries_message() {
    let body = "{\"message\":\"bad key\"}";
    assert_eq!(
        interpret_response(403, body, "PRODUCT-42"),
        Err(Error::ApiError("bad key".to_string()))
    );
}

#[test]
fn malformed_json_is_parse_error() {
    assert_eq!(
        interpret_response(200, "not json at all", "X"),
        Err(Error::ParseError)
    );
    assert_eq!(interpret_response(500, "{\"message\":", "X"), Err(Error::ParseError));
}

#[test]
fn missing_message_field_is_explicit_error() {
    assert_eq!(
        interpret_response(200, "{\"status\":\"ok\"}", "X"),
        Err(Error::MissingField)
    );
    assert_eq!(interpret_response(404, "{}", "X"), Err(Error::MissingField));
}

#[test]
fn escaped_newline_in_message_survives_normalization() {
    // The JSON body carries an escaped newline; the extracted message is
    // re-rendered with the escape and normalization turns it back into a
    // real newline before the suffix match.
    let body = "{\"message\":\"first line\\nactive for PRODUCT-7\"}";
    assert_eq!(interpret_response(200, body, "PRODUCT-7"), Ok(()));
}

#[test]
fn non_string_message_is_interpreted() {
    // A non-string message renders without quotes; nothing panics.
    let body = "{\"message\":42}";
    assert_eq!(
        interpret_response(418, body, "X"),
        Err(Error::ApiError("42".to_string()))
    );
}
