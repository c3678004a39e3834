//! The pure client parts: status classification, error messages, paths
//! and query strings.

use budget_tui::client::{
    classify_status, endpoint_with_params, item_action_path, item_path, query_string, request_url,
    ApiError,
};

#[test]
fn status_classification() {
    assert_eq!(classify_status(401, String::new()), Err(ApiError::Unauthorized));
    assert_eq!(classify_status(404, String::new()), Err(ApiError::NotFound));
    assert_eq!(classify_status(200, String::new()), Ok(()));
    assert_eq!(classify_status(204, String::new()), Ok(()));
    assert_eq!(
        classify_status(500, "boom".to_string()),
        Err(ApiError::Server("500: boom".to_string()))
    );
    assert_eq!(
        classify_status(418, "teapot".to_string()),
        Err(ApiError::Server("418: teapot".to_string()))
    );
}

#[test]
fn error_messages() {
    assert_eq!(ApiError::Unauthorized.message(), "Unauthorized - please login again");
    assert_eq!(ApiError::NotFound.message(), "Not found");
    assert_eq!(ApiError::Server("500: x".to_string()).message(), "Server error: 500: x");
    assert_eq!(ApiError::Network("timed out".to_string()).message(), "Network error: timed out");
    assert_eq!(
        ApiError::InvalidResponse("bad json".to_string()).message(),
        "Invalid response: bad json"
    );
}

#[test]
fn query_strings_are_encoded() {
    let params = vec![("period", "My Period".to_string()), ("month_id", "3".to_string())];
    // The value's space is percent-encoded: an encoder handing its input
    // back unchanged would fail this.
    assert_eq!(query_string(&params), "period=My%20Period&month_id=3");

    let empty: Vec<(&str, String)> = vec![];
    assert_eq!(query_string(&empty), "");
}

#[test]
fn endpoints_and_urls() {
    let empty: Vec<(&str, String)> = vec![];
    assert_eq!(endpoint_with_params("/expenses", &empty), "/expenses");
    let params = vec![("month_id", "7".to_string())];
    assert_eq!(endpoint_with_params("/expenses", &params), "/expenses?month_id=7");
    assert_eq!(
        request_url("https://example.test", "/months/current"),
        "https://example.test/api/v1/months/current"
    );
    assert_eq!(item_path("/expenses", 12), "/expenses/12");
    assert_eq!(item_action_path("/months", 5, "/close"), "/months/5/close");
    assert_eq!(item_action_path("/expenses", 9, "/pay"), "/expenses/9/pay");
}
