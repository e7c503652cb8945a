use yaus::api::{ApiResponse, HttpStatus};
use yaus::store::{Error, Store, Url};
use yaus::url::{
    create_response, create_url, delete_response, delete_url, get_target, handle_redirect,
    inspect_response, is_valid_redirect_target, list_response, list_urls, redirect_response,
    validate_create,
};

fn mapping(short: &str, target: &str) -> Url {
    Url { short: short.to_string(), target_url: target.to_string() }
}

fn envelope(r: ApiResponse) -> (u16, bool, String, Option<String>) {
    match r {
        ApiResponse::Envelope { status, body } => {
            (status.code(), body.success, body.message, body.error)
        }
        _ => panic!("expected an envelope response"),
    }
}

#[test]
fn status_codes_follow_the_wire_numbers() {
    assert_eq!(HttpStatus::Success.code(), 200);
    assert_eq!(HttpStatus::TemporaryRedirect.code(), 307);
    assert_eq!(HttpStatus::Forbidden.code(), 403);
    assert_eq!(HttpStatus::NotFound.code(), 404);
    assert_eq!(HttpStatus::PayloadTooLarge.code(), 413);
    assert_eq!(HttpStatus::UnprocessableEntity.code(), 422);
    assert_eq!(HttpStatus::InternalServerError.code(), 500);
}

#[test]
fn create_accepts_short_of_twenty_characters() {
    let mut store = Store::new();
    let short = "a".repeat(20);
    let r = create_url(&mapping(&short, "http://example.com"), &mut store);
    let (code, success, message, error) = envelope(r);
    assert_eq!(code, 200);
    assert!(success);
    assert_eq!(message, "Successfully created short URL");
    assert!(error.is_none());
    assert!(store.get_url(&short).is_ok());
}

#[test]
fn create_rejects_short_of_twentyone_characters_before_storage() {
    let mut store = Store::new();
    let short = "a".repeat(21);
    let r = create_url(&mapping(&short, "http://example.com"), &mut store);
    let (code, success, message, error) = envelope(r);
    assert_eq!(code, 413);
    assert!(!success);
    assert_eq!(message, "Could not create short url");
    assert_eq!(error.unwrap(), "The short ID may not exceed 20 characters");
    assert!(store.get_url(&short).is_err());
    assert!(store.list_urls(u32::MAX).is_empty());
}

#[test]
fn create_accepts_target_of_five_hundred_characters() {
    let mut store = Store::new();
    let target = "t".repeat(500);
    let r = create_url(&mapping("b", &target), &mut store);
    assert_eq!(envelope(r).0, 200);
    assert_eq!(store.get_url("b").unwrap().target_url, target);
}

#[test]
fn create_rejects_target_of_five_hundred_one_characters_before_storage() {
    let mut store = Store::new();
    let target = "t".repeat(501);
    let r = create_url(&mapping("b", &target), &mut store);
    let (code, success, message, error) = envelope(r);
    assert_eq!(code, 413);
    assert!(!success);
    assert_eq!(message, "Could not create short url");
    assert_eq!(error.unwrap(), "The target URL may not exceed 500 characters");
    assert!(store.list_urls(u32::MAX).is_empty());
}

#[test]
fn validate_create_names_the_short_bound_first() {
    let body = mapping(&"x".repeat(21), &"t".repeat(501));
    let (status, response) = validate_create(&body).unwrap();
    assert_eq!(status.code(), 413);
    assert_eq!(response.error.unwrap(), "The short ID may not exceed 20 characters");
    assert!(validate_create(&mapping("ok", "http://example.com")).is_none());
}

#[test]
fn create_conflict_is_unprocessable() {
    let mut store = Store::new();
    assert_eq!(envelope(create_url(&mapping("dup", "http://a"), &mut store)).0, 200);
    let (code, success, message, error) = envelope(create_url(
        &mapping("dup", "http://b"),
        &mut store,
    ));
    assert_eq!(code, 422);
    assert!(!success);
    assert_eq!(message, "Could not create short URL");
    assert_eq!(error.unwrap(), "This short id is already taken");
    assert_eq!(store.get_url("dup").unwrap().target_url, "http://a");
}

#[test]
fn storage_failures_stay_opaque() {
    let (status, body) = create_response(Err(Error::Database));
    assert_eq!(status.code(), 500);
    assert_eq!(body.message, "Could not create short URL");
    assert_eq!(body.error.unwrap(), "Database failure");
    let (status, body) = delete_response(Err(Error::Database));
    assert_eq!(status.code(), 500);
    assert_eq!(body.error.unwrap(), "Database failure");
    match list_response(Err(Error::Database)) {
        ApiResponse::Envelope { status, body } => {
            assert_eq!(status.code(), 500);
            assert_eq!(body.message, "Could not list URLs");
            assert_eq!(body.error.unwrap(), "database failure");
        }
        _ => panic!("expected an envelope response"),
    }
}

#[test]
fn delete_answers_success_and_absence() {
    let mut store = Store::new();
    assert_eq!(envelope(create_url(&mapping("d", "http://a"), &mut store)).0, 200);
    let (code, success, message, error) = envelope(delete_url("d", &mut store));
    assert_eq!(code, 200);
    assert!(success);
    assert_eq!(message, "Successfully deleted URL");
    assert!(error.is_none());
    let (code, _, message, error) = envelope(delete_url("d", &mut store));
    assert_eq!(code, 422);
    assert_eq!(message, "Could not delete URL");
    assert_eq!(error.unwrap(), "This short id does not exist");
}

#[test]
fn get_target_returns_the_mapping() {
    let mut store = Store::new();
    assert_eq!(envelope(create_url(&mapping("g", "http://a"), &mut store)).0, 200);
    match get_target("g", &store) {
        ApiResponse::Record { status, body } => {
            assert_eq!(status.code(), 200);
            assert_eq!(body.short, "g");
            assert_eq!(body.target_url, "http://a");
        }
        _ => panic!("expected a record response"),
    }
}

#[test]
fn get_target_names_the_missing_resource() {
    let store = Store::new();
    let (code, _, message, error) = envelope(get_target("missing", &store));
    assert_eq!(code, 422);
    assert_eq!(message, "Cannot get target URL of `missing`");
    assert_eq!(error.unwrap(), "this shortened url was not found");
}

#[test]
fn inspect_keeps_absence_and_storage_failure_apart() {
    let absent = inspect_response(Err(Error::ShortDoesNotExist), "x");
    let (code, _, message, error) = envelope(absent);
    assert_eq!(code, 422);
    assert_eq!(message, "Cannot get target URL of `x`");
    assert_eq!(error.unwrap(), "this shortened url was not found");
    let failed = inspect_response(Err(Error::Database), "x");
    let (code, _, message, error) = envelope(failed);
    assert_eq!(code, 500);
    assert_eq!(message, "Cannot get target URL of `x`");
    assert_eq!(error.unwrap(), "Database failure");
}

#[test]
fn redirect_keeps_absence_and_storage_failure_apart() {
    let absent = redirect_response(Err(Error::ShortDoesNotExist), "y");
    let (code, _, message, error) = envelope(absent);
    assert_eq!(code, 404);
    assert_eq!(message, "Cannot redirect to resource `y`");
    assert_eq!(error.unwrap(), "this shortened url was not found");
    let failed = redirect_response(Err(Error::Database), "y");
    let (code, _, message, error) = envelope(failed);
    assert_eq!(code, 500);
    assert_eq!(message, "Cannot redirect to resource `y`");
    assert_eq!(error.unwrap(), "Database failure");
}

#[test]
fn list_handler_returns_records() {
    let mut store = Store::new();
    assert_eq!(envelope(create_url(&mapping("l1", "http://a"), &mut store)).0, 200);
    assert_eq!(envelope(create_url(&mapping("l2", "http://b"), &mut store)).0, 200);
    match list_urls(1, &store) {
        ApiResponse::Records { status, body } => {
            assert_eq!(status.code(), 200);
            assert_eq!(body.len(), 1);
            assert_eq!(body[0].short, "l1");
        }
        _ => panic!("expected a records response"),
    }
}

#[test]
fn redirect_issues_temporary_redirect() {
    let mut store = Store::new();
    assert_eq!(envelope(create_url(&mapping("r", "http://example.com"), &mut store)).0, 200);
    match handle_redirect("r", &store) {
        ApiResponse::Redirect { status, location, body } => {
            assert_eq!(status.code(), 307);
            assert_eq!(location, "http://example.com");
            assert_eq!(body.short, "r");
            assert_eq!(body.target_url, "http://example.com");
        }
        _ => panic!("expected a redirect response"),
    }
}

#[test]
fn redirect_names_the_missing_resource() {
    let store = Store::new();
    let (code, _, message, error) = envelope(handle_redirect("absent", &store));
    assert_eq!(code, 404);
    assert_eq!(message, "Cannot redirect to resource `absent`");
    assert_eq!(error.unwrap(), "this shortened url was not found");
}

#[test]
fn redirect_rejects_a_target_that_no_header_can_carry() {
    let mut store = Store::new();
    let r = create_url(&mapping("evil", "http://example.com/\nSet-Cookie: x"), &mut store);
    assert_eq!(envelope(r).0, 200);
    let (code, _, message, error) = envelope(handle_redirect("evil", &store));
    assert_eq!(code, 422);
    assert_eq!(message, "Cannot redirect to resource `{path}`");
    assert_eq!(error.unwrap(), "invalid target URL: failed to parse header value");
}

#[test]
fn header_values_accept_tab_and_reject_other_controls() {
    assert!(is_valid_redirect_target("http://example.com/path?q=1"));
    assert!(is_valid_redirect_target("with\ttab"));
    assert!(is_valid_redirect_target("unicode \u{00e9}\u{4e16}"));
    assert!(!is_valid_redirect_target("nul\u{0000}"));
    assert!(!is_valid_redirect_target("del\u{007f}"));
    assert!(!is_valid_redirect_target("line\r\nbreak"));
}
