use yaus::config::User;
use yaus::middleware::ValidCredentials;
use yaus::query::parse_query;

fn checker() -> ValidCredentials {
    ValidCredentials {
        user: User { username: "admin".to_string(), password: "admin".to_string() },
    }
}

fn creds(query: &str) -> Option<(Vec<u8>, Vec<u8>)> {
    parse_query(query)
}

fn pair(username: &str, password: &str) -> Option<(Vec<u8>, Vec<u8>)> {
    Some((username.as_bytes().to_vec(), password.as_bytes().to_vec()))
}

#[test]
fn parse_query_reads_both_keys_in_any_order() {
    assert_eq!(creds("username=admin&password=secret"), pair("admin", "secret"));
    assert_eq!(creds("password=secret&username=admin"), pair("admin", "secret"));
}

#[test]
fn parse_query_ignores_unknown_keys() {
    assert_eq!(creds("lang=en&username=admin&trace=1&password=pw"), pair("admin", "pw"));
}

#[test]
fn parse_query_requires_both_keys() {
    assert_eq!(creds("username=admin"), None);
    assert_eq!(creds("password=pw"), None);
    assert_eq!(creds(""), None);
}

#[test]
fn parse_query_rejects_duplicates() {
    assert_eq!(creds("username=a&username=b&password=pw"), None);
    assert_eq!(creds("username=a&password=pw&password=pw"), None);
}

#[test]
fn parse_query_skips_empty_components() {
    assert_eq!(creds("username=admin&password=pw&"), pair("admin", "pw"));
    assert_eq!(creds("username=admin&&password=pw"), pair("admin", "pw"));
    assert_eq!(creds("&username=admin&password=pw"), pair("admin", "pw"));
}

#[test]
fn parse_query_reads_a_component_without_equals_as_an_empty_value() {
    // An unknown bare key changes nothing.
    assert_eq!(creds("username=admin&password=pw&flag"), pair("admin", "pw"));
    // A bare credential key carries the empty value.
    assert_eq!(creds("username&password=x"), pair("", "x"));
}

#[test]
fn parse_query_decodes_plus_and_percent_escapes() {
    assert_eq!(creds("username=a+user&password=p%41ss"), pair("a user", "pAss"));
    assert_eq!(creds("user%6eame=admin&password=pw"), pair("admin", "pw"));
}

#[test]
fn parse_query_keeps_broken_escapes_literally() {
    assert_eq!(creds("username=a%4&password=pw"), pair("a%4", "pw"));
    assert_eq!(creds("username=a%zz&password=pw"), pair("a%zz", "pw"));
    assert_eq!(creds("username=100%&password=pw"), pair("100%", "pw"));
}

#[test]
fn parse_query_decodes_escapes_beyond_ascii() {
    assert_eq!(
        creds("username=admin&password=%C3%A9"),
        Some((b"admin".to_vec(), vec![0xC3, 0xA9]))
    );
}

#[test]
fn parse_query_keeps_the_first_equals_sign() {
    assert_eq!(creds("username=admin&password=a=b"), pair("admin", "a=b"));
}

#[test]
fn check_accepts_exactly_the_configured_pair() {
    let checker = checker();
    assert!(checker.check_query("username=admin&password=admin"));
    assert!(checker.check_query("username=admin&password=admin&"));
    assert!(checker.check_query("username=%61dmin&password=admin"));
    assert!(!checker.check_query("username=admin&password=wrong"));
    assert!(!checker.check_query("username=root&password=admin"));
    assert!(!checker.check_query("username=admin"));
    assert!(!checker.check_query(""));
}

#[test]
fn check_compares_credentials_beyond_ascii() {
    let accented = ValidCredentials {
        user: User { username: "admin".to_string(), password: "caf\u{00e9}".to_string() },
    };
    assert!(accented.check_query("username=admin&password=caf%C3%A9"));
    assert!(!accented.check_query("username=admin&password=cafe"));
}

#[test]
fn check_compares_extracted_credentials_exactly() {
    let checker = checker();
    let good = User { username: "admin".to_string(), password: "admin".to_string() };
    let wrong_password = User { username: "admin".to_string(), password: "x".to_string() };
    assert!(checker.check(Some(&good)));
    assert!(!checker.check(Some(&wrong_password)));
    assert!(!checker.check(None));
}

#[test]
fn guard_answers_forbidden_with_one_generic_message() {
    let checker = checker();
    assert!(checker.guard_query("username=admin&password=admin").is_none());
    let (status, body) = checker.guard_query("username=admin&password=wrong").unwrap();
    assert_eq!(status.code(), 403);
    assert!(!body.success);
    assert_eq!(body.message, "Forbidden");
    assert_eq!(body.error.as_deref(), Some("You must be authenticated to use the API"));
    let (unknown_user_status, unknown_user_body) =
        checker.guard_query("username=who&password=admin").unwrap();
    assert_eq!(unknown_user_status.code(), 403);
    assert_eq!(unknown_user_body.message, body.message);
    assert_eq!(unknown_user_body.error, body.error);
}
