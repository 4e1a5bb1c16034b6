use domcp::names::{snake_with_classes, to_snake};
use domcp::paths::{replace_text, resolve_path};

#[test]
fn test_to_snake_simple() {
    assert_eq!(to_snake("UserService"), "user_service");
}

#[test]
fn test_to_snake_consecutive_caps() {
    assert_eq!(to_snake("UserID"), "user_id");
    assert_eq!(to_snake("HTMLParser"), "html_parser");
    assert_eq!(to_snake("getHTTPResponse"), "get_http_response");
}

#[test]
fn test_to_snake_already_lower() {
    assert_eq!(to_snake("already_snake"), "already_snake");
}

#[test]
fn to_snake_edge_cases() {
    assert_eq!(to_snake(""), "");
    assert_eq!(to_snake("A"), "a");
    assert_eq!(to_snake("ID"), "id");
    assert_eq!(to_snake("Ärger"), "Ärger");
}

#[test]
fn replace_text_left_to_right() {
    assert_eq!(replace_text("aaa", "aa", "b"), "ba");
    assert_eq!(replace_text("x{a}y{a}", "{a}", "-"), "x-y-");
    assert_eq!(replace_text("abc", "", "z"), "abc");
}

#[test]
fn resolve_path_with_pattern() {
    assert_eq!(
        resolve_path("src/{context}/{layer}/{type}.rs", "Identity", "domain", "UserRepository"),
        "src/identity/domain/user_repository.rs"
    );
}

#[test]
fn resolve_path_default_shape() {
    assert_eq!(resolve_path("", "BillingCore", "application", "Invoice"), "src/billing_core/application/invoice.rs");
}

#[test]
fn snake_with_given_classes() {
    let upper = vec![true, false, true];
    let lower = vec![false, true, false];
    assert_eq!(snake_with_classes("AbC", &upper, &lower), "ab_c");
    assert_eq!(snake_with_classes("AbC", &vec![], &vec![]), "abc");
    assert_eq!(snake_with_classes("xY", &vec![false, true], &vec![true, false]), "x_y");
}
