use tx_faucet_gate::text::{contains_text, same_text};
use tx_faucet_gate::verdict::{
    decide_verdict, flag_verdict, flags_of, interpret_response, response_flags, status_is_success,
    text_verdict, ResponseFlags,
};

fn flags(nested: Option<bool>, top: Option<bool>, verified: Option<bool>, success: Option<bool>) -> ResponseFlags {
    ResponseFlags { nested_whitelisted: nested, whitelisted: top, verified, success }
}

#[test]
fn nested_flag_takes_priority() {
    assert!(interpret_response(200, "{\"data\":{\"whitelisted\":true},\"verified\":false}"));
    assert!(interpret_response(500, "{\"data\":{\"whitelisted\":true},\"verified\":false}"));
    assert!(!interpret_response(200, "{\"data\":{\"whitelisted\":false},\"whitelisted\":true}"));
}

#[test]
fn affirmative_text_with_success_status_is_positive() {
    assert!(interpret_response(200, "OK, you are on the whitelist"));
}

#[test]
fn error_text_with_failure_status_is_negative() {
    assert!(!interpret_response(500, "error"));
    assert!(!interpret_response(500, "OK"));
    assert!(!interpret_response(200, "nope"));
}

#[test]
fn top_level_flags_in_order() {
    assert!(!interpret_response(200, "{\"whitelisted\":false,\"verified\":true}"));
    assert!(interpret_response(500, "{\"verified\":true,\"success\":false}"));
    assert!(!interpret_response(200, "{\"success\":false}"));
    assert!(interpret_response(200, "{\"message\":\"hi\"}"));
    assert!(!interpret_response(404, "{\"message\":\"hi\"}"));
    assert!(interpret_response(204, "{\"whitelisted\":\"yes\"}"));
}

#[test]
fn flags_read_from_json() {
    let f = response_flags("{\"data\":{\"whitelisted\":true},\"success\":false}").unwrap();
    assert_eq!(f, flags(Some(true), None, None, Some(false)));
    assert_eq!(response_flags("not json"), None);
    assert_eq!(response_flags("[1,2]").unwrap(), flags(None, None, None, None));
}

#[test]
fn flag_verdict_exact_values() {
    assert!(flag_verdict(flags(None, None, None, None), true));
    assert!(!flag_verdict(flags(None, None, None, None), false));
    assert!(!flag_verdict(flags(None, Some(false), Some(true), Some(true)), true));
    assert!(flag_verdict(flags(None, None, None, Some(true)), false));
}

#[test]
fn text_verdict_needs_both() {
    assert!(text_verdict("all true", true));
    assert!(!text_verdict("all true", false));
    assert!(!text_verdict("OK", true));
    assert!(decide_verdict(None, 200, "OK"));
    assert!(!decide_verdict(None, 200, "Fine"));
    assert!(decide_verdict(Some(flags(Some(true), None, None, None)), 500, "x"));
}

#[test]
fn success_status_class() {
    assert!(status_is_success(200));
    assert!(status_is_success(299));
    assert!(!status_is_success(199));
    assert!(!status_is_success(300));
    assert!(!status_is_success(500));
}

#[test]
fn text_search() {
    assert!(contains_text("you are whitelisted", "whitelist"));
    assert!(!contains_text("white list", "whitelist"));
    assert!(contains_text("abc", ""));
    assert!(!contains_text("ab", "abc"));
    assert!(contains_text("éok", "ok"));
    assert!(same_text("abc", "abc"));
    assert!(!same_text("abc", "abd"));
    assert!(!same_text("abc", "ab"));
}

#[test]
fn flags_read_at_each_pointer() {
    let f = flags_of("{\"data\":{\"whitelisted\":false},\"whitelisted\":true,\"verified\":1,\"success\":true}");
    assert_eq!(f, flags(Some(false), Some(true), None, Some(true)));
    assert_eq!(flags_of("not json"), flags(None, None, None, None));
}
