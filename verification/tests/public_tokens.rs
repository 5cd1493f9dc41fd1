use bw_model::reject_public_forbidden_token;

#[test]
fn forbidden_tokens_require_identity_boundaries() {
    assert!(reject_public_forbidden_token("source_ref", "/tmp/.tmpD6xCVE/local").is_ok());
    assert!(reject_public_forbidden_token("source_ref", "sources/CVE-0000-0000").is_err());
    assert!(reject_public_forbidden_token("source_ref", "expected-result").is_err());
    assert!(reject_public_forbidden_token("source_ref", "unexpected-result").is_ok());
}

#[test]
fn the_message_names_the_field_and_the_first_token_in_list_order() {
    let err = reject_public_forbidden_token("notes", "poc for a fixed bug").unwrap_err();
    assert_eq!(
        err,
        "notes 包含 V3.2 public artifact 禁止公开携带的身份线索 token `fixed`"
    );
}

#[test]
fn tokens_are_matched_without_regard_to_ascii_case() {
    assert!(reject_public_forbidden_token("f", "Ghsa").is_err());
    assert!(reject_public_forbidden_token("f", "EXPLOIT_x").is_err());
    assert!(reject_public_forbidden_token("f", "exploits").is_ok());
    assert!(reject_public_forbidden_token("f", "").is_ok());
}
