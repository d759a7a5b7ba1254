use lrapiut::error::{ClientError, TokenStage};
use lrapiut::token::{extract, extract_token};

#[test]
fn extracts_execution_value() {
    let html = r#"<html><body><form><input name="execution" value="XYZ"></form></body></html>"#;
    assert_eq!(extract(html, "execution").unwrap(), "XYZ");
    assert_eq!(extract_token(html).unwrap(), "XYZ");
}

#[test]
fn extracts_first_of_several_fields() {
    let html = r#"<input name="lt" value="one"><input type="hidden" name="execution" value="e1s1"><input name="execution" value="e2s2">"#;
    assert_eq!(extract(html, "execution").unwrap(), "e1s1");
    assert_eq!(extract(html, "lt").unwrap(), "one");
}

#[test]
fn missing_element_is_token_not_found() {
    let html = r#"<html><body><input name="username" value="u"></body></html>"#;
    assert_eq!(extract_token(html), Err(ClientError::TokenNotFound(TokenStage::NoMatch)));
}

#[test]
fn empty_document_is_token_not_found() {
    assert!(matches!(extract_token(""), Err(ClientError::TokenNotFound(_))));
}

#[test]
fn missing_value_attribute_is_token_not_found() {
    let html = r#"<input name="execution">"#;
    assert_eq!(extract_token(html), Err(ClientError::TokenNotFound(TokenStage::NoValueAttribute)));
}

#[test]
fn other_tag_is_not_matched() {
    let html = r#"<div name="execution" value="XYZ"></div>"#;
    assert_eq!(extract_token(html), Err(ClientError::TokenNotFound(TokenStage::NoMatch)));
}

#[test]
fn bare_value_attribute_is_token_not_found() {
    let html = r#"<input name="execution" value>"#;
    assert_eq!(extract_token(html), Err(ClientError::TokenNotFound(TokenStage::ValueWithoutText)));
}

#[test]
fn malformed_field_name_is_token_not_found() {
    let html = r#"<input name="execution" value="XYZ">"#;
    assert_eq!(extract(html, "exec\"]ution["), Err(ClientError::TokenNotFound(TokenStage::InvalidSelector)));
}

#[test]
fn selector_names_tag_and_field() {
    assert_eq!(lrapiut::token::field_selector("input", "execution"), "input[name=\"execution\"]");
}

#[test]
fn long_selector_chain_is_refused() {
    let html = r#"<input name="x" value="XYZ">"#;
    let mut name = String::from("x\"]");
    for _ in 0..100_000 {
        name.push_str(" a");
    }
    assert_eq!(extract(html, &name), Err(ClientError::TokenNotFound(TokenStage::InvalidSelector)));
}

#[test]
fn field_names_with_dash_and_underscore() {
    let html = r#"<input name="_event-Id2" value="submit">"#;
    assert_eq!(extract(html, "_event-Id2").unwrap(), "submit");
    assert!(lrapiut::token::check_field_name("_event-Id2"));
    assert!(!lrapiut::token::check_field_name("a b"));
    assert!(!lrapiut::token::check_field_name("é"));
}
