use streamable_mcp::client::token::keep_token;

fn kept(token: &str) -> Option<String> {
    keep_token(Some(token.to_owned()))
}

#[test]
fn token_loses_white_space_and_scheme() {
    assert_eq!(kept("abc"), Some("abc".to_owned()));
    assert_eq!(kept("  abc\n"), Some("abc".to_owned()));
    assert_eq!(kept("Bearer abc"), Some("abc".to_owned()));
    assert_eq!(kept("bearer abc"), Some("abc".to_owned()));
    assert_eq!(kept("Bearer Bearer bearer abc"), Some("abc".to_owned()));
}

#[test]
fn blank_token_is_dropped() {
    assert_eq!(keep_token(None), None);
    assert_eq!(kept(""), None);
    assert_eq!(kept(" \t\u{3000}"), None);
}

#[test]
fn scheme_alone_is_a_token() {
    assert_eq!(kept("Bearer "), Some("Bearer".to_owned()));
    assert_eq!(kept("bearer"), Some("bearer".to_owned()));
}

#[test]
fn scheme_is_taken_off_in_both_spellings() {
    assert_eq!(kept("bearer Bearer abc"), Some("abc".to_owned()));
    assert_eq!(kept("bearer bearer Bearer bearer abc"), Some("abc".to_owned()));
    assert_eq!(kept("BEARER abc"), Some("BEARER abc".to_owned()));
    assert_eq!(kept("Bearer  abc"), Some(" abc".to_owned()));
}
