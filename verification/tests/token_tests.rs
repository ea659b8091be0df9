use bunkr_uploader::api::VerifyTokenResp;
use bunkr_uploader::token::{decode_token_file, encode_token, TokenFileError, TokenSession};

#[test]
fn encode_token_is_standard_base64() {
    assert_eq!(encode_token("abc"), "YWJj");
    assert_eq!(encode_token("f"), "Zg==");
    assert_eq!(encode_token(""), "");
    assert_eq!(encode_token("é"), "w6k=");
}

#[test]
fn decode_token_file_reads_tokens() {
    assert_eq!(decode_token_file("YWJj").unwrap(), "abc");
    assert_eq!(decode_token_file("w6k=").unwrap(), "é");
}

#[test]
fn decode_token_file_rejects_bad_base64() {
    assert!(matches!(decode_token_file("!!!!"), Err(TokenFileError::Base64(_))));
    assert!(matches!(decode_token_file("Zg"), Err(TokenFileError::Base64(_))));
    assert!(matches!(decode_token_file("YWJj\n"), Err(TokenFileError::Base64(_))));
}

#[test]
fn decode_token_file_rejects_non_utf8() {
    // "/w==" is the single byte 0xFF.
    assert!(matches!(decode_token_file("/w=="), Err(TokenFileError::NotUtf8)));
}

#[test]
fn saved_token_reads_back() {
    for t in ["abc", "token-with-dashes_0123456789", "ünïcödé", "a b c", ""] {
        let saved = encode_token(t);
        assert_eq!(decode_token_file(&saved).unwrap(), t);
    }
}

#[test]
fn stored_token_is_tried_first() {
    let session = TokenSession::new("saved".to_string());
    assert_eq!(session.stored_candidate(), Some("saved".to_string()));
}

#[test]
fn empty_stored_token_asks_the_user() {
    let session = TokenSession::new(String::new());
    assert_eq!(session.stored_candidate(), None);
    assert_eq!(session.accept_input("  \n"), None);
    assert_eq!(session.accept_input("  tok \n"), Some("tok".to_string()));
}

#[test]
fn refused_token_is_not_tried_again() {
    let mut session = TokenSession::new("old".to_string());
    let r = session.conclude("old", &VerifyTokenResp { success: false });
    assert_eq!(r, None);
    assert_eq!(session.stored_candidate(), None);
    let r = session.conclude("new", &VerifyTokenResp { success: true });
    assert_eq!(r, Some(encode_token("new")));
    assert_eq!(session.stored_candidate(), None);
}

#[test]
fn accepted_token_gives_file_text() {
    let mut session = TokenSession::new("abc".to_string());
    let r = session.conclude("abc", &VerifyTokenResp { success: true });
    assert_eq!(r.as_deref(), Some("YWJj"));
    assert_eq!(session.stored_candidate(), Some("abc".to_string()));
}
