//! The saved account token: how it is stored on disk, and the dialogue
//! that settles which token the session uses.
use vstd::prelude::*;
use vstd::utf8::*;

use crate::api::VerifyTokenResp;
use crate::encoding::{base64_decode, base64_encode, base64_standard_encode, base64_standard_decode, string_from_utf8};
use crate::text::{trim, trimmed};

verus! {

broadcast use vstd::utf8::encode_utf8_valid_utf8, vstd::utf8::encode_utf8_decode_utf8;

/// The contents of the token file for `token`: base64 of its UTF-8 bytes.
pub open spec fn token_file_text(token: Seq<char>) -> Seq<char> {
    base64_standard_encode(encode_utf8(token))
}

/// Why a token file could not be read back.
#[derive(Debug)]
pub enum TokenFileError {
    /// The file is not valid base64.
    Base64(base64::DecodeError),
    /// The decoded bytes are not valid UTF-8.
    NotUtf8,
}

/// What the token file holds once decoded: the token, if the text is
/// base64 of well-formed UTF-8.
pub open spec fn token_file_reading(content: Seq<char>) -> Option<Seq<char>> {
    match base64_standard_decode(content) {
        Some(bytes) => if valid_utf8(bytes) {
            Some(decode_utf8(bytes))
        } else {
            None
        },
        None => None,
    }
}

/// The text to store in the token file for `token`.
pub fn encode_token(token: &str) -> (r: String)
    ensures
        r@ == token_file_text(token@),
{
    base64_encode(token.as_bytes())
}

/// Reads a token back from the token file's contents.
///
/// Whatever `encode_token` wrote for a token reads back as that token.
pub fn decode_token_file(content: &str) -> (r: Result<String, TokenFileError>)
    ensures
        r is Ok <==> token_file_reading(content@) is Some,
        r matches Ok(t) ==> token_file_reading(content@) == Some(t@),
        base64_standard_decode(content@) is None ==> r is Err && r->Err_0 is Base64,
        forall|t: Seq<char>| #[trigger] token_file_text(t) == content@ ==> (r matches Ok(s) && s@ == t),
{
    match base64_decode(content) {
        Err(e) => Err(TokenFileError::Base64(e)),
        Ok(bytes) => {
            let ghost b = bytes@;
            proof {
                assert forall|t: Seq<char>| #[trigger] token_file_text(t) == content@ implies valid_utf8(b)
                    && decode_utf8(b) == t by {
                    assert(base64_standard_encode(encode_utf8(t)) == content@);
                    assert(b == encode_utf8(t));
                }
            }
            match string_from_utf8(bytes) {
                Some(s) => Ok(s),
                None => Err(TokenFileError::NotUtf8),
            }
        },
    }
}

/// The token dialogue: a token read from disk is tried first, and once a
/// token has been refused the user is asked for one.
pub struct TokenSession {
    stored: String,
    prev_valid: bool,
}

impl TokenSession {
    /// The token from disk (empty when there was none).
    pub closed spec fn stored(&self) -> Seq<char> {
        self.stored@
    }

    /// Whether the last verified token was accepted (true before any).
    pub closed spec fn prev_valid(&self) -> bool {
        self.prev_valid
    }

    /// Whether the next attempt uses the stored token rather than asking.
    pub open spec fn uses_stored(&self) -> bool {
        self.stored().len() > 0 && self.prev_valid()
    }

    /// The stored token is offered only when there is one (it is not empty)
    /// and no token has been refused; with no token file, or after any
    /// refusal, the user is asked.
    pub proof fn law_stored_token_only_when_present_and_unrefused(&self)
        ensures
            self.uses_stored() ==> self.stored().len() > 0,
            self.uses_stored() ==> self.prev_valid(),
            self.stored().len() == 0 ==> !self.uses_stored(),
            !self.prev_valid() ==> !self.uses_stored(),
    {
    }

    /// Starts the dialogue with the token read from disk.
    pub fn new(stored: String) -> (s: TokenSession)
        ensures
            s.stored() == stored@,
            s.prev_valid(),
    {
        TokenSession { stored, prev_valid: true }
    }

    /// The token to verify next without asking, or `None` when the user
    /// must be asked.
    pub fn stored_candidate(&self) -> (r: Option<String>)
        ensures
            r is Some <==> self.uses_stored(),
            r is Some <==> (self.stored().len() > 0 && self.prev_valid()),
            r matches Some(t) ==> t@ == self.stored() && t@.len() > 0,
    {
        if !self.stored.as_str().is_empty() && self.prev_valid {
            Some(self.stored.clone())
        } else {
            None
        }
    }

    /// The token the user typed, trimmed; `None` when nothing was typed, in
    /// which case the user is asked again.
    pub fn accept_input(&self, line: &str) -> (r: Option<String>)
        ensures
            r is Some <==> trimmed(line@).len() > 0,
            r matches Some(t) ==> t@ == trimmed(line@),
    {
        let t = trim(line);
        if !t.as_str().is_empty() {
            Some(t)
        } else {
            None
        }
    }

    /// Records the service's verdict on `candidate`. An accepted token gives
    /// the text to save in the token file; a refused one makes every later
    /// attempt ask the user.
    pub fn conclude(&mut self, candidate: &str, verdict: &VerifyTokenResp) -> (r: Option<String>)
        ensures
            final(self).stored() == old(self).stored(),
            verdict.success ==> (r matches Some(text) && text@ == token_file_text(candidate@)),
            verdict.success ==> final(self).prev_valid() == old(self).prev_valid(),
            !verdict.success ==> r is None && !final(self).prev_valid(),
            !verdict.success ==> !final(self).uses_stored(),
    {
        if verdict.success {
            Some(encode_token(candidate))
        } else {
            self.prev_valid = false;
            None
        }
    }
}

} // verus!
