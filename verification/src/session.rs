//! Where a session keeps its files, and what it reports at the end.
use vstd::prelude::*;

use rand::RngExt;

use crate::text::{joined, push_char, trim_quotes, without_quotes};

verus! {

/// The random number generator of the current thread.
#[verifier::external_type_specification]
#[verifier::external_body]
pub struct ExThreadRng(rand::rngs::ThreadRng);

/// Calls `rand::rng`. Nothing is stated of the generator; `rand::rng`
/// panics if the system's random source fails on first use.
#[verifier::external_body]
fn thread_rng() -> rand::rngs::ThreadRng {
    rand::rng()
}

/// Whether `c` is an ASCII letter or digit.
pub open spec fn is_alphanumeric_ascii(c: char) -> bool {
    ('0' <= c && c <= '9') || ('A' <= c && c <= 'Z') || ('a' <= c && c <= 'z')
}

/// Calls `rng.sample(rand::distr::Alphanumeric)`.
/// Trusted: the byte is an ASCII letter or digit; which one is not stated.
#[verifier::external_body]
fn sample_alphanumeric(rng: &mut rand::rngs::ThreadRng) -> (b: u8)
    ensures
        is_alphanumeric_ascii(b as char),
{
    rng.sample(rand::distr::Alphanumeric)
}

/// A random name of ten ASCII letters and digits.
pub fn random_folder_name() -> (r: String)
    ensures
        r@.len() == 10,
        forall|i: int| 0 <= i < 10 ==> is_alphanumeric_ascii(#[trigger] r@[i]),
{
    let mut rng = thread_rng();
    let mut r = String::new();
    let mut k: usize = 0;
    while k < 10
        invariant
            k <= 10,
            r@.len() == k,
            forall|i: int| 0 <= i < k ==> is_alphanumeric_ascii(#[trigger] r@[i]),
        decreases 10 - k,
    {
        let b = sample_alphanumeric(&mut rng);
        push_char(&mut r, b as char);
        k += 1;
    }
    r
}

/// The files of a session, all under the resources directory.
pub struct SessionPaths {
    /// `<home>/.local/share/bunkr-uploader`
    pub resources: String,
    /// `<resources>/token.txt`
    pub token_file: String,
    /// `<resources>/logs.txt`
    pub logs_file: String,
    /// `<resources>/<folder name>`
    pub chunks_folder: String,
}

/// The resources directory under a home directory.
pub open spec fn resources_dir(home: Seq<char>) -> Seq<char> {
    home + "/.local/share/bunkr-uploader"@
}

/// The resources directory under `home`.
pub fn resources_path(home: &str) -> (r: String)
    ensures
        r@ == resources_dir(home@),
{
    joined(home, "/.local/share/bunkr-uploader")
}

impl SessionPaths {
    /// The files of a session for the home directory `home`, with chunk
    /// files kept in the folder `chunks_name`.
    pub fn new(home: &str, chunks_name: &str) -> (p: SessionPaths)
        ensures
            p.resources@ == resources_dir(home@),
            p.token_file@ == resources_dir(home@) + "/token.txt"@,
            p.logs_file@ == resources_dir(home@) + "/logs.txt"@,
            p.chunks_folder@ == resources_dir(home@) + "/"@ + chunks_name@,
    {
        let resources = resources_path(home);
        let token_file = joined(resources.as_str(), "/token.txt");
        let logs_file = joined(resources.as_str(), "/logs.txt");
        let dir = joined(resources.as_str(), "/");
        let chunks_folder = joined(dir.as_str(), chunks_name);
        SessionPaths { resources, token_file, logs_file, chunks_folder }
    }
}

/// The upload address from the JSON text of the `url` field of the
/// service's node reply: the text without its surrounding quotes.
pub fn upload_url_from_field(field_json: &str) -> (r: String)
    ensures
        r@ == without_quotes(field_json@),
{
    trim_quotes(field_json)
}

} // verus!
