//! The upload of a batch of files: which files are sent and how, the
//! chunked protocol for large files, and the accounting of the batch.
use vstd::prelude::*;
use vstd::utf8::*;

use crate::api::FinalResponse;
use crate::encoding::str_from_utf8;
use crate::text::{
    contains, joined, occurs_in, owned, parse_u64, parse_u64_spec, push_char, string_views, trim, trimmed,
};

verus! {

/// Files larger than this many bytes are refused.
pub const SIZE_LIMIT: u64 = 2_000_000_000;

/// Files at least this large are sent in chunks of this many bytes.
pub const CHUNK_SIZE: u64 = 25_000_000;

// ---------------------------------------------------------------------------
// File facts
// ---------------------------------------------------------------------------

/// Name, size in bytes and MIME type of a file to upload.
#[derive(Debug, Clone)]
pub struct FileInfo {
    pub name: String,
    pub size: u64,
    pub mime_type: String,
}

/// Why the outputs of `basename`, `stat -c%s` and `file --mime-type -b`
/// could not be read as a file's facts.
#[derive(Debug, Clone, Copy, PartialEq, Eq, Structural)]
pub enum FileInfoError {
    NameNotUtf8,
    SizeNotUtf8,
    SizeNotNumber,
    MimeNotUtf8,
}

/// A command's output as text, trimmed; `None` when it is not UTF-8.
pub open spec fn output_text(bytes: Seq<u8>) -> Option<Seq<char>> {
    if valid_utf8(bytes) {
        Some(trimmed(decode_utf8(bytes)))
    } else {
        None
    }
}

/// Name, size and MIME type read from the three command outputs, checked
/// in that order.
pub open spec fn file_info_spec(name_out: Seq<u8>, size_out: Seq<u8>, mime_out: Seq<u8>) -> Result<
    (Seq<char>, u64, Seq<char>),
    FileInfoError,
> {
    match output_text(name_out) {
        None => Err(FileInfoError::NameNotUtf8),
        Some(name) => match output_text(size_out) {
            None => Err(FileInfoError::SizeNotUtf8),
            Some(size_text) => match parse_u64_spec(size_text) {
                None => Err(FileInfoError::SizeNotNumber),
                Some(size) => match output_text(mime_out) {
                    None => Err(FileInfoError::MimeNotUtf8),
                    Some(mime) => Ok((name, size, mime)),
                },
            },
        },
    }
}

/// A command's output as trimmed text.
pub fn trimmed_output(bytes: &[u8]) -> (r: Option<String>)
    ensures
        r is Some <==> output_text(bytes@) is Some,
        r matches Some(s) ==> output_text(bytes@) == Some(s@),
{
    match str_from_utf8(bytes) {
        Some(s) => Some(trim(s)),
        None => None,
    }
}

/// The facts of a file from the outputs of `basename <path>`,
/// `stat -c%s <path>` and `file --mime-type -b <path>`.
pub fn file_info_from_outputs(name_out: &[u8], size_out: &[u8], mime_out: &[u8]) -> (r: Result<
    FileInfo,
    FileInfoError,
>)
    ensures
        match r {
            Ok(info) => file_info_spec(name_out@, size_out@, mime_out@) == Ok::<
                (Seq<char>, u64, Seq<char>),
                FileInfoError,
            >((info.name@, info.size, info.mime_type@)),
            Err(e) => file_info_spec(name_out@, size_out@, mime_out@) == Err::<
                (Seq<char>, u64, Seq<char>),
                FileInfoError,
            >(e),
        },
        r matches Ok(info) ==> valid_utf8(name_out@) && info.name@ == trimmed(decode_utf8(name_out@)),
        r matches Ok(info) ==> valid_utf8(size_out@) && Some(info.size) == parse_u64_spec(
            trimmed(decode_utf8(size_out@)),
        ),
        r matches Ok(info) ==> valid_utf8(mime_out@) && info.mime_type@ == trimmed(
            decode_utf8(mime_out@),
        ),
        r is Ok <==> (valid_utf8(name_out@) && valid_utf8(size_out@) && parse_u64_spec(
            trimmed(decode_utf8(size_out@)),
        ) is Some && valid_utf8(mime_out@)),
{
    let name = match trimmed_output(name_out) {
        Some(n) => n,
        None => return Err(FileInfoError::NameNotUtf8),
    };
    let size_text = match trimmed_output(size_out) {
        Some(t) => t,
        None => return Err(FileInfoError::SizeNotUtf8),
    };
    let size = match parse_u64(size_text.as_str()) {
        Some(n) => n,
        None => return Err(FileInfoError::SizeNotNumber),
    };
    let mime_type = match trimmed_output(mime_out) {
        Some(m) => m,
        None => return Err(FileInfoError::MimeNotUtf8),
    };
    Ok(FileInfo { name, size, mime_type })
}

/// The size read from the outputs is exactly the number `stat` printed
/// (after trimming), never a truncated or altered one, and the name and MIME
/// type are the trimmed outputs; reading fails exactly when an output is not
/// UTF-8 or the size is not a `u64`.
pub proof fn law_file_info_is_command_output(name_out: Seq<u8>, size_out: Seq<u8>, mime_out: Seq<u8>)
    ensures
        file_info_spec(name_out, size_out, mime_out) matches Ok((name, size, mime)) ==> {
            &&& valid_utf8(size_out)
            &&& parse_u64_spec(trimmed(decode_utf8(size_out))) == Some(size)
            &&& valid_utf8(name_out) && name == trimmed(decode_utf8(name_out))
            &&& valid_utf8(mime_out) && mime == trimmed(decode_utf8(mime_out))
        },
        file_info_spec(name_out, size_out, mime_out) is Ok <==> (valid_utf8(name_out) && valid_utf8(
            size_out,
        ) && parse_u64_spec(trimmed(decode_utf8(size_out))) is Some && valid_utf8(mime_out)),
{
}

// ---------------------------------------------------------------------------
// Choosing how to send a file
// ---------------------------------------------------------------------------

/// How a file of the batch is handled.
#[derive(Debug, Clone, Copy, PartialEq, Eq, Structural)]
pub enum UploadPlan {
    /// The log already names the file and the upload is not forced.
    Skip,
    /// The file is larger than `SIZE_LIMIT`.
    TooLarge,
    /// The file is sent in one request.
    Single,
    /// The file is sent in chunks of `CHUNK_SIZE` bytes.
    Chunked,
}

/// The plan for a file whose path reads `path`, given the upload log.
pub open spec fn plan_for(logs: Seq<char>, path: Seq<char>, force: bool, size: u64) -> UploadPlan {
    if occurs_in(logs, path) && !force {
        UploadPlan::Skip
    } else if size > SIZE_LIMIT {
        UploadPlan::TooLarge
    } else if size < CHUNK_SIZE {
        UploadPlan::Single
    } else {
        UploadPlan::Chunked
    }
}

/// A file is skipped exactly when the log names its path and the upload is
/// not forced; every other file is judged by its size alone: refused above
/// `SIZE_LIMIT`, one request below `CHUNK_SIZE`, chunks in between. In
/// particular a path the log does not name is never skipped, and a file
/// above the limit is never sent.
pub proof fn law_plan_skips_only_logged_unforced_files(
    logs: Seq<char>,
    path: Seq<char>,
    force: bool,
    size: u64,
)
    ensures
        plan_for(logs, path, force, size) is Skip <==> (occurs_in(logs, path) && !force),
        !occurs_in(logs, path) ==> !(plan_for(logs, path, force, size) is Skip),
        force ==> !(plan_for(logs, path, force, size) is Skip),
        !(plan_for(logs, path, force, size) is Skip) ==> plan_for(logs, path, force, size)
            == plan_for(logs, path, true, size),
        plan_for(logs, path, force, size) is Single ==> size < CHUNK_SIZE,
        plan_for(logs, path, force, size) is Chunked ==> CHUNK_SIZE <= size && size <= SIZE_LIMIT,
        plan_for(logs, path, force, size) is TooLarge ==> size > SIZE_LIMIT,
        size > SIZE_LIMIT ==> !(plan_for(logs, path, force, size) is Single) && !(plan_for(
            logs,
            path,
            force,
            size,
        ) is Chunked),
{
}

/// Decides how to handle a file: skip it when the upload log already
/// mentions its path (unless forced), refuse it above 2 GB, send it in one
/// request below one chunk, and in chunks otherwise.
pub fn plan_upload(logs_contents: &str, file_path: &str, force_upload: bool, size: u64) -> (p:
    UploadPlan)
    ensures
        p == plan_for(logs_contents@, file_path@, force_upload, size),
        p is Skip <==> (occurs_in(logs_contents@, file_path@) && !force_upload),
        p is TooLarge <==> (!(occurs_in(logs_contents@, file_path@) && !force_upload) && size
            > SIZE_LIMIT),
        p is Single <==> (!(occurs_in(logs_contents@, file_path@) && !force_upload) && size
            < CHUNK_SIZE),
        p is Chunked <==> (!(occurs_in(logs_contents@, file_path@) && !force_upload) && CHUNK_SIZE
            <= size && size <= SIZE_LIMIT),
{
    if contains(logs_contents, file_path) && !force_upload {
        UploadPlan::Skip
    } else if size > SIZE_LIMIT {
        UploadPlan::TooLarge
    } else if size < CHUNK_SIZE {
        UploadPlan::Single
    } else {
        UploadPlan::Chunked
    }
}

// ---------------------------------------------------------------------------
// The batch
// ---------------------------------------------------------------------------

/// What became of one file of the batch.
#[derive(Debug, Clone)]
pub enum FileOutcome {
    /// Left out because the upload log already names it.
    Skipped,
    /// Refused for being larger than `SIZE_LIMIT`.
    TooLarge,
    /// Sent without obtaining a link, or not sent at all.
    Failed,
    /// Sent; the service gave this link.
    Uploaded(String),
}

/// The outcome of a one-request upload whose reply names `url`: the link
/// is kept only when it is not empty.
pub fn single_upload_outcome(url: String) -> (o: FileOutcome)
    ensures
        url@.len() == 0 ==> o is Failed,
        url@.len() > 0 ==> o == FileOutcome::Uploaded(url),
{
    if url.as_str().is_empty() {
        FileOutcome::Failed
    } else {
        FileOutcome::Uploaded(url)
    }
}

/// The counts printed at the end of a batch.
#[derive(Debug, Clone, Copy, PartialEq, Eq, Structural)]
pub struct UploadReport {
    pub success: usize,
    pub skipped: usize,
    pub failed: usize,
}

/// The state of a batch: how many files it has, how many have been dealt
/// with, the links obtained so far and how many files were skipped.
pub struct UploadBatch {
    total: usize,
    examined: usize,
    urls: Vec<String>,
    skipped: usize,
}

impl UploadBatch {
    pub closed spec fn total(&self) -> nat {
        self.total as nat
    }

    pub closed spec fn examined(&self) -> nat {
        self.examined as nat
    }

    pub closed spec fn urls(&self) -> Seq<Seq<char>> {
        string_views(self.urls@)
    }

    pub closed spec fn skipped(&self) -> nat {
        self.skipped as nat
    }

    /// Every link and every skip belongs to a distinct file dealt with.
    pub closed spec fn wf(&self) -> bool {
        &&& self.examined <= self.total
        &&& self.urls@.len() + self.skipped <= self.examined
    }

    /// A batch of `total` files, none dealt with yet.
    pub fn new(total: usize) -> (b: UploadBatch)
        ensures
            b.wf(),
            b.total() == total,
            b.examined() == 0,
            b.urls() == Seq::<Seq<char>>::empty(),
            b.skipped() == 0,
    {
        let b = UploadBatch { total, examined: 0, urls: Vec::new(), skipped: 0 };
        assert(b.urls() =~= Seq::<Seq<char>>::empty());
        b
    }

    /// Whether every file has been dealt with.
    pub fn is_finished(&self) -> (f: bool)
        ensures
            f == (self.examined() == self.total()),
    {
        self.examined == self.total
    }

    /// Records what became of the next file.
    pub fn record(&mut self, outcome: FileOutcome)
        requires
            old(self).wf(),
            old(self).examined() < old(self).total(),
        ensures
            final(self).wf(),
            final(self).total() == old(self).total(),
            final(self).examined() == old(self).examined() + 1,
            outcome is Skipped ==> final(self).skipped() == old(self).skipped() + 1,
            !(outcome is Skipped) ==> final(self).skipped() == old(self).skipped(),
            outcome matches FileOutcome::Uploaded(url) ==> final(self).urls() == old(self).urls().push(url@),
            !(outcome is Uploaded) ==> final(self).urls() == old(self).urls(),
    {
        let ghost before = self.urls@;
        match outcome {
            FileOutcome::Skipped => {
                self.skipped = self.skipped + 1;
            },
            FileOutcome::Uploaded(url) => {
                self.urls.push(url);
                assert(string_views(self.urls@) =~= string_views(before).push(
                    self.urls@.last()@,
                ));
            },
            _ => {},
        }
        self.examined = self.examined + 1;
    }

    /// The links obtained so far, in the order of the files.
    pub fn direct_urls(&self) -> (r: &Vec<String>)
        ensures
            string_views(r@) == self.urls(),
    {
        &self.urls
    }

    /// The number of files skipped so far.
    pub fn skipped_count(&self) -> (n: usize)
        ensures
            n == self.skipped(),
    {
        self.skipped
    }

    /// The counts of the batch: every file is a success, a skip or a
    /// failure, and the three add up to the number of files.
    pub fn report(&self) -> (r: UploadReport)
        requires
            self.wf(),
        ensures
            r.success == self.urls().len(),
            r.skipped == self.skipped(),
            r.failed == self.total() - (self.urls().len() + self.skipped()),
            r.success + r.skipped + r.failed == self.total(),
    {
        let success = self.urls.len();
        UploadReport { success, skipped: self.skipped, failed: self.total - (success + self.skipped) }
    }

    /// The links and the number of skipped files.
    pub fn into_parts(self) -> (r: (Vec<String>, usize))
        ensures
            string_views(r.0@) == self.urls(),
            r.1 == self.skipped(),
    {
        (self.urls, self.skipped)
    }
}

// ---------------------------------------------------------------------------
// Replies and the upload log
// ---------------------------------------------------------------------------

/// Whether an HTTP status is a success (`200..=299`).
pub fn is_success_status(status: u16) -> (b: bool)
    ensures
        b == (200 <= status && status <= 299),
{
    200 <= status && status <= 299
}

/// The warnings owed for an upload reply.
#[derive(Debug, Clone, Copy, PartialEq, Eq, Structural)]
pub struct ReplyNotice {
    /// The upload is reported as failed.
    pub failed: bool,
    /// The service is rate limiting the account (status 500).
    pub rate_limited: bool,
}

/// Warnings for the reply to a one-request upload: anything but 200 is
/// reported as a failure.
pub fn single_upload_notice(status: u16) -> (n: ReplyNotice)
    ensures
        n.failed == (status != 200),
        n.rate_limited == (status == 500),
{
    ReplyNotice { failed: status != 200, rate_limited: status == 500 }
}

/// Warnings for the reply that assembles a chunked upload: any status
/// outside `200..=299` is reported as a failure.
pub fn finish_upload_notice(status: u16) -> (n: ReplyNotice)
    ensures
        n.failed == !(200 <= status && status <= 299),
        n.rate_limited == (status == 500),
{
    ReplyNotice { failed: !is_success_status(status), rate_limited: status == 500 }
}

/// The link of the first stored file of an upload reply.
pub fn first_file_url(resp: &FinalResponse) -> (url: String)
    requires
        resp.files.len() > 0,
    ensures
        url@ == resp.files[0].url@,
{
    resp.files[0].url.clone()
}

/// The two lines appended to the upload log for an uploaded file: its full
/// path, then its name.
pub open spec fn log_entry_text(full_path: Seq<char>, name: Seq<char>) -> Seq<char> {
    full_path + seq!['\n'] + name + seq!['\n']
}

/// The text appended to the upload log once a file is uploaded.
pub fn log_entry(full_path: &str, name: &str) -> (r: String)
    ensures
        r@ == log_entry_text(full_path@, name@),
{
    let mut r = owned(full_path);
    push_char(&mut r, '\n');
    let mut r = joined(r.as_str(), name);
    push_char(&mut r, '\n');
    r
}

} // verus!
