//! Large files: cutting them into numbered chunk files, sending the chunks
//! with their protocol fields, and asking the service to assemble them.
use vstd::prelude::*;

use crate::text::{decimal, decimal_string, joined, owned};
use crate::upload::FileInfo;

verus! {

// ---------------------------------------------------------------------------
// Upload identifiers
// ---------------------------------------------------------------------------

/// Whether `c` is a lowercase hexadecimal digit.
pub open spec fn is_lower_hex(c: char) -> bool {
    ('0' <= c && c <= '9') || ('a' <= c && c <= 'f')
}

/// Whether `s` is the hyphenated lowercase text of a version-4 UUID:
/// 8-4-4-4-12 hex digits, version digit `4`, variant digit `8`..`b`.
pub open spec fn is_uuid_v4_text(s: Seq<char>) -> bool {
    &&& s.len() == 36
    &&& forall|i: int|
        0 <= i < 36 ==> if i == 8 || i == 13 || i == 18 || i == 23 {
            #[trigger] s[i] == '-'
        } else {
            is_lower_hex(s[i])
        }
    &&& s[14] == '4'
    &&& (s[19] == '8' || s[19] == '9' || s[19] == 'a' || s[19] == 'b')
}

/// Calls `uuid::Uuid::new_v4` and renders it with `to_string`.
/// Trusted: the text is a hyphenated lowercase version-4 UUID; its random
/// bits are not stated. `new_v4` panics if the system's random source fails.
#[verifier::external_body]
fn new_uuid_v4_text() -> (r: String)
    ensures
        is_uuid_v4_text(r@),
{
    uuid::Uuid::new_v4().to_string()
}

// ---------------------------------------------------------------------------
// Chunk files
// ---------------------------------------------------------------------------

/// The file name of chunk `i`.
pub open spec fn chunk_name(i: nat) -> Seq<char> {
    "chunk_"@ + decimal(i)
}

/// Distinct chunks have distinct file names, so no chunk file overwrites
/// another.
pub proof fn law_chunk_names_distinct(i: nat, j: nat)
    requires
        chunk_name(i) == chunk_name(j),
    ensures
        i == j,
{
    let p = "chunk_"@;
    assert(chunk_name(i).subrange(p.len() as int, chunk_name(i).len() as int) =~= decimal(i));
    assert(chunk_name(j).subrange(p.len() as int, chunk_name(j).len() as int) =~= decimal(j));
    crate::text::law_decimal_injective(i, j);
}

/// The file name of chunk `i`: `chunk_<i>`.
pub fn chunk_file_name(i: u8) -> (r: String)
    ensures
        r@ == chunk_name(i as nat),
{
    let n = decimal_string(i as u64);
    joined("chunk_", n.as_str())
}

/// Cutting a file into chunk files: each non-empty read becomes the next
/// numbered chunk, and an empty read ends the file.
pub struct ChunkSplitter {
    written: u8,
}

impl ChunkSplitter {
    pub closed spec fn written(&self) -> nat {
        self.written as nat
    }

    pub fn new() -> (s: ChunkSplitter)
        ensures
            s.written() == 0,
    {
        ChunkSplitter { written: 0 }
    }

    /// After a read of `bytes_read` bytes: the name of the chunk file to
    /// write them to, or `None` at the end of the file.
    pub fn next_chunk(&mut self, bytes_read: usize) -> (r: Option<String>)
        requires
            bytes_read > 0 ==> old(self).written() < 255,
        ensures
            bytes_read == 0 ==> r is None && final(self).written() == old(self).written(),
            bytes_read > 0 ==> (r matches Some(name) && name@ == chunk_name(old(self).written())),
            bytes_read > 0 ==> final(self).written() == old(self).written() + 1,
    {
        if bytes_read == 0 {
            None
        } else {
            let name = chunk_file_name(self.written);
            self.written = self.written + 1;
            Some(name)
        }
    }

    /// The number of chunk files written.
    pub fn chunk_count(&self) -> (n: u8)
        ensures
            n == self.written(),
    {
        self.written
    }
}

// ---------------------------------------------------------------------------
// Sending the chunks
// ---------------------------------------------------------------------------

/// The views of a list of name/value pairs.
pub open spec fn pair_views(v: Seq<(String, String)>) -> Seq<(Seq<char>, Seq<char>)> {
    v.map_values(|p: (String, String)| (p.0@, p.1@))
}

/// The form fields sent with chunk `index` of an upload.
pub open spec fn chunk_form(
    uuid: Seq<char>,
    index: nat,
    total_size: nat,
    chunk_size: nat,
    total_chunks: nat,
) -> Seq<(Seq<char>, Seq<char>)> {
    seq![
        ("dzuuid"@, uuid),
        ("dzchunkindex"@, decimal(index)),
        ("dztotalfilesize"@, decimal(total_size)),
        ("dzchunksize"@, decimal(chunk_size)),
        ("dztotalchunkcount"@, decimal(total_chunks)),
        ("dzchunkbyteoffset"@, decimal(index * chunk_size)),
    ]
}

/// The file-level fields of a chunk (upload identifier, total size, chunk
/// size, total chunk count) are the same for every chunk; only the chunk
/// index and the byte offset change, and distinct chunks carry distinct
/// indices. The total chunk count is the number of chunks of the file.
pub proof fn law_chunk_form_file_fields_fixed(
    uuid: Seq<char>,
    i: nat,
    j: nat,
    total_size: nat,
    chunk_size: nat,
    total_chunks: nat,
)
    ensures
        chunk_form(uuid, i, total_size, chunk_size, total_chunks).len() == 6,
        chunk_form(uuid, i, total_size, chunk_size, total_chunks)[0] == chunk_form(uuid, j, total_size, chunk_size, total_chunks)[0],
        chunk_form(uuid, i, total_size, chunk_size, total_chunks)[2] == chunk_form(uuid, j, total_size, chunk_size, total_chunks)[2],
        chunk_form(uuid, i, total_size, chunk_size, total_chunks)[3] == chunk_form(uuid, j, total_size, chunk_size, total_chunks)[3],
        chunk_form(uuid, i, total_size, chunk_size, total_chunks)[4] == chunk_form(uuid, j, total_size, chunk_size, total_chunks)[4],
        chunk_form(uuid, i, total_size, chunk_size, total_chunks)[0].1 == uuid,
        chunk_form(uuid, i, total_size, chunk_size, total_chunks)[2].1 == decimal(total_size),
        chunk_form(uuid, i, total_size, chunk_size, total_chunks)[3].1 == decimal(chunk_size),
        chunk_form(uuid, i, total_size, chunk_size, total_chunks)[4].1 == decimal(total_chunks),
        chunk_form(uuid, i, total_size, chunk_size, total_chunks)[1].1 == decimal(i),
        chunk_form(uuid, i, total_size, chunk_size, total_chunks)[5].1 == decimal(i * chunk_size),
        i != j ==> chunk_form(uuid, i, total_size, chunk_size, total_chunks)[1] != chunk_form(
            uuid,
            j,
            total_size,
            chunk_size,
            total_chunks,
        )[1],
{
    let a = chunk_form(uuid, i, total_size, chunk_size, total_chunks);
    let b = chunk_form(uuid, j, total_size, chunk_size, total_chunks);
    if i != j && a[1] == b[1] {
        crate::text::law_decimal_injective(i, j);
    }
}

/// The entries of the request that asks the service to assemble the file;
/// the album entry is present only when an album was chosen.
pub open spec fn finish_form(
    uuid: Seq<char>,
    name: Seq<char>,
    mime_type: Seq<char>,
    album_id: Seq<char>,
) -> Seq<(Seq<char>, Seq<char>)> {
    seq![("uuid"@, uuid), ("original"@, name), ("type"@, mime_type)] + (if album_id.len() > 0 {
        seq![("albumid"@, album_id)]
    } else {
        seq![]
    }) + seq![("age"@, "null"@), ("filelength"@, "null"@)]
}

/// The smaller of two numbers.
pub open spec fn min_nat(a: nat, b: nat) -> nat {
    if a <= b {
        a
    } else {
        b
    }
}

/// A chunked upload in progress: the file's facts, its upload identifier,
/// the next chunk to send and the progress shown to the user.
pub struct ChunkedUpload {
    uuid: String,
    name: String,
    mime_type: String,
    total_size: u64,
    chunk_size: u64,
    total_chunks: u8,
    album_id: String,
    uploaded: u64,
    next: u8,
    accepted: Ghost<nat>,
}

impl ChunkedUpload {
    pub closed spec fn uuid(&self) -> Seq<char> {
        self.uuid@
    }

    pub closed spec fn name(&self) -> Seq<char> {
        self.name@
    }

    pub closed spec fn mime_type(&self) -> Seq<char> {
        self.mime_type@
    }

    pub closed spec fn total_size(&self) -> nat {
        self.total_size as nat
    }

    pub closed spec fn chunk_size(&self) -> nat {
        self.chunk_size as nat
    }

    pub closed spec fn total_chunks(&self) -> nat {
        self.total_chunks as nat
    }

    pub closed spec fn album_id(&self) -> Seq<char> {
        self.album_id@
    }

    /// The progress shown: bytes counted as sent.
    pub closed spec fn uploaded(&self) -> nat {
        self.uploaded as nat
    }

    /// The index of the next chunk to send.
    pub closed spec fn next(&self) -> nat {
        self.next as nat
    }

    /// The number of chunks the service accepted so far.
    pub closed spec fn accepted(&self) -> nat {
        self.accepted@
    }

    /// The progress is the accepted chunks' bytes, capped at the file size.
    pub closed spec fn wf(&self) -> bool {
        &&& self.next <= self.total_chunks
        &&& self.accepted@ <= self.next
        &&& self.chunk_size <= u64::MAX / 256
        &&& self.total_size <= u64::MAX - self.chunk_size
        &&& self.uploaded == min_nat(self.accepted@ * (self.chunk_size as nat), self.total_size as nat)
    }

    /// Starts the upload of `info` in `total_chunks` chunks of `chunk_size`
    /// bytes, under a fresh upload identifier.
    pub fn start(info: FileInfo, total_chunks: u8, chunk_size: u64, album_id: &str) -> (u:
        ChunkedUpload)
        requires
            chunk_size <= u64::MAX / 256,
            info.size <= u64::MAX - chunk_size,
        ensures
            u.wf(),
            is_uuid_v4_text(u.uuid()),
            u.name() == info.name@,
            u.mime_type() == info.mime_type@,
            u.total_size() == info.size,
            u.chunk_size() == chunk_size,
            u.total_chunks() == total_chunks,
            u.album_id() == album_id@,
            u.uploaded() == 0,
            u.next() == 0,
            u.accepted() == 0,
    {
        let uuid = new_uuid_v4_text();
        ChunkedUpload {
            uuid,
            name: info.name,
            mime_type: info.mime_type,
            total_size: info.size,
            chunk_size,
            total_chunks,
            album_id: owned(album_id),
            uploaded: 0,
            next: 0,
            accepted: Ghost(0),
        }
    }

    /// Whether chunks remain to be sent.
    pub fn has_next(&self) -> (b: bool)
        ensures
            b == (self.next() < self.total_chunks()),
    {
        self.next < self.total_chunks
    }

    /// The index of the next chunk.
    pub fn next_index(&self) -> (i: u8)
        ensures
            i == self.next(),
    {
        self.next
    }

    /// The progress shown to the user.
    pub fn progress(&self) -> (p: u64)
        ensures
            p == self.uploaded(),
    {
        self.uploaded
    }

    /// The file name of the next chunk.
    pub fn next_chunk_name(&self) -> (r: String)
        ensures
            r@ == chunk_name(self.next()),
    {
        chunk_file_name(self.next)
    }

    /// The form fields to send with the next chunk.
    pub fn chunk_fields(&self) -> (r: Vec<(String, String)>)
        requires
            self.wf(),
            self.next() < self.total_chunks(),
        ensures
            pair_views(r@) == chunk_form(
                self.uuid(),
                self.next(),
                self.total_size(),
                self.chunk_size(),
                self.total_chunks(),
            ),
            r@.len() == 6,
            r@[0].0@ == "dzuuid"@ && r@[0].1@ == self.uuid(),
            r@[1].0@ == "dzchunkindex"@ && r@[1].1@ == decimal(self.next()),
            r@[2].0@ == "dztotalfilesize"@ && r@[2].1@ == decimal(self.total_size()),
            r@[3].0@ == "dzchunksize"@ && r@[3].1@ == decimal(self.chunk_size()),
            r@[4].0@ == "dztotalchunkcount"@ && r@[4].1@ == decimal(self.total_chunks()),
            r@[5].0@ == "dzchunkbyteoffset"@ && r@[5].1@ == decimal(self.next() * self.chunk_size()),
    {
        assert((self.next as u64) * self.chunk_size <= u64::MAX) by (nonlinear_arith)
            requires
                self.next < 256,
                self.chunk_size <= u64::MAX / 256,
        ;
        let offset: u64 = (self.next as u64) * self.chunk_size;
        let mut r: Vec<(String, String)> = Vec::new();
        r.push((owned("dzuuid"), self.uuid.clone()));
        r.push((owned("dzchunkindex"), decimal_string(self.next as u64)));
        r.push((owned("dztotalfilesize"), decimal_string(self.total_size)));
        r.push((owned("dzchunksize"), decimal_string(self.chunk_size)));
        r.push((owned("dztotalchunkcount"), decimal_string(self.total_chunks as u64)));
        r.push((owned("dzchunkbyteoffset"), decimal_string(offset)));
        assert(pair_views(r@) =~= chunk_form(
            self.uuid(),
            self.next(),
            self.total_size(),
            self.chunk_size(),
            self.total_chunks(),
        ));
        r
    }

    /// Records whether the service accepted the next chunk, and moves to
    /// the chunk after it. An accepted chunk advances the progress by one
    /// chunk, capped at the file size; a chunk that was missing, unreadable
    /// or refused leaves it unchanged.
    pub fn chunk_done(&mut self, accepted: bool)
        requires
            old(self).wf(),
            old(self).next() < old(self).total_chunks(),
        ensures
            final(self).wf(),
            final(self).uploaded() == min_nat(
                final(self).accepted() * final(self).chunk_size(),
                final(self).total_size(),
            ),
            final(self).next() == old(self).next() + 1,
            accepted ==> final(self).accepted() == old(self).accepted() + 1,
            !accepted ==> final(self).accepted() == old(self).accepted(),
            accepted ==> final(self).uploaded() == min_nat(
                old(self).uploaded() + old(self).chunk_size(),
                old(self).total_size(),
            ),
            !accepted ==> final(self).uploaded() == old(self).uploaded(),
            final(self).uploaded() <= final(self).total_size(),
            old(self).uploaded() <= final(self).uploaded(),
            final(self).uuid() == old(self).uuid(),
            final(self).name() == old(self).name(),
            final(self).mime_type() == old(self).mime_type(),
            final(self).total_size() == old(self).total_size(),
            final(self).chunk_size() == old(self).chunk_size(),
            final(self).total_chunks() == old(self).total_chunks(),
            final(self).album_id() == old(self).album_id(),
    {
        if accepted {
            let sum = self.uploaded + self.chunk_size;
            let capped = if sum < self.total_size {
                sum
            } else {
                self.total_size
            };
            proof {
                let a = self.accepted@;
                let c = self.chunk_size as nat;
                assert((a + 1) * c == a * c + c) by (nonlinear_arith);
            }
            self.uploaded = capped;
            self.accepted = Ghost(self.accepted@ + 1);
        }
        self.next = self.next + 1;
    }

    /// The progress always equals the bytes of the accepted chunks, capped
    /// at the file size; once the accepted chunks cover the file, the
    /// progress is the whole file.
    pub proof fn law_progress_counts_accepted_chunks(&self)
        requires
            self.wf(),
        ensures
            self.uploaded() == min_nat(self.accepted() * self.chunk_size(), self.total_size()),
            self.uploaded() <= self.total_size(),
            self.accepted() * self.chunk_size() >= self.total_size() ==> self.uploaded()
                == self.total_size(),
    {
    }

    /// The entries of the request that assembles the uploaded chunks.
    pub fn finish_fields(&self) -> (r: Vec<(String, String)>)
        ensures
            pair_views(r@) == finish_form(self.uuid(), self.name(), self.mime_type(), self.album_id()),
    {
        let mut r: Vec<(String, String)> = Vec::new();
        r.push((owned("uuid"), self.uuid.clone()));
        r.push((owned("original"), self.name.clone()));
        r.push((owned("type"), self.mime_type.clone()));
        if !self.album_id.as_str().is_empty() {
            r.push((owned("albumid"), self.album_id.clone()));
        }
        r.push((owned("age"), owned("null")));
        r.push((owned("filelength"), owned("null")));
        assert(pair_views(r@) =~= finish_form(self.uuid(), self.name(), self.mime_type(), self.album_id()));
        r
    }
}

/// The address that assembles the chunks of an upload.
pub fn finish_endpoint(upload_url: &str) -> (r: String)
    ensures
        r@ == upload_url@ + "/finishchunks"@,
{
    joined(upload_url, "/finishchunks")
}

} // verus!
