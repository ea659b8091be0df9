use bunkr_uploader::chunked::{chunk_file_name, finish_endpoint, ChunkSplitter, ChunkedUpload};
use bunkr_uploader::upload::{FileInfo, CHUNK_SIZE};

fn info(size: u64) -> FileInfo {
    FileInfo { name: "movie.mkv".to_string(), size, mime_type: "video/x-matroska".to_string() }
}

fn is_uuid_v4(s: &str) -> bool {
    let b = s.as_bytes();
    b.len() == 36
        && b.iter().enumerate().all(|(i, c)| {
            if [8, 13, 18, 23].contains(&i) {
                *c == b'-'
            } else {
                c.is_ascii_digit() || (b'a'..=b'f').contains(c)
            }
        })
        && b[14] == b'4'
        && b"89ab".contains(&b[19])
}

#[test]
fn chunk_names() {
    assert_eq!(chunk_file_name(0), "chunk_0");
    assert_eq!(chunk_file_name(79), "chunk_79");
    assert_eq!(chunk_file_name(255), "chunk_255");
}

#[test]
fn splitter_numbers_chunks_until_end_of_file() {
    let mut s = ChunkSplitter::new();
    assert_eq!(s.next_chunk(100), Some("chunk_0".to_string()));
    assert_eq!(s.next_chunk(7), Some("chunk_1".to_string()));
    assert_eq!(s.next_chunk(0), None);
    assert_eq!(s.chunk_count(), 2);
}

#[test]
fn empty_file_has_no_chunks() {
    let mut s = ChunkSplitter::new();
    assert_eq!(s.next_chunk(0), None);
    assert_eq!(s.chunk_count(), 0);
}

#[test]
fn chunk_fields_describe_each_chunk() {
    let mut up = ChunkedUpload::start(info(60_000_000), 3, CHUNK_SIZE, "");
    let fields = up.chunk_fields();
    let uuid = fields[0].1.clone();
    assert!(is_uuid_v4(&uuid), "{}", uuid);
    let names: Vec<&str> = fields.iter().map(|(k, _)| k.as_str()).collect();
    assert_eq!(
        names,
        vec!["dzuuid", "dzchunkindex", "dztotalfilesize", "dzchunksize", "dztotalchunkcount", "dzchunkbyteoffset"]
    );
    assert_eq!(fields[1].1, "0");
    assert_eq!(fields[2].1, "60000000");
    assert_eq!(fields[3].1, "25000000");
    assert_eq!(fields[4].1, "3");
    assert_eq!(fields[5].1, "0");
    up.chunk_done(true);
    let fields = up.chunk_fields();
    assert_eq!(fields[0].1, uuid);
    assert_eq!(fields[1].1, "1");
    assert_eq!(fields[5].1, "25000000");
    assert_eq!(up.next_chunk_name(), "chunk_1");
}

#[test]
fn progress_follows_accepted_chunks() {
    let mut up = ChunkedUpload::start(info(60_000_000), 3, CHUNK_SIZE, "");
    assert_eq!(up.progress(), 0);
    up.chunk_done(true);
    assert_eq!(up.progress(), 25_000_000);
    up.chunk_done(false);
    assert_eq!(up.progress(), 25_000_000);
    assert!(up.has_next());
    assert_eq!(up.next_index(), 2);
    up.chunk_done(true);
    assert_eq!(up.progress(), 50_000_000);
    assert!(!up.has_next());
}

#[test]
fn progress_is_capped_at_file_size() {
    let mut up = ChunkedUpload::start(info(30_000_000), 2, CHUNK_SIZE, "");
    up.chunk_done(true);
    up.chunk_done(true);
    assert_eq!(up.progress(), 30_000_000);
}

#[test]
fn finish_fields_with_and_without_album() {
    let up = ChunkedUpload::start(info(30_000_000), 2, CHUNK_SIZE, "");
    let uuid = up.chunk_fields()[0].1.clone();
    let f = up.finish_fields();
    let expected: Vec<(String, String)> = vec![
        ("uuid".into(), uuid),
        ("original".into(), "movie.mkv".into()),
        ("type".into(), "video/x-matroska".into()),
        ("age".into(), "null".into()),
        ("filelength".into(), "null".into()),
    ];
    assert_eq!(f, expected);

    let up = ChunkedUpload::start(info(30_000_000), 2, CHUNK_SIZE, "42");
    let f = up.finish_fields();
    assert_eq!(f.len(), 6);
    assert_eq!(f[3], ("albumid".to_string(), "42".to_string()));
}

#[test]
fn uploads_get_distinct_identifiers() {
    let a = ChunkedUpload::start(info(30_000_000), 2, CHUNK_SIZE, "");
    let b = ChunkedUpload::start(info(30_000_000), 2, CHUNK_SIZE, "");
    assert_ne!(a.chunk_fields()[0].1, b.chunk_fields()[0].1);
}

#[test]
fn finish_endpoint_appends_path() {
    assert_eq!(finish_endpoint("https://up.example/api/upload"), "https://up.example/api/upload/finishchunks");
}

#[test]
fn chunk_names_never_collide() {
    let names: Vec<String> = (0..=255u8).map(chunk_file_name).collect();
    for i in 0..names.len() {
        for j in (i + 1)..names.len() {
            assert_ne!(names[i], names[j]);
        }
    }
}

#[test]
fn uploader_reads_the_chunks_the_splitter_wrote() {
    let mut s = ChunkSplitter::new();
    let mut written = Vec::new();
    for n in [25_000_000usize, 25_000_000, 10_000_000] {
        written.push(s.next_chunk(n).unwrap());
    }
    assert_eq!(s.next_chunk(0), None);
    let mut up = ChunkedUpload::start(info(60_000_000), s.chunk_count(), CHUNK_SIZE, "");
    let mut read = Vec::new();
    while up.has_next() {
        read.push(up.next_chunk_name());
        up.chunk_done(true);
    }
    assert_eq!(read, written);
    assert_eq!(up.progress(), 60_000_000);
}
