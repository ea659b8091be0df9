use bunkr_uploader::api::{FinalResponse, Files};
use bunkr_uploader::upload::{
    file_info_from_outputs, finish_upload_notice, first_file_url, is_success_status, log_entry,
    plan_upload, single_upload_notice, single_upload_outcome, trimmed_output, FileInfoError,
    FileOutcome, ReplyNotice, UploadBatch, UploadPlan, UploadReport, CHUNK_SIZE, SIZE_LIMIT,
};

#[test]
fn plan_skips_logged_files_unless_forced() {
    let logs = "/home/u/pics/a.png\na.png\n";
    assert_eq!(plan_upload(logs, "pics/a.png", false, 10), UploadPlan::Skip);
    assert_eq!(plan_upload(logs, "pics/a.png", true, 10), UploadPlan::Single);
    assert_eq!(plan_upload(logs, "pics/b.png", false, 10), UploadPlan::Single);
}

#[test]
fn plan_by_size() {
    assert_eq!(plan_upload("", "f", false, 0), UploadPlan::Single);
    assert_eq!(plan_upload("", "f", false, CHUNK_SIZE - 1), UploadPlan::Single);
    assert_eq!(plan_upload("", "f", false, CHUNK_SIZE), UploadPlan::Chunked);
    assert_eq!(plan_upload("", "f", false, SIZE_LIMIT), UploadPlan::Chunked);
    assert_eq!(plan_upload("", "f", false, SIZE_LIMIT + 1), UploadPlan::TooLarge);
    assert_eq!(plan_upload("f", "f", false, SIZE_LIMIT + 1), UploadPlan::Skip);
}

#[test]
fn file_info_from_command_outputs() {
    let info = file_info_from_outputs(b"photo.jpg\n", b"12345\n", b"image/jpeg\n").unwrap();
    assert_eq!(info.name, "photo.jpg");
    assert_eq!(info.size, 12345);
    assert_eq!(info.mime_type, "image/jpeg");
}

#[test]
fn file_info_errors_in_order() {
    assert_eq!(
        file_info_from_outputs(b"\xff", b"x", b"\xff").unwrap_err(),
        FileInfoError::NameNotUtf8
    );
    assert_eq!(
        file_info_from_outputs(b"a", b"\xff", b"\xff").unwrap_err(),
        FileInfoError::SizeNotUtf8
    );
    assert_eq!(
        file_info_from_outputs(b"a", b"", b"\xff").unwrap_err(),
        FileInfoError::SizeNotNumber
    );
    assert_eq!(
        file_info_from_outputs(b"a", b"-3", b"x").unwrap_err(),
        FileInfoError::SizeNotNumber
    );
    assert_eq!(
        file_info_from_outputs(b"a", b"3", b"\xc3").unwrap_err(),
        FileInfoError::MimeNotUtf8
    );
}

#[test]
fn trimmed_output_decodes_utf8() {
    assert_eq!(trimmed_output("  é \n".as_bytes()), Some("é".to_string()));
    assert_eq!(trimmed_output(&[0xe9]), None);
}

#[test]
fn batch_counts_add_up() {
    let mut batch = UploadBatch::new(5);
    batch.record(FileOutcome::Skipped);
    batch.record(FileOutcome::Uploaded("https://a".to_string()));
    batch.record(FileOutcome::TooLarge);
    batch.record(FileOutcome::Failed);
    assert!(!batch.is_finished());
    batch.record(FileOutcome::Uploaded("https://b".to_string()));
    assert!(batch.is_finished());
    assert_eq!(batch.report(), UploadReport { success: 2, skipped: 1, failed: 2 });
    assert_eq!(batch.direct_urls(), &vec!["https://a".to_string(), "https://b".to_string()]);
    assert_eq!(batch.skipped_count(), 1);
    let (urls, skipped) = batch.into_parts();
    assert_eq!(urls.len(), 2);
    assert_eq!(skipped, 1);
}

#[test]
fn empty_batch_reports_nothing() {
    let batch = UploadBatch::new(0);
    assert!(batch.is_finished());
    assert_eq!(batch.report(), UploadReport { success: 0, skipped: 0, failed: 0 });
}

#[test]
fn unfinished_batch_counts_the_rest_as_failed() {
    let mut batch = UploadBatch::new(3);
    batch.record(FileOutcome::Skipped);
    assert_eq!(batch.report(), UploadReport { success: 0, skipped: 1, failed: 2 });
}

#[test]
fn single_upload_keeps_non_empty_links() {
    assert!(matches!(single_upload_outcome(String::new()), FileOutcome::Failed));
    match single_upload_outcome("https://x/y".to_string()) {
        FileOutcome::Uploaded(u) => assert_eq!(u, "https://x/y"),
        _ => panic!("expected an uploaded outcome"),
    }
}

#[test]
fn reply_notices() {
    assert!(is_success_status(200));
    assert!(is_success_status(299));
    assert!(!is_success_status(300));
    assert!(!is_success_status(199));
    assert_eq!(single_upload_notice(200), ReplyNotice { failed: false, rate_limited: false });
    assert_eq!(single_upload_notice(201), ReplyNotice { failed: true, rate_limited: false });
    assert_eq!(single_upload_notice(500), ReplyNotice { failed: true, rate_limited: true });
    assert_eq!(finish_upload_notice(201), ReplyNotice { failed: false, rate_limited: false });
    assert_eq!(finish_upload_notice(404), ReplyNotice { failed: true, rate_limited: false });
    assert_eq!(finish_upload_notice(500), ReplyNotice { failed: true, rate_limited: true });
}

#[test]
fn first_file_url_takes_the_first() {
    let resp = FinalResponse {
        files: vec![Files { url: "https://i/1".to_string() }, Files { url: "https://i/2".to_string() }],
    };
    assert_eq!(first_file_url(&resp), "https://i/1");
}

#[test]
fn log_entry_has_path_then_name() {
    assert_eq!(log_entry("/home/u/a.png", "a.png"), "/home/u/a.png\na.png\n");
}
