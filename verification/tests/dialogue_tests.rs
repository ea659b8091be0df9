use bunkr_uploader::album::{
    album_label, album_labels, album_listing, answers_yes, chosen_album_id, AlbumListing,
};
use bunkr_uploader::api::{Album, AlbumResponse};
use bunkr_uploader::paths::{picked_files_path, picked_paths, SubdirPolicy};
use bunkr_uploader::session::{random_folder_name, upload_url_from_field, SessionPaths};

fn albums() -> AlbumResponse {
    AlbumResponse {
        albums: vec![
            Album { id: 12, name: "Holidays".to_string() },
            Album { id: 7, name: "Work".to_string() },
        ],
    }
}

#[test]
fn yes_answers() {
    assert!(answers_yes("y\n"));
    assert!(answers_yes("  Y "));
    assert!(answers_yes("\n"));
    assert!(answers_yes(""));
    assert!(!answers_yes("n\n"));
    assert!(!answers_yes("yes"));
    assert!(!answers_yes("yy"));
}

#[test]
fn labels_show_name_and_id() {
    assert_eq!(album_label(&Album { id: 12, name: "Holidays".to_string() }), "Holidays (id: 12)");
    assert_eq!(album_labels(&albums().albums), vec!["Holidays (id: 12)", "Work (id: 7)"]);
}

#[test]
fn album_listing_offers_labels() {
    assert!(matches!(album_listing(&AlbumResponse { albums: vec![] }), AlbumListing::Empty));
    match album_listing(&albums()) {
        AlbumListing::Choose(labels) => assert_eq!(labels, vec!["Holidays (id: 12)", "Work (id: 7)"]),
        other => panic!("unexpected {:?}", other),
    }
    assert_eq!(chosen_album_id(&albums(), 1), "7");
    assert_eq!(chosen_album_id(&albums(), 0), "12");
}

#[test]
fn subdirectory_answers() {
    let mut p = SubdirPolicy::new();
    assert!(p.needs_prompt());
    assert!(p.decide("y\n"));
    assert!(p.decide("Y"));
    assert!(p.decide(""));
    assert!(!p.decide("n\n"));
    assert!(!p.decide("a"));
    assert!(p.needs_prompt());
    assert!(p.decide(" A \n"));
    assert!(!p.needs_prompt());
    assert!(p.decide(""));
    assert!(!p.needs_prompt());
}

#[test]
fn picked_files() {
    assert_eq!(picked_files_path("/h/.local/share/bunkr-uploader"), "/h/.local/share/bunkr-uploader/yazi-picked.txt");
    assert_eq!(picked_paths("/a/b.png\n/c d/e.txt\n"), vec!["/a/b.png", "/c d/e.txt"]);
    assert_eq!(picked_paths(""), Vec::<String>::new());
}

#[test]
fn session_paths_live_under_resources() {
    let p = SessionPaths::new("/home/u", "AbC123xYz0");
    assert_eq!(p.resources, "/home/u/.local/share/bunkr-uploader");
    assert_eq!(p.token_file, "/home/u/.local/share/bunkr-uploader/token.txt");
    assert_eq!(p.logs_file, "/home/u/.local/share/bunkr-uploader/logs.txt");
    assert_eq!(p.chunks_folder, "/home/u/.local/share/bunkr-uploader/AbC123xYz0");
}

#[test]
fn random_folder_names_are_alphanumeric() {
    let a = random_folder_name();
    assert_eq!(a.len(), 10);
    assert!(a.bytes().all(|b| b.is_ascii_alphanumeric()));
    let b = random_folder_name();
    assert_ne!(a, b);
}

#[test]
fn upload_url_from_json_field() {
    assert_eq!(upload_url_from_field("\"https://upload.example/api/upload\""), "https://upload.example/api/upload");
    assert_eq!(upload_url_from_field("null"), "null");
}
