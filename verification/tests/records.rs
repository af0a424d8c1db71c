//! The record store, the content hasher, and the run-level aggregation.

use syncbops::ffmpeg_interface::SongMetaData;
use syncbops::hashing::{
    hash_file_bytes, potential_locations_for_records_of_previous_syncs,
    register_record_to_previous_sync_db, PreviousSyncDb, SyncRecord,
};
use syncbops::music_library::{MusicLibraryError, UpdateType};
use syncbops::song::Song;
use syncbops::{merge_sync_results, songs_without_album_art, summarize, PREVIOUS_SYNC_DB_FILENAME};

fn song_at(rel: &str, embedded_art: bool) -> Song {
    let metadata = SongMetaData {
        title: Some(rel.to_string()),
        bitrate_kbps: 320,
        has_embedded_album_art: embedded_art,
    };
    Song::new(
        format!("/lib/{}", rel),
        "/lib".to_string(),
        None,
        metadata,
    )
    .unwrap()
}

fn record_for(rel: &str, outcome: UpdateType, hash: Option<u64>) -> SyncRecord {
    SyncRecord::from_song(&song_at(rel, false), 5, hash).set_update_type(outcome)
}

#[test]
fn from_song_has_no_outcome_yet() {
    let r = SyncRecord::from_song(&song_at("x.mp3", false), 11, Some(9));
    assert_eq!(r.library_relative_path, "x.mp3");
    assert!(r.update_type.is_none());
    assert_eq!(r.date, 11);
    assert_eq!(r.hash, Some(9));
    let r2 = r.set_update_type(UpdateType::Copied);
    assert_eq!(r2.update_type, Some(UpdateType::Copied));
    let r3 = r2.duplicate();
    assert_eq!(r3.library_relative_path, "x.mp3");
    assert_eq!(r3.update_type, Some(UpdateType::Copied));
}

#[test]
fn register_skips_no_change() {
    let mut db = PreviousSyncDb::new();
    register_record_to_previous_sync_db(&mut db, record_for("a.mp3", UpdateType::NoChange, Some(1)));
    assert!(db.get("a.mp3").is_none());
    assert_eq!(db.len(), 0);
}

#[test]
fn register_inserts_and_overwrites() {
    let mut db = PreviousSyncDb::default();
    register_record_to_previous_sync_db(
        &mut db,
        record_for("a.mp3", UpdateType::NewTranscode, Some(1)),
    );
    register_record_to_previous_sync_db(
        &mut db,
        record_for("b.mp3", UpdateType::Copied, Some(2)),
    );
    assert_eq!(db.len(), 2);
    assert_eq!(db.get("a.mp3").unwrap().hash, Some(1));
    register_record_to_previous_sync_db(
        &mut db,
        record_for("a.mp3", UpdateType::Overwrite, Some(7)),
    );
    assert_eq!(db.len(), 2);
    let r = db.get("a.mp3").unwrap();
    assert_eq!(r.hash, Some(7));
    assert_eq!(r.update_type, Some(UpdateType::Overwrite));
    assert!(db.get("c.mp3").is_none());
    assert_eq!(db.records().len(), 2);
}

#[test]
fn merge_folds_successful_records_in() {
    let mut db = PreviousSyncDb::new();
    register_record_to_previous_sync_db(
        &mut db,
        record_for("keep.mp3", UpdateType::NewTranscode, Some(5)),
    );
    let results: Vec<Result<SyncRecord, MusicLibraryError>> = vec![
        Ok(record_for("new.mp3", UpdateType::NewTranscode, Some(1))),
        Ok(record_for("same.mp3", UpdateType::NoChange, Some(2))),
        Err(MusicLibraryError::CantHash { path: "bad.mp3".to_string() }),
        Ok(record_for("keep.mp3", UpdateType::Overwrite, Some(6))),
    ];
    merge_sync_results(&mut db, &results);
    assert_eq!(db.len(), 2);
    assert_eq!(db.get("new.mp3").unwrap().hash, Some(1));
    // The unchanged song was not persisted.
    assert!(db.get("same.mp3").is_none());
    // The failed song changed nothing; the overwritten one was updated.
    assert_eq!(db.get("keep.mp3").unwrap().hash, Some(6));
}

#[test]
fn summarize_counts_every_outcome() {
    let results: Vec<Result<SyncRecord, MusicLibraryError>> = vec![
        Ok(record_for("a", UpdateType::NoChange, None)),
        Ok(record_for("b", UpdateType::NewTranscode, None)),
        Ok(record_for("c", UpdateType::Overwrite, None)),
        Ok(record_for("d", UpdateType::ForceOverwrite, None)),
        Ok(record_for("e", UpdateType::TranscodeMissingTarget, None)),
        Ok(record_for("f", UpdateType::Copied, None)),
        Ok(record_for("g", UpdateType::NoChange, None)),
        Err(MusicLibraryError::OutputCodecNotYetImplemented),
    ];
    let s = summarize(&results);
    assert_eq!(s.n_unchanged, 2);
    assert_eq!(s.n_new, 1);
    // A forced overwrite counts with the plain ones.
    assert_eq!(s.n_overwritten, 2);
    assert_eq!(s.n_missing_target, 1);
    assert_eq!(s.n_copied, 1);
    assert_eq!(s.n_err, 1);
}

#[test]
fn candidate_locations_in_order() {
    let locs = potential_locations_for_records_of_previous_syncs(
        "/music/shadow",
        Some("/cwd"),
        Some("/home/me"),
    );
    assert_eq!(
        locs,
        vec![
            format!("/music/shadow/{}", PREVIOUS_SYNC_DB_FILENAME),
            format!("/cwd/{}", PREVIOUS_SYNC_DB_FILENAME),
            format!("/home/me/{}", PREVIOUS_SYNC_DB_FILENAME),
        ]
    );
    let locs = potential_locations_for_records_of_previous_syncs("/t", None, Some("/home/me"));
    assert_eq!(locs.len(), 2);
    assert_eq!(locs[1], format!("/home/me/{}", PREVIOUS_SYNC_DB_FILENAME));
    let locs = potential_locations_for_records_of_previous_syncs("/t", None, None);
    assert_eq!(locs, vec![format!("/t/{}", PREVIOUS_SYNC_DB_FILENAME)]);
}

#[test]
fn summarize_empty_run() {
    let results: Vec<Result<SyncRecord, MusicLibraryError>> = Vec::new();
    let s = summarize(&results);
    assert_eq!(s.n_unchanged, 0);
    assert_eq!(s.n_new, 0);
    assert_eq!(s.n_overwritten, 0);
    assert_eq!(s.n_missing_target, 0);
    assert_eq!(s.n_copied, 0);
    assert_eq!(s.n_err, 0);
}

#[test]
fn merge_into_empty_store() {
    let mut db = PreviousSyncDb::new();
    let results: Vec<Result<SyncRecord, MusicLibraryError>> = Vec::new();
    merge_sync_results(&mut db, &results);
    assert_eq!(db.len(), 0);
}

#[test]
fn hash_is_deterministic_and_content_sensitive() {
    let a = b"some file contents".to_vec();
    let b = b"some file contents!".to_vec();
    assert_eq!(hash_file_bytes(&a), hash_file_bytes(&a));
    assert_ne!(hash_file_bytes(&a), hash_file_bytes(&b));
    assert_ne!(hash_file_bytes(&a), hash_file_bytes(&Vec::new()));
}

#[test]
fn songs_without_art_filters() {
    let songs = vec![
        song_at("a.mp3", false),
        song_at("b.mp3", true),
        song_at("c.mp3", false),
    ];
    let bare = songs_without_album_art(&songs);
    let names: Vec<&str> = bare
        .iter()
        .map(|s| s.library_relative_path.as_str())
        .collect();
    assert_eq!(names, vec!["a.mp3", "c.mp3"]);
}
