//! The change detector and the per-song sync plan, on concrete scenarios.

use syncbops::ffmpeg_interface::SongMetaData;
use syncbops::hashing::{register_record_to_previous_sync_db, PreviousSyncDb, SyncRecord};
use syncbops::music_library::{ArtStrategy, MusicFileType, UpdateType};
use syncbops::song::Song;
use syncbops::sync_song::{
    compare_files_on_metadata, detect_before_probe, has_music_file_changed, plan_sync,
    resolve_art_embedding, sync_song_plan, DetectDecision, SyncAction, TargetProbe,
};

fn track_flac() -> Song {
    let metadata = SongMetaData {
        title: Some("track".to_string()),
        bitrate_kbps: 1000,
        has_embedded_album_art: true,
    };
    Song::new(
        "/lib/track.flac".to_string(),
        "/lib".to_string(),
        None,
        metadata,
    )
    .unwrap()
}

#[test]
fn song_new_keeps_fields() {
    let song = track_flac();
    assert_eq!(song.absolute_path, "/lib/track.flac");
    assert_eq!(song.library_relative_path, "track.flac");
    assert!(song.external_album_art.is_none());
    assert_eq!(song.metadata.bitrate_kbps, 1000);
}

#[test]
fn song_new_debug_uses_parent_directory() {
    let metadata = SongMetaData {
        title: None,
        bitrate_kbps: 128,
        has_embedded_album_art: false,
    };
    let song = Song::new_debug("/tmp/songs/a.mp3".to_string(), None, metadata).unwrap();
    assert_eq!(song.library_relative_path, "a.mp3");
}

/// Source "track.flac" with embedded art, previous record absent, target
/// library empty, strategy prefers a dedicated file, encoding well below
/// the source bitrate: a fresh transcode with art embedded.
#[test]
fn example_first_sync_of_new_track() {
    let song = track_flac();
    let embed = resolve_art_embedding(ArtStrategy::PreferFile, &song);
    assert!(embed);
    let outcome = has_music_file_changed(
        &song,
        Some(42),
        None,
        false,
        &TargetProbe::FileDoesNotExist,
        embed,
        60,
    );
    assert_eq!(outcome, UpdateType::NewTranscode);
}

/// The same track on a second run with no changes and the record now
/// present with a matching hash: no change, and nothing to execute.
#[test]
fn example_second_sync_no_change() {
    let song = track_flac();
    let mut db = PreviousSyncDb::new();
    let record = SyncRecord::from_song(&song, 1000, Some(42))
        .set_update_type(UpdateType::NewTranscode);
    register_record_to_previous_sync_db(&mut db, record);
    let outcome = has_music_file_changed(
        &song,
        Some(42),
        Some(&db),
        true,
        &TargetProbe::Failed,
        true,
        60,
    );
    assert_eq!(outcome, UpdateType::NoChange);
    let plan = plan_sync(outcome, false, true);
    assert_eq!(plan.action, SyncAction::DoNothing);
    assert_eq!(plan.outcome, UpdateType::NoChange);
}

/// The target file was manually deleted between runs while the record
/// stayed: the missing target is detected.
#[test]
fn example_target_deleted_between_runs() {
    let song = track_flac();
    let mut db = PreviousSyncDb::new();
    let record = SyncRecord::from_song(&song, 1000, Some(42))
        .set_update_type(UpdateType::NewTranscode);
    register_record_to_previous_sync_db(&mut db, record);
    let outcome = has_music_file_changed(
        &song,
        Some(42),
        Some(&db),
        false,
        &TargetProbe::FileDoesNotExist,
        true,
        60,
    );
    assert_eq!(outcome, UpdateType::TranscodeMissingTarget);
}

#[test]
fn changed_hash_overwrites() {
    let song = track_flac();
    let mut db = PreviousSyncDb::new();
    let record = SyncRecord::from_song(&song, 1000, Some(42))
        .set_update_type(UpdateType::NewTranscode);
    register_record_to_previous_sync_db(&mut db, record);
    let outcome = has_music_file_changed(
        &song,
        Some(43),
        Some(&db),
        true,
        &TargetProbe::Failed,
        true,
        60,
    );
    assert_eq!(outcome, UpdateType::Overwrite);
}

#[test]
fn record_without_hash_overwrites() {
    let song = track_flac();
    let mut db = PreviousSyncDb::new();
    let record = SyncRecord::from_song(&song, 1000, None).set_update_type(UpdateType::Overwrite);
    register_record_to_previous_sync_db(&mut db, record);
    let outcome = has_music_file_changed(
        &song,
        Some(42),
        Some(&db),
        true,
        &TargetProbe::Failed,
        true,
        60,
    );
    assert_eq!(outcome, UpdateType::Overwrite);
}

#[test]
fn low_bitrate_new_song_is_copied() {
    let mut song = track_flac();
    song.metadata.bitrate_kbps = 48;
    let outcome = has_music_file_changed(
        &song,
        Some(42),
        None,
        false,
        &TargetProbe::FileDoesNotExist,
        true,
        60,
    );
    assert_eq!(outcome, UpdateType::Copied);
}

/// When hashing fails, the detector falls back to comparing metadata,
/// even when a record exists.
#[test]
fn hash_failure_falls_back_to_metadata() {
    let song = track_flac();
    let matching = SongMetaData {
        title: Some("track".to_string()),
        bitrate_kbps: 60,
        has_embedded_album_art: true,
    };
    let outcome = has_music_file_changed(
        &song,
        None,
        None,
        true,
        &TargetProbe::Metadata(matching),
        true,
        60,
    );
    assert_eq!(outcome, UpdateType::NoChange);

    let differing = SongMetaData {
        title: Some("another".to_string()),
        bitrate_kbps: 60,
        has_embedded_album_art: true,
    };
    let outcome = has_music_file_changed(
        &song,
        None,
        None,
        true,
        &TargetProbe::Metadata(differing),
        true,
        60,
    );
    assert_eq!(outcome, UpdateType::Overwrite);
}

#[test]
fn art_mismatch_overwrites() {
    let song = track_flac();
    let target_md = SongMetaData {
        title: Some("track".to_string()),
        bitrate_kbps: 60,
        has_embedded_album_art: false,
    };
    let outcome = has_music_file_changed(
        &song,
        Some(7),
        None,
        true,
        &TargetProbe::Metadata(target_md),
        true,
        60,
    );
    assert_eq!(outcome, UpdateType::Overwrite);
}

#[test]
fn unreadable_target_overwrites() {
    let song = track_flac();
    let outcome = compare_files_on_metadata(&song, &TargetProbe::Failed, true, 60);
    assert_eq!(outcome, UpdateType::Overwrite);
}

#[test]
fn detect_before_probe_decides_without_probe() {
    let song = track_flac();
    let d = detect_before_probe(&song, Some(42), None, false, 60);
    assert_eq!(d, DetectDecision::Decided(UpdateType::NewTranscode));
    let d = detect_before_probe(&song, Some(42), None, true, 60);
    assert_eq!(d, DetectDecision::NeedsTargetProbe);
    let d = detect_before_probe(&song, None, None, false, 60);
    assert_eq!(d, DetectDecision::NeedsTargetProbe);
}

#[test]
fn force_upgrades_no_change() {
    let plan = plan_sync(UpdateType::NoChange, true, false);
    assert_eq!(plan.outcome, UpdateType::ForceOverwrite);
    assert_eq!(plan.action, SyncAction::Transcode { embed_art: false });
}

#[test]
fn copied_outcome_copies() {
    let plan = plan_sync(UpdateType::Copied, false, true);
    assert_eq!(plan.outcome, UpdateType::Copied);
    assert_eq!(plan.action, SyncAction::CopyFile);
}

#[test]
fn other_outcomes_transcode() {
    let plan = plan_sync(UpdateType::Overwrite, false, true);
    assert_eq!(plan.outcome, UpdateType::Overwrite);
    assert_eq!(plan.action, SyncAction::Transcode { embed_art: true });
    let plan = plan_sync(UpdateType::TranscodeMissingTarget, true, false);
    assert_eq!(plan.outcome, UpdateType::TranscodeMissingTarget);
    assert_eq!(plan.action, SyncAction::Transcode { embed_art: false });
}

#[test]
fn sync_song_plan_composes() {
    let song = track_flac();
    let plan = sync_song_plan(
        &song,
        "/target",
        &MusicFileType::Mp3CBR { bitrate: 60 },
        ArtStrategy::PreferFile,
        None,
        false,
        Some(42),
        false,
        &TargetProbe::FileDoesNotExist,
        777,
    );
    assert_eq!(plan.shadow, "/target/track.mp3");
    assert_eq!(plan.action, SyncAction::Transcode { embed_art: true });
    assert_eq!(plan.record.update_type, Some(UpdateType::NewTranscode));
    assert_eq!(plan.record.library_relative_path, "track.flac");
    assert_eq!(plan.record.hash, Some(42));
    assert_eq!(plan.record.date, 777);
}
