//! The central decision procedure of a synchronisation run.
//!
//! Given a song, the evidence gathered about it (its content hash, whether
//! its shadow copy exists, what the shadow's metadata says), and the
//! records of the previous run, the functions here decide which
//! [`UpdateType`] outcome applies and what is to be done about it.  They
//! are pure: the caller gathers the evidence and performs the work.

use crate::ffmpeg_interface::{SongMetaData, SongMetaDataView};
use crate::hashing::{PreviousSyncDb, SyncRecord, SyncRecordView};
use crate::music_library::{
    get_shadow_filename, spec_equivalent_bitrate, spec_music_file_type_valid,
    spec_shadow_filename, ArtStrategy, MusicFileType, UpdateType,
};
use crate::song::{Song, SongView};
use vstd::prelude::*;

verus! {

/// What probing the target file's metadata reported.
#[derive(Debug)]
pub enum TargetProbe {
    /// The target exists and its metadata could be read.
    Metadata(SongMetaData),
    /// The target file does not exist.
    FileDoesNotExist,
    /// The target exists but its metadata could not be read.
    Failed,
}

/// The mathematical content of a [`TargetProbe`].
pub enum TargetProbeView {
    Metadata(SongMetaDataView),
    FileDoesNotExist,
    Failed,
}

impl View for TargetProbe {
    type V = TargetProbeView;

    open spec fn view(&self) -> TargetProbeView {
        match self {
            TargetProbe::Metadata(md) => TargetProbeView::Metadata(md@),
            TargetProbe::FileDoesNotExist => TargetProbeView::FileDoesNotExist,
            TargetProbe::Failed => TargetProbeView::Failed,
        }
    }
}

/// Whether the song's art sources and the strategy call for embedding art
/// in the target: the entire art resolution policy.
pub open spec fn spec_resolve_art_embedding(strategy: ArtStrategy, has_external_art: bool) -> bool {
    match strategy {
        ArtStrategy::NoArt => false,
        ArtStrategy::EmbedAll => true,
        ArtStrategy::PreferFile => !has_external_art,
        ArtStrategy::FileOnly => false,
    }
}

/// Decides whether album art is to be embedded in the song's target file.
pub fn resolve_art_embedding(strategy: ArtStrategy, song: &Song) -> (r: bool)
    ensures
        r == spec_resolve_art_embedding(strategy, song@.external_album_art is Some),
{
    match strategy {
        ArtStrategy::NoArt => false,
        ArtStrategy::EmbedAll => true,
        ArtStrategy::PreferFile => song.external_album_art.is_none(),
        ArtStrategy::FileOnly => false,
    }
}

/// The copy-versus-transcode choice: a source whose bitrate is already
/// below the requested one is copied verbatim rather than re-encoded;
/// otherwise the given outcome applies.
pub open spec fn spec_transcode_or_copy(
    source_bitrate: u32,
    desired_bitrate: u32,
    if_transcode: UpdateType,
) -> UpdateType {
    if source_bitrate < desired_bitrate {
        UpdateType::Copied
    } else {
        if_transcode
    }
}

/// The metadata-comparison fallback: what the detector decides from the
/// target's probed metadata when no hash-and-record shortcut applied.
pub open spec fn spec_compare_on_metadata(
    source: SongMetaDataView,
    want_embedded_album_art: bool,
    desired_bitrate: u32,
    probe: TargetProbeView,
) -> UpdateType {
    match probe {
        TargetProbeView::FileDoesNotExist => spec_transcode_or_copy(
            source.bitrate_kbps,
            desired_bitrate,
            UpdateType::NewTranscode,
        ),
        TargetProbeView::Metadata(target) => if source.title == target.title
            && want_embedded_album_art == target.has_embedded_album_art {
            UpdateType::NoChange
        } else {
            spec_transcode_or_copy(source.bitrate_kbps, desired_bitrate, UpdateType::Overwrite)
        },
        TargetProbeView::Failed => UpdateType::Overwrite,
    }
}

/// The full change-detection decision, layered in priority order:
///
/// 1. when the source could not be hashed, fall through to the metadata
///    comparison;
/// 2. when the records hold an entry for the song: a missing target means
///    the transcoded copy vanished, a matching stored hash means no
///    change, and anything else means the source changed;
/// 3. when the song is new to the records and the target is missing, it is
///    transcoded or copied afresh, depending on its bitrate;
/// 4. otherwise the target's own metadata decides.
pub open spec fn spec_detect(
    song: SongView,
    source_hash: Option<u64>,
    previous_db: Option<Map<Seq<char>, SyncRecordView>>,
    target_exists: bool,
    want_embedded_album_art: bool,
    desired_bitrate: u32,
    probe: TargetProbeView,
) -> UpdateType {
    match source_hash {
        Option::Some(h) => {
            if spec_db_has_record(previous_db, song.library_relative_path) {
                let record = previous_db.unwrap()[song.library_relative_path];
                if !target_exists {
                    UpdateType::TranscodeMissingTarget
                } else {
                    match record.hash {
                        Option::Some(stored) => if stored == h {
                            UpdateType::NoChange
                        } else {
                            UpdateType::Overwrite
                        },
                        Option::None => UpdateType::Overwrite,
                    }
                }
            } else if !target_exists {
                spec_transcode_or_copy(
                    song.metadata.bitrate_kbps,
                    desired_bitrate,
                    UpdateType::NewTranscode,
                )
            } else {
                spec_compare_on_metadata(
                    song.metadata,
                    want_embedded_album_art,
                    desired_bitrate,
                    probe,
                )
            }
        }
        Option::None => spec_compare_on_metadata(
            song.metadata,
            want_embedded_album_art,
            desired_bitrate,
            probe,
        ),
    }
}

/// Whether the optional database holds a record for the given path.
pub open spec fn spec_db_has_record(
    previous_db: Option<Map<Seq<char>, SyncRecordView>>,
    path: Seq<char>,
) -> bool {
    match previous_db {
        Option::Some(db) => db.contains_key(path),
        Option::None => false,
    }
}

/// The view of an optional previous-sync database.
pub open spec fn spec_db_view(previous_db: Option<&PreviousSyncDb>) -> Option<
    Map<Seq<char>, SyncRecordView>,
> {
    match previous_db {
        Option::Some(db) => Option::Some(db@),
        Option::None => Option::None,
    }
}

/// What the detector has decided so far, before the costly probe of the
/// target's metadata.
#[derive(Debug, PartialEq, Eq, Structural, Clone, Copy)]
pub enum DetectDecision {
    /// The outcome is settled without probing the target's metadata.
    Decided(UpdateType),
    /// The target's metadata must be probed;
    /// [`compare_files_on_metadata`] finishes the decision.
    NeedsTargetProbe,
}

/// Compares two optional titles by their characters.
fn title_eq(a: &Option<String>, b: &Option<String>) -> (r: bool)
    ensures
        r == ((match a {
            Option::Some(t) => Option::Some(t@),
            Option::None => Option::None::<Seq<char>>,
        }) == (match b {
            Option::Some(t) => Option::Some(t@),
            Option::None => Option::None::<Seq<char>>,
        })),
{
    match (a, b) {
        (Some(x), Some(y)) => crate::paths::str_eq(x.as_str(), y.as_str()),
        (None, None) => true,
        _ => false,
    }
}

/// Fallback, costly method: comparing the metadata of the two files.
pub fn compare_files_on_metadata(
    source: &Song,
    probe: &TargetProbe,
    want_embedded_album_art: bool,
    desired_bitrate: u32,
) -> (r: UpdateType)
    ensures
        r == spec_compare_on_metadata(
            source@.metadata,
            want_embedded_album_art,
            desired_bitrate,
            probe@,
        ),
{
    match probe {
        TargetProbe::FileDoesNotExist => {
            if source.metadata.bitrate_kbps < desired_bitrate {
                UpdateType::Copied
            } else {
                UpdateType::NewTranscode
            }
        }
        TargetProbe::Metadata(target) => {
            // The tags should be identical, but the art might differ
            // depending on the desired strategy.
            if title_eq(&source.metadata.title, &target.title) && want_embedded_album_art
                == target.has_embedded_album_art {
                UpdateType::NoChange
            } else {
                // Just copy a file if re-encoding would only add loss.
                if source.metadata.bitrate_kbps < desired_bitrate {
                    UpdateType::Copied
                } else {
                    UpdateType::Overwrite
                }
            }
        }
        TargetProbe::Failed => UpdateType::Overwrite,
    }
}

/// The part of the detection that needs no probe of the target's
/// metadata.  When it answers [`DetectDecision::Decided`], the outcome is
/// independent of what such a probe would report.
pub fn detect_before_probe(
    song: &Song,
    source_hash: Option<u64>,
    previous_sync_db: Option<&PreviousSyncDb>,
    target_exists: bool,
    desired_bitrate: u32,
) -> (r: DetectDecision)
    ensures
        r matches DetectDecision::Decided(u) ==> forall|want: bool, probe: TargetProbeView|
            spec_detect(
                song@,
                source_hash,
                spec_db_view(previous_sync_db),
                target_exists,
                want,
                desired_bitrate,
                probe,
            ) == u,
        r is NeedsTargetProbe ==> forall|want: bool, probe: TargetProbeView|
            spec_detect(
                song@,
                source_hash,
                spec_db_view(previous_sync_db),
                target_exists,
                want,
                desired_bitrate,
                probe,
            ) == spec_compare_on_metadata(song@.metadata, want, desired_bitrate, probe),
{
    let h = match source_hash {
        Some(h) => h,
        None => {
            // Without a hash there is no way of knowing whether the file
            // changed; only the metadata comparison can decide.
            return DetectDecision::NeedsTargetProbe;
        }
    };
    if let Some(db) = previous_sync_db {
        if let Some(record) = db.get(song.library_relative_path.as_str()) {
            // The records think this song was synced before.
            if !target_exists {
                return DetectDecision::Decided(UpdateType::TranscodeMissingTarget);
            }
            return match record.hash {
                Some(stored) => {
                    if stored == h {
                        DetectDecision::Decided(UpdateType::NoChange)
                    } else {
                        // The hashes differ, so the source must have changed.
                        DetectDecision::Decided(UpdateType::Overwrite)
                    }
                }
                None => DetectDecision::Decided(UpdateType::Overwrite),
            };
        }
    }
    if !target_exists {
        // New to the records and not present: it has to be a new file.
        return DetectDecision::Decided(
            if song.metadata.bitrate_kbps < desired_bitrate {
                UpdateType::Copied
            } else {
                UpdateType::NewTranscode
            },
        );
    }
    DetectDecision::NeedsTargetProbe
}

/// Checks if the source music file has been changed since it has been
/// transcoded.  `source_hash`, `target_exists` and `probe` are the
/// evidence gathered about the song and its shadow copy.
pub fn has_music_file_changed(
    song: &Song,
    source_hash: Option<u64>,
    previous_sync_db: Option<&PreviousSyncDb>,
    target_exists: bool,
    probe: &TargetProbe,
    want_embedded_album_art: bool,
    desired_bitrate: u32,
) -> (r: UpdateType)
    ensures
        r == spec_detect(
            song@,
            source_hash,
            spec_db_view(previous_sync_db),
            target_exists,
            want_embedded_album_art,
            desired_bitrate,
            probe@,
        ),
{
    match detect_before_probe(song, source_hash, previous_sync_db, target_exists, desired_bitrate) {
        DetectDecision::Decided(u) => u,
        DetectDecision::NeedsTargetProbe => compare_files_on_metadata(
            song,
            probe,
            want_embedded_album_art,
            desired_bitrate,
        ),
    }
}

/// What is to be done for a song once its outcome is known.
#[derive(Debug, PartialEq, Eq, Structural, Clone, Copy)]
pub enum SyncAction {
    /// Nothing: the target is up to date.
    DoNothing,
    /// Copy the source file verbatim to the target path.
    CopyFile,
    /// Invoke the transcoder, embedding art as told.
    Transcode { embed_art: bool },
}

/// The settled outcome of a song together with the work it requires.
#[derive(Debug, PartialEq, Eq, Structural, Clone, Copy)]
pub struct SyncPlan {
    pub outcome: UpdateType,
    pub action: SyncAction,
}

/// How a detected outcome translates into work: an unchanged song is left
/// alone unless the run forces an overwrite, a `Copied` outcome copies the
/// file verbatim, and every other outcome invokes the transcoder.
pub open spec fn spec_plan_sync(detected: UpdateType, force: bool, embed_art: bool) -> SyncPlan {
    if detected == UpdateType::NoChange {
        if force {
            SyncPlan {
                outcome: UpdateType::ForceOverwrite,
                action: SyncAction::Transcode { embed_art },
            }
        } else {
            SyncPlan { outcome: UpdateType::NoChange, action: SyncAction::DoNothing }
        }
    } else if detected == UpdateType::Copied {
        SyncPlan { outcome: UpdateType::Copied, action: SyncAction::CopyFile }
    } else {
        SyncPlan { outcome: detected, action: SyncAction::Transcode { embed_art } }
    }
}

/// Turns a detected outcome into the final outcome and the work to do.
pub fn plan_sync(detected: UpdateType, force: bool, embed_art: bool) -> (r: SyncPlan)
    ensures
        r == spec_plan_sync(detected, force, embed_art),
{
    match detected {
        UpdateType::NoChange => {
            if force {
                SyncPlan {
                    outcome: UpdateType::ForceOverwrite,
                    action: SyncAction::Transcode { embed_art },
                }
            } else {
                SyncPlan { outcome: UpdateType::NoChange, action: SyncAction::DoNothing }
            }
        }
        UpdateType::Copied => SyncPlan { outcome: UpdateType::Copied, action: SyncAction::CopyFile },
        _ => SyncPlan { outcome: detected, action: SyncAction::Transcode { embed_art } },
    }
}

/// Everything the caller needs to synchronise one song: where the shadow
/// copy lives, what happened, what to do, and the record to persist.
#[derive(Debug)]
pub struct SongSyncPlan {
    /// The target path of the song's transcoded copy.
    pub shadow: String,
    /// The work the caller is to perform.
    pub action: SyncAction,
    /// The record of this sync, its outcome already set.
    pub record: SyncRecord,
}

/// Synchronises the file, as far as that is a decision: computes the
/// shadow path, detects the outcome from the gathered evidence, applies
/// the force-upgrade rule, resolves the art strategy, and assembles the
/// record for the store.  The caller carries out `action` and persists
/// `record`.
pub fn sync_song_plan(
    song: &Song,
    target_library: &str,
    target_filetype: &MusicFileType,
    art_strategy: ArtStrategy,
    previous_sync_db: Option<&PreviousSyncDb>,
    force: bool,
    source_hash: Option<u64>,
    target_exists: bool,
    probe: &TargetProbe,
    date: u64,
) -> (r: SongSyncPlan)
    requires
        spec_music_file_type_valid(*target_filetype),
    ensures
        r.shadow@ == spec_shadow_filename(
            song@.library_relative_path,
            target_library@,
            *target_filetype,
        ),
        ({
            let want = spec_resolve_art_embedding(art_strategy, song@.external_album_art is Some);
            let detected = spec_detect(
                song@,
                source_hash,
                spec_db_view(previous_sync_db),
                target_exists,
                want,
                spec_equivalent_bitrate(*target_filetype),
                probe@,
            );
            let plan = spec_plan_sync(detected, force, want);
            r.action == plan.action && r.record@ == (SyncRecordView {
                library_relative_path: song@.library_relative_path,
                update_type: Some(plan.outcome),
                date: date,
                hash: source_hash,
            })
        }),
{
    let shadow = get_shadow_filename(
        song.library_relative_path.as_str(),
        target_library,
        target_filetype,
    );
    let want_embedded_album_art = resolve_art_embedding(art_strategy, song);
    let desired_bitrate = target_filetype.equivalent_bitrate();
    let detected = has_music_file_changed(
        song,
        source_hash,
        previous_sync_db,
        target_exists,
        probe,
        want_embedded_album_art,
        desired_bitrate,
    );
    let plan = plan_sync(detected, force, want_embedded_album_art);
    let record = SyncRecord::from_song(song, date, source_hash).set_update_type(plan.outcome);
    SongSyncPlan { shadow, action: plan.action, record }
}

/// Missing-target detection: when the records hold an entry for a song
/// whose source could be hashed but whose target file is gone, the
/// detector reports the transcoded copy as missing, regardless of the
/// stored hash.
pub proof fn lemma_missing_target_detected(
    song: SongView,
    h: u64,
    previous_db: Map<Seq<char>, SyncRecordView>,
    want_embedded_album_art: bool,
    desired_bitrate: u32,
    probe: TargetProbeView,
)
    requires
        previous_db.contains_key(song.library_relative_path),
    ensures
        spec_detect(
            song,
            Some(h),
            Some(previous_db),
            false,
            want_embedded_album_art,
            desired_bitrate,
            probe,
        ) == UpdateType::TranscodeMissingTarget,
{
}

/// Idempotence of detection: a record that stores the hash the source
/// still has, together with a target that is still in place, detects as
/// unchanged.
pub proof fn lemma_second_run_detects_no_change(
    song: SongView,
    h: u64,
    previous_db: Map<Seq<char>, SyncRecordView>,
    want_embedded_album_art: bool,
    desired_bitrate: u32,
    probe: TargetProbeView,
)
    requires
        previous_db.contains_key(song.library_relative_path),
        previous_db[song.library_relative_path].hash == Some(h),
    ensures
        spec_detect(
            song,
            Some(h),
            Some(previous_db),
            true,
            want_embedded_album_art,
            desired_bitrate,
            probe,
        ) == UpdateType::NoChange,
{
}

/// Idempotence across a run: once a run has registered a record carrying
/// the source's hash, a second run over the unmodified source, with the
/// target in place, detects no change — whatever the database held before
/// and whatever the second run's probe would say.
pub proof fn lemma_idempotent_after_register(
    song: SongView,
    rec: SyncRecordView,
    previous_db: Map<Seq<char>, SyncRecordView>,
    h: u64,
    want_embedded_album_art: bool,
    desired_bitrate: u32,
    probe: TargetProbeView,
)
    requires
        rec.library_relative_path == song.library_relative_path,
        rec.hash == Some(h),
    ensures
        spec_detect(
            song,
            Some(h),
            Some(previous_db.insert(rec.library_relative_path, rec)),
            true,
            want_embedded_album_art,
            desired_bitrate,
            probe,
        ) == UpdateType::NoChange,
{
}

/// No upscaling: for a song that is new to the records (or whose hash
/// could not be read), when the requested bitrate exceeds the source's
/// and the target's metadata can be probed where needed, the detector
/// never asks for a transcode — the song is copied verbatim or left
/// alone.
pub proof fn lemma_no_upscaling(
    song: SongView,
    source_hash: Option<u64>,
    previous_db: Option<Map<Seq<char>, SyncRecordView>>,
    target_exists: bool,
    want_embedded_album_art: bool,
    desired_bitrate: u32,
    probe: TargetProbeView,
)
    requires
        !spec_db_has_record(previous_db, song.library_relative_path) || source_hash is None,
        song.metadata.bitrate_kbps < desired_bitrate,
        !(probe is Failed),
    ensures
        spec_detect(
            song,
            source_hash,
            previous_db,
            target_exists,
            want_embedded_album_art,
            desired_bitrate,
            probe,
        ) == UpdateType::Copied || spec_detect(
            song,
            source_hash,
            previous_db,
            target_exists,
            want_embedded_album_art,
            desired_bitrate,
            probe,
        ) == UpdateType::NoChange,
{
}

/// Force upgrade: when detection finds no change but the run was invoked
/// with the force flag, the recorded outcome is a forced overwrite and
/// the transcoder does run.
pub proof fn lemma_force_upgrade(embed_art: bool)
    ensures
        spec_plan_sync(UpdateType::NoChange, true, embed_art).outcome
            == UpdateType::ForceOverwrite,
        spec_plan_sync(UpdateType::NoChange, true, embed_art).action == (SyncAction::Transcode {
            embed_art,
        }),
        spec_plan_sync(UpdateType::NoChange, false, embed_art).outcome == UpdateType::NoChange,
        spec_plan_sync(UpdateType::NoChange, false, embed_art).action == SyncAction::DoNothing,
{
}

} // verus!
