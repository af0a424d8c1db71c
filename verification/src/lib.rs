//! Incremental mirroring of a music library into a smaller, transcoded copy.
//!
//! The crate decides, for every discovered song, whether it is unchanged,
//! new, stale, missing its transcoded counterpart, or eligible for a plain
//! copy, and persists just enough state across runs to keep the next run
//! fast.  All decision logic is verified; subprocesses and file system
//! access live outside this crate and feed it plain values.

pub mod music_library;
pub mod song;
pub mod hashing;
pub mod sync_song;
pub mod ffmpeg_interface;
pub mod paths;
pub mod decimal;
pub mod json;

use crate::hashing::{
    register_record_to_previous_sync_db, PreviousSyncDb, SyncRecord, SyncRecordView,
};
use crate::music_library::{ArtworkType, MusicLibraryError, UpdateType};
use crate::song::{spec_artwork_type, Song};
use vstd::prelude::*;

verus! {

/// File name under which the records of a previous synchronisation are kept.
pub const PREVIOUS_SYNC_DB_FILENAME: &'static str = ".syncbops";

/// The songs that have no album art at all, in their original order.
pub fn songs_without_album_art<'a>(songs: &'a Vec<Song>) -> (r: Vec<&'a Song>)
    ensures
        r@.map_values(|p: &Song| *p) == songs@.filter(
            |s: Song| spec_artwork_type(s.view()) == ArtworkType::NoArt,
        ),
{
    let ghost pred = |s: Song| spec_artwork_type(s.view()) == ArtworkType::NoArt;
    let mut r: Vec<&'a Song> = Vec::new();
    let n = songs.len();
    let mut i: usize = 0;
    proof {
        reveal(Seq::filter);
        assert(songs@.take(0) =~= Seq::<Song>::empty());
        assert(r@.map_values(|p: &Song| *p) =~= songs@.take(0).filter(pred));
    }
    while i < n
        invariant
            i <= n,
            n == songs@.len(),
            pred == (|s: Song| spec_artwork_type(s.view()) == ArtworkType::NoArt),
            r@.map_values(|p: &Song| *p) == songs@.take(i as int).filter(pred),
        decreases n - i,
    {
        proof {
            reveal(Seq::filter);
            assert(songs@.take(i + 1).drop_last() =~= songs@.take(i as int));
            assert(songs@.take(i + 1).last() == songs@[i as int]);
        }
        if songs[i].has_artwork() == ArtworkType::NoArt {
            r.push(&songs[i]);
        }
        proof {
            reveal(Seq::filter);
            assert(r@.map_values(|p: &Song| *p) =~= songs@.take(i + 1).filter(pred));
        }
        i = i + 1;
    }
    proof {
        assert(songs@.take(n as int) =~= songs@);
    }
    r
}

/// How many songs of a finished run fell to each outcome.  Plain and
/// forced overwrites are counted together.
#[derive(Debug, PartialEq, Eq, Structural, Clone, Copy)]
pub struct SyncSummary {
    pub n_unchanged: usize,
    pub n_new: usize,
    pub n_overwritten: usize,
    pub n_missing_target: usize,
    pub n_copied: usize,
    pub n_err: usize,
}

/// The mathematical content of a [`SyncSummary`].
pub struct SyncSummaryView {
    pub n_unchanged: int,
    pub n_new: int,
    pub n_overwritten: int,
    pub n_missing_target: int,
    pub n_copied: int,
    pub n_err: int,
}

/// The counts of each outcome over a run's per-song results.  A result
/// whose record has no outcome set counts nowhere.
pub open spec fn spec_summarize(s: Seq<Result<SyncRecord, MusicLibraryError>>) -> SyncSummaryView
    decreases s.len(),
{
    if s.len() == 0 {
        SyncSummaryView {
            n_unchanged: 0,
            n_new: 0,
            n_overwritten: 0,
            n_missing_target: 0,
            n_copied: 0,
            n_err: 0,
        }
    } else {
        let rest = spec_summarize(s.drop_last());
        match s.last() {
            Result::Ok(rec) => match rec@.update_type {
                Option::Some(UpdateType::NoChange) => SyncSummaryView {
                    n_unchanged: rest.n_unchanged + 1,
                    ..rest
                },
                Option::Some(UpdateType::NewTranscode) => SyncSummaryView {
                    n_new: rest.n_new + 1,
                    ..rest
                },
                Option::Some(UpdateType::Overwrite) => SyncSummaryView {
                    n_overwritten: rest.n_overwritten + 1,
                    ..rest
                },
                Option::Some(UpdateType::ForceOverwrite) => SyncSummaryView {
                    n_overwritten: rest.n_overwritten + 1,
                    ..rest
                },
                Option::Some(UpdateType::TranscodeMissingTarget) => SyncSummaryView {
                    n_missing_target: rest.n_missing_target + 1,
                    ..rest
                },
                Option::Some(UpdateType::Copied) => SyncSummaryView {
                    n_copied: rest.n_copied + 1,
                    ..rest
                },
                Option::None => rest,
            },
            Result::Err(_) => SyncSummaryView { n_err: rest.n_err + 1, ..rest },
        }
    }
}

/// Counts each outcome over a run's per-song results.
pub fn summarize(results: &Vec<Result<SyncRecord, MusicLibraryError>>) -> (r: SyncSummary)
    ensures
        r.n_unchanged == spec_summarize(results@).n_unchanged,
        r.n_new == spec_summarize(results@).n_new,
        r.n_overwritten == spec_summarize(results@).n_overwritten,
        r.n_missing_target == spec_summarize(results@).n_missing_target,
        r.n_copied == spec_summarize(results@).n_copied,
        r.n_err == spec_summarize(results@).n_err,
{
    let mut summary = SyncSummary {
        n_unchanged: 0,
        n_new: 0,
        n_overwritten: 0,
        n_missing_target: 0,
        n_copied: 0,
        n_err: 0,
    };
    let n = results.len();
    let mut i: usize = 0;
    proof {
        assert(results@.take(0) =~= Seq::<Result<SyncRecord, MusicLibraryError>>::empty());
    }
    while i < n
        invariant
            i <= n,
            n == results@.len(),
            summary.n_unchanged == spec_summarize(results@.take(i as int)).n_unchanged,
            summary.n_new == spec_summarize(results@.take(i as int)).n_new,
            summary.n_overwritten == spec_summarize(results@.take(i as int)).n_overwritten,
            summary.n_missing_target == spec_summarize(results@.take(i as int)).n_missing_target,
            summary.n_copied == spec_summarize(results@.take(i as int)).n_copied,
            summary.n_err == spec_summarize(results@.take(i as int)).n_err,
            summary.n_unchanged <= i,
            summary.n_new <= i,
            summary.n_overwritten <= i,
            summary.n_missing_target <= i,
            summary.n_copied <= i,
            summary.n_err <= i,
        decreases n - i,
    {
        proof {
            assert(results@.take(i + 1).drop_last() =~= results@.take(i as int));
            assert(results@.take(i + 1).last() == results@[i as int]);
        }
        match &results[i] {
            Ok(rec) => {
                match rec.update_type {
                    Some(UpdateType::NoChange) => {
                        summary.n_unchanged = summary.n_unchanged + 1;
                    }
                    Some(UpdateType::NewTranscode) => {
                        summary.n_new = summary.n_new + 1;
                    }
                    Some(UpdateType::Overwrite) => {
                        summary.n_overwritten = summary.n_overwritten + 1;
                    }
                    Some(UpdateType::ForceOverwrite) => {
                        summary.n_overwritten = summary.n_overwritten + 1;
                    }
                    Some(UpdateType::TranscodeMissingTarget) => {
                        summary.n_missing_target = summary.n_missing_target + 1;
                    }
                    Some(UpdateType::Copied) => {
                        summary.n_copied = summary.n_copied + 1;
                    }
                    None => {}
                }
            }
            Err(_) => {
                summary.n_err = summary.n_err + 1;
            }
        }
        i = i + 1;
    }
    proof {
        assert(results@.take(n as int) =~= results@);
    }
    summary
}

/// The record store after a run's results are folded in: every successful
/// record with an informative outcome overwrites the entry for its path.
pub open spec fn spec_merge(
    m: Map<Seq<char>, SyncRecordView>,
    s: Seq<Result<SyncRecord, MusicLibraryError>>,
) -> Map<Seq<char>, SyncRecordView>
    decreases s.len(),
{
    if s.len() == 0 {
        m
    } else {
        let rest = spec_merge(m, s.drop_last());
        match s.last() {
            Result::Ok(rec) => if rec@.update_type == Some(UpdateType::NoChange) {
                rest
            } else {
                rest.insert(rec@.library_relative_path, rec@)
            },
            Result::Err(_) => rest,
        }
    }
}

/// What merging keeps: a run's record for a song, when its outcome is
/// informative and no later result of the run speaks of the same path,
/// stands in the merged store under the song's path.
pub proof fn lemma_merge_registers_record(
    m: Map<Seq<char>, SyncRecordView>,
    s: Seq<Result<SyncRecord, MusicLibraryError>>,
    i: int,
    rec: SyncRecord,
)
    requires
        0 <= i < s.len(),
        s[i] == Result::<SyncRecord, MusicLibraryError>::Ok(rec),
        rec@.update_type is Some,
        rec@.update_type != Some(UpdateType::NoChange),
        forall|j: int|
            i < j < s.len() ==> ((#[trigger] s[j]) matches Ok(r2) ==> r2@.library_relative_path
                != rec@.library_relative_path),
    ensures
        spec_merge(m, s).contains_key(rec@.library_relative_path),
        spec_merge(m, s)[rec@.library_relative_path] == rec@,
    decreases s.len(),
{
    if i == s.len() - 1 {
        assert(s.last() == Result::<SyncRecord, MusicLibraryError>::Ok(rec));
    } else {
        assert(s.drop_last()[i] == s[i]);
        assert(forall|j: int| i < j < s.len() - 1 ==> (#[trigger] s.drop_last()[j]) == s[j]);
        lemma_merge_registers_record(m, s.drop_last(), i, rec);
        assert(s[s.len() - 1] == s.last());
    }
}

/// Idempotence across two runs: when a run's results hold, for a song, a
/// record carrying the source's content hash and an informative outcome,
/// and no later result of the run speaks of the same path, then once the
/// results are merged into the store, a second run over the unmodified
/// source that finds the target in place detects no change — whatever
/// the store held before and whatever the second run's target probe
/// would report.
pub proof fn lemma_two_run_idempotence(
    db0: Map<Seq<char>, SyncRecordView>,
    results: Seq<Result<SyncRecord, MusicLibraryError>>,
    i: int,
    rec: SyncRecord,
    song: crate::song::SongView,
    h: u64,
    want_embedded_album_art: bool,
    desired_bitrate: u32,
    probe: crate::sync_song::TargetProbeView,
)
    requires
        0 <= i < results.len(),
        results[i] == Result::<SyncRecord, MusicLibraryError>::Ok(rec),
        rec@.library_relative_path == song.library_relative_path,
        rec@.hash == Some(h),
        rec@.update_type is Some,
        rec@.update_type != Some(UpdateType::NoChange),
        forall|j: int|
            i < j < results.len() ==> ((#[trigger] results[j]) matches Ok(r2)
                ==> r2@.library_relative_path != rec@.library_relative_path),
    ensures
        crate::sync_song::spec_detect(
            song,
            Some(h),
            Some(spec_merge(db0, results)),
            true,
            want_embedded_album_art,
            desired_bitrate,
            probe,
        ) == UpdateType::NoChange,
{
    lemma_merge_registers_record(db0, results, i, rec);
}

/// Folds a run's results into the record store: each song that was
/// synchronised successfully gets its record updated, except that an
/// unchanged song is left as it was.  Failed songs change nothing.
pub fn merge_sync_results(
    previous_sync_db: &mut PreviousSyncDb,
    results: &Vec<Result<SyncRecord, MusicLibraryError>>,
)
    requires
        forall|i: int|
            0 <= i < results@.len() ==> ((#[trigger] results@[i]) matches Ok(rec)
                ==> rec@.update_type is Some),
    ensures
        final(previous_sync_db)@ == spec_merge(old(previous_sync_db)@, results@),
{
    let ghost m0 = previous_sync_db@;
    let n = results.len();
    let mut i: usize = 0;
    proof {
        assert(results@.take(0) =~= Seq::<Result<SyncRecord, MusicLibraryError>>::empty());
    }
    while i < n
        invariant
            i <= n,
            n == results@.len(),
            previous_sync_db@ == spec_merge(m0, results@.take(i as int)),
            forall|j: int|
                0 <= j < results@.len() ==> ((#[trigger] results@[j]) matches Ok(rec)
                    ==> rec@.update_type is Some),
        decreases n - i,
    {
        proof {
            assert(results@.take(i + 1).drop_last() =~= results@.take(i as int));
            assert(results@.take(i + 1).last() == results@[i as int]);
        }
        match &results[i] {
            Ok(record) => {
                register_record_to_previous_sync_db(previous_sync_db, record.duplicate());
            }
            Err(_) => {}
        }
        i = i + 1;
    }
    proof {
        assert(results@.take(n as int) =~= results@);
    }
}

} // verus!
