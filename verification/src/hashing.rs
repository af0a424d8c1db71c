//! Content hashing and the persistent store of synchronisation records.
//!
//! A [`SyncRecord`] captures how a file was at a certain point in time; by
//! comparing hashes against a stored record, a later run can see whether a
//! file is out of date.  The [`PreviousSyncDb`] maps library-relative paths
//! to their most recent record.

use crate::music_library::UpdateType;
use crate::paths::{join_path, spec_join_path, str_eq};
use crate::song::Song;
use crate::PREVIOUS_SYNC_DB_FILENAME;
use vstd::prelude::*;

verus! {

/// The digest that the content hasher assigns to a byte string.  The hash
/// is a pure function of the bytes: the same contents give the same digest
/// in every process and on every machine.
pub uninterp spec fn rapid_hash_of(data: Seq<u8>) -> u64;

/// Simple hash to see if a file has changed.  Non-cryptographic!
///
/// Relies on `rapidhash::v3::rapidhash_v3`: the digest of a byte stream
/// with the default seed, documented to match the reference C++
/// implementation, hence a function of the bytes alone.
#[verifier::external_body]
pub fn hash_file_bytes(data: &Vec<u8>) -> (r: u64)
    ensures
        r == rapid_hash_of(data@),
{
    rapidhash::v3::rapidhash_v3(data.as_slice())
}

/// Data about how a file is at a certain point in time.  By comparing
/// records, you can see if a file is out of date.
#[derive(Debug, Clone)]
pub struct SyncRecord {
    pub library_relative_path: String,
    /// The outcome of the sync that produced this record; `None` until it
    /// is set after the fact.
    pub update_type: Option<UpdateType>,
    /// When the record was taken, in seconds since the epoch.
    pub date: u64,
    /// The content hash of the source file, when one could be computed.
    pub hash: Option<u64>,
}

/// The mathematical content of a [`SyncRecord`].
pub struct SyncRecordView {
    pub library_relative_path: Seq<char>,
    pub update_type: Option<UpdateType>,
    pub date: u64,
    pub hash: Option<u64>,
}

impl View for SyncRecord {
    type V = SyncRecordView;

    open spec fn view(&self) -> SyncRecordView {
        SyncRecordView {
            library_relative_path: self.library_relative_path@,
            update_type: self.update_type,
            date: self.date,
            hash: self.hash,
        }
    }
}

impl SyncRecord {
    /// A fresh record for a song, taken at `date`, with the content hash
    /// of the song's source file if one could be computed.  The outcome is
    /// not set yet.
    pub fn from_song(song: &Song, date: u64, hash: Option<u64>) -> (r: SyncRecord)
        ensures
            r@.library_relative_path == song@.library_relative_path,
            r@.update_type is None,
            r@.date == date,
            r@.hash == hash,
    {
        SyncRecord {
            library_relative_path: song.library_relative_path.clone(),
            update_type: None,
            date,
            hash,
        }
    }

    /// An equal record, field for field.
    pub fn duplicate(&self) -> (r: SyncRecord)
        ensures
            r@ == self@,
    {
        SyncRecord {
            library_relative_path: self.library_relative_path.clone(),
            update_type: self.update_type,
            date: self.date,
            hash: self.hash,
        }
    }

    /// The same record with its outcome set.
    pub fn set_update_type(self, update_type: UpdateType) -> (r: SyncRecord)
        ensures
            r@.library_relative_path == self@.library_relative_path,
            r@.update_type == Some(update_type),
            r@.date == self@.date,
            r@.hash == self@.hash,
    {
        let mut proxy = self;
        proxy.update_type = Some(update_type);
        proxy
    }
}

/// Whether some record in `s` carries the key `k`.
pub open spec fn spec_db_contains(s: Seq<SyncRecordView>, k: Seq<char>) -> bool {
    exists|i: int| 0 <= i < s.len() && s[i].library_relative_path == k
}

/// The index of the record in `s` carrying the key `k`.
pub open spec fn spec_db_index(s: Seq<SyncRecordView>, k: Seq<char>) -> int {
    choose|i: int| 0 <= i < s.len() && s[i].library_relative_path == k
}

/// The records of `s` as a map from library-relative path to record.
pub open spec fn spec_db_map(s: Seq<SyncRecordView>) -> Map<Seq<char>, SyncRecordView> {
    Map::new(|k: Seq<char>| spec_db_contains(s, k), |k: Seq<char>| s[spec_db_index(s, k)])
}

/// Whether the records of `s` carry pairwise distinct keys.
pub open spec fn spec_db_unique_keys(s: Seq<SyncRecordView>) -> bool {
    forall|i: int, j: int|
        0 <= i < j < s.len() ==> (#[trigger] s[i]).library_relative_path != (
        #[trigger] s[j]).library_relative_path
}

proof fn lemma_db_map_at(s: Seq<SyncRecordView>, i: int)
    requires
        spec_db_unique_keys(s),
        0 <= i < s.len(),
    ensures
        spec_db_map(s).contains_key(s[i].library_relative_path),
        spec_db_map(s)[s[i].library_relative_path] == s[i],
{
    let k = s[i].library_relative_path;
    assert(spec_db_contains(s, k));
    let j = spec_db_index(s, k);
    assert(0 <= j < s.len() && s[j].library_relative_path == k);
    if j != i {
        assert(s[i].library_relative_path != s[j].library_relative_path);
    }
}

/// Knowledge of how the previous sync went: a mapping from library-relative
/// paths to the most recent record for each.
#[derive(Debug)]
pub struct PreviousSyncDb {
    records: Vec<SyncRecord>,
}

impl View for PreviousSyncDb {
    type V = Map<Seq<char>, SyncRecordView>;

    closed spec fn view(&self) -> Map<Seq<char>, SyncRecordView> {
        spec_db_map(self.records@.map_values(|r: SyncRecord| r@))
    }
}

impl PreviousSyncDb {
    #[verifier::type_invariant]
    spec fn wf(&self) -> bool {
        spec_db_unique_keys(self.records@.map_values(|r: SyncRecord| r@))
    }

    /// An empty database.
    pub fn new() -> (r: PreviousSyncDb)
        ensures
            r@ == Map::<Seq<char>, SyncRecordView>::empty(),
    {
        let r = PreviousSyncDb { records: Vec::new() };
        proof {
            assert(r@ =~= Map::<Seq<char>, SyncRecordView>::empty());
        }
        r
    }

    /// The number of records held.
    pub fn len(&self) -> (n: usize)
        ensures
            n == self@.dom().len(),
    {
        proof {
            use_type_invariant(&*self);
            self.lemma_len();
        }
        self.records.len()
    }

    proof fn lemma_len(&self)
        requires
            self.wf(),
        ensures
            self@.dom().len() == self.records@.len(),
            self@.dom().finite(),
    {
        let s = self.records@.map_values(|r: SyncRecord| r@);
        let keys = Seq::new(s.len(), |i: int| s[i].library_relative_path);
        assert forall|i: int, j: int| 0 <= i < keys.len() && 0 <= j < keys.len() && i != j implies
        keys[i] != keys[j] by {
            assert(keys[i] == s[i].library_relative_path);
            assert(keys[j] == s[j].library_relative_path);
        }
        assert(keys.no_duplicates());
        keys.unique_seq_to_set();
        assert forall|k: Seq<char>| self@.dom().contains(k) implies keys.to_set().contains(k) by {
            let i = spec_db_index(s, k);
            assert(0 <= i < s.len() && s[i].library_relative_path == k);
            assert(keys[i] == k);
        }
        assert forall|k: Seq<char>| keys.to_set().contains(k) implies self@.dom().contains(k) by {
            let i = choose|i: int| 0 <= i < keys.len() && keys[i] == k;
            assert(s[i].library_relative_path == k);
            assert(spec_db_contains(s, k));
        }
        assert(self@.dom() =~= keys.to_set());
    }

    /// Looks up the record for a library-relative path.
    pub fn get(&self, path: &str) -> (r: Option<&SyncRecord>)
        ensures
            r matches Some(rec) ==> self@.contains_key(path@) && rec@ == self@[path@],
            r is None ==> !self@.contains_key(path@),
    {
        proof {
            use_type_invariant(&*self);
        }
        let ghost s = self.records@.map_values(|r: SyncRecord| r@);
        let n = self.records.len();
        let mut i: usize = 0;
        while i < n
            invariant
                i <= n,
                n == self.records@.len(),
                s == self.records@.map_values(|r: SyncRecord| r@),
                spec_db_unique_keys(s),
                forall|j: int| 0 <= j < i ==> s[j].library_relative_path != path@,
            decreases n - i,
        {
            if str_eq(self.records[i].library_relative_path.as_str(), path) {
                proof {
                    lemma_db_map_at(s, i as int);
                }
                return Some(&self.records[i]);
            }
            i = i + 1;
        }
        proof {
            if spec_db_contains(s, path@) {
                let j = spec_db_index(s, path@);
                assert(0 <= j < s.len() && s[j].library_relative_path == path@);
            }
        }
        None
    }

    /// Inserts a record, replacing any record with the same key.
    pub fn insert_record(&mut self, record: SyncRecord)
        ensures
            final(self)@ == old(self)@.insert(record@.library_relative_path, record@),
    {
        proof {
            use_type_invariant(&*self);
        }
        let ghost old_s = self.records@.map_values(|r: SyncRecord| r@);
        let ghost k = record@.library_relative_path;
        let mut records: Vec<SyncRecord> = Vec::new();
        core::mem::swap(&mut records, &mut self.records);
        let n = records.len();
        let mut i: usize = 0;
        let mut found: Option<usize> = None;
        while i < n
            invariant
                i <= n,
                n == records@.len(),
                old_s == records@.map_values(|r: SyncRecord| r@),
                k == record@.library_relative_path,
                match found {
                    Some(f) => f < i && old_s[f as int].library_relative_path == k,
                    None => forall|j: int| 0 <= j < i ==> old_s[j].library_relative_path != k,
                },
            decreases n - i,
        {
            proof {
                assert(old_s[i as int] == records@[i as int]@);
            }
            if found.is_none() && str_eq(
                records[i].library_relative_path.as_str(),
                record.library_relative_path.as_str(),
            ) {
                found = Some(i);
            }
            i = i + 1;
        }
        let ghost mid_s = old_s;
        let mut removed = false;
        let ghost mut f_idx: int = 0;
        if let Some(f) = found {
            records.remove(f);
            removed = true;
            proof {
                f_idx = f as int;
            }
        }
        let ghost s2 = records@.map_values(|r: SyncRecord| r@);
        proof {
            if removed {
                assert(s2 =~= old_s.remove(f_idx));
            } else {
                assert(s2 =~= old_s);
            }
        }
        records.push(record);
        let ghost s3 = records@.map_values(|r: SyncRecord| r@);
        proof {
            assert(s3 =~= s2.push(record@));
            // The new sequence still has pairwise distinct keys.
            assert forall|a: int, b: int| 0 <= a < b < s3.len() implies (
            #[trigger] s3[a]).library_relative_path != (#[trigger] s3[b]).library_relative_path by {
                if b == s3.len() - 1 {
                    // s3[b] is the new record; no remaining entry carries its key.
                    if removed {
                        if a < f_idx {
                            assert(s2[a] == old_s[a]);
                        } else {
                            assert(s2[a] == old_s[a + 1]);
                        }
                    }
                } else {
                    if removed {
                        let a0 = if a < f_idx { a } else { a + 1 };
                        let b0 = if b < f_idx { b } else { b + 1 };
                        assert(s2[a] == old_s[a0]);
                        assert(s2[b] == old_s[b0]);
                    }
                }
            }
            lemma_db_insert(old_s, s3, removed, f_idx, record@);
        }
        self.records = records;
    }

    /// The records held, in their storage order.
    pub fn records(&self) -> (r: &Vec<SyncRecord>)
        ensures
            forall|i: int|
                0 <= i < r@.len() ==> self@.contains_key((#[trigger] r@[i])@.library_relative_path)
                    && self@[r@[i]@.library_relative_path] == r@[i]@,
            forall|k: Seq<char>|
                self@.contains_key(k) ==> exists|i: int|
                    0 <= i < r@.len() && (#[trigger] r@[i])@.library_relative_path == k,
    {
        proof {
            use_type_invariant(&*self);
            let s = self.records@.map_values(|r: SyncRecord| r@);
            assert forall|i: int| 0 <= i < self.records@.len() implies self@.contains_key(
                (#[trigger] self.records@[i])@.library_relative_path,
            ) && self@[self.records@[i]@.library_relative_path] == self.records@[i]@ by {
                assert(s[i] == self.records@[i]@);
                lemma_db_map_at(s, i);
            }
            assert forall|k: Seq<char>| self@.contains_key(k) implies exists|i: int|
                0 <= i < self.records@.len() && (#[trigger] self.records@[i])@.library_relative_path
                    == k by {
                let j = spec_db_index(s, k);
                assert(0 <= j < s.len() && s[j].library_relative_path == k);
                assert(self.records@[j]@.library_relative_path == k);
            }
        }
        &self.records
    }
}

impl Default for PreviousSyncDb {
    fn default() -> (r: PreviousSyncDb)
        ensures
            r@ == Map::<Seq<char>, SyncRecordView>::empty(),
    {
        PreviousSyncDb::new()
    }
}

/// The keys of `s3` are those of `old_s` plus the pushed record's key, and
/// the values follow: `s3` is `old_s` with `rec`'s key removed (when it was
/// present at `f_idx`) and `rec` appended.
proof fn lemma_db_insert(
    old_s: Seq<SyncRecordView>,
    s3: Seq<SyncRecordView>,
    removed: bool,
    f_idx: int,
    rec: SyncRecordView,
)
    requires
        spec_db_unique_keys(old_s),
        spec_db_unique_keys(s3),
        removed ==> 0 <= f_idx < old_s.len() && old_s[f_idx].library_relative_path
            == rec.library_relative_path,
        s3 == if removed {
            old_s.remove(f_idx).push(rec)
        } else {
            old_s.push(rec)
        },
        !removed ==> forall|j: int|
            0 <= j < old_s.len() ==> (#[trigger] old_s[j]).library_relative_path
                != rec.library_relative_path,
    ensures
        spec_db_map(s3) == spec_db_map(old_s).insert(rec.library_relative_path, rec),
{
    let k = rec.library_relative_path;
    let m1 = spec_db_map(s3);
    let m2 = spec_db_map(old_s).insert(k, rec);
    assert(s3[s3.len() - 1] == rec);
    assert forall|kk: Seq<char>| m1.contains_key(kk) implies m2.contains_key(kk) && m1[kk]
        == m2[kk] by {
        let i = spec_db_index(s3, kk);
        assert(0 <= i < s3.len() && s3[i].library_relative_path == kk);
        lemma_db_map_at(s3, i);
        if kk == k {
            assert(m2[kk] == rec);
            if i != s3.len() - 1 {
                assert(s3[i].library_relative_path != s3[s3.len() - 1].library_relative_path);
            }
        } else {
            assert(i < s3.len() - 1);
            let i0 = if removed {
                if i < f_idx {
                    i
                } else {
                    i + 1
                }
            } else {
                i
            };
            assert(old_s[i0] == s3[i]);
            lemma_db_map_at(old_s, i0);
        }
    }
    assert forall|kk: Seq<char>| m2.contains_key(kk) implies m1.contains_key(kk) by {
        if kk == k {
            lemma_db_map_at(s3, s3.len() - 1);
        } else {
            let i = spec_db_index(old_s, kk);
            assert(0 <= i < old_s.len() && old_s[i].library_relative_path == kk);
            if removed {
                let i3 = if i < f_idx {
                    i
                } else {
                    i - 1
                };
                assert(i != f_idx);
                assert(s3[i3] == old_s[i]);
                lemma_db_map_at(s3, i3);
            } else {
                assert(s3[i] == old_s[i]);
                lemma_db_map_at(s3, i);
            }
        }
    }
    assert(m1 =~= m2);
}

/// Adds a new sync result to the currently opened database of sync
/// results, so that it can be written to disk later.
///
/// "File was not modified" is not very useful information, so a record
/// whose outcome is `NoChange` is not inserted; every other outcome
/// overwrites the existing entry for its path.
pub fn register_record_to_previous_sync_db(
    previous_sync_db: &mut PreviousSyncDb,
    sync_record: SyncRecord,
)
    requires
        sync_record@.update_type is Some,
    ensures
        final(previous_sync_db)@ == if sync_record@.update_type == Some(UpdateType::NoChange) {
            old(previous_sync_db)@
        } else {
            old(previous_sync_db)@.insert(sync_record@.library_relative_path, sync_record@)
        },
{
    if matches!(sync_record.update_type, Some(UpdateType::NoChange)) {
        return ;
    }
    previous_sync_db.insert_record(sync_record);
}

/// Previous sync records should normally be saved in the target library,
/// but they can be missing or somewhere else.  This generates the
/// potential locations they could be found at, in the order they are to be
/// tried: the target library itself, then the current working directory,
/// then the user's home directory.
pub fn potential_locations_for_records_of_previous_syncs(
    target_library: &str,
    working_dir: Option<&str>,
    home_dir: Option<&str>,
) -> (r: Vec<String>)
    ensures
        1 <= r@.len() <= 3,
        r@[0]@ == spec_join_path(target_library@, PREVIOUS_SYNC_DB_FILENAME@),
        working_dir matches Some(wd) ==> r@.len() >= 2 && r@[1]@ == spec_join_path(
            wd@,
            PREVIOUS_SYNC_DB_FILENAME@,
        ),
        working_dir is None ==> (home_dir matches Some(hd) ==> r@.len() >= 2 && r@[1]@
            == spec_join_path(hd@, PREVIOUS_SYNC_DB_FILENAME@)),
        home_dir matches Some(hd) ==> (working_dir is Some ==> r@.len() == 3 && r@[2]@
            == spec_join_path(hd@, PREVIOUS_SYNC_DB_FILENAME@)),
        r@.len() == 1 + (if working_dir is Some {
            1int
        } else {
            0int
        }) + (if home_dir is Some {
            1int
        } else {
            0int
        }),
{
    let mut potential_dirs: Vec<String> = Vec::new();
    potential_dirs.push(join_path(target_library, PREVIOUS_SYNC_DB_FILENAME));
    if let Some(wd) = working_dir {
        potential_dirs.push(join_path(wd, PREVIOUS_SYNC_DB_FILENAME));
    }
    if let Some(hd) = home_dir {
        potential_dirs.push(join_path(hd, PREVIOUS_SYNC_DB_FILENAME));
    }
    potential_dirs
}

} // verus!
