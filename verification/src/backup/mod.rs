//! Point-in-time consistent backup/restore across the datastore and cache.
//!
//! The primary datastore is the source of truth for ledger-derived metrics.
//! The cache holds rate-limit counters and distributed lock state. The two
//! stores share no transaction boundary, so a naive restore could combine
//! two snapshots taken at slightly different moments into a state that never
//! existed. Every backup is therefore tagged with the ingestion watermark; a
//! restore refuses to bring the service up when the datastore and cache
//! watermarks disagree beyond a documented tolerance. Cache state that is
//! fully derivable is never restored from a stale backup: it is cold-started
//! empty instead.

pub mod classify;
pub mod watermark;

use vstd::prelude::*;

use self::classify::{classify, classify_spec, CacheStateClass};
use self::watermark::{reconcile_spec, Watermark, WatermarkMismatch};

verus! {

broadcast use vstd::std_specs::vec::group_vec_axioms, vstd::seq_lib::group_seq_properties;

/// Documented tolerance for watermark disagreement between the datastore and
/// the cache backup. A small skew is expected because the two snapshots are
/// not taken under a shared transaction boundary; anything larger means the
/// two backups cannot be safely combined.
pub const WATERMARK_TOLERANCE: u64 = 1;

/// A backup of the primary datastore, tagged with the ingestion watermark at
/// snapshot time.
#[derive(Debug, Clone, PartialEq, Eq)]
pub struct DatastoreBackup {
    pub watermark: Watermark,
    pub payload: Vec<u8>,
}

/// A backup of cache-held state that is not derivable and therefore needs a
/// real backup. Derivable cache state is absent: it is cold-started empty on
/// restore.
#[derive(Debug, Clone, PartialEq, Eq)]
pub struct CacheBackup {
    pub watermark: Watermark,
    pub entries: Vec<(String, Vec<u8>)>,
}

/// A coordinated backup pairing the datastore snapshot with the cache
/// snapshot for state that needs a real backup.
#[derive(Debug, Clone, PartialEq, Eq)]
pub struct Backup {
    pub datastore: DatastoreBackup,
    pub cache: CacheBackup,
}

/// Errors that can occur while taking or restoring a backup.
#[derive(Debug, PartialEq, Eq, Structural)]
pub enum BackupError {
    /// The datastore and cache watermarks disagree beyond the documented
    /// tolerance, so the two snapshots must not be combined.
    Inconsistent(WatermarkMismatch),
}

impl BackupError {
    /// The human-readable form of the error.
    pub fn describe(&self) -> (s: String)
        ensures
            s@ == match self {
                BackupError::Inconsistent(m) => "inconsistent backup: "@ + m.describe_spec(),
            },
    {
        match self {
            BackupError::Inconsistent(m) => {
                let mut s = "inconsistent backup: ".to_owned();
                s.append(m.describe().as_str());
                s
            },
        }
    }
}

/// The state produced by a successful restore.
#[derive(Debug, Clone, PartialEq, Eq)]
pub struct RestoredState {
    /// The reconciled ingestion watermark the restored service resumes from.
    pub watermark: Watermark,
    pub datastore_payload: Vec<u8>,
    /// Only cache entries that needed a real backup. Derivable cache state is
    /// cold-started empty by the caller.
    pub cache_entries: Vec<(String, Vec<u8>)>,
}

/// A cache entry as plain values: its key and its bytes.
pub type EntryModel = (Seq<char>, Seq<u8>);

/// The plain-value view of a list of cache entries.
pub open spec fn entries_model(v: Seq<(String, Vec<u8>)>) -> Seq<EntryModel> {
    v.map_values(|e: (String, Vec<u8>)| (e.0@, e.1@))
}

/// Whether a cache entry needs a real backup.
pub open spec fn needs_real_backup(e: EntryModel) -> bool {
    classify_spec(e.0) == CacheStateClass::NeedsRealBackup
}

/// The entries of `entries` that need a real backup, in their original order.
pub open spec fn backed_up_entries(entries: Seq<EntryModel>) -> Seq<EntryModel> {
    entries.filter(|e: EntryModel| needs_real_backup(e))
}

/// A backup as plain values.
pub struct BackupModel {
    pub datastore_watermark: Watermark,
    pub payload: Seq<u8>,
    pub cache_watermark: Watermark,
    pub entries: Seq<EntryModel>,
}

/// A restored state as plain values.
pub struct RestoredModel {
    pub watermark: Watermark,
    pub payload: Seq<u8>,
    pub entries: Seq<EntryModel>,
}

impl Backup {
    pub open spec fn model(&self) -> BackupModel {
        BackupModel {
            datastore_watermark: self.datastore.watermark,
            payload: self.datastore.payload@,
            cache_watermark: self.cache.watermark,
            entries: entries_model(self.cache.entries@),
        }
    }
}

impl RestoredState {
    pub open spec fn model(&self) -> RestoredModel {
        RestoredModel {
            watermark: self.watermark,
            payload: self.datastore_payload@,
            entries: entries_model(self.cache_entries@),
        }
    }
}

/// What `take_backup` produces.
pub open spec fn take_backup_spec(
    watermark: Watermark,
    payload: Seq<u8>,
    entries: Seq<EntryModel>,
) -> BackupModel {
    BackupModel {
        datastore_watermark: watermark,
        payload,
        cache_watermark: watermark,
        entries: backed_up_entries(entries),
    }
}

/// What `check_consistency` answers for a backup.
pub open spec fn check_consistency_spec(b: BackupModel) -> Result<Watermark, BackupError> {
    match reconcile_spec(b.datastore_watermark, b.cache_watermark, WATERMARK_TOLERANCE) {
        Ok(w) => Ok(w),
        Err(m) => Err(BackupError::Inconsistent(m)),
    }
}

/// What `restore` answers for a backup.
pub open spec fn restore_spec(b: BackupModel) -> Result<RestoredModel, BackupError> {
    match check_consistency_spec(b) {
        Ok(w) => Ok(
            RestoredModel { watermark: w, payload: b.payload, entries: backed_up_entries(b.entries) },
        ),
        Err(e) => Err(e),
    }
}

/// A copy of a cache entry with the same key and bytes.
fn copy_entry(e: &(String, Vec<u8>)) -> (c: (String, Vec<u8>))
    ensures
        c.0@ == e.0@,
        c.1@ == e.1@,
{
    (e.0.clone(), copy_bytes(&e.1))
}

/// A copy of a byte buffer.
fn copy_bytes(b: &Vec<u8>) -> (c: Vec<u8>)
    ensures
        c@ == b@,
{
    let c = b.clone();
    assert(c@ =~= b@);
    c
}

/// Take a coordinated backup of the datastore and the cache state that needs
/// a real backup, tagging both with the same ingestion watermark.
///
/// Derivable state in `cache_entries` is dropped here so that it can never be
/// reintroduced from a stale snapshot.
pub fn take_backup(
    watermark: Watermark,
    datastore_payload: Vec<u8>,
    cache_entries: Vec<(String, Vec<u8>)>,
) -> (b: Backup)
    ensures
        b.model() == take_backup_spec(
            watermark,
            datastore_payload@,
            entries_model(cache_entries@),
        ),
{
    let ghost all = entries_model(cache_entries@);
    let mut kept: Vec<(String, Vec<u8>)> = Vec::new();
    for e in it: cache_entries.into_iter()
        invariant
            it.seq() == cache_entries@,
            all == entries_model(cache_entries@),
            entries_model(kept@) == backed_up_entries(all.take(it.index())),
    {
        let ghost i = it.index();
        proof {
            assert(all.take(i + 1) =~= all.take(i).push(all[i]));
            all.take(i).lemma_filter_push(all[i], |e: EntryModel| needs_real_backup(e));
        }
        if classify(e.0.as_str()) == CacheStateClass::NeedsRealBackup {
            kept.push(e);
            assert(entries_model(kept@) =~= backed_up_entries(all.take(i + 1)));
        } else {
            assert(entries_model(kept@) =~= backed_up_entries(all.take(i + 1)));
        }
    }
    assert(all.take(all.len() as int) =~= all);
    Backup {
        datastore: DatastoreBackup { watermark, payload: datastore_payload },
        cache: CacheBackup { watermark, entries: kept },
    }
}

/// Validate that a backup's datastore and cache watermarks agree within the
/// documented tolerance. Returns the reconciled watermark on success.
pub fn check_consistency(backup: &Backup) -> (r: Result<Watermark, BackupError>)
    ensures
        r == check_consistency_spec(backup.model()),
{
    match backup.datastore.watermark.reconcile(&backup.cache.watermark, WATERMARK_TOLERANCE) {
        Ok(w) => Ok(w),
        Err(m) => Err(BackupError::Inconsistent(m)),
    }
}

/// Restore a backup, refusing to bring the service up if the two watermarks
/// disagree beyond the documented tolerance.
///
/// Derivable cache state is not restored: the caller cold-starts it empty.
/// Only entries classified as [`CacheStateClass::NeedsRealBackup`] are
/// returned for restoration.
pub fn restore(backup: &Backup) -> (r: Result<RestoredState, BackupError>)
    ensures
        match r {
            Ok(state) => restore_spec(backup.model()) == Ok::<RestoredModel, BackupError>(
                state.model(),
            ),
            Err(e) => restore_spec(backup.model()) == Err::<RestoredModel, BackupError>(e),
        },
{
    let watermark = match check_consistency(backup) {
        Ok(w) => w,
        Err(e) => return Err(e),
    };
    let ghost all = entries_model(backup.cache.entries@);
    let mut kept: Vec<(String, Vec<u8>)> = Vec::new();
    let n = backup.cache.entries.len();
    for i in 0..n
        invariant
            n == backup.cache.entries.len(),
            all == entries_model(backup.cache.entries@),
            entries_model(kept@) == backed_up_entries(all.take(i as int)),
    {
        let e = &backup.cache.entries[i];
        proof {
            assert(all.take(i + 1) =~= all.take(i as int).push(all[i as int]));
            all.take(i as int).lemma_filter_push(all[i as int], |e: EntryModel| needs_real_backup(e));
        }
        if classify(e.0.as_str()) == CacheStateClass::NeedsRealBackup {
            kept.push(copy_entry(e));
        }
        assert(entries_model(kept@) =~= backed_up_entries(all.take(i + 1)));
    }
    assert(all.take(n as int) =~= all);
    Ok(
        RestoredState {
            watermark,
            datastore_payload: copy_bytes(&backup.datastore.payload),
            cache_entries: kept,
        },
    )
}

/// Keeping the entries that need a real backup twice keeps the same entries
/// as doing it once.
pub proof fn lemma_backed_up_idempotent(entries: Seq<EntryModel>)
    ensures
        backed_up_entries(backed_up_entries(entries)) == backed_up_entries(entries),
    decreases entries.len(),
{
    let p = |e: EntryModel| needs_real_backup(e);
    if entries.len() == 0 {
        assert(entries.filter(p) =~= Seq::<EntryModel>::empty());
        assert(Seq::<EntryModel>::empty().filter(p) =~= Seq::<EntryModel>::empty());
    } else {
        let init = entries.drop_last();
        let x = entries.last();
        lemma_backed_up_idempotent(init);
        assert(entries =~= init.push(x));
        init.lemma_filter_push(x, p);
        if p(x) {
            init.filter(p).lemma_filter_push(x, p);
        }
    }
}

/// Restoring a freshly taken backup succeeds and gives back the watermark it
/// was tagged with, the datastore payload unchanged, and exactly the cache
/// entries that need a real backup, in their original order.
pub proof fn law_restore_after_take_backup(
    watermark: Watermark,
    payload: Seq<u8>,
    entries: Seq<EntryModel>,
)
    ensures
        restore_spec(take_backup_spec(watermark, payload, entries)) == Ok::<
            RestoredModel,
            BackupError,
        >(RestoredModel { watermark, payload, entries: backed_up_entries(entries) }),
{
    lemma_backed_up_idempotent(entries);
}

/// Derivable cache state is never captured in a backup: every entry of a
/// taken backup needs a real backup.
pub proof fn law_backup_holds_only_real_state(
    watermark: Watermark,
    payload: Seq<u8>,
    entries: Seq<EntryModel>,
    i: int,
)
    requires
        0 <= i < take_backup_spec(watermark, payload, entries).entries.len(),
    ensures
        needs_real_backup(take_backup_spec(watermark, payload, entries).entries[i]),
{
    entries.lemma_filter_pred(|e: EntryModel| needs_real_backup(e), i);
}

/// Derivable cache state is never restored: every entry a restore hands back
/// needs a real backup, and it is an entry of the backup.
pub proof fn law_restore_holds_only_real_state(b: BackupModel, i: int)
    requires
        restore_spec(b) is Ok,
        0 <= i < restore_spec(b)->Ok_0.entries.len(),
    ensures
        needs_real_backup(restore_spec(b)->Ok_0.entries[i]),
        b.entries.contains(restore_spec(b)->Ok_0.entries[i]),
{
    b.entries.lemma_filter_pred(|e: EntryModel| needs_real_backup(e), i);
    let f = b.entries.filter(|e: EntryModel| needs_real_backup(e));
    assert(f.contains(f[i]));
    b.entries.lemma_filter_contains_rev(|e: EntryModel| needs_real_backup(e), f[i]);
}

/// Every successful restore, of any backup and not only of a freshly taken
/// one, hands back the backup's datastore payload unchanged and resumes from
/// the lower of the two watermarks; a restore succeeds whenever the two
/// watermarks are within the tolerance of each other.
pub proof fn law_restore_keeps_payload(b: BackupModel)
    ensures
        restore_spec(b) is Ok ==> restore_spec(b)->Ok_0.payload == b.payload,
        restore_spec(b) is Ok ==> restore_spec(b)->Ok_0.watermark.0 == if b.datastore_watermark.0
            <= b.cache_watermark.0 {
            b.datastore_watermark.0
        } else {
            b.cache_watermark.0
        },
        (b.datastore_watermark.0 <= b.cache_watermark.0 + WATERMARK_TOLERANCE
            && b.cache_watermark.0 <= b.datastore_watermark.0 + WATERMARK_TOLERANCE) ==> restore_spec(
            b,
        ) is Ok,
{
}

/// A restore is refused exactly when the datastore and cache watermarks are
/// further apart than the documented tolerance, and the refusal names both
/// watermarks and the tolerance. Otherwise the service resumes from the
/// lower of the two watermarks.
pub proof fn law_restore_refused_iff_skew_too_large(b: BackupModel)
    ensures
        restore_spec(b) is Err <==> watermark::seq_distance(
            b.datastore_watermark.0,
            b.cache_watermark.0,
        ) > WATERMARK_TOLERANCE,
        restore_spec(b) is Err ==> restore_spec(b) == Err::<RestoredModel, BackupError>(
            BackupError::Inconsistent(
                WatermarkMismatch {
                    datastore: b.datastore_watermark,
                    cache: b.cache_watermark,
                    tolerance: WATERMARK_TOLERANCE,
                },
            ),
        ),
        restore_spec(b) is Ok ==> restore_spec(b)->Ok_0.watermark == Watermark(
            watermark::seq_min(b.datastore_watermark.0, b.cache_watermark.0),
        ),
{
}

} // verus!
