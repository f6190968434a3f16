//! Metadata index synchronisation: changes are buffered locally and shipped
//! as numbered incremental deltas or full snapshots.
use vstd::prelude::*;

use std::collections::BTreeMap;

verus! {

broadcast use {vstd::std_specs::btree::group_btree_axioms, vstd::laws_cmp::group_laws_cmp};

/// Buffered changes beyond which a change triggers an incremental sync.
pub const MAX_PENDING_CHANGES: usize = 1000;

/// Kind of a metadata change.
#[derive(Debug, Clone, Copy, PartialEq, Eq, Structural)]
pub enum ChangeType {
    /// A new record.
    Add,
    /// An updated record (tags, cluster).
    Modify,
    /// A removed record.
    Delete,
}

impl ChangeType {
    /// Human-readable name of the change kind.
    pub fn name(&self) -> (r: &'static str) {
        match self {
            ChangeType::Add => "Add",
            ChangeType::Modify => "Modify",
            ChangeType::Delete => "Delete",
        }
    }
}

/// One buffered metadata change.
#[derive(Debug, Clone, Copy, PartialEq, Eq, Structural)]
pub struct MetadataChange {
    pub photo_id: u32,
    pub change_type: ChangeType,
    pub timestamp: u64,
    pub delta_size_bytes: u32,
}

/// A numbered version of the metadata index.
#[derive(Debug, Clone)]
pub struct MetadataVersion {
    pub version: u32,
    pub timestamp: u64,
    pub total_records: u32,
    pub cloud_backup_path: Option<String>,
    pub checksum: String,
    pub is_synced: bool,
}

/// The changes between two consecutive versions.
#[derive(Debug, Clone)]
pub struct MetadataDelta {
    pub from_version: u32,
    pub to_version: u32,
    pub added_records: u32,
    pub modified_records: u32,
    pub deleted_records: u32,
    pub changes: Vec<MetadataChange>,
}

/// Where the full metadata of a photo lives in the cloud.
#[derive(Debug, Clone)]
pub struct CloudMetadataIndex {
    pub photo_id: u32,
    pub cloud_url: String,
    pub sync_timestamp: u64,
    pub etag: String,
    pub local_cached: bool,
}

/// Synchronisation settings.
#[derive(Debug, Clone, Copy)]
pub struct SyncPolicy {
    /// Days of metadata kept in full locally.
    pub hot_data_days: u32,
    pub incremental_sync_interval_secs: u32,
    pub full_sync_interval_secs: u32,
    pub enable_compression: bool,
    pub enable_deduplication: bool,
}

impl Default for SyncPolicy {
    fn default() -> (p: Self)
        ensures
            p == (SyncPolicy {
                hot_data_days: 30,
                incremental_sync_interval_secs: 3600,
                full_sync_interval_secs: 86400,
                enable_compression: true,
                enable_deduplication: true,
            }),
    {
        SyncPolicy {
            hot_data_days: 30,
            incremental_sync_interval_secs: 3600,
            full_sync_interval_secs: 86400,
            enable_compression: true,
            enable_deduplication: true,
        }
    }
}

/// The character of digit `d` (below 16), lowercase.
pub open spec fn digit_char(d: nat) -> char {
    if d < 10 {
        (('0' as u8) + d) as char
    } else {
        (('a' as u8) + (d - 10)) as char
    }
}

/// Decimal digits of `n`, most significant first ("0" for zero).
pub open spec fn decimal_digits(n: nat) -> Seq<char>
    decreases n,
{
    if n < 10 {
        seq![digit_char(n)]
    } else {
        decimal_digits(n / 10).push(digit_char(n % 10))
    }
}

/// Lowercase hexadecimal digits of `n`, most significant first ("0" for
/// zero).
pub open spec fn hex_digits(n: nat) -> Seq<char>
    decreases n,
{
    if n < 16 {
        seq![digit_char(n)]
    } else {
        hex_digits(n / 16).push(digit_char(n % 16))
    }
}

/// Relies on `alloc::format!` with `{}{}`: `prefix` followed by the
/// decimal digits of `n`.
#[verifier::external_body]
fn with_decimal(prefix: &str, n: u32) -> (r: String)
    ensures
        r@ == prefix@ + decimal_digits(n as nat),
{
    format!("{}{}", prefix, n)
}

/// Relies on `alloc::format!` with `{}{:x}`: `prefix` followed by the
/// lowercase hexadecimal digits of `n`.
#[verifier::external_body]
fn with_hex(prefix: &str, n: usize) -> (r: String)
    ensures
        r@ == prefix@ + hex_digits(n as nat),
{
    format!("{}{:x}", prefix, n)
}

/// Number of changes of kind `t` in `s`.
pub open spec fn count_kind(s: Seq<MetadataChange>, t: ChangeType) -> nat
    decreases s.len(),
{
    if s.len() == 0 {
        0
    } else {
        count_kind(s.drop_last(), t) + if s.last().change_type == t {
            1nat
        } else {
            0nat
        }
    }
}

/// Total size of the changes of `s`, in bytes.
pub open spec fn size_sum(s: Seq<MetadataChange>) -> nat
    decreases s.len(),
{
    if s.len() == 0 {
        0
    } else {
        size_sum(s.drop_last()) + s.last().delta_size_bytes as nat
    }
}

pub proof fn lemma_count_kind_le(s: Seq<MetadataChange>, t: ChangeType)
    ensures
        count_kind(s, t) <= s.len(),
    decreases s.len(),
{
    if s.len() > 0 {
        lemma_count_kind_le(s.drop_last(), t);
    }
}

/// Buffers metadata changes and records versions and deltas.
pub struct MetadataIndexSyncManager {
    current_version: u32,
    version_history: Vec<MetadataVersion>,
    delta_history: Vec<MetadataDelta>,
    /// Locally held metadata, by photo id.
    local_metadata: BTreeMap<u32, CloudMetadataIndex>,
    pending_changes: Vec<MetadataChange>,
    sync_policy: SyncPolicy,
}

impl MetadataIndexSyncManager {
    pub closed spec fn version(&self) -> u32 {
        self.current_version
    }

    pub closed spec fn versions(&self) -> Seq<MetadataVersion> {
        self.version_history@
    }

    pub closed spec fn deltas(&self) -> Seq<MetadataDelta> {
        self.delta_history@
    }

    pub closed spec fn pending(&self) -> Seq<MetadataChange> {
        self.pending_changes@
    }

    /// Number of records held locally.
    pub closed spec fn local_count(&self) -> nat {
        self.local_metadata@.len()
    }

    pub closed spec fn policy(&self) -> SyncPolicy {
        self.sync_policy
    }

    pub closed spec fn wf(&self) -> bool {
        &&& self.pending_changes@.len() <= MAX_PENDING_CHANGES
        &&& self.local_metadata@.len() <= u32::MAX
    }

    /// `v` is the version entry recorded for version number `n`, under
    /// backup path `path_prefix` followed by `n`.
    pub open spec fn version_entry(&self, v: MetadataVersion, n: u32, path_prefix: Seq<char>) -> bool {
        &&& v.version == n
        &&& v.timestamp == 0
        &&& v.total_records == self.local_count()
        &&& v.cloud_backup_path is Some
        &&& v.cloud_backup_path->Some_0@ == path_prefix + decimal_digits(n as nat)
        &&& v.checksum@ == "checksum_"@ + hex_digits(self.local_count())
        &&& !v.is_synced
    }

    /// Version 0, nothing buffered or recorded.
    pub fn new(sync_policy: SyncPolicy) -> (m: MetadataIndexSyncManager)
        ensures
            m.wf(),
            m.version() == 0,
            m.versions().len() == 0,
            m.deltas().len() == 0,
            m.pending().len() == 0,
            m.local_count() == 0,
            m.policy() == sync_policy,
    {
        MetadataIndexSyncManager {
            current_version: 0,
            version_history: Vec::new(),
            delta_history: Vec::new(),
            local_metadata: BTreeMap::new(),
            pending_changes: Vec::new(),
            sync_policy,
        }
    }

    /// Buffers a change. Once more than `MAX_PENDING_CHANGES` changes are
    /// buffered they are flushed as an incremental delta.
    pub fn track_change(&mut self, photo_id: u32, change_type: ChangeType, delta_size: u32) -> (r:
        Result<(), &'static str>)
        requires
            old(self).wf(),
            old(self).pending().len() == MAX_PENDING_CHANGES ==> old(self).version() < u32::MAX,
        ensures
            final(self).wf(),
            r is Ok,
            final(self).policy() == old(self).policy(),
            final(self).local_count() == old(self).local_count(),
            ({
                let change = MetadataChange {
                    photo_id,
                    change_type,
                    timestamp: 0,
                    delta_size_bytes: delta_size,
                };
                let all = old(self).pending().push(change);
                if all.len() > MAX_PENDING_CHANGES {
                    &&& final(self).pending().len() == 0
                    &&& final(self).version() == old(self).version() + 1
                    &&& final(self).versions().len() == old(self).versions().len() + 1
                    &&& final(self).deltas().len() == old(self).deltas().len() + 1
                    &&& final(self).deltas().last().changes@ == all
                } else {
                    &&& final(self).pending() == all
                    &&& final(self).version() == old(self).version()
                    &&& final(self).versions() == old(self).versions()
                    &&& final(self).deltas() == old(self).deltas()
                }
            }),
    {
        let change = MetadataChange { photo_id, change_type, timestamp: 0, delta_size_bytes: delta_size };
        self.pending_changes.push(change);
        if self.pending_changes.len() > MAX_PENDING_CHANGES {
            let _ = self.flush_pending();
        }
        Ok(())
    }

    /// Ships the buffered changes as the delta to the next version and
    /// records that version. Fails, changing nothing, when nothing is
    /// buffered.
    pub fn flush_incremental_sync(&mut self) -> (r: Result<MetadataDelta, &'static str>)
        requires
            old(self).wf(),
            old(self).pending().len() > 0 ==> old(self).version() < u32::MAX,
        ensures
            final(self).wf(),
            r is Ok <==> old(self).pending().len() > 0,
            r is Err ==> *final(self) == *old(self),
            r is Ok ==> final(self).flushed(old(self), r->Ok_0),
    {
        if self.pending_changes.len() == 0 {
            return Err("No pending changes");
        }
        self.flush_pending()
    }

    /// `self` is `old` after its buffered changes were shipped as `delta`.
    pub open spec fn flushed(&self, old: &MetadataIndexSyncManager, delta: MetadataDelta) -> bool {
        let p = old.pending();
        let n = (old.version() + 1) as u32;
        &&& delta.from_version == old.version()
        &&& delta.to_version == n
        &&& delta.added_records == count_kind(p, ChangeType::Add)
        &&& delta.modified_records == count_kind(p, ChangeType::Modify)
        &&& delta.deleted_records == count_kind(p, ChangeType::Delete)
        &&& delta.changes@ == p
        &&& self.version() == n
        &&& self.pending().len() == 0
        &&& self.versions().len() == old.versions().len() + 1
        &&& self.versions().drop_last() == old.versions()
        &&& old.version_entry(self.versions().last(), n, "/metadata/v"@)
        &&& self.deltas().len() == old.deltas().len() + 1
        &&& self.deltas().drop_last() == old.deltas()
        &&& self.deltas().last().from_version == delta.from_version
        &&& self.deltas().last().to_version == delta.to_version
        &&& self.deltas().last().added_records == delta.added_records
        &&& self.deltas().last().modified_records == delta.modified_records
        &&& self.deltas().last().deleted_records == delta.deleted_records
        &&& self.deltas().last().changes@ == p
        &&& self.local_count() == old.local_count()
        &&& self.policy() == old.policy()
    }

    fn flush_pending(&mut self) -> (r: Result<MetadataDelta, &'static str>)
        requires
            old(self).pending_changes@.len() <= MAX_PENDING_CHANGES + 1,
            old(self).pending_changes@.len() > 0,
            old(self).local_metadata@.len() <= u32::MAX,
            old(self).version() < u32::MAX,
        ensures
            final(self).wf(),
            r is Ok,
            final(self).flushed(old(self), r->Ok_0),
    {
        let from_version = self.current_version;
        self.current_version = self.current_version + 1;
        let mut added: u32 = 0;
        let mut modified: u32 = 0;
        let mut deleted: u32 = 0;
        let mut i: usize = 0;
        while i < self.pending_changes.len()
            invariant
                i <= self.pending_changes@.len() <= MAX_PENDING_CHANGES + 1,
                added == count_kind(self.pending_changes@.subrange(0, i as int), ChangeType::Add),
                modified == count_kind(
                    self.pending_changes@.subrange(0, i as int),
                    ChangeType::Modify,
                ),
                deleted == count_kind(
                    self.pending_changes@.subrange(0, i as int),
                    ChangeType::Delete,
                ),
            decreases self.pending_changes@.len() - i,
        {
            let ghost pre = self.pending_changes@.subrange(0, i as int);
            proof {
                assert(self.pending_changes@.subrange(0, i as int + 1).drop_last() =~= pre);
                lemma_count_kind_le(pre, ChangeType::Add);
                lemma_count_kind_le(pre, ChangeType::Modify);
                lemma_count_kind_le(pre, ChangeType::Delete);
            }
            match self.pending_changes[i].change_type {
                ChangeType::Add => added = added + 1,
                ChangeType::Modify => modified = modified + 1,
                ChangeType::Delete => deleted = deleted + 1,
            }
            i = i + 1;
        }
        assert(self.pending_changes@.subrange(0, i as int) =~= self.pending_changes@);
        let ghost before = *self;
        let version = self.version_entry_for("/metadata/v", self.current_version);
        self.version_history.push(version);
        let recorded = MetadataDelta {
            from_version,
            to_version: self.current_version,
            added_records: added,
            modified_records: modified,
            deleted_records: deleted,
            changes: copy_changes(&self.pending_changes),
        };
        self.delta_history.push(recorded);
        let mut changes: Vec<MetadataChange> = Vec::new();
        std::mem::swap(&mut changes, &mut self.pending_changes);
        let delta = MetadataDelta {
            from_version,
            to_version: self.current_version,
            added_records: added,
            modified_records: modified,
            deleted_records: deleted,
            changes,
        };
        assert(self.versions().drop_last() =~= old(self).versions());
        assert(self.deltas().drop_last() =~= old(self).deltas());
        Ok(delta)
    }

    /// The entry recorded for version `n`, with backup path `prefix`
    /// followed by `n`.
    fn version_entry_for(&self, prefix: &str, n: u32) -> (v: MetadataVersion)
        requires
            self.local_metadata@.len() <= u32::MAX,
        ensures
            self.version_entry(v, n, prefix@),
    {
        MetadataVersion {
            version: n,
            timestamp: 0,
            total_records: self.local_metadata.len() as u32,
            cloud_backup_path: Some(with_decimal(prefix, n)),
            checksum: self.compute_checksum(),
            is_synced: false,
        }
    }

    /// Checksum of the local index: its record count in hexadecimal.
    fn compute_checksum(&self) -> (r: String)
        ensures
            r@ == "checksum_"@ + hex_digits(self.local_count()),
    {
        with_hex("checksum_", self.local_metadata.len())
    }

    /// Records a full snapshot as the next version and drops the buffered
    /// changes, which the snapshot covers.
    pub fn full_sync(&mut self) -> (r: Result<MetadataVersion, &'static str>)
        requires
            old(self).wf(),
            old(self).version() < u32::MAX,
        ensures
            final(self).wf(),
            r is Ok,
            ({
                let n = (old(self).version() + 1) as u32;
                &&& old(self).version_entry(r->Ok_0, n, "/metadata/full/"@)
                &&& final(self).version() == n
                &&& final(self).pending().len() == 0
                &&& final(self).versions().len() == old(self).versions().len() + 1
                &&& final(self).versions().drop_last() == old(self).versions()
                &&& old(self).version_entry(final(self).versions().last(), n, "/metadata/full/"@)
                &&& final(self).deltas() == old(self).deltas()
                &&& final(self).local_count() == old(self).local_count()
                &&& final(self).policy() == old(self).policy()
            }),
    {
        self.current_version = self.current_version + 1;
        let recorded = self.version_entry_for("/metadata/full/", self.current_version);
        let version = self.version_entry_for("/metadata/full/", self.current_version);
        self.version_history.push(recorded);
        self.pending_changes.clear();
        assert(self.versions().drop_last() =~= old(self).versions());
        Ok(version)
    }

    /// Accepts cloud data for a recorded version; fails, changing nothing,
    /// for a version that was never recorded.
    pub fn restore_from_cloud(&mut self, version: u32, cloud_data: &[u8]) -> (r: Result<
        (),
        &'static str,
    >)
        ensures
            r is Ok <==> exists|i: int|
                0 <= i < old(self).versions().len() && old(self).versions()[i].version == version,
            *final(self) == *old(self),
    {
        let mut i: usize = 0;
        while i < self.version_history.len()
            invariant
                i <= self.version_history@.len(),
                forall|j: int| 0 <= j < i ==> self.version_history@[j].version != version,
            decreases self.version_history@.len() - i,
        {
            if self.version_history[i].version == version {
                return Ok(());
            }
            i = i + 1;
        }
        Err("Version not found")
    }

    /// Recorded versions, oldest first.
    pub fn get_version_history(&self) -> (r: &[MetadataVersion])
        ensures
            r@ == self.versions(),
    {
        self.version_history.as_slice()
    }

    /// Recorded deltas, oldest first.
    pub fn get_delta_history(&self) -> (r: &[MetadataDelta])
        ensures
            r@ == self.deltas(),
    {
        self.delta_history.as_slice()
    }

    /// Number of buffered changes.
    pub fn get_pending_changes_count(&self) -> (r: usize)
        ensures
            r == self.pending().len(),
    {
        self.pending_changes.len()
    }

    /// Whether the total size of the buffered changes fits in 32 bits.
    pub fn pending_size_fits(&self) -> (r: bool)
        ensures
            r == (size_sum(self.pending()) <= u32::MAX),
    {
        let mut total: u64 = 0;
        let mut i: usize = 0;
        while i < self.pending_changes.len()
            invariant
                i <= self.pending_changes@.len(),
                total == size_sum(self.pending_changes@.subrange(0, i as int)),
                total <= u32::MAX,
            decreases self.pending_changes@.len() - i,
        {
            proof {
                let s = self.pending_changes@;
                assert(s.subrange(0, i as int + 1).drop_last() =~= s.subrange(0, i as int));
                lemma_size_sum_prefix(s, i as int + 1);
            }
            total = total + self.pending_changes[i].delta_size_bytes as u64;
            if total > u32::MAX as u64 {
                return false;
            }
            i = i + 1;
        }
        assert(self.pending_changes@.subrange(0, i as int) =~= self.pending_changes@);
        true
    }

    /// Total size of the buffered changes, in bytes.
    pub fn estimate_delta_size(&self) -> (r: u32)
        requires
            size_sum(self.pending()) <= u32::MAX,
        ensures
            r == size_sum(self.pending()),
    {
        let mut total: u32 = 0;
        let mut i: usize = 0;
        while i < self.pending_changes.len()
            invariant
                i <= self.pending_changes@.len(),
                size_sum(self.pending_changes@) <= u32::MAX,
                total == size_sum(self.pending_changes@.subrange(0, i as int)),
            decreases self.pending_changes@.len() - i,
        {
            proof {
                let s = self.pending_changes@;
                assert(s.subrange(0, i as int + 1).drop_last() =~= s.subrange(0, i as int));
                lemma_size_sum_prefix(s, i as int + 1);
            }
            total = total + self.pending_changes[i].delta_size_bytes;
            i = i + 1;
        }
        assert(self.pending_changes@.subrange(0, i as int) =~= self.pending_changes@);
        total
    }

    /// Current version number.
    pub fn current_version(&self) -> (r: u32)
        ensures
            r == self.version(),
    {
        self.current_version
    }

    /// Number of records held locally.
    pub fn local_record_count(&self) -> (r: usize)
        ensures
            r == self.local_count(),
    {
        self.local_metadata.len()
    }

    /// The synchronisation settings.
    pub fn sync_policy(&self) -> (r: SyncPolicy)
        ensures
            r == self.policy(),
    {
        self.sync_policy
    }
}

pub proof fn lemma_size_sum_prefix(s: Seq<MetadataChange>, k: int)
    requires
        0 <= k <= s.len(),
    ensures
        size_sum(s.subrange(0, k)) <= size_sum(s),
    decreases s.len() - k,
{
    if k < s.len() {
        lemma_size_sum_prefix(s, k + 1);
        assert(s.subrange(0, k + 1).drop_last() =~= s.subrange(0, k));
    } else {
        assert(s.subrange(0, k) =~= s);
    }
}

/// A copy of `v`.
fn copy_changes(v: &Vec<MetadataChange>) -> (r: Vec<MetadataChange>)
    ensures
        r@ == v@,
{
    let mut r: Vec<MetadataChange> = Vec::new();
    let mut i: usize = 0;
    while i < v.len()
        invariant
            i <= v@.len(),
            r@ == v@.subrange(0, i as int),
        decreases v@.len() - i,
    {
        r.push(v[i]);
        i = i + 1;
        assert(r@ =~= v@.subrange(0, i as int));
    }
    assert(v@.subrange(0, i as int) =~= v@);
    r
}

} // verus!
