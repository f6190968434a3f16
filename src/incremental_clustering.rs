//! Incremental clustering bookkeeping: one clustering task at a time, the
//! photo-to-cluster assignment, the member list of each cluster, and a
//! version entry for every completed task.
use vstd::prelude::*;

use std::collections::BTreeMap;
use vstd::std_specs::cmp::OrdSpec;
use vstd::std_specs::iter::IteratorSpec;

verus! {

broadcast use {vstd::std_specs::btree::group_btree_axioms, vstd::laws_cmp::group_laws_cmp};

/// How a clustering task was started.
#[derive(Debug, Clone, Copy, PartialEq, Eq, Structural)]
pub enum ProcessingMode {
    /// First clustering of the whole library.
    FullScan,
    /// Only photos added since the last run.
    Incremental,
    /// Recluster from scratch.
    Rebuild,
}

/// Lifecycle of a clustering task.
#[derive(Debug, Clone, Copy, PartialEq, Eq, Structural)]
pub enum ClusteringTaskStatus {
    Pending,
    Processing,
    Completed,
    Failed,
    Cancelled,
}

impl ClusteringTaskStatus {
    /// Human-readable name of the status.
    pub fn name(&self) -> (r: &'static str) {
        match self {
            ClusteringTaskStatus::Pending => "Pending",
            ClusteringTaskStatus::Processing => "Processing",
            ClusteringTaskStatus::Completed => "Completed",
            ClusteringTaskStatus::Failed => "Failed",
            ClusteringTaskStatus::Cancelled => "Cancelled",
        }
    }
}

/// A batch of photos to assign to clusters.
#[derive(Debug, Clone)]
pub struct ClusteringTask {
    pub task_id: u32,
    pub mode: ProcessingMode,
    pub status: ClusteringTaskStatus,
    pub photo_ids: Vec<u32>,
    pub photo_count: u32,
    pub processed_count: u32,
    pub created_timestamp: u64,
    pub started_timestamp: Option<u64>,
    pub completed_timestamp: Option<u64>,
    pub error_message: Option<&'static str>,
}

/// Percentage of `processed` out of `count`, truncated to 32 bits as the
/// stored counters allow; zero for an empty task.
pub open spec fn progress_of(processed: u32, count: u32) -> int {
    if count == 0 {
        0
    } else {
        (processed as int * 100 / count as int) % 0x1_0000_0000
    }
}

impl ClusteringTask {
    /// A pending task over `photo_ids`, nothing processed yet.
    pub fn new(task_id: u32, mode: ProcessingMode, photo_ids: Vec<u32>) -> (t: ClusteringTask)
        requires
            photo_ids@.len() <= u32::MAX,
        ensures
            t.task_id == task_id,
            t.mode == mode,
            t.status == ClusteringTaskStatus::Pending,
            t.photo_ids@ == photo_ids@,
            t.photo_count == photo_ids@.len(),
            t.processed_count == 0,
            t.created_timestamp == 0,
            t.started_timestamp is None,
            t.completed_timestamp is None,
            t.error_message is None,
    {
        let photo_count = photo_ids.len() as u32;
        ClusteringTask {
            task_id,
            mode,
            status: ClusteringTaskStatus::Pending,
            photo_ids,
            photo_count,
            processed_count: 0,
            created_timestamp: 0,
            started_timestamp: None,
            completed_timestamp: None,
            error_message: None,
        }
    }

    /// Processed share of the task, in percent.
    pub fn get_progress_percentage(&self) -> (r: u32)
        ensures
            r == progress_of(self.processed_count, self.photo_count),
    {
        if self.photo_count == 0 {
            return 0;
        }
        let v: u64 = (self.processed_count as u64 * 100) / (self.photo_count as u64);
        (v % 0x1_0000_0000) as u32
    }

    /// Time left for a task being processed, at `avg_time_per_photo` per
    /// remaining photo; `None` for a task in any other state.
    pub fn get_estimated_remaining_time(&self, avg_time_per_photo: u64) -> (r: Option<u64>)
        requires
            self.status == ClusteringTaskStatus::Processing ==> (if self.processed_count
                <= self.photo_count {
                self.photo_count - self.processed_count
            } else {
                0
            }) * avg_time_per_photo <= u64::MAX,
        ensures
            self.status == ClusteringTaskStatus::Processing ==> r == Some(
                ((if self.processed_count <= self.photo_count {
                    self.photo_count - self.processed_count
                } else {
                    0
                }) * avg_time_per_photo) as u64,
            ),
            self.status != ClusteringTaskStatus::Processing ==> r is None,
    {
        match self.status {
            ClusteringTaskStatus::Processing => {
                let remaining = self.photo_count.saturating_sub(self.processed_count);
                Some(remaining as u64 * avg_time_per_photo)
            },
            _ => None,
        }
    }
}

/// Snapshot taken when a clustering task completes.
#[derive(Debug, Clone, Copy, PartialEq, Eq, Structural)]
pub struct ClusteringIndexVersion {
    pub version: u32,
    pub created_timestamp: u64,
    pub total_clusters: u32,
    pub total_vectors: u32,
    pub task_id: u32,
}

/// `m` with `photo` appended to the member list of cluster `cluster`.
pub open spec fn with_member(m: Map<u32, Seq<u32>>, cluster: u32, photo: u32) -> Map<u32, Seq<u32>> {
    m.insert(cluster, members(m, cluster).push(photo))
}

/// Member list of `cluster`; empty for an unknown cluster.
pub open spec fn members(m: Map<u32, Seq<u32>>, cluster: u32) -> Seq<u32> {
    if m.contains_key(cluster) {
        m[cluster]
    } else {
        Seq::empty()
    }
}

/// `a` with every photo of `photos` assigned to `cluster`.
pub open spec fn assign_all(a: Map<u32, u32>, photos: Seq<u32>, cluster: u32) -> Map<u32, u32>
    decreases photos.len(),
{
    if photos.len() == 0 {
        a
    } else {
        assign_all(a, photos.drop_last(), cluster).insert(photos.last(), cluster)
    }
}

/// Photos of `photos` whose position is listed in `idx` (`moved`), or not
/// listed (`!moved`), in their original order.
pub open spec fn split_part(photos: Seq<u32>, idx: Seq<usize>, moved: bool) -> Seq<u32>
    decreases photos.len(),
{
    if photos.len() == 0 {
        Seq::empty()
    } else {
        let rest = split_part(photos.drop_last(), idx, moved);
        if idx.contains((photos.len() - 1) as usize) == moved {
            rest.push(photos.last())
        } else {
            rest
        }
    }
}

/// `a` after each photo of `photos`, in order, is assigned to `moved_to`
/// when its position is listed in `idx` and to `kept_in` otherwise.
pub open spec fn assign_split(
    a: Map<u32, u32>,
    photos: Seq<u32>,
    idx: Seq<usize>,
    kept_in: u32,
    moved_to: u32,
) -> Map<u32, u32>
    decreases photos.len(),
{
    if photos.len() == 0 {
        a
    } else {
        let prev = assign_split(a, photos.drop_last(), idx, kept_in, moved_to);
        prev.insert(
            photos.last(),
            if idx.contains((photos.len() - 1) as usize) {
                moved_to
            } else {
                kept_in
            },
        )
    }
}

/// `s` lists the entries of `m` by increasing photo id.
pub open spec fn entries_in_order(s: Seq<(u32, u32)>, m: Map<u32, u32>) -> bool {
    &&& forall|i: int, j: int| 0 <= i < j < s.len() ==> s[i].0 < s[j].0
    &&& forall|i: int| 0 <= i < s.len() ==> m.contains_key(#[trigger] s[i].0) && m[s[i].0] == s[i].1
    &&& s.len() == m.len()
}

/// Member lists built by appending each photo of `s`, in order, to its
/// cluster, starting from no cluster.
pub open spec fn grouped(s: Seq<(u32, u32)>) -> Map<u32, Seq<u32>>
    decreases s.len(),
{
    if s.len() == 0 {
        Map::empty()
    } else {
        with_member(grouped(s.drop_last()), s.last().1, s.last().0)
    }
}

/// The larger of `m` and every cluster id of `s`.
pub open spec fn max_cluster(m: u32, s: Seq<(u32, u32)>) -> u32
    decreases s.len(),
{
    if s.len() == 0 {
        m
    } else {
        let prev = max_cluster(m, s.drop_last());
        if s.last().1 > prev {
            s.last().1
        } else {
            prev
        }
    }
}

/// Keeps the clustering state and runs one task at a time.
pub struct IncrementalClusteringManager {
    current_task: Option<ClusteringTask>,
    task_history: Vec<ClusteringTask>,
    index_versions: Vec<ClusteringIndexVersion>,
    /// photo id -> cluster id
    cluster_assignments: BTreeMap<u32, u32>,
    /// cluster id -> member photo ids
    clusters: BTreeMap<u32, Vec<u32>>,
    max_cluster_id: u32,
}

impl IncrementalClusteringManager {
    pub closed spec fn current_task(&self) -> Option<ClusteringTask> {
        self.current_task
    }

    /// Tasks that ended, completed or cancelled, oldest first.
    pub closed spec fn history(&self) -> Seq<ClusteringTask> {
        self.task_history@
    }

    /// Snapshots of completed tasks, oldest first.
    pub closed spec fn versions(&self) -> Seq<ClusteringIndexVersion> {
        self.index_versions@
    }

    /// Cluster of each assigned photo.
    pub closed spec fn assignments(&self) -> Map<u32, u32> {
        self.cluster_assignments@
    }

    /// Member list of each cluster.
    pub closed spec fn cluster_map(&self) -> Map<u32, Seq<u32>> {
        self.clusters@.map_values(|v: Vec<u32>| v@)
    }

    /// Largest cluster id seen or created so far.
    pub closed spec fn max_cluster_id(&self) -> u32 {
        self.max_cluster_id
    }

    /// Sizes stay within what the 32-bit counters report.
    pub closed spec fn wf(&self) -> bool {
        &&& self.task_history@.len() <= u32::MAX
        &&& self.index_versions@.len() < u32::MAX
        &&& self.cluster_assignments@.len() <= u32::MAX
        &&& self.clusters@.len() <= u32::MAX
    }

    /// Nothing clustered, no task.
    pub fn new() -> (m: IncrementalClusteringManager)
        ensures
            m.wf(),
            m.current_task() is None,
            m.history() == Seq::<ClusteringTask>::empty(),
            m.versions() == Seq::<ClusteringIndexVersion>::empty(),
            m.assignments() == Map::<u32, u32>::empty(),
            m.cluster_map() == Map::<u32, Seq<u32>>::empty(),
            m.max_cluster_id() == 0,
    {
        let m = IncrementalClusteringManager {
            current_task: None,
            task_history: Vec::new(),
            index_versions: Vec::new(),
            cluster_assignments: BTreeMap::new(),
            clusters: BTreeMap::new(),
            max_cluster_id: 0,
        };
        assert(m.cluster_map() =~= Map::<u32, Seq<u32>>::empty());
        m
    }

    /// Starts a full clustering pass over `photo_ids`. Fails while another
    /// task is running. The task id is the number of tasks that ended
    /// before it.
    pub fn submit_full_scan_task(&mut self, photo_ids: Vec<u32>) -> (r: Result<u32, &'static str>)
        requires
            old(self).wf(),
            photo_ids@.len() <= u32::MAX,
        ensures
            final(self).wf(),
            r is Ok <==> old(self).current_task() is None,
            r is Err ==> *final(self) == *old(self),
            r is Ok ==> {
                let t = final(self).current_task()->Some_0;
                &&& r->Ok_0 == old(self).history().len()
                &&& final(self).current_task() is Some
                &&& t.task_id == r->Ok_0
                &&& t.mode == ProcessingMode::FullScan
                &&& t.status == ClusteringTaskStatus::Pending
                &&& t.photo_ids@ == photo_ids@
                &&& t.photo_count == photo_ids@.len()
                &&& t.processed_count == 0
                &&& final(self).same_data(old(self))
            },
    {
        if self.current_task.is_some() {
            return Err("Another task is in progress");
        }
        let task_id = self.task_history.len() as u32;
        self.current_task = Some(ClusteringTask::new(task_id, ProcessingMode::FullScan, photo_ids));
        Ok(task_id)
    }

    /// Starts an incremental pass over `new_photo_ids`. Fails while another
    /// task is running, or before any task has completed.
    pub fn submit_incremental_task(&mut self, new_photo_ids: Vec<u32>) -> (r: Result<
        u32,
        &'static str,
    >)
        requires
            old(self).wf(),
            new_photo_ids@.len() <= u32::MAX,
        ensures
            final(self).wf(),
            r is Ok <==> old(self).current_task() is None && old(self).versions().len() > 0,
            r is Err ==> *final(self) == *old(self),
            r is Ok ==> {
                let t = final(self).current_task()->Some_0;
                &&& r->Ok_0 == old(self).history().len()
                &&& final(self).current_task() is Some
                &&& t.task_id == r->Ok_0
                &&& t.mode == ProcessingMode::Incremental
                &&& t.status == ClusteringTaskStatus::Pending
                &&& t.photo_ids@ == new_photo_ids@
                &&& t.photo_count == new_photo_ids@.len()
                &&& t.processed_count == 0
                &&& final(self).same_data(old(self))
            },
    {
        if self.current_task.is_some() {
            return Err("Another task is in progress");
        }
        if self.index_versions.len() == 0 {
            return Err("No baseline clustering found, use full scan instead");
        }
        let task_id = self.task_history.len() as u32;
        self.current_task = Some(
            ClusteringTask::new(task_id, ProcessingMode::Incremental, new_photo_ids),
        );
        Ok(task_id)
    }

    /// Everything but the current task is as in `other`.
    pub open spec fn same_data(&self, other: &IncrementalClusteringManager) -> bool {
        &&& self.history() == other.history()
        &&& self.versions() == other.versions()
        &&& self.assignments() == other.assignments()
        &&& self.cluster_map() == other.cluster_map()
        &&& self.max_cluster_id() == other.max_cluster_id()
    }

    /// Appends `photo_id` to the member list of `cluster_id`.
    fn push_member(&mut self, cluster_id: u32, photo_id: u32)
        requires
            old(self).clusters@.len() < u32::MAX,
        ensures
            final(self).cluster_map() == with_member(old(self).cluster_map(), cluster_id, photo_id),
            final(self).clusters@.len() <= old(self).clusters@.len() + 1,
            final(self).current_task == old(self).current_task,
            final(self).task_history == old(self).task_history,
            final(self).index_versions == old(self).index_versions,
            final(self).cluster_assignments == old(self).cluster_assignments,
            final(self).max_cluster_id == old(self).max_cluster_id,
    {
        let ghost cm = self.cluster_map();
        let mut list = match self.clusters.remove(&cluster_id) {
            Some(v) => v,
            None => Vec::new(),
        };
        assert(list@ == members(cm, cluster_id));
        list.push(photo_id);
        self.clusters.insert(cluster_id, list);
        assert(self.cluster_map() =~= with_member(cm, cluster_id, photo_id));
    }

    /// Records that the current task assigned `photo_id` to `cluster_id`.
    /// When this was the task's last photo the task completes: it moves to
    /// the history and a version snapshot is recorded. Fails, changing
    /// nothing, when no task is running.
    pub fn update_progress(&mut self, photo_id: u32, cluster_id: u32) -> (r: Result<
        (),
        &'static str,
    >)
        requires
            old(self).wf(),
            old(self).current_task() is Some ==> {
                &&& old(self).current_task()->Some_0.processed_count < u32::MAX
                &&& old(self).assignments().len() < u32::MAX
                &&& old(self).cluster_map().len() < u32::MAX
                &&& old(self).history().len() < u32::MAX
                &&& old(self).versions().len() + 1 < u32::MAX
            },
        ensures
            final(self).wf(),
            r is Ok <==> old(self).current_task() is Some,
            r is Err ==> *final(self) == *old(self),
            r is Ok ==> {
                let t = old(self).current_task()->Some_0;
                let done = t.processed_count + 1 == t.photo_count;
                let t1 = ClusteringTask { processed_count: (t.processed_count + 1) as u32, ..t };
                &&& final(self).assignments() == old(self).assignments().insert(photo_id, cluster_id)
                &&& final(self).cluster_map() == with_member(
                    old(self).cluster_map(),
                    cluster_id,
                    photo_id,
                )
                &&& final(self).max_cluster_id() == if cluster_id > old(self).max_cluster_id() {
                    cluster_id
                } else {
                    old(self).max_cluster_id()
                }
                &&& !done ==> final(self).current_task() == Some(t1) && final(self).history()
                    == old(self).history() && final(self).versions() == old(self).versions()
                &&& done ==> final(self).current_task() is None && final(self).history()
                    == old(self).history().push(
                    ClusteringTask { status: ClusteringTaskStatus::Completed, ..t1 },
                ) && final(self).versions() == old(self).versions().push(
                    ClusteringIndexVersion {
                        version: (old(self).versions().len() + 1) as u32,
                        created_timestamp: 0,
                        total_clusters: final(self).cluster_map().len() as u32,
                        total_vectors: final(self).assignments().len() as u32,
                        task_id: t.task_id,
                    },
                )
            },
    {
        if self.current_task.is_none() {
            return Err("No active task");
        }
        self.cluster_assignments.insert(photo_id, cluster_id);
        proof {
            assert(self.clusters@.dom() =~= old(self).cluster_map().dom());
        }
        self.push_member(cluster_id, photo_id);
        proof {
            assert(self.cluster_map().dom() =~= self.clusters@.dom());
        }
        if cluster_id > self.max_cluster_id {
            self.max_cluster_id = cluster_id;
        }
        let mut task = self.current_task.take().unwrap();
        task.processed_count = task.processed_count + 1;
        if task.processed_count == task.photo_count {
            self.mark_task_completed(task);
        } else {
            self.current_task = Some(task);
        }
        Ok(())
    }

    /// Moves `task`, completed, to the history and records a snapshot.
    fn mark_task_completed(&mut self, task: ClusteringTask)
        requires
            old(self).task_history@.len() < u32::MAX,
            old(self).index_versions@.len() + 1 < u32::MAX,
            old(self).cluster_assignments@.len() <= u32::MAX,
            old(self).clusters@.len() <= u32::MAX,
        ensures
            final(self).wf(),
            final(self).current_task == old(self).current_task,
            final(self).cluster_assignments == old(self).cluster_assignments,
            final(self).clusters == old(self).clusters,
            final(self).max_cluster_id == old(self).max_cluster_id,
            final(self).history() == old(self).history().push(
                ClusteringTask { status: ClusteringTaskStatus::Completed, ..task },
            ),
            final(self).versions() == old(self).versions().push(
                ClusteringIndexVersion {
                    version: (old(self).versions().len() + 1) as u32,
                    created_timestamp: 0,
                    total_clusters: old(self).clusters@.len() as u32,
                    total_vectors: old(self).cluster_assignments@.len() as u32,
                    task_id: task.task_id,
                },
            ),
    {
        let mut task = task;
        task.status = ClusteringTaskStatus::Completed;
        let version = ClusteringIndexVersion {
            version: self.index_versions.len() as u32 + 1,
            created_timestamp: 0,
            total_clusters: self.clusters.len() as u32,
            total_vectors: self.cluster_assignments.len() as u32,
            task_id: task.task_id,
        };
        self.index_versions.push(version);
        self.task_history.push(task);
    }

    /// (id, status, progress percentage) of the running task, if any.
    pub fn get_current_task_status(&self) -> (r: Option<(u32, ClusteringTaskStatus, u32)>)
        ensures
            match self.current_task() {
                Some(t) => r == Some(
                    (t.task_id, t.status, progress_of(t.processed_count, t.photo_count) as u32),
                ),
                None => r is None,
            },
    {
        match &self.current_task {
            Some(task) => Some((task.task_id, task.status, task.get_progress_percentage())),
            None => None,
        }
    }

    /// Abandons the running task, which moves to the history as cancelled.
    /// Fails, changing nothing, when no task is running.
    pub fn cancel_current_task(&mut self) -> (r: Result<(), &'static str>)
        requires
            old(self).wf(),
            old(self).history().len() < u32::MAX,
        ensures
            final(self).wf(),
            r is Ok <==> old(self).current_task() is Some,
            r is Err ==> *final(self) == *old(self),
            r is Ok ==> {
                &&& final(self).current_task() is None
                &&& final(self).history() == old(self).history().push(
                    ClusteringTask {
                        status: ClusteringTaskStatus::Cancelled,
                        ..old(self).current_task()->Some_0
                    },
                )
                &&& final(self).versions() == old(self).versions()
                &&& final(self).assignments() == old(self).assignments()
                &&& final(self).cluster_map() == old(self).cluster_map()
                &&& final(self).max_cluster_id() == old(self).max_cluster_id()
            },
    {
        match self.current_task.take() {
            Some(task) => {
                let mut task = task;
                task.status = ClusteringTaskStatus::Cancelled;
                self.task_history.push(task);
                Ok(())
            },
            None => Err("No active task to cancel"),
        }
    }

    /// Cluster of `photo_id`, if assigned.
    pub fn get_cluster_id(&self, photo_id: u32) -> (r: Option<u32>)
        ensures
            r == (if self.assignments().contains_key(photo_id) {
                Some(self.assignments()[photo_id])
            } else {
                None
            }),
    {
        match self.cluster_assignments.get(&photo_id) {
            Some(c) => Some(*c),
            None => None,
        }
    }

    /// Member list of `cluster_id`, if the cluster exists.
    pub fn get_cluster_photos(&self, cluster_id: u32) -> (r: Option<Vec<u32>>)
        ensures
            self.cluster_map().contains_key(cluster_id) <==> r is Some,
            r is Some ==> r->Some_0@ == self.cluster_map()[cluster_id],
    {
        match self.clusters.get(&cluster_id) {
            Some(v) => Some(copy_ids(v)),
            None => None,
        }
    }

    /// Moves every member of cluster `source_id` to cluster `target_id`,
    /// appending them to its member list, and deletes `source_id`. Fails,
    /// changing nothing, when either cluster does not exist.
    pub fn merge_clusters(&mut self, source_id: u32, target_id: u32) -> (r: Result<
        (),
        &'static str,
    >)
        requires
            old(self).wf(),
            old(self).cluster_map().contains_key(source_id) ==> old(self).assignments().len()
                + old(self).cluster_map()[source_id].len() <= u32::MAX,
        ensures
            final(self).wf(),
            r is Ok <==> old(self).cluster_map().contains_key(source_id) && old(
                self,
            ).cluster_map().contains_key(target_id),
            r is Err ==> *final(self) == *old(self),
            r is Ok ==> {
                let src = old(self).cluster_map()[source_id];
                let base = if source_id == target_id {
                    Seq::<u32>::empty()
                } else {
                    old(self).cluster_map()[target_id]
                };
                &&& final(self).cluster_map() == old(self).cluster_map().remove(source_id).insert(
                    target_id,
                    base + src,
                )
                &&& final(self).assignments() == assign_all(old(self).assignments(), src, target_id)
                &&& final(self).current_task() == old(self).current_task()
                &&& final(self).history() == old(self).history()
                &&& final(self).versions() == old(self).versions()
                &&& final(self).max_cluster_id() == old(self).max_cluster_id()
            },
    {
        if !self.clusters.contains_key(&source_id) {
            return Err("Source cluster not found");
        }
        if !self.clusters.contains_key(&target_id) {
            return Err("Target cluster not found");
        }
        let ghost cm = self.cluster_map();
        let ghost a0 = self.assignments();
        let source_photos = match self.clusters.remove(&source_id) {
            Some(v) => v,
            None => Vec::new(),
        };
        assert(self.clusters@.dom() =~= old(self).clusters@.dom().remove(source_id));
        assert(self.clusters@.len() < old(self).clusters@.len());
        let mut target_photos = match self.clusters.remove(&target_id) {
            Some(v) => v,
            None => Vec::new(),
        };
        let ghost base = target_photos@;
        assert(source_photos@ == cm[source_id]);
        assert(base == if source_id == target_id {
            Seq::<u32>::empty()
        } else {
            cm[target_id]
        });
        let mut i: usize = 0;
        while i < source_photos.len()
            invariant
                i <= source_photos@.len(),
                source_photos@ == cm[source_id],
                a0.len() + source_photos@.len() <= u32::MAX,
                target_photos@ == base + source_photos@.subrange(0, i as int),
                self.cluster_assignments@ == assign_all(
                    a0,
                    source_photos@.subrange(0, i as int),
                    target_id,
                ),
                self.cluster_assignments@.len() <= a0.len() + i,
                self.clusters@.len() < old(self).clusters@.len(),
                !self.clusters@.contains_key(target_id),
                self.clusters@.map_values(|v: Vec<u32>| v@) == cm.remove(source_id).remove(
                    target_id,
                ),
                self.current_task == old(self).current_task,
                self.task_history == old(self).task_history,
                self.index_versions == old(self).index_versions,
                self.max_cluster_id == old(self).max_cluster_id,
            decreases source_photos@.len() - i,
        {
            let p = source_photos[i];
            proof {
                assert(source_photos@.subrange(0, i as int + 1).drop_last()
                    =~= source_photos@.subrange(0, i as int));
            }
            self.cluster_assignments.insert(p, target_id);
            target_photos.push(p);
            assert(target_photos@ =~= base + source_photos@.subrange(0, i as int + 1));
            i = i + 1;
        }
        assert(source_photos@.subrange(0, i as int) =~= source_photos@);
        let ghost cm1 = self.clusters@.map_values(|v: Vec<u32>| v@);
        let ghost d1 = self.clusters@.dom();
        self.clusters.insert(target_id, target_photos);
        assert(self.clusters@.dom() =~= d1.insert(target_id));
        assert(self.cluster_map() =~= cm1.insert(target_id, base + source_photos@));
        assert(cm1.insert(target_id, base + source_photos@) =~= cm.remove(source_id).insert(
            target_id,
            base + source_photos@,
        ));
        Ok(())
    }

    /// Splits cluster `cluster_id`: the members at the positions listed in
    /// `split_indices` move to a new cluster numbered one above the largest
    /// cluster id so far, the others stay. A side left empty is not kept as
    /// a cluster. Returns the new cluster's id; fails, changing nothing,
    /// when the cluster does not exist.
    pub fn split_cluster(&mut self, cluster_id: u32, split_indices: &[usize]) -> (r: Result<
        u32,
        &'static str,
    >)
        requires
            old(self).wf(),
            old(self).cluster_map().contains_key(cluster_id) ==> {
                &&& old(self).max_cluster_id() < u32::MAX
                &&& old(self).assignments().len() + old(self).cluster_map()[cluster_id].len()
                    <= u32::MAX
                &&& old(self).cluster_map().len() < u32::MAX
            },
        ensures
            final(self).wf(),
            r is Ok <==> old(self).cluster_map().contains_key(cluster_id),
            r is Err ==> *final(self) == *old(self),
            r is Ok ==> {
                let photos = old(self).cluster_map()[cluster_id];
                let new_id = (old(self).max_cluster_id() + 1) as u32;
                let kept = split_part(photos, split_indices@, false);
                let moved = split_part(photos, split_indices@, true);
                let m0 = old(self).cluster_map().remove(cluster_id);
                let m1 = if kept.len() > 0 {
                    m0.insert(cluster_id, kept)
                } else {
                    m0
                };
                &&& r->Ok_0 == new_id
                &&& final(self).max_cluster_id() == new_id
                &&& final(self).cluster_map() == if moved.len() > 0 {
                    m1.insert(new_id, moved)
                } else {
                    m1
                }
                &&& final(self).assignments() == assign_split(
                    old(self).assignments(),
                    photos,
                    split_indices@,
                    cluster_id,
                    new_id,
                )
                &&& final(self).current_task() == old(self).current_task()
                &&& final(self).history() == old(self).history()
                &&& final(self).versions() == old(self).versions()
            },
    {
        if !self.clusters.contains_key(&cluster_id) {
            return Err("Cluster not found");
        }
        let ghost cm = self.cluster_map();
        let ghost a0 = self.assignments();
        assert(cm.dom() =~= self.clusters@.dom());
        let original = match self.clusters.remove(&cluster_id) {
            Some(v) => v,
            None => Vec::new(),
        };
        assert(self.clusters@.dom() =~= old(self).clusters@.dom().remove(cluster_id));
        assert(self.clusters@.len() < old(self).clusters@.len());
        assert(original@ == cm[cluster_id]);
        let new_cluster_id = self.max_cluster_id + 1;
        self.max_cluster_id = new_cluster_id;
        let mut kept: Vec<u32> = Vec::new();
        let mut moved: Vec<u32> = Vec::new();
        let mut i: usize = 0;
        while i < original.len()
            invariant
                i <= original@.len(),
                original@ == cm[cluster_id],
                a0.len() + original@.len() <= u32::MAX,
                kept@ == split_part(original@.subrange(0, i as int), split_indices@, false),
                moved@ == split_part(original@.subrange(0, i as int), split_indices@, true),
                self.cluster_assignments@ == assign_split(
                    a0,
                    original@.subrange(0, i as int),
                    split_indices@,
                    cluster_id,
                    new_cluster_id,
                ),
                self.cluster_assignments@.len() <= a0.len() + i,
                self.clusters@.len() + 1 < u32::MAX,
                !self.clusters@.contains_key(cluster_id),
                self.clusters@.map_values(|v: Vec<u32>| v@) == cm.remove(cluster_id),
                self.current_task == old(self).current_task,
                self.task_history == old(self).task_history,
                self.index_versions == old(self).index_versions,
                self.max_cluster_id == new_cluster_id,
            decreases original@.len() - i,
        {
            let p = original[i];
            let ghost pre = original@.subrange(0, i as int);
            let ghost post = original@.subrange(0, i as int + 1);
            proof {
                assert(post.drop_last() =~= pre);
            }
            let listed = contains_index(split_indices, i);
            if listed {
                moved.push(p);
                self.cluster_assignments.insert(p, new_cluster_id);
            } else {
                kept.push(p);
                self.cluster_assignments.insert(p, cluster_id);
            }
            i = i + 1;
        }
        assert(original@.subrange(0, i as int) =~= original@);
        let ghost m0 = self.clusters@.map_values(|v: Vec<u32>| v@);
        let ghost d0 = self.clusters@.dom();
        if kept.len() > 0 {
            self.clusters.insert(cluster_id, kept);
            assert(self.clusters@.dom() =~= d0.insert(cluster_id));
        }
        let ghost d1 = self.clusters@.dom();
        assert(self.clusters@.len() < u32::MAX);
        let ghost m1 = self.clusters@.map_values(|v: Vec<u32>| v@);
        assert(m1 =~= if kept@.len() > 0 {
            m0.insert(cluster_id, kept@)
        } else {
            m0
        });
        if moved.len() > 0 {
            self.clusters.insert(new_cluster_id, moved);
            assert(self.clusters@.dom() =~= d1.insert(new_cluster_id));
        }
        assert(self.cluster_map() =~= if moved@.len() > 0 {
            m1.insert(new_cluster_id, moved@)
        } else {
            m1
        });
        Ok(new_cluster_id)
    }

    /// (number of clusters, number of assigned photos, number of ended
    /// tasks, integer mean cluster size or zero without clusters).
    pub fn get_stats(&self) -> (r: (u32, u32, u32, u32))
        requires
            self.wf(),
        ensures
            r.0 == self.cluster_map().len(),
            r.1 == self.assignments().len(),
            r.2 == self.history().len(),
            r.3 == if self.cluster_map().len() > 0 {
                self.assignments().len() / self.cluster_map().len()
            } else {
                0
            },
    {
        proof {
            assert(self.cluster_map().dom() =~= self.clusters@.dom());
        }
        let total_clusters = self.clusters.len() as u32;
        let total_vectors = self.cluster_assignments.len() as u32;
        let completed_tasks = self.task_history.len() as u32;
        let avg_cluster_size = if total_clusters > 0 {
            total_vectors / total_clusters
        } else {
            0
        };
        (total_clusters, total_vectors, completed_tasks, avg_cluster_size)
    }

    /// Snapshots of completed tasks, oldest first.
    pub fn get_index_versions(&self) -> (r: &[ClusteringIndexVersion])
        ensures
            r@ == self.versions(),
    {
        self.index_versions.as_slice()
    }

    /// Tasks that ended, oldest first.
    pub fn get_task_history(&self) -> (r: &[ClusteringTask])
        ensures
            r@ == self.history(),
    {
        self.task_history.as_slice()
    }

    /// Restoring an earlier version needs the stored snapshot data, which
    /// this manager does not keep: the request is always refused.
    pub fn restore_from_version(&mut self, version: u32) -> (r: Result<(), &'static str>)
        ensures
            r is Err,
            *final(self) == *old(self),
    {
        Err("Not implemented")
    }

    /// A copy of the photo-to-cluster assignment.
    pub fn export_clustering_result(&self) -> (r: BTreeMap<u32, u32>)
        ensures
            r@ == self.assignments(),
    {
        self.cluster_assignments.clone()
    }

    /// Replaces the assignment by `assignments` and rebuilds every member
    /// list from it, photos in increasing id order.
    pub fn import_clustering_result(&mut self, assignments: BTreeMap<u32, u32>)
        requires
            old(self).wf(),
            assignments@.len() < u32::MAX,
        ensures
            final(self).wf(),
            final(self).assignments() == assignments@,
            exists|s: Seq<(u32, u32)>|
                entries_in_order(s, assignments@) && final(self).cluster_map() == grouped(s)
                    && final(self).max_cluster_id() == max_cluster(old(self).max_cluster_id(), s),
            final(self).current_task() == old(self).current_task(),
            final(self).history() == old(self).history(),
            final(self).versions() == old(self).versions(),
    {
        self.clusters.clear();
        assert(self.cluster_map() =~= Map::<u32, Seq<u32>>::empty());
        let ghost m0 = self.max_cluster_id;
        let ghost m = assignments@;
        let ghost mut seen: Seq<(u32, u32)> = Seq::empty();
        let entries = assignments.iter();
        proof {
            let r = entries.remaining();
            let ks = r.map_values(|kv: (&u32, &u32)| *kv.0);
            assert(vstd::std_specs::btree::increasing_seq(ks));
            assert forall|i: int, j: int| 0 <= i < j < r.len() implies *r[i].0 < *r[j].0 by {
                assert(ks[i].cmp_spec(&ks[j]) is Less);
            }
        }
        for entry in it: entries
            invariant
                m == assignments@,
                seen == it.seq().subrange(0, it.index()).map_values(
                    |p: (&u32, &u32)| (*p.0, *p.1),
                ),
                it.seq().len() == m.len(),
                forall|i: int, j: int| 0 <= i < j < it.seq().len() ==> *it.seq()[i].0 < *it.seq()[j].0,
                forall|i: int|
                    0 <= i < it.seq().len() ==> m.contains_key(*(#[trigger] it.seq()[i]).0)
                        && m[*it.seq()[i].0] == *it.seq()[i].1,
                self.cluster_map() == grouped(seen),
                self.clusters@.len() <= seen.len(),
                seen.len() == it.index(),
                m.len() < u32::MAX,
                self.max_cluster_id == max_cluster(m0, seen),
                self.current_task == old(self).current_task,
                self.task_history == old(self).task_history,
                self.index_versions == old(self).index_versions,
        {
            let (photo_id, cluster_id) = entry;
            assert(self.cluster_map().dom() =~= self.clusters@.dom());
            self.push_member(*cluster_id, *photo_id);
            if *cluster_id > self.max_cluster_id {
                self.max_cluster_id = *cluster_id;
            }
            proof {
                let pre = seen;
                seen = seen.push((*photo_id, *cluster_id));
                assert(seen.drop_last() =~= pre);
                assert(seen =~= it.seq().subrange(0, it.index() + 1).map_values(
                    |p: (&u32, &u32)| (*p.0, *p.1),
                ));
            }
        }
        self.cluster_assignments = assignments;
        assert(entries_in_order(seen, self.cluster_assignments@));
    }
}

/// A copy of `v`.
fn copy_ids(v: &Vec<u32>) -> (r: Vec<u32>)
    ensures
        r@ == v@,
{
    let mut r: Vec<u32> = Vec::new();
    let mut i: usize = 0;
    while i < v.len()
        invariant
            i <= v@.len(),
            r@ == v@.subrange(0, i as int),
        decreases v@.len() - i,
    {
        r.push(v[i]);
        i = i + 1;
        assert(r@ =~= v@.subrange(0, i as int));
    }
    assert(v@.subrange(0, i as int) =~= v@);
    r
}

/// Whether `i` is listed in `idx`.
fn contains_index(idx: &[usize], i: usize) -> (r: bool)
    ensures
        r == idx@.contains(i),
{
    let mut k: usize = 0;
    while k < idx.len()
        invariant
            k <= idx@.len(),
            forall|j: int| 0 <= j < k ==> idx@[j] != i,
        decreases idx@.len() - k,
    {
        if idx[k] == i {
            assert(idx@[k as int] == i);
            return true;
        }
        k = k + 1;
    }
    false
}

} // verus!
