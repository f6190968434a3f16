//! Heterogeneous (performance / efficiency) task placement.
//!
//! Cores 0..3 form the performance cluster and cores 4..7 the efficiency
//! cluster. A core's load is a coarse figure derived from the number of
//! tasks placed on it: `min(25 * count, 100)`.
use vstd::prelude::*;

verus! {

/// Number of cores the scheduler tracks.
pub const NUM_CPUS: u32 = 8;

/// Number of cores in the performance cluster (ids `0..PERF_CPUS`).
pub const PERF_CPUS: u32 = 4;

/// Affinity hint carried by a task.
#[derive(Debug, Clone, Copy, PartialEq, Eq, Structural)]
pub enum TaskHint {
    /// Compute-heavy work: always on the performance cluster.
    HighPerf,
    /// Background work: efficiency cluster unless it is under pressure.
    LowPower,
    /// Accelerator pre/post-processing: always on the performance cluster.
    NpuPrePost,
}

/// Lifecycle state of a task.
#[derive(Debug, Clone, Copy, PartialEq, Eq, Structural)]
pub enum TaskState {
    Pending,
    Running,
    Waiting,
    Done,
}

/// A unit of work submitted to the scheduler.
#[derive(Debug, Clone, Copy)]
pub struct Task {
    pub id: u32,
    /// Lower value means more urgent.
    pub priority: u8,
    pub hint: TaskHint,
    /// Core chosen by the scheduler; `None` until the task is placed.
    pub assigned_cpu: Option<u32>,
    pub state: TaskState,
}

impl Task {
    /// A fresh, unplaced task.
    pub fn new(id: u32, priority: u8, hint: TaskHint) -> (t: Task)
        ensures
            t == (Task { id, priority, hint, assigned_cpu: None, state: TaskState::Pending }),
    {
        Task { id, priority, hint, assigned_cpu: None, state: TaskState::Pending }
    }
}

/// Load bookkeeping of one core.
#[derive(Debug, Clone, Copy)]
pub struct CoreLoad {
    pub cpu_id: u32,
    /// Load percentage, always `load_of(task_count)`.
    pub load_percent: u32,
    /// Number of active tasks placed on this core.
    pub task_count: u32,
}

impl CoreLoad {
    /// An idle core.
    pub fn new(cpu_id: u32) -> (l: CoreLoad)
        ensures
            l == (CoreLoad { cpu_id, load_percent: 0, task_count: 0 }),
    {
        CoreLoad { cpu_id, load_percent: 0, task_count: 0 }
    }
}

/// Tunables of the scheduler.
#[derive(Debug, Clone, Copy)]
pub struct SchedulerConfig {
    /// Efficiency-cluster average load (%) at or above which low-power work
    /// escalates to the performance cluster.
    pub a55_load_threshold: u32,
    /// Performance-cluster reserve (%); informational.
    pub a76_load_threshold: u32,
    pub enable_load_balance: bool,
    pub rebalance_interval_ms: u32,
}

impl Default for SchedulerConfig {
    fn default() -> (c: Self)
        ensures
            c == (SchedulerConfig {
                a55_load_threshold: 60,
                a76_load_threshold: 50,
                enable_load_balance: true,
                rebalance_interval_ms: 100,
            }),
    {
        SchedulerConfig {
            a55_load_threshold: 60,
            a76_load_threshold: 50,
            enable_load_balance: true,
            rebalance_interval_ms: 100,
        }
    }
}

/// Load percentage of a core with `count` active tasks.
pub open spec fn load_of(count: nat) -> nat {
    if count >= 4 {
        100
    } else {
        count * 25
    }
}

/// Number of tasks of `q` placed on core `c`.
pub open spec fn count_on(q: Seq<Task>, c: int) -> nat
    decreases q.len(),
{
    if q.len() == 0 {
        0
    } else {
        count_on(q.drop_last(), c) + if q.last().assigned_cpu == Some(c as u32) {
            1nat
        } else {
            0nat
        }
    }
}

/// `t` as it stands in the active queue once placed on core `c`.
pub open spec fn stamped(t: Task, c: u32) -> Task {
    Task { assigned_cpu: Some(c), state: TaskState::Running, ..t }
}

/// `i` is the first position of `q` holding a task with id `id`.
pub open spec fn first_with_id(q: Seq<Task>, id: u32, i: int) -> bool {
    &&& 0 <= i < q.len()
    &&& q[i].id == id
    &&& forall|j: int| 0 <= j < i ==> q[j].id != id
}

/// Some task of `q` has id `id`.
pub open spec fn has_id(q: Seq<Task>, id: u32) -> bool {
    exists|i: int| 0 <= i < q.len() && q[i].id == id
}

pub proof fn lemma_count_le_len(q: Seq<Task>, c: int)
    ensures
        count_on(q, c) <= q.len(),
    decreases q.len(),
{
    if q.len() > 0 {
        lemma_count_le_len(q.drop_last(), c);
    }
}

pub proof fn lemma_count_concat(a: Seq<Task>, b: Seq<Task>, c: int)
    ensures
        count_on(a + b, c) == count_on(a, c) + count_on(b, c),
    decreases b.len(),
{
    if b.len() == 0 {
        assert(a + b =~= a);
    } else {
        assert((a + b).drop_last() =~= a + b.drop_last());
        lemma_count_concat(a, b.drop_last(), c);
    }
}

pub proof fn lemma_count_remove(q: Seq<Task>, i: int, c: int)
    requires
        0 <= i < q.len(),
    ensures
        count_on(q, c) == count_on(q.remove(i), c) + if q[i].assigned_cpu == Some(c as u32) {
            1nat
        } else {
            0nat
        },
{
    let a = q.subrange(0, i);
    let b = q.subrange(i + 1, q.len() as int);
    let x = seq![q[i]];
    assert(q =~= a + x + b);
    assert(q.remove(i) =~= a + b);
    lemma_count_concat(a + x, b, c);
    lemma_count_concat(a, x, c);
    lemma_count_concat(a, b, c);
    assert(x.drop_last() =~= Seq::<Task>::empty());
    assert(x.last() == q[i]);
    assert(count_on(x.drop_last(), c) == 0);
    assert(count_on(x, c) == if q[i].assigned_cpu == Some(c as u32) {
        1nat
    } else {
        0nat
    });
}

/// Places tasks on cores by affinity hint and tracks per-core load.
pub struct HmpScheduler {
    /// One entry per core, indexed by core id.
    loads: Vec<CoreLoad>,
    /// Active tasks, in submission order.
    task_queue: Vec<Task>,
    config: SchedulerConfig,
}

impl HmpScheduler {
    /// The active tasks, in submission order.
    pub closed spec fn queue(&self) -> Seq<Task> {
        self.task_queue@
    }

    /// The configuration in force.
    pub closed spec fn config(&self) -> SchedulerConfig {
        self.config
    }

    /// Number of active tasks placed on core `c`.
    pub open spec fn task_count(&self, c: int) -> nat {
        count_on(self.queue(), c)
    }

    /// Load percentage of core `c`.
    pub open spec fn load(&self, c: int) -> nat {
        load_of(self.task_count(c))
    }

    /// Average load of the four-core cluster starting at core `lo`.
    pub open spec fn cluster_avg(&self, lo: int) -> nat {
        (self.load(lo) + self.load(lo + 1) + self.load(lo + 2) + self.load(lo + 3)) / 4
    }

    /// Average load of the performance cluster.
    pub open spec fn perf_avg(&self) -> nat {
        self.cluster_avg(0)
    }

    /// Average load of the efficiency cluster.
    pub open spec fn eff_avg(&self) -> nat {
        self.cluster_avg(PERF_CPUS as int)
    }

    /// `r` is the least-loaded core of the cluster starting at `lo`, the
    /// lowest such id on ties.
    pub open spec fn least_loaded(&self, lo: int, r: int) -> bool {
        &&& lo <= r < lo + 4
        &&& forall|j: int| lo <= j < lo + 4 ==> self.load(r) <= self.load(j)
        &&& forall|j: int| lo <= j < r ==> self.load(j) > self.load(r)
    }

    /// `r` is the core chosen for a task with hint `hint`.
    pub open spec fn decision(&self, hint: TaskHint, r: int) -> bool {
        match hint {
            TaskHint::LowPower => if self.eff_avg() < self.config().a55_load_threshold {
                self.least_loaded(PERF_CPUS as int, r)
            } else {
                self.least_loaded(0, r)
            },
            _ => self.least_loaded(0, r),
        }
    }

    /// Internal consistency: the per-core bookkeeping matches the queue.
    pub closed spec fn wf(&self) -> bool {
        &&& self.loads@.len() == NUM_CPUS
        &&& forall|c: int|
            0 <= c < NUM_CPUS ==> {
                &&& (#[trigger] self.loads@[c]).cpu_id == c
                &&& self.loads@[c].task_count == count_on(self.task_queue@, c)
                &&& self.loads@[c].load_percent == load_of(count_on(self.task_queue@, c))
            }
        &&& forall|i: int|
            0 <= i < self.task_queue@.len() ==> {
                &&& (#[trigger] self.task_queue@[i]).assigned_cpu.is_some()
                &&& self.task_queue@[i].assigned_cpu.unwrap() < NUM_CPUS
            }
    }

    /// An idle scheduler with the default configuration.
    pub fn new() -> (s: HmpScheduler)
        ensures
            s.wf(),
            s.queue() == Seq::<Task>::empty(),
            s.config() == (SchedulerConfig {
                a55_load_threshold: 60,
                a76_load_threshold: 50,
                enable_load_balance: true,
                rebalance_interval_ms: 100,
            }),
    {
        let mut loads: Vec<CoreLoad> = Vec::new();
        let mut c: u32 = 0;
        while c < NUM_CPUS
            invariant
                c <= NUM_CPUS,
                loads@.len() == c,
                forall|k: int|
                    0 <= k < c ==> #[trigger] loads@[k] == (CoreLoad {
                        cpu_id: k as u32,
                        load_percent: 0,
                        task_count: 0,
                    }),
            decreases NUM_CPUS - c,
        {
            loads.push(CoreLoad::new(c));
            c = c + 1;
        }
        let s = HmpScheduler { loads, task_queue: Vec::new(), config: SchedulerConfig::default() };
        assert(s.task_queue@.len() == 0);
        s
    }

    /// Average load of the cluster starting at core `lo`.
    fn cluster_avg_load(&self, lo: usize) -> (r: u32)
        requires
            self.wf(),
            lo == 0 || lo == PERF_CPUS,
        ensures
            r == self.cluster_avg(lo as int),
    {
        let sum = self.loads[lo].load_percent + self.loads[lo + 1].load_percent
            + self.loads[lo + 2].load_percent + self.loads[lo + 3].load_percent;
        sum / 4
    }

    /// Least-loaded core of the cluster starting at `lo`, lowest id on ties.
    fn find_least_loaded(&self, lo: usize) -> (r: u32)
        requires
            self.wf(),
            lo == 0 || lo == PERF_CPUS,
        ensures
            self.least_loaded(lo as int, r as int),
    {
        let mut min_idx: usize = lo;
        let mut min_load: u32 = self.loads[lo].load_percent;
        let mut i: usize = lo + 1;
        while i < lo + 4
            invariant
                self.wf(),
                lo == 0 || lo == PERF_CPUS,
                lo + 1 <= i <= lo + 4,
                lo <= min_idx < i,
                min_load == self.load(min_idx as int),
                forall|j: int| lo <= j < i ==> self.load(min_idx as int) <= self.load(j),
                forall|j: int| lo <= j < min_idx ==> self.load(j) > self.load(min_idx as int),
            decreases lo + 4 - i,
        {
            if self.loads[i].load_percent < min_load {
                min_load = self.loads[i].load_percent;
                min_idx = i;
            }
            i = i + 1;
        }
        min_idx as u32
    }

    /// Core that a task would be placed on, given the current loads.
    pub fn decide_cpu(&self, task: &Task) -> (r: u32)
        requires
            self.wf(),
        ensures
            self.decision(task.hint, r as int),
            r < NUM_CPUS,
            task.hint != TaskHint::LowPower ==> r < PERF_CPUS,
            task.hint == TaskHint::LowPower ==> (self.eff_avg()
                < self.config().a55_load_threshold <==> PERF_CPUS <= r),
    {
        match task.hint {
            TaskHint::LowPower => {
                let avg_a55 = self.cluster_avg_load(PERF_CPUS as usize);
                if avg_a55 < self.config.a55_load_threshold {
                    self.find_least_loaded(PERF_CPUS as usize)
                } else {
                    self.find_least_loaded(0)
                }
            },
            _ => self.find_least_loaded(0),
        }
    }

    /// Places `task` on the core `decide_cpu` picks, marks it running and
    /// appends it to the active queue. Returns the chosen core.
    pub fn submit_task(&mut self, task: Task) -> (r: Result<u32, &'static str>)
        requires
            old(self).wf(),
            old(self).queue().len() < u32::MAX,
        ensures
            final(self).wf(),
            final(self).config() == old(self).config(),
            r is Ok,
            old(self).decision(task.hint, r->Ok_0 as int),
            final(self).queue() == old(self).queue().push(stamped(task, r->Ok_0)),
    {
        let mut task = task;
        let c = self.decide_cpu(&task);
        task.assigned_cpu = Some(c);
        task.state = TaskState::Running;
        let ci = c as usize;
        proof {
            lemma_count_le_len(self.task_queue@, ci as int);
            assert(self.loads@[ci as int].task_count == count_on(self.task_queue@, ci as int));
        }
        let cnt = self.loads[ci].task_count + 1;
        self.loads[ci] = CoreLoad { cpu_id: c, load_percent: load_percent_for(cnt), task_count: cnt };
        let ghost q0 = self.task_queue@;
        self.task_queue.push(task);
        proof {
            let q1 = self.task_queue@;
            assert(q1.drop_last() =~= q0);
            assert forall|k: int| 0 <= k < NUM_CPUS implies {
                &&& #[trigger] self.loads@[k].cpu_id == k
                &&& self.loads@[k].task_count == count_on(q1, k)
                &&& self.loads@[k].load_percent == load_of(count_on(q1, k))
            } by {
                assert(old(self).loads@[k].cpu_id == k);
                assert(count_on(q1, k) == count_on(q0, k) + if k == ci {
                    1nat
                } else {
                    0nat
                });
            }
            assert forall|i: int| 0 <= i < q1.len() implies {
                &&& (#[trigger] q1[i]).assigned_cpu.is_some()
                &&& q1[i].assigned_cpu.unwrap() < NUM_CPUS
            } by {
                if i < q0.len() {
                    assert(q1[i] == q0[i]);
                }
            }
            assert(task == stamped(task, c));
        }
        Ok(c)
    }

    /// Removes the first active task with id `task_id` and releases its
    /// core's load; fails, changing nothing, when no such task is active.
    pub fn finish_task(&mut self, task_id: u32) -> (r: Result<(), &'static str>)
        requires
            old(self).wf(),
        ensures
            final(self).wf(),
            final(self).config() == old(self).config(),
            r is Ok <==> has_id(old(self).queue(), task_id),
            r is Err ==> final(self).queue() == old(self).queue(),
            r is Ok ==> exists|i: int|
                first_with_id(old(self).queue(), task_id, i) && final(self).queue()
                    == old(self).queue().remove(i),
    {
        let mut pos: usize = 0;
        while pos < self.task_queue.len() && self.task_queue[pos].id != task_id
            invariant
                pos <= self.task_queue@.len(),
                forall|j: int| 0 <= j < pos ==> self.task_queue@[j].id != task_id,
            decreases self.task_queue@.len() - pos,
        {
            pos = pos + 1;
        }
        if pos == self.task_queue.len() {
            return Err("Task not found");
        }
        let ghost q0 = self.task_queue@;
        assert(first_with_id(q0, task_id, pos as int));
        let cpu = self.task_queue[pos].assigned_cpu;
        match cpu {
            Some(c) => {
                let ci = c as usize;
                proof {
                    lemma_count_remove(q0, pos as int, ci as int);
                    assert(self.loads@[ci as int].task_count == count_on(q0, ci as int));
                }
                let cnt = self.loads[ci].task_count - 1;
                self.loads[ci] = CoreLoad { cpu_id: c, load_percent: load_percent_for(cnt), task_count: cnt };
            },
            None => {},
        }
        self.task_queue.remove(pos);
        proof {
            let q1 = self.task_queue@;
            assert forall|k: int| 0 <= k < NUM_CPUS implies {
                &&& #[trigger] self.loads@[k].cpu_id == k
                &&& self.loads@[k].task_count == count_on(q1, k)
                &&& self.loads@[k].load_percent == load_of(count_on(q1, k))
            } by {
                lemma_count_remove(q0, pos as int, k);
            }
            assert forall|i: int| 0 <= i < q1.len() implies {
                &&& (#[trigger] q1[i]).assigned_cpu.is_some()
                &&& q1[i].assigned_cpu.unwrap() < NUM_CPUS
            } by {
                if i < pos {
                    assert(q1[i] == q0[i]);
                } else {
                    assert(q1[i] == q0[i + 1]);
                }
            }
        }
        Ok(())
    }

    /// (performance-cluster average, efficiency-cluster average, mean of
    /// the two).
    pub fn get_load_stats(&self) -> (r: (u32, u32, u32))
        requires
            self.wf(),
        ensures
            r.0 == self.perf_avg(),
            r.1 == self.eff_avg(),
            r.2 == (self.perf_avg() + self.eff_avg()) / 2,
    {
        let a76_avg = self.cluster_avg_load(0);
        let a55_avg = self.cluster_avg_load(PERF_CPUS as usize);
        (a76_avg, a55_avg, (a76_avg + a55_avg) / 2)
    }

    /// Number of active tasks.
    pub fn queue_len(&self) -> (r: usize)
        ensures
            r == self.queue().len(),
    {
        self.task_queue.len()
    }
}

/// `load_of(count)` as a machine integer.
fn load_percent_for(count: u32) -> (r: u32)
    ensures
        r == load_of(count as nat),
{
    if count >= 4 {
        100
    } else {
        count * 25
    }
}

/// The scheduler instance the boot core sets up.
pub fn hmp_init() -> (s: HmpScheduler)
    ensures
        s.wf(),
        s.queue() == Seq::<Task>::empty(),
{
    HmpScheduler::new()
}

/// A task submitted and then finished by id, with no other active task
/// sharing its id, leaves every core's load as it was before the
/// submission.
pub proof fn lemma_submit_finish_restores_load(
    s0: HmpScheduler,
    s1: HmpScheduler,
    s2: HmpScheduler,
    task: Task,
    c: u32,
)
    requires
        !has_id(s0.queue(), task.id),
        s1.queue() == s0.queue().push(stamped(task, c)),
        exists|i: int| first_with_id(s1.queue(), task.id, i) && s2.queue() == s1.queue().remove(i),
    ensures
        s2.queue() == s0.queue(),
        forall|k: int| s2.load(k) == s0.load(k),
{
    let i = choose|i: int| first_with_id(s1.queue(), task.id, i) && s2.queue() == s1.queue().remove(i);
    let n = s0.queue().len() as int;
    if i < n {
        assert(s0.queue()[i].id == task.id);
    }
    assert(i == n);
    assert(s1.queue().remove(i) =~= s0.queue());
}

} // verus!
