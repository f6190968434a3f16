//! Core bring-up: the per-core state machine, the wake protocol through the
//! interrupt controller, online counting, and the inter-processor interrupt
//! handler table.
use vstd::prelude::*;

use crate::gic500::{
    Gic500, IrqLine, SGI_RANGE_END, mask_has, valid_cpu, valid_irq,
};
use crate::hmp_scheduler::{NUM_CPUS, PERF_CPUS};

verus! {

/// Software-generated line used to wake a secondary core.
pub const WAKE_VECTOR: u32 = 15;

/// Number of inter-processor interrupt vectors.
pub const NUM_IPI_VECTORS: u32 = 16;

/// Core type of the performance cluster.
pub const CPU_TYPE_PERF: u32 = 0;

/// Core type of the efficiency cluster.
pub const CPU_TYPE_EFF: u32 = 1;

/// Polling rounds granted per millisecond of wait budget.
pub const POLLS_PER_MS: u64 = 100;

/// Bring-up state of a core. A core only moves forward:
/// Offline, then Starting, then Online.
#[derive(Debug, Clone, Copy, PartialEq, Eq, Structural)]
pub enum CpuState {
    Offline,
    Starting,
    Online,
}

/// Core bring-up failures.
#[derive(Debug, Clone, Copy, PartialEq, Eq, Structural)]
pub enum BringupError {
    /// The core id is not below `NUM_CPUS`.
    InvalidIndex,
}

/// State a raw value stands for; unknown values read as `Offline`.
pub open spec fn decode_state(raw: u32) -> CpuState {
    if raw == 1 {
        CpuState::Starting
    } else if raw == 2 {
        CpuState::Online
    } else {
        CpuState::Offline
    }
}

/// Type of core `id`: the performance cluster holds ids below `PERF_CPUS`.
pub open spec fn cpu_type_of(id: int) -> u32 {
    if id < PERF_CPUS {
        CPU_TYPE_PERF
    } else {
        CPU_TYPE_EFF
    }
}

/// Bring-up record of one core.
pub struct CpuInfo {
    pub id: u32,
    /// `CPU_TYPE_PERF` or `CPU_TYPE_EFF`.
    pub cpu_type: u32,
    /// Raw state, read through `decode_state`.
    pub state: u32,
}

impl CpuInfo {
    pub open spec fn state(&self) -> CpuState {
        decode_state(self.state)
    }

    /// An offline core.
    pub fn new(id: u32, cpu_type: u32) -> (c: CpuInfo)
        ensures
            c.id == id,
            c.cpu_type == cpu_type,
            c.state() == CpuState::Offline,
    {
        CpuInfo { id, cpu_type, state: 0 }
    }

    pub fn get_state(&self) -> (r: CpuState)
        ensures
            r == self.state(),
    {
        if self.state == 1 {
            CpuState::Starting
        } else if self.state == 2 {
            CpuState::Online
        } else {
            CpuState::Offline
        }
    }

    pub fn set_state(&mut self, state: CpuState)
        ensures
            final(self).id == old(self).id,
            final(self).cpu_type == old(self).cpu_type,
            final(self).state() == state,
    {
        self.state = match state {
            CpuState::Offline => 0,
            CpuState::Starting => 1,
            CpuState::Online => 2,
        };
    }
}

/// Number of `Online` entries of `s` in positions `lo..hi`.
pub open spec fn online_in(s: Seq<CpuState>, lo: int, hi: int) -> nat
    decreases hi - lo,
{
    if hi <= lo {
        0
    } else {
        online_in(s, lo, hi - 1) + if s[hi - 1] == CpuState::Online {
            1nat
        } else {
            0nat
        }
    }
}

/// Number of online cores; the boot core always counts as online.
pub open spec fn online_total(s: Seq<CpuState>) -> nat {
    1 + online_in(s, 1, NUM_CPUS as int)
}

pub proof fn lemma_online_in_bound(s: Seq<CpuState>, lo: int, hi: int)
    requires
        lo <= hi,
    ensures
        online_in(s, lo, hi) <= hi - lo,
    decreases hi - lo,
{
    if hi > lo {
        lemma_online_in_bound(s, lo, hi - 1);
    }
}

pub proof fn lemma_online_in_update(s: Seq<CpuState>, lo: int, hi: int, id: int, x: CpuState)
    requires
        0 <= id < s.len(),
        0 <= lo,
        hi <= s.len(),
    ensures
        online_in(s.update(id, x), lo, hi) + (if lo <= id < hi && s[id] == CpuState::Online {
            1int
        } else {
            0int
        }) == online_in(s, lo, hi) + (if lo <= id < hi && x == CpuState::Online {
            1int
        } else {
            0int
        }),
    decreases hi - lo,
{
    if hi > lo {
        lemma_online_in_update(s, lo, hi - 1, id, x);
        assert(s.update(id, x)[hi - 1] == if hi - 1 == id {
            x
        } else {
            s[hi - 1]
        });
    }
}

/// Bring-up records of every core, indexed by core id.
pub struct CpuTable {
    cpus: Vec<CpuInfo>,
}

impl CpuTable {
    /// State of each core, indexed by core id.
    pub closed spec fn states(&self) -> Seq<CpuState> {
        self.cpus@.map_values(|c: CpuInfo| c.state())
    }

    pub closed spec fn wf(&self) -> bool {
        &&& self.cpus@.len() == NUM_CPUS
        &&& forall|i: int|
            0 <= i < NUM_CPUS ==> (#[trigger] self.cpus@[i]).id == i && self.cpus@[i].cpu_type
                == cpu_type_of(i)
    }

    /// Every core offline: ids 0..3 of the performance type, 4..7 of the
    /// efficiency type.
    pub fn new() -> (t: CpuTable)
        ensures
            t.wf(),
            t.states() == Seq::new(NUM_CPUS as nat, |i: int| CpuState::Offline),
    {
        let mut cpus: Vec<CpuInfo> = Vec::new();
        let mut id: u32 = 0;
        while id < NUM_CPUS
            invariant
                id <= NUM_CPUS,
                cpus@.len() == id,
                forall|i: int|
                    0 <= i < id ==> (#[trigger] cpus@[i]).id == i && cpus@[i].cpu_type == cpu_type_of(
                        i,
                    ) && cpus@[i].state() == CpuState::Offline,
            decreases NUM_CPUS - id,
        {
            let cpu_type = if id < PERF_CPUS {
                CPU_TYPE_PERF
            } else {
                CPU_TYPE_EFF
            };
            cpus.push(CpuInfo::new(id, cpu_type));
            id = id + 1;
        }
        let t = CpuTable { cpus };
        assert(t.states() =~= Seq::new(NUM_CPUS as nat, |i: int| CpuState::Offline));
        t
    }

    /// Record of core `id`.
    pub fn get(&self, id: u32) -> (r: &CpuInfo)
        requires
            self.wf(),
            id < NUM_CPUS,
        ensures
            r.id == id,
            r.cpu_type == cpu_type_of(id as int),
            r.state() == self.states()[id as int],
    {
        &self.cpus[id as usize]
    }

    /// State of core `id`.
    pub fn get_state(&self, id: u32) -> (r: CpuState)
        requires
            self.wf(),
            id < NUM_CPUS,
        ensures
            r == self.states()[id as int],
    {
        self.cpus[id as usize].get_state()
    }

    /// Sets the state of core `id`; this is also what a woken core's own
    /// entry code calls to announce itself online.
    pub fn set_state(&mut self, id: u32, state: CpuState)
        requires
            old(self).wf(),
            id < NUM_CPUS,
        ensures
            final(self).wf(),
            final(self).states() == old(self).states().update(id as int, state),
    {
        let ghost s0 = self.states();
        let mut c = self.cpus.remove(id as usize);
        c.set_state(state);
        self.cpus.insert(id as usize, c);
        assert(self.states() =~= s0.update(id as int, state));
        assert forall|i: int| 0 <= i < NUM_CPUS implies (#[trigger] self.cpus@[i]).id == i
            && self.cpus@[i].cpu_type == cpu_type_of(i) by {
            if i != id {
                assert(self.cpus@[i] == old(self).cpus@[i]);
            }
        }
    }
}

/// `g1` is `g0` with the wake line raised on exactly the cores `lo..hi`.
pub open spec fn woken(g0: &Gic500, g1: &Gic500, lo: int, hi: int) -> bool {
    &&& g1.wf()
    &&& g1.distributor_enabled() == g0.distributor_enabled()
    &&& forall|c: int, i: int|
        valid_cpu(c) && valid_irq(i) ==> #[trigger] g1.line(c, i) == if i == WAKE_VECTOR && lo <= c
            < hi {
            IrqLine { pending: true, ..g0.line(c, i) }
        } else {
            g0.line(c, i)
        }
}

proof fn lemma_single_bit_mask(id: u32, c: u32)
    requires
        id < 32,
        c < 32,
    ensures
        mask_has(1u32 << id, c) <==> c == id,
{
    assert(((1u32 << id) >> c) & 1u32 == 1u32 <==> c == id) by (bit_vector)
        requires
            id < 32,
            c < 32,
    ;
}

/// Starts core `cpu_id`: marks it `Starting` and raises the wake line on
/// that core alone. The woken core's entry code then initialises its
/// redistributor and sets itself `Online`.
pub fn start_cpu(table: &mut CpuTable, gic: &mut Gic500, cpu_id: u32) -> (r: Result<
    (),
    BringupError,
>)
    requires
        old(table).wf(),
        old(gic).wf(),
    ensures
        final(table).wf(),
        r is Ok <==> cpu_id < NUM_CPUS,
        r is Err ==> r == Err::<(), BringupError>(BringupError::InvalidIndex) && *final(table)
            == *old(table) && *final(gic) == *old(gic),
        r is Ok ==> final(table).states() == old(table).states().update(
            cpu_id as int,
            CpuState::Starting,
        ) && woken(old(gic), final(gic), cpu_id as int, cpu_id + 1),
{
    if cpu_id >= NUM_CPUS {
        return Err(BringupError::InvalidIndex);
    }
    table.set_state(cpu_id, CpuState::Starting);
    let mask: u32 = 1u32 << cpu_id;
    proof {
        assert forall|c: u32| c < 32 implies mask_has(mask, c) <==> c == cpu_id by {
            lemma_single_bit_mask(cpu_id, c);
        }
    }
    gic.send_sgi(WAKE_VECTOR, mask);
    proof {
        assert forall|c: int, i: int| valid_cpu(c) && valid_irq(i) implies #[trigger] gic.line(c, i)
            == if i == WAKE_VECTOR && cpu_id <= c < cpu_id + 1 {
            IrqLine { pending: true, ..old(gic).line(c, i) }
        } else {
            old(gic).line(c, i)
        } by {
            assert(mask_has(mask, c as u32) <==> c == cpu_id);
        }
    }
    Ok(())
}

/// Starts cores `lo..hi` in order.
fn start_range(table: &mut CpuTable, gic: &mut Gic500, lo: u32, hi: u32)
    requires
        old(table).wf(),
        old(gic).wf(),
        lo <= hi <= NUM_CPUS,
    ensures
        final(table).wf(),
        final(table).states() == Seq::new(
            NUM_CPUS as nat,
            |i: int|
                if lo <= i < hi {
                    CpuState::Starting
                } else {
                    old(table).states()[i]
                },
        ),
        woken(old(gic), final(gic), lo as int, hi as int),
{
    let ghost t0 = table.states();
    let ghost g0 = *gic;
    let mut id: u32 = lo;
    while id < hi
        invariant
            table.wf(),
            lo <= id <= hi <= NUM_CPUS,
            t0.len() == NUM_CPUS,
            table.states() =~= Seq::new(
                NUM_CPUS as nat,
                |i: int|
                    if lo <= i < id {
                        CpuState::Starting
                    } else {
                        t0[i]
                    },
            ),
            woken(&g0, gic, lo as int, id as int),
        decreases hi - id,
    {
        let ghost g1 = *gic;
        let _ = start_cpu(table, gic, id);
        proof {
            assert forall|c: int, i: int| valid_cpu(c) && valid_irq(i) implies #[trigger] gic.line(
                c,
                i,
            ) == if i == WAKE_VECTOR && lo <= c < id + 1 {
                IrqLine { pending: true, ..g0.line(c, i) }
            } else {
                g0.line(c, i)
            } by {
                assert(g1.line(c, i) == if i == WAKE_VECTOR && lo <= c < id {
                    IrqLine { pending: true, ..g0.line(c, i) }
                } else {
                    g0.line(c, i)
                });
            }
        }
        id = id + 1;
    }
}

/// Starts every secondary core of the performance cluster (ids 1..3).
pub fn start_all_a76_cores(table: &mut CpuTable, gic: &mut Gic500)
    requires
        old(table).wf(),
        old(gic).wf(),
    ensures
        final(table).wf(),
        final(table).states() == Seq::new(
            NUM_CPUS as nat,
            |i: int|
                if 1 <= i < PERF_CPUS {
                    CpuState::Starting
                } else {
                    old(table).states()[i]
                },
        ),
        woken(old(gic), final(gic), 1, PERF_CPUS as int),
{
    start_range(table, gic, 1, PERF_CPUS);
}

/// Starts every core of the efficiency cluster (ids 4..7).
pub fn start_all_a55_cores(table: &mut CpuTable, gic: &mut Gic500)
    requires
        old(table).wf(),
        old(gic).wf(),
    ensures
        final(table).wf(),
        final(table).states() == Seq::new(
            NUM_CPUS as nat,
            |i: int|
                if PERF_CPUS <= i < NUM_CPUS {
                    CpuState::Starting
                } else {
                    old(table).states()[i]
                },
        ),
        woken(old(gic), final(gic), PERF_CPUS as int, NUM_CPUS as int),
{
    start_range(table, gic, PERF_CPUS, NUM_CPUS);
}

/// Starts every secondary core (ids 1..7).
pub fn start_all_cpus(table: &mut CpuTable, gic: &mut Gic500)
    requires
        old(table).wf(),
        old(gic).wf(),
    ensures
        final(table).wf(),
        final(table).states() == Seq::new(
            NUM_CPUS as nat,
            |i: int|
                if 1 <= i < NUM_CPUS {
                    CpuState::Starting
                } else {
                    old(table).states()[i]
                },
        ),
        woken(old(gic), final(gic), 1, NUM_CPUS as int),
{
    let ghost g0 = *gic;
    start_all_a76_cores(table, gic);
    let ghost g1 = *gic;
    start_all_a55_cores(table, gic);
    assert(table.states() =~= Seq::new(
        NUM_CPUS as nat,
        |i: int|
            if 1 <= i < NUM_CPUS {
                CpuState::Starting
            } else {
                old(table).states()[i]
            },
    ));
    assert forall|c: int, i: int| valid_cpu(c) && valid_irq(i) implies #[trigger] gic.line(c, i)
        == if i == WAKE_VECTOR && 1 <= c < NUM_CPUS {
        IrqLine { pending: true, ..g0.line(c, i) }
    } else {
        g0.line(c, i)
    } by {
        assert(g1.line(c, i) == if i == WAKE_VECTOR && 1 <= c < PERF_CPUS {
            IrqLine { pending: true, ..g0.line(c, i) }
        } else {
            g0.line(c, i)
        });
    }
}

/// Outcome of one look at a starting core.
#[derive(Debug, Clone, Copy, PartialEq, Eq, Structural)]
pub enum WaitStep {
    /// Stop waiting, with this result.
    Done(bool),
    /// Look again, with this much budget left.
    Poll(u64),
}

/// The waiting decision for a core seen in `state` with `budget` polls
/// left: online ends in success, offline or an exhausted budget in failure,
/// anything else costs one poll.
pub open spec fn wait_step(state: CpuState, budget: u64) -> WaitStep {
    match state {
        CpuState::Online => WaitStep::Done(true),
        CpuState::Offline => WaitStep::Done(false),
        CpuState::Starting => if budget == 0 {
            WaitStep::Done(false)
        } else {
            WaitStep::Poll((budget - 1) as u64)
        },
    }
}

/// One step of the wait for a core to come online.
pub fn poll_online(state: CpuState, budget: u64) -> (r: WaitStep)
    ensures
        r == wait_step(state, budget),
{
    match state {
        CpuState::Online => WaitStep::Done(true),
        CpuState::Offline => WaitStep::Done(false),
        CpuState::Starting => if budget == 0 {
            WaitStep::Done(false)
        } else {
            WaitStep::Poll(budget - 1)
        },
    }
}

/// Waits, within `timeout_ms` worth of polls, for core `cpu_id` to be
/// online. True exactly when the core is known and online.
pub fn wait_cpu_online(table: &CpuTable, cpu_id: u32, timeout_ms: u32) -> (r: bool)
    requires
        table.wf(),
    ensures
        r == (cpu_id < NUM_CPUS && table.states()[cpu_id as int] == CpuState::Online),
{
    if cpu_id >= NUM_CPUS {
        return false;
    }
    let mut budget: u64 = timeout_ms as u64 * POLLS_PER_MS;
    loop
        invariant
            table.wf(),
            cpu_id < NUM_CPUS,
        decreases budget,
    {
        match poll_online(table.get_state(cpu_id), budget) {
            WaitStep::Done(ok) => {
                return ok;
            },
            WaitStep::Poll(left) => {
                budget = left;
            },
        }
    }
}

/// Counts the online cores among `lo..hi`.
fn count_online(table: &CpuTable, lo: u32, hi: u32) -> (r: u32)
    requires
        table.wf(),
        lo <= hi <= NUM_CPUS,
    ensures
        r == online_in(table.states(), lo as int, hi as int),
        r <= hi - lo,
{
    proof {
        lemma_online_in_bound(table.states(), lo as int, hi as int);
    }
    let mut count: u32 = 0;
    let mut id: u32 = lo;
    while id < hi
        invariant
            table.wf(),
            lo <= id <= hi <= NUM_CPUS,
            count == online_in(table.states(), lo as int, id as int),
        decreases hi - id,
    {
        proof {
            lemma_online_in_bound(table.states(), lo as int, id as int);
        }
        if table.get_state(id) == CpuState::Online {
            count = count + 1;
        }
        id = id + 1;
    }
    count
}

/// Waits for every secondary core in turn and returns how many cores are
/// online, the boot core included. A core that does not come up is left
/// out of the count; the wait never aborts.
pub fn wait_all_online(table: &CpuTable, timeout_ms: u32) -> (r: u32)
    requires
        table.wf(),
    ensures
        r == online_total(table.states()),
{
    let mut online: u32 = 1;
    let mut id: u32 = 1;
    while id < NUM_CPUS
        invariant
            table.wf(),
            1 <= id <= NUM_CPUS,
            online == 1 + online_in(table.states(), 1, id as int),
        decreases NUM_CPUS - id,
    {
        proof {
            lemma_online_in_bound(table.states(), 1, id as int);
        }
        if wait_cpu_online(table, id, timeout_ms) {
            online = online + 1;
        }
        id = id + 1;
    }
    online
}

/// Number of online cores, the boot core always included.
pub fn get_online_cpu_count(table: &CpuTable) -> (r: u32)
    requires
        table.wf(),
    ensures
        r == online_total(table.states()),
{
    1 + count_online(table, 1, NUM_CPUS)
}

/// Number of online cores of the performance cluster.
pub fn get_a76_online_count(table: &CpuTable) -> (r: u32)
    requires
        table.wf(),
    ensures
        r == online_in(table.states(), 0, PERF_CPUS as int),
{
    count_online(table, 0, PERF_CPUS)
}

/// Number of online cores of the efficiency cluster.
pub fn get_a55_online_count(table: &CpuTable) -> (r: u32)
    requires
        table.wf(),
    ensures
        r == online_in(table.states(), PERF_CPUS as int, NUM_CPUS as int),
{
    count_online(table, PERF_CPUS, NUM_CPUS)
}

/// Type of the core whose affinity id is `cpu_id` (the executing core's
/// id, as read from its affinity register).
pub fn current_cpu_type(cpu_id: u32) -> (r: u32)
    ensures
        r == cpu_type_of(cpu_id as int),
{
    if cpu_id < PERF_CPUS {
        CPU_TYPE_PERF
    } else {
        CPU_TYPE_EFF
    }
}

/// What bring-up reports: online cores in all, and per cluster.
#[derive(Debug, Clone, Copy, PartialEq, Eq, Structural)]
pub struct BringupSummary {
    pub online: u32,
    pub a76_online: u32,
    pub a55_online: u32,
}

/// Boot-core bring-up: marks core 0 online, starts every other core, waits
/// for each within `timeout_ms`, and reports the online counts.
pub fn multicore_init(table: &mut CpuTable, gic: &mut Gic500, timeout_ms: u32) -> (r:
    BringupSummary)
    requires
        old(table).wf(),
        old(gic).wf(),
    ensures
        final(table).wf(),
        final(table).states() == Seq::new(
            NUM_CPUS as nat,
            |i: int|
                if i == 0 {
                    CpuState::Online
                } else {
                    CpuState::Starting
                },
        ),
        woken(old(gic), final(gic), 1, NUM_CPUS as int),
        r.online == online_total(final(table).states()),
        r.a76_online == online_in(final(table).states(), 0, PERF_CPUS as int),
        r.a55_online == online_in(final(table).states(), PERF_CPUS as int, NUM_CPUS as int),
{
    table.set_state(0, CpuState::Online);
    start_all_cpus(table, gic);
    assert(table.states() =~= Seq::new(
        NUM_CPUS as nat,
        |i: int|
            if i == 0 {
                CpuState::Online
            } else {
                CpuState::Starting
            },
    ));
    let online = wait_all_online(table, timeout_ms);
    BringupSummary {
        online,
        a76_online: get_a76_online_count(table),
        a55_online: get_a55_online_count(table),
    }
}

/// A secondary core that is started and then announces itself online is
/// seen online, and adds exactly one to the online count, provided it was
/// not online before.
pub proof fn lemma_bring_up_one(t0: CpuTable, t1: CpuTable, t2: CpuTable, id: int)
    requires
        t0.states().len() == NUM_CPUS,
        1 <= id < NUM_CPUS,
        t0.states()[id] != CpuState::Online,
        t1.states() == t0.states().update(id, CpuState::Starting),
        t2.states() == t1.states().update(id, CpuState::Online),
    ensures
        t2.states()[id] == CpuState::Online,
        online_total(t2.states()) == online_total(t0.states()) + 1,
{
    let s0 = t0.states();
    assert(t2.states() =~= s0.update(id, CpuState::Online));
    lemma_online_in_update(s0, 1, NUM_CPUS as int, id, CpuState::Online);
}

/// Handler table of the inter-processor interrupt vectors. A handler is
/// called with the vector and the id of the core the interrupt arrived on.
pub struct IpiTable<H> {
    handlers: Vec<Option<H>>,
}

impl<H: Fn(u32, u32)> IpiTable<H> {
    /// Handler registered for vector `v`.
    pub closed spec fn handler(&self, v: int) -> Option<H> {
        self.handlers@[v]
    }

    pub closed spec fn wf(&self) -> bool {
        self.handlers@.len() == NUM_IPI_VECTORS
    }

    /// A table with no handler registered.
    pub fn new() -> (t: IpiTable<H>)
        ensures
            t.wf(),
            forall|v: int| 0 <= v < NUM_IPI_VECTORS ==> #[trigger] t.handler(v) is None,
    {
        let mut handlers: Vec<Option<H>> = Vec::new();
        let mut v: u32 = 0;
        while v < NUM_IPI_VECTORS
            invariant
                v <= NUM_IPI_VECTORS,
                handlers@.len() == v,
                forall|k: int| 0 <= k < v ==> #[trigger] handlers@[k] is None,
            decreases NUM_IPI_VECTORS - v,
        {
            handlers.push(None);
            v = v + 1;
        }
        IpiTable { handlers }
    }
}

/// Registers `handler` for `vector`, replacing any earlier one; no-op for a
/// vector outside 0..15.
pub fn register_ipi_handler<H: Fn(u32, u32)>(table: &mut IpiTable<H>, vector: u32, handler: H)
    requires
        old(table).wf(),
    ensures
        final(table).wf(),
        forall|v: int|
            0 <= v < NUM_IPI_VECTORS ==> #[trigger] final(table).handler(v) == if v == vector {
                Some(handler)
            } else {
                old(table).handler(v)
            },
{
    if vector < NUM_IPI_VECTORS {
        table.handlers.set(vector as usize, Some(handler));
    }
}

/// Raises software-generated line `vector` on the cores of `cpu_mask`;
/// no-op for a vector outside 0..15.
pub fn send_ipi(gic: &mut Gic500, vector: u32, cpu_mask: u32)
    requires
        old(gic).wf(),
    ensures
        final(gic).wf(),
        final(gic).distributor_enabled() == old(gic).distributor_enabled(),
        forall|c: int, i: int|
            valid_cpu(c) && valid_irq(i) ==> #[trigger] final(gic).line(c, i) == if i == vector
                && vector <= SGI_RANGE_END && mask_has(cpu_mask, c as u32) {
                IrqLine { pending: true, ..old(gic).line(c, i) }
            } else {
                old(gic).line(c, i)
            },
{
    gic.send_sgi(vector, cpu_mask);
}

/// Calls the handler registered for `vector`, if any, with `vector` and
/// `cpu_id`. Returns whether a handler ran.
pub fn handle_ipi<H: Fn(u32, u32)>(table: &IpiTable<H>, vector: u32, cpu_id: u32) -> (r: bool)
    requires
        table.wf(),
        vector < NUM_IPI_VECTORS ==> match table.handler(vector as int) {
            Some(h) => call_requires(h, (vector, cpu_id)),
            None => true,
        },
    ensures
        r == (vector < NUM_IPI_VECTORS && table.handler(vector as int) is Some),
{
    if vector >= NUM_IPI_VECTORS {
        return false;
    }
    match &table.handlers[vector as usize] {
        Some(h) => {
            h(vector, cpu_id);
            true
        },
        None => false,
    }
}

} // verus!
