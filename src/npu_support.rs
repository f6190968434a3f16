//! Accelerator-aware scheduling advice.
//!
//! A stateless policy maps each phase of the accelerator pipeline to a CPU
//! set and frequency level; a small bounded registry tracks the live
//! accelerator contexts.
use vstd::prelude::*;

verus! {

/// Most accelerator contexts that may be registered at once.
pub const MAX_NPU_CONTEXTS: usize = 8;

/// CPU bitmask of the performance cluster (cores 0..3).
pub const PERF_CLUSTER_MASK: u8 = 0x0F;

/// CPU bitmask of the efficiency cluster (cores 4..7).
pub const EFF_CLUSTER_MASK: u8 = 0xF0;

/// CPU bitmask of every core.
pub const ALL_CPUS_MASK: u8 = 0xFF;

/// Phase of the accelerator pipeline.
#[derive(Debug, Clone, Copy, PartialEq, Eq, Structural)]
pub enum NpuTaskType {
    Preprocess,
    Inference,
    Postprocess,
}

impl NpuTaskType {
    /// Human-readable name of the phase.
    pub fn name(&self) -> (r: &'static str) {
        match self {
            NpuTaskType::Preprocess => "Preprocess",
            NpuTaskType::Inference => "Inference",
            NpuTaskType::Postprocess => "Postprocess",
        }
    }
}

/// Inference status: idle.
pub const INFERENCE_IDLE: u32 = 0;

/// Inference status: running on the accelerator.
pub const INFERENCE_RUNNING: u32 = 1;

/// Inference status: finished, result not yet consumed.
pub const INFERENCE_AWAITING_RESULT: u32 = 2;

/// One accelerator pipeline instance.
#[derive(Debug, Clone, Copy)]
pub struct NpuContext {
    pub context_id: u32,
    pub model_name: &'static str,
    /// Phase the pipeline is in.
    pub current_task: NpuTaskType,
    /// One of `INFERENCE_IDLE`, `INFERENCE_RUNNING`,
    /// `INFERENCE_AWAITING_RESULT`.
    pub inference_state: u32,
    /// Accelerator utilization, in percent.
    pub utilization: u32,
}

impl NpuContext {
    /// A context in the preprocessing phase, idle, at zero utilization.
    pub fn new(context_id: u32, model_name: &'static str) -> (c: NpuContext)
        ensures
            c.context_id == context_id,
            c.model_name == model_name,
            c.current_task == NpuTaskType::Preprocess,
            c.inference_state == INFERENCE_IDLE,
            c.utilization == 0,
    {
        NpuContext {
            context_id,
            model_name,
            current_task: NpuTaskType::Preprocess,
            inference_state: INFERENCE_IDLE,
            utilization: 0,
        }
    }

    pub fn start_preprocess(&mut self)
        ensures
            *final(self) == (NpuContext { current_task: NpuTaskType::Preprocess, ..*old(self) }),
    {
        self.current_task = NpuTaskType::Preprocess;
    }

    pub fn start_inference(&mut self)
        ensures
            *final(self) == (NpuContext {
                current_task: NpuTaskType::Inference,
                inference_state: INFERENCE_RUNNING,
                ..*old(self)
            }),
    {
        self.current_task = NpuTaskType::Inference;
        self.inference_state = INFERENCE_RUNNING;
    }

    pub fn finish_inference(&mut self)
        ensures
            *final(self) == (NpuContext {
                current_task: NpuTaskType::Postprocess,
                inference_state: INFERENCE_AWAITING_RESULT,
                ..*old(self)
            }),
    {
        self.inference_state = INFERENCE_AWAITING_RESULT;
        self.current_task = NpuTaskType::Postprocess;
    }

    pub fn start_postprocess(&mut self)
        ensures
            *final(self) == (NpuContext { current_task: NpuTaskType::Postprocess, ..*old(self) }),
    {
        self.current_task = NpuTaskType::Postprocess;
    }

    pub fn task_done(&mut self)
        ensures
            *final(self) == (NpuContext {
                inference_state: INFERENCE_IDLE,
                utilization: 0,
                ..*old(self)
            }),
    {
        self.inference_state = INFERENCE_IDLE;
        self.utilization = 0;
    }
}

/// Scheduling policy of the advisor.
#[derive(Debug, Clone, Copy, PartialEq, Eq, Structural)]
pub enum NpuSchedulePolicy {
    /// Minimise latency.
    ASAP,
    /// Minimise power.
    MinPower,
    /// Between the two.
    Balanced,
}

/// A placement recommendation for one pipeline phase.
#[derive(Debug, Clone, Copy, PartialEq, Eq, Structural)]
pub struct NpuScheduleDecision {
    /// Bitmask of suggested cores.
    pub suggested_cpus: u8,
    pub preferred_cpu: Option<u8>,
    /// Frequency level, 0 (lowest) to 4 (highest).
    pub freq_level: u8,
    pub estimated_time_ms: u32,
}

/// The recommendation for `task_type` under `policy`.
pub open spec fn advice(policy: NpuSchedulePolicy, task_type: NpuTaskType) -> NpuScheduleDecision {
    match (policy, task_type) {
        (NpuSchedulePolicy::ASAP, NpuTaskType::Preprocess) => NpuScheduleDecision {
            suggested_cpus: PERF_CLUSTER_MASK,
            preferred_cpu: Some(0),
            freq_level: 4,
            estimated_time_ms: 10,
        },
        (NpuSchedulePolicy::ASAP, NpuTaskType::Postprocess) => NpuScheduleDecision {
            suggested_cpus: PERF_CLUSTER_MASK,
            preferred_cpu: Some(1),
            freq_level: 4,
            estimated_time_ms: 10,
        },
        (NpuSchedulePolicy::MinPower, NpuTaskType::Preprocess) => NpuScheduleDecision {
            suggested_cpus: EFF_CLUSTER_MASK,
            preferred_cpu: Some(4),
            freq_level: 1,
            estimated_time_ms: 20,
        },
        (NpuSchedulePolicy::MinPower, NpuTaskType::Postprocess) => NpuScheduleDecision {
            suggested_cpus: EFF_CLUSTER_MASK,
            preferred_cpu: Some(5),
            freq_level: 1,
            estimated_time_ms: 20,
        },
        (NpuSchedulePolicy::Balanced, NpuTaskType::Preprocess) => NpuScheduleDecision {
            suggested_cpus: PERF_CLUSTER_MASK,
            preferred_cpu: Some(0),
            freq_level: 3,
            estimated_time_ms: 15,
        },
        (NpuSchedulePolicy::Balanced, NpuTaskType::Postprocess) => NpuScheduleDecision {
            suggested_cpus: PERF_CLUSTER_MASK,
            preferred_cpu: Some(1),
            freq_level: 3,
            estimated_time_ms: 15,
        },
        (NpuSchedulePolicy::Balanced, NpuTaskType::Inference) => NpuScheduleDecision {
            suggested_cpus: ALL_CPUS_MASK,
            preferred_cpu: None,
            freq_level: 0,
            estimated_time_ms: 50,
        },
        (_, NpuTaskType::Inference) => NpuScheduleDecision {
            suggested_cpus: EFF_CLUSTER_MASK,
            preferred_cpu: None,
            freq_level: 0,
            estimated_time_ms: 50,
        },
    }
}

/// Sum of the utilizations of `s`.
pub open spec fn util_sum(s: Seq<NpuContext>) -> nat
    decreases s.len(),
{
    if s.len() == 0 {
        0
    } else {
        util_sum(s.drop_last()) + s.last().utilization as nat
    }
}

/// Mean utilization of `s`, capped at 100; zero for no contexts.
pub open spec fn mean_utilization(s: Seq<NpuContext>) -> nat {
    let n: nat = if s.len() == 0 {
        1
    } else {
        s.len()
    };
    let m = util_sum(s) / n;
    if m > 100 {
        100
    } else {
        m
    }
}

/// Advisor and registry of accelerator contexts.
pub struct NpuScheduler {
    contexts: Vec<NpuContext>,
    policy: NpuSchedulePolicy,
}

impl NpuScheduler {
    /// The registered contexts, in registration order.
    pub closed spec fn contexts(&self) -> Seq<NpuContext> {
        self.contexts@
    }

    /// The policy in force.
    pub closed spec fn policy(&self) -> NpuSchedulePolicy {
        self.policy
    }

    /// At most `MAX_NPU_CONTEXTS` contexts are registered.
    pub closed spec fn wf(&self) -> bool {
        self.contexts@.len() <= MAX_NPU_CONTEXTS
    }

    pub fn new(policy: NpuSchedulePolicy) -> (s: NpuScheduler)
        ensures
            s.wf(),
            s.contexts() == Seq::<NpuContext>::empty(),
            s.policy() == policy,
    {
        NpuScheduler { contexts: Vec::new(), policy }
    }

    /// Registers `context` and returns its id; fails, changing nothing,
    /// once `MAX_NPU_CONTEXTS` contexts are registered.
    pub fn register_context(&mut self, context: NpuContext) -> (r: Result<u32, &'static str>)
        requires
            old(self).wf(),
        ensures
            final(self).wf(),
            final(self).policy() == old(self).policy(),
            r is Ok <==> old(self).contexts().len() < MAX_NPU_CONTEXTS,
            r is Ok ==> r->Ok_0 == context.context_id && final(self).contexts()
                == old(self).contexts().push(context),
            r is Err ==> final(self).contexts() == old(self).contexts(),
    {
        if self.contexts.len() >= MAX_NPU_CONTEXTS {
            return Err("Too many NPU contexts");
        }
        let id = context.context_id;
        self.contexts.push(context);
        Ok(id)
    }

    /// The recommendation for `task_type` under this scheduler's policy.
    pub fn get_schedule_decision(&self, task_type: NpuTaskType) -> (d: NpuScheduleDecision)
        ensures
            d == advice(self.policy(), task_type),
    {
        match self.policy {
            NpuSchedulePolicy::ASAP => self.schedule_asap(task_type),
            NpuSchedulePolicy::MinPower => self.schedule_min_power(task_type),
            NpuSchedulePolicy::Balanced => self.schedule_balanced(task_type),
        }
    }

    /// Latency first: pre/post-processing on the performance cluster at the
    /// top frequency.
    fn schedule_asap(&self, task_type: NpuTaskType) -> (d: NpuScheduleDecision)
        ensures
            d == advice(NpuSchedulePolicy::ASAP, task_type),
    {
        match task_type {
            NpuTaskType::Preprocess => NpuScheduleDecision {
                suggested_cpus: PERF_CLUSTER_MASK,
                preferred_cpu: Some(0),
                freq_level: 4,
                estimated_time_ms: 10,
            },
            NpuTaskType::Inference => NpuScheduleDecision {
                suggested_cpus: EFF_CLUSTER_MASK,
                preferred_cpu: None,
                freq_level: 0,
                estimated_time_ms: 50,
            },
            NpuTaskType::Postprocess => NpuScheduleDecision {
                suggested_cpus: PERF_CLUSTER_MASK,
                preferred_cpu: Some(1),
                freq_level: 4,
                estimated_time_ms: 10,
            },
        }
    }

    /// Power first: pre/post-processing on the efficiency cluster at a low
    /// frequency.
    fn schedule_min_power(&self, task_type: NpuTaskType) -> (d: NpuScheduleDecision)
        ensures
            d == advice(NpuSchedulePolicy::MinPower, task_type),
    {
        match task_type {
            NpuTaskType::Preprocess => NpuScheduleDecision {
                suggested_cpus: EFF_CLUSTER_MASK,
                preferred_cpu: Some(4),
                freq_level: 1,
                estimated_time_ms: 20,
            },
            NpuTaskType::Inference => NpuScheduleDecision {
                suggested_cpus: EFF_CLUSTER_MASK,
                preferred_cpu: None,
                freq_level: 0,
                estimated_time_ms: 50,
            },
            NpuTaskType::Postprocess => NpuScheduleDecision {
                suggested_cpus: EFF_CLUSTER_MASK,
                preferred_cpu: Some(5),
                freq_level: 1,
                estimated_time_ms: 20,
            },
        }
    }

    /// Balanced: pre/post-processing on the performance cluster at a
    /// mid-high frequency; inference anywhere.
    fn schedule_balanced(&self, task_type: NpuTaskType) -> (d: NpuScheduleDecision)
        ensures
            d == advice(NpuSchedulePolicy::Balanced, task_type),
    {
        match task_type {
            NpuTaskType::Preprocess => NpuScheduleDecision {
                suggested_cpus: PERF_CLUSTER_MASK,
                preferred_cpu: Some(0),
                freq_level: 3,
                estimated_time_ms: 15,
            },
            NpuTaskType::Inference => NpuScheduleDecision {
                suggested_cpus: ALL_CPUS_MASK,
                preferred_cpu: None,
                freq_level: 0,
                estimated_time_ms: 50,
            },
            NpuTaskType::Postprocess => NpuScheduleDecision {
                suggested_cpus: PERF_CLUSTER_MASK,
                preferred_cpu: Some(1),
                freq_level: 3,
                estimated_time_ms: 15,
            },
        }
    }

    /// The registered contexts, in registration order.
    pub fn get_contexts(&self) -> (r: &[NpuContext])
        ensures
            r@ == self.contexts(),
    {
        self.contexts.as_slice()
    }

    /// Mean utilization of the registered contexts, capped at 100; zero
    /// when none is registered.
    pub fn get_total_utilization(&self) -> (r: u32)
        requires
            self.wf(),
        ensures
            r == mean_utilization(self.contexts()),
    {
        let mut total: u64 = 0;
        let mut i: usize = 0;
        while i < self.contexts.len()
            invariant
                i <= self.contexts@.len() <= MAX_NPU_CONTEXTS,
                total == util_sum(self.contexts@.subrange(0, i as int)),
                total <= i * 0xFFFF_FFFF,
            decreases self.contexts@.len() - i,
        {
            proof {
                let s = self.contexts@.subrange(0, i as int + 1);
                assert(s.drop_last() =~= self.contexts@.subrange(0, i as int));
            }
            total = total + self.contexts[i].utilization as u64;
            i = i + 1;
        }
        assert(self.contexts@.subrange(0, i as int) =~= self.contexts@);
        let n: u64 = if self.contexts.len() == 0 {
            1
        } else {
            self.contexts.len() as u64
        };
        let mean = total / n;
        if mean > 100 {
            100
        } else {
            mean as u32
        }
    }
}

/// The pre-processing advice of the two extreme policies: latency-first
/// pins it to the whole performance cluster at frequency level 4, and
/// power-first to the whole efficiency cluster at frequency level 1.
pub proof fn lemma_preprocess_advice()
    ensures
        advice(NpuSchedulePolicy::ASAP, NpuTaskType::Preprocess).suggested_cpus
            == PERF_CLUSTER_MASK,
        advice(NpuSchedulePolicy::ASAP, NpuTaskType::Preprocess).freq_level == 4,
        advice(NpuSchedulePolicy::MinPower, NpuTaskType::Preprocess).suggested_cpus
            == EFF_CLUSTER_MASK,
        advice(NpuSchedulePolicy::MinPower, NpuTaskType::Preprocess).freq_level == 1,
{
}

/// `r` and `s1` are what `register_context(ctx)` may return and leave
/// behind when called on `s0`.
pub open spec fn register_step(
    s0: NpuScheduler,
    ctx: NpuContext,
    r: Result<u32, &'static str>,
    s1: NpuScheduler,
) -> bool {
    &&& r is Ok <==> s0.contexts().len() < MAX_NPU_CONTEXTS
    &&& r is Ok ==> s1.contexts() == s0.contexts().push(ctx)
    &&& r is Err ==> s1.contexts() == s0.contexts()
}

/// A run of `register_context` calls starting with no registered context,
/// as seen through `register_step`.
pub open spec fn register_run(
    states: Seq<NpuScheduler>,
    ctxs: Seq<NpuContext>,
    results: Seq<Result<u32, &'static str>>,
) -> bool {
    &&& states.len() == ctxs.len() + 1
    &&& results.len() == ctxs.len()
    &&& states[0].contexts().len() == 0
    &&& forall|i: int|
        0 <= i < ctxs.len() ==> #[trigger] register_step(
            states[i],
            ctxs[i],
            results[i],
            states[i + 1],
        )
}

proof fn lemma_register_prefix(
    states: Seq<NpuScheduler>,
    ctxs: Seq<NpuContext>,
    results: Seq<Result<u32, &'static str>>,
    k: int,
)
    requires
        register_run(states, ctxs, results),
        0 <= k <= MAX_NPU_CONTEXTS,
        k <= ctxs.len(),
    ensures
        states[k].contexts().len() == k,
        forall|i: int| 0 <= i < k ==> (#[trigger] results[i]) is Ok,
    decreases k,
{
    if k > 0 {
        lemma_register_prefix(states, ctxs, results, k - 1);
        let j = k - 1;
        assert(register_step(states[j], ctxs[j], results[j], states[j + 1]));
    }
}

/// Starting from no registered context, the first `MAX_NPU_CONTEXTS`
/// registrations succeed and the next one is refused.
pub proof fn lemma_register_capacity(
    states: Seq<NpuScheduler>,
    ctxs: Seq<NpuContext>,
    results: Seq<Result<u32, &'static str>>,
)
    requires
        register_run(states, ctxs, results),
        ctxs.len() == MAX_NPU_CONTEXTS + 1,
    ensures
        forall|i: int| 0 <= i < MAX_NPU_CONTEXTS ==> (#[trigger] results[i]) is Ok,
        results[MAX_NPU_CONTEXTS as int] is Err,
{
    let k = MAX_NPU_CONTEXTS as int;
    lemma_register_prefix(states, ctxs, results, k);
    assert(register_step(states[k], ctxs[k], results[k], states[k + 1]));
}

} // verus!
