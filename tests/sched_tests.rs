use starryos_rk3588::hmp_scheduler::{HmpScheduler, SchedulerConfig, Task, TaskHint, TaskState, hmp_init};
use starryos_rk3588::npu_support::{
    NpuContext, NpuScheduleDecision, NpuScheduler, NpuSchedulePolicy, NpuTaskType,
};

#[test]
fn hmp_scheduler_test_task_creation() {
    let task = Task::new(0, 50, TaskHint::HighPerf);
    assert_eq!(task.id, 0);
    assert_eq!(task.priority, 50);
    assert!(matches!(task.state, TaskState::Pending));
}

#[test]
fn test_scheduler_decision() {
    let scheduler = HmpScheduler::new();

    let high_perf_task = Task::new(1, 50, TaskHint::HighPerf);
    let cpu_id = scheduler.decide_cpu(&high_perf_task);
    assert!(cpu_id < 4);

    let low_power_task = Task::new(2, 50, TaskHint::LowPower);
    let cpu_id = scheduler.decide_cpu(&low_power_task);
    assert!(cpu_id >= 4);
}

#[test]
fn four_high_perf_tasks_fill_performance_cluster_in_order() {
    let mut s = hmp_init();
    for (i, expected) in [0u32, 1, 2, 3].iter().enumerate() {
        let cpu = s.submit_task(Task::new(i as u32, 10, TaskHint::HighPerf)).unwrap();
        assert_eq!(cpu, *expected);
    }
    assert_eq!(s.get_load_stats(), (25, 0, 12));
}

#[test]
fn accelerator_tasks_stay_on_performance_cluster() {
    let mut s = HmpScheduler::new();
    for i in 0..10u32 {
        let cpu = s.submit_task(Task::new(i, 1, TaskHint::NpuPrePost)).unwrap();
        assert!(cpu < 4);
    }
    assert_eq!(s.get_load_stats().0, 62);
}

#[test]
fn low_power_escalates_when_efficiency_cluster_is_busy() {
    let mut s = HmpScheduler::new();
    let mut placed = Vec::new();
    for i in 0..12u32 {
        placed.push(s.submit_task(Task::new(i, 1, TaskHint::LowPower)).unwrap());
    }
    // Efficiency average: 25, 50, then 56 and 62 after the ninth and tenth
    // task; from 60 on, low-power work goes to the performance cluster.
    assert_eq!(&placed[0..4], &[4, 5, 6, 7]);
    assert_eq!(&placed[4..8], &[4, 5, 6, 7]);
    assert_eq!(&placed[8..12], &[4, 5, 0, 1]);
    assert_eq!(s.get_load_stats(), (12, 62, 37));
    let cpu = s.submit_task(Task::new(99, 1, TaskHint::LowPower)).unwrap();
    assert_eq!(cpu, 2);
}

#[test]
fn submit_then_finish_restores_load() {
    let mut s = HmpScheduler::new();
    s.submit_task(Task::new(1, 1, TaskHint::HighPerf)).unwrap();
    let before = s.get_load_stats();
    let cpu = s.submit_task(Task::new(2, 1, TaskHint::HighPerf)).unwrap();
    assert_eq!(cpu, 1);
    assert_eq!(s.get_load_stats(), (12, 0, 6));
    assert!(s.finish_task(2).is_ok());
    assert_eq!(s.get_load_stats(), before);
    assert_eq!(s.queue_len(), 1);
}

#[test]
fn finish_unknown_task_is_not_found() {
    let mut s = HmpScheduler::new();
    s.submit_task(Task::new(1, 1, TaskHint::LowPower)).unwrap();
    assert!(s.finish_task(42).is_err());
    assert_eq!(s.queue_len(), 1);
}

#[test]
fn default_scheduler_config() {
    let c = SchedulerConfig::default();
    assert_eq!(c.a55_load_threshold, 60);
    assert_eq!(c.a76_load_threshold, 50);
    assert!(c.enable_load_balance);
    assert_eq!(c.rebalance_interval_ms, 100);
}

#[test]
fn test_npu_context() {
    let mut ctx = NpuContext::new(0, "yolov8");
    assert_eq!(ctx.current_task, NpuTaskType::Preprocess);

    ctx.start_inference();
    assert_eq!(ctx.current_task, NpuTaskType::Inference);
    assert_eq!(ctx.inference_state, 1);
}

#[test]
fn test_npu_scheduler() {
    let mut scheduler = NpuScheduler::new(NpuSchedulePolicy::ASAP);
    let ctx = NpuContext::new(0, "yolov8");
    assert!(scheduler.register_context(ctx).is_ok());
}

#[test]
fn test_schedule_decision() {
    let scheduler = NpuScheduler::new(NpuSchedulePolicy::ASAP);
    let decision = scheduler.get_schedule_decision(NpuTaskType::Preprocess);
    assert_eq!(decision.freq_level, 4);
}

#[test]
fn preprocess_advice_of_extreme_policies() {
    let asap = NpuScheduler::new(NpuSchedulePolicy::ASAP).get_schedule_decision(NpuTaskType::Preprocess);
    assert_eq!(asap.suggested_cpus, 0x0F);
    assert_eq!(asap.freq_level, 4);
    let low = NpuScheduler::new(NpuSchedulePolicy::MinPower).get_schedule_decision(NpuTaskType::Preprocess);
    assert_eq!(low.suggested_cpus, 0xF0);
    assert_eq!(low.freq_level, 1);
    assert_eq!(low.preferred_cpu, Some(4));
}

#[test]
fn balanced_inference_allows_any_core() {
    let d = NpuScheduler::new(NpuSchedulePolicy::Balanced).get_schedule_decision(NpuTaskType::Inference);
    assert_eq!(
        d,
        NpuScheduleDecision { suggested_cpus: 0xFF, preferred_cpu: None, freq_level: 0, estimated_time_ms: 50 }
    );
    let p = NpuScheduler::new(NpuSchedulePolicy::Balanced).get_schedule_decision(NpuTaskType::Postprocess);
    assert_eq!(p.freq_level, 3);
    assert_eq!(p.preferred_cpu, Some(1));
}

#[test]
fn ninth_context_is_refused() {
    let mut s = NpuScheduler::new(NpuSchedulePolicy::Balanced);
    for i in 0..8u32 {
        assert_eq!(s.register_context(NpuContext::new(i, "m")), Ok(i));
    }
    assert!(s.register_context(NpuContext::new(8, "m")).is_err());
    assert_eq!(s.get_contexts().len(), 8);
}

#[test]
fn total_utilization_is_capped_mean() {
    let mut s = NpuScheduler::new(NpuSchedulePolicy::ASAP);
    assert_eq!(s.get_total_utilization(), 0);
    let mut a = NpuContext::new(1, "a");
    a.utilization = 30;
    let mut b = NpuContext::new(2, "b");
    b.utilization = 61;
    s.register_context(a).unwrap();
    s.register_context(b).unwrap();
    assert_eq!(s.get_total_utilization(), 45);
    let mut c = NpuContext::new(3, "c");
    c.utilization = 500;
    s.register_context(c).unwrap();
    assert_eq!(s.get_total_utilization(), 100);
}

#[test]
fn context_phase_transitions() {
    let mut ctx = NpuContext::new(7, "arcface");
    ctx.utilization = 80;
    ctx.start_inference();
    ctx.finish_inference();
    assert_eq!(ctx.current_task, NpuTaskType::Postprocess);
    assert_eq!(ctx.inference_state, 2);
    ctx.task_done();
    assert_eq!(ctx.inference_state, 0);
    assert_eq!(ctx.utilization, 0);
    ctx.start_preprocess();
    assert_eq!(ctx.current_task.name(), "Preprocess");
}
