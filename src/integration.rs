//! System health bookkeeping: per-component status and the aggregate
//! health report.
use vstd::prelude::*;

verus! {

/// Health (percent) at or above which the system may report ready.
pub const READY_HEALTH: u32 = 80;

/// Layer a component belongs to.
#[derive(Debug, Clone, Copy, PartialEq, Eq, Structural)]
pub enum SubsystemType {
    Drivers,
    Kernel,
    Npu,
    Application,
}

impl SubsystemType {
    /// Human-readable name.
    pub fn name(&self) -> (r: &'static str) {
        match self {
            SubsystemType::Drivers => "Drivers",
            SubsystemType::Kernel => "Kernel",
            SubsystemType::Npu => "NPU",
            SubsystemType::Application => "Application",
        }
    }
}

/// Lifecycle of a component.
#[derive(Debug, Clone, Copy, PartialEq, Eq, Structural)]
pub enum ComponentStatus {
    Uninitialized,
    Initializing,
    Running,
    Warning,
    Error,
    Disabled,
}

/// One monitored component.
#[derive(Debug, Clone, Copy)]
pub struct ComponentInfo {
    pub name: &'static str,
    pub subsystem: SubsystemType,
    pub status: ComponentStatus,
    pub error_count: u32,
    pub last_error: Option<&'static str>,
}

impl ComponentInfo {
    /// An uninitialised component with no error recorded.
    pub fn new(name: &'static str, subsystem: SubsystemType) -> (c: ComponentInfo)
        ensures
            c.name == name,
            c.subsystem == subsystem,
            c.status == ComponentStatus::Uninitialized,
            c.error_count == 0,
            c.last_error is None,
    {
        ComponentInfo {
            name,
            subsystem,
            status: ComponentStatus::Uninitialized,
            error_count: 0,
            last_error: None,
        }
    }

    /// Healthy means running.
    pub fn is_healthy(&self) -> (r: bool)
        ensures
            r == (self.status == ComponentStatus::Running),
    {
        self.status == ComponentStatus::Running
    }
}

/// Aggregate health of the system.
#[derive(Debug, Clone, Copy, PartialEq, Eq, Structural)]
pub struct HealthCheckReport {
    pub total_components: u32,
    pub healthy_components: u32,
    pub error_components: u32,
    /// Healthy share of the components, in percent.
    pub overall_health: u32,
    pub timestamp: u64,
}

impl HealthCheckReport {
    /// A report with every count zero.
    pub fn new() -> (r: HealthCheckReport)
        ensures
            r == (HealthCheckReport {
                total_components: 0,
                healthy_components: 0,
                error_components: 0,
                overall_health: 0,
                timestamp: 0,
            }),
    {
        HealthCheckReport {
            total_components: 0,
            healthy_components: 0,
            error_components: 0,
            overall_health: 0,
            timestamp: 0,
        }
    }

    /// Ready: health at least `READY_HEALTH` and no component in error.
    pub fn is_system_ready(&self) -> (r: bool)
        ensures
            r == (self.overall_health >= READY_HEALTH && self.error_components == 0),
    {
        self.overall_health >= READY_HEALTH && self.error_components == 0
    }

    /// Records new counts; the health becomes the healthy share of `total`
    /// and is left as it was when `total` is zero.
    pub fn update(&mut self, healthy: u32, error: u32, total: u32)
        requires
            total > 0 ==> healthy * 100 <= u32::MAX,
        ensures
            final(self).healthy_components == healthy,
            final(self).error_components == error,
            final(self).total_components == total,
            final(self).timestamp == old(self).timestamp,
            final(self).overall_health == if total > 0 {
                (healthy as int * 100 / total as int) as u32
            } else {
                old(self).overall_health
            },
    {
        self.healthy_components = healthy;
        self.error_components = error;
        self.total_components = total;
        if total > 0 {
            self.overall_health = (healthy * 100) / total;
        }
    }
}

/// Summary of the whole system.
#[derive(Debug, Clone)]
pub struct SystemReport {
    pub total_components: u32,
    pub health_status: u32,
    pub component_summaries: Vec<String>,
    pub benchmark_count: u32,
}

} // verus!
