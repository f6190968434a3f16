//! Closed-loop application scenarios: actuator commands and execution
//! statistics.
use vstd::prelude::*;

verus! {

/// Kind of application scenario.
#[derive(Debug, Clone, Copy, PartialEq, Eq, Structural)]
pub enum ApplicationScenario {
    PeopleDetection,
    VehicleDetection,
    ObjectDetection,
    AnomalyDetection,
}

/// A command for an actuator on the CAN bus.
#[derive(Debug, Clone, Copy, PartialEq, Eq, Structural)]
pub struct ActuatorCommand {
    /// CAN id of the actuator.
    pub actuator_id: u8,
    /// 0 alarm, 1 steer, 2 slow down, 3 stop.
    pub command_type: u8,
    /// Meaning depends on the command type.
    pub param: u8,
}

impl ActuatorCommand {
    pub fn new(actuator_id: u8, command_type: u8, param: u8) -> (c: ActuatorCommand)
        ensures
            c == (ActuatorCommand { actuator_id, command_type, param }),
    {
        ActuatorCommand { actuator_id, command_type, param }
    }
}

/// Stage of one scenario run.
#[derive(Debug, Clone, Copy, PartialEq, Eq, Structural)]
pub enum ExecutionState {
    Idle,
    Capturing,
    Preprocessing,
    Inferencing,
    Postprocessing,
    Controlling,
    Complete,
}

/// Counters over the runs of a scenario.
#[derive(Debug, Clone, Copy, PartialEq, Eq, Structural)]
pub struct ScenarioStats {
    pub total_executions: u32,
    pub successful: u32,
    pub failed: u32,
    pub total_time_ms: u32,
    /// Integer mean of the run times.
    pub avg_time_ms: u32,
    pub commands_sent: u32,
}

impl ScenarioStats {
    /// All counters zero.
    pub fn new() -> (s: ScenarioStats)
        ensures
            s == (ScenarioStats {
                total_executions: 0,
                successful: 0,
                failed: 0,
                total_time_ms: 0,
                avg_time_ms: 0,
                commands_sent: 0,
            }),
    {
        ScenarioStats {
            total_executions: 0,
            successful: 0,
            failed: 0,
            total_time_ms: 0,
            avg_time_ms: 0,
            commands_sent: 0,
        }
    }

    /// Counts one run of `time_ms`, successful or not, and refreshes the
    /// mean run time.
    pub fn update_execution(&mut self, success: bool, time_ms: u32)
        requires
            old(self).total_executions < u32::MAX,
            old(self).total_time_ms + time_ms <= u32::MAX,
            success ==> old(self).successful < u32::MAX,
            !success ==> old(self).failed < u32::MAX,
        ensures
            final(self).total_executions == old(self).total_executions + 1,
            final(self).total_time_ms == old(self).total_time_ms + time_ms,
            final(self).successful == old(self).successful + if success {
                1int
            } else {
                0int
            },
            final(self).failed == old(self).failed + if success {
                0int
            } else {
                1int
            },
            final(self).avg_time_ms == final(self).total_time_ms / final(self).total_executions,
            final(self).commands_sent == old(self).commands_sent,
    {
        self.total_executions = self.total_executions + 1;
        self.total_time_ms = self.total_time_ms + time_ms;
        if success {
            self.successful = self.successful + 1;
        } else {
            self.failed = self.failed + 1;
        }
        self.avg_time_ms = self.total_time_ms / self.total_executions;
    }
}

/// Summary over all coordinated scenarios.
#[derive(Debug, Clone, Copy, PartialEq, Eq, Structural)]
pub struct CoordinationReport {
    pub active_scenarios: u32,
    pub total_commands: u32,
    pub success_count: u32,
}

} // verus!
