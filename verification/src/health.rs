//! Health checks: what each observation of the daemon amounts to, and the
//! overall verdict.

use crate::text::{concat, concat3, decimal, decimal_string};
use vstd::prelude::*;

verus! {

/// Memory use from which the daemon counts as degraded: 500 MiB.
pub const MEMORY_WARNING_BYTES: u64 = 524_288_000;

/// Memory use from which the daemon counts as unhealthy: 1 GiB.
pub const MEMORY_CRITICAL_BYTES: u64 = 1_073_741_824;

/// Processor use from which the daemon counts as degraded, in tenths of a
/// percent.
pub const CPU_WARNING_TENTHS: u32 = 500;

/// Processor use from which the daemon counts as unhealthy, in tenths of a
/// percent.
pub const CPU_CRITICAL_TENTHS: u32 = 800;

/// How well something is.
#[derive(Debug, Clone, Copy, PartialEq, Eq, Structural)]
pub enum HealthStatus {
    /// All systems operational.
    Healthy,
    /// Some non-critical issues.
    Degraded,
    /// Critical issues present.
    Unhealthy,
}

/// The check of one component.
#[derive(Debug, Clone)]
pub struct ComponentCheck {
    /// The component's name.
    pub name: String,
    /// How well it is.
    pub status: HealthStatus,
    /// What is wrong, where something is.
    pub message: Option<String>,
    /// How long the check took, in milliseconds.
    pub duration_ms: u64,
}

/// The result of a health check.
#[derive(Debug, Clone)]
pub struct HealthCheck {
    /// The overall status.
    pub status: HealthStatus,
    /// The checks it rests on.
    pub checks: Vec<ComponentCheck>,
    /// When it was made, in seconds since the epoch.
    pub timestamp: u64,
    /// How long it took, in milliseconds.
    pub duration_ms: u64,
}

impl ComponentCheck {
    /// Whether this is the check of `name` with this status and message.
    pub open spec fn reports(
        &self,
        name: Seq<char>,
        status: HealthStatus,
        message: Option<Seq<char>>,
        duration_ms: u64,
    ) -> bool {
        &&& self.name@ == name
        &&& self.status == status
        &&& self.duration_ms == duration_ms
        &&& match message {
            Some(text) => self.message matches Some(m) && m@ == text,
            None => self.message is None,
        }
    }

    /// A component that is well.
    pub fn healthy(name: &str, duration_ms: u64) -> (check: Self)
        ensures
            check.reports(name@, HealthStatus::Healthy, None, duration_ms),
    {
        ComponentCheck {
            name: name.to_owned(),
            status: HealthStatus::Healthy,
            message: None,
            duration_ms,
        }
    }

    /// A component with an issue that is not critical.
    pub fn degraded(name: &str, message: &str, duration_ms: u64) -> (check: Self)
        ensures
            check.reports(name@, HealthStatus::Degraded, Some(message@), duration_ms),
    {
        ComponentCheck {
            name: name.to_owned(),
            status: HealthStatus::Degraded,
            message: Some(message.to_owned()),
            duration_ms,
        }
    }

    /// A component with a critical issue.
    pub fn unhealthy(name: &str, message: &str, duration_ms: u64) -> (check: Self)
        ensures
            check.reports(name@, HealthStatus::Unhealthy, Some(message@), duration_ms),
    {
        ComponentCheck {
            name: name.to_owned(),
            status: HealthStatus::Unhealthy,
            message: Some(message.to_owned()),
            duration_ms,
        }
    }
}

/// The overall status of some checks: unhealthy where any is, else
/// degraded where any is, else healthy.
pub open spec fn overall_status(checks: Seq<ComponentCheck>) -> HealthStatus {
    if exists|i: int| 0 <= i < checks.len() && checks[i].status == HealthStatus::Unhealthy {
        HealthStatus::Unhealthy
    } else if exists|i: int| 0 <= i < checks.len() && checks[i].status == HealthStatus::Degraded {
        HealthStatus::Degraded
    } else {
        HealthStatus::Healthy
    }
}

/// A percentage given in tenths, with one decimal: `123` is "12.3".
pub open spec fn tenths_text(tenths: u32) -> Seq<char> {
    decimal((tenths / 10) as nat) + "."@ + decimal((tenths % 10) as nat)
}

/// The thresholds health is judged by.
#[derive(Debug, Clone, Copy)]
pub struct HealthChecker {
    memory_warning_threshold: u64,
    memory_critical_threshold: u64,
    cpu_warning_threshold: u32,
    cpu_critical_threshold: u32,
}

impl Default for HealthChecker {
    fn default() -> (checker: Self)
        ensures
            checker.wf(),
    {
        HealthChecker {
            memory_warning_threshold: MEMORY_WARNING_BYTES,
            memory_critical_threshold: MEMORY_CRITICAL_BYTES,
            cpu_warning_threshold: CPU_WARNING_TENTHS,
            cpu_critical_threshold: CPU_CRITICAL_TENTHS,
        }
    }
}

impl HealthChecker {
    /// Whether the checker holds the built-in thresholds.
    pub closed spec fn wf(&self) -> bool {
        &&& self.memory_warning_threshold == MEMORY_WARNING_BYTES
        &&& self.memory_critical_threshold == MEMORY_CRITICAL_BYTES
        &&& self.cpu_warning_threshold == CPU_WARNING_TENTHS
        &&& self.cpu_critical_threshold == CPU_CRITICAL_TENTHS
    }

    /// A checker with the built-in thresholds.
    pub fn new() -> (checker: Self)
        ensures
            checker.wf(),
    {
        Self::default()
    }

    /// Judges the daemon's memory use.
    pub fn check_memory(&self, memory_bytes: u64, duration_ms: u64) -> (check: ComponentCheck)
        requires
            self.wf(),
        ensures
            memory_bytes >= MEMORY_CRITICAL_BYTES ==> check.reports(
                "memory"@,
                HealthStatus::Unhealthy,
                Some(
                    "Memory usage critical: "@ + decimal((memory_bytes / 1024 / 1024) as nat)
                        + " MB"@,
                ),
                duration_ms,
            ),
            MEMORY_WARNING_BYTES <= memory_bytes < MEMORY_CRITICAL_BYTES ==> check.reports(
                "memory"@,
                HealthStatus::Degraded,
                Some(
                    "Memory usage high: "@ + decimal((memory_bytes / 1024 / 1024) as nat) + " MB"@,
                ),
                duration_ms,
            ),
            memory_bytes < MEMORY_WARNING_BYTES ==> check.reports(
                "memory"@,
                HealthStatus::Healthy,
                None,
                duration_ms,
            ),
    {
        let megabytes = decimal_string(memory_bytes / 1024 / 1024);
        if memory_bytes >= self.memory_critical_threshold {
            let message = concat3("Memory usage critical: ", megabytes.as_str(), " MB");
            ComponentCheck::unhealthy("memory", message.as_str(), duration_ms)
        } else if memory_bytes >= self.memory_warning_threshold {
            let message = concat3("Memory usage high: ", megabytes.as_str(), " MB");
            ComponentCheck::degraded("memory", message.as_str(), duration_ms)
        } else {
            ComponentCheck::healthy("memory", duration_ms)
        }
    }

    /// Judges the daemon's processor use, given in tenths of a percent.
    pub fn check_cpu(&self, cpu_tenths: u32, duration_ms: u64) -> (check: ComponentCheck)
        requires
            self.wf(),
        ensures
            cpu_tenths >= CPU_CRITICAL_TENTHS ==> check.reports(
                "cpu"@,
                HealthStatus::Unhealthy,
                Some("CPU usage critical: "@ + tenths_text(cpu_tenths) + "%"@),
                duration_ms,
            ),
            CPU_WARNING_TENTHS <= cpu_tenths < CPU_CRITICAL_TENTHS ==> check.reports(
                "cpu"@,
                HealthStatus::Degraded,
                Some("CPU usage high: "@ + tenths_text(cpu_tenths) + "%"@),
                duration_ms,
            ),
            cpu_tenths < CPU_WARNING_TENTHS ==> check.reports(
                "cpu"@,
                HealthStatus::Healthy,
                None,
                duration_ms,
            ),
    {
        let whole = decimal_string((cpu_tenths / 10) as u64);
        let part = decimal_string((cpu_tenths % 10) as u64);
        let number = concat3(whole.as_str(), ".", part.as_str());
        if cpu_tenths >= self.cpu_critical_threshold {
            let message = concat3("CPU usage critical: ", number.as_str(), "%");
            ComponentCheck::unhealthy("cpu", message.as_str(), duration_ms)
        } else if cpu_tenths >= self.cpu_warning_threshold {
            let message = concat3("CPU usage high: ", number.as_str(), "%");
            ComponentCheck::degraded("cpu", message.as_str(), duration_ms)
        } else {
            ComponentCheck::healthy("cpu", duration_ms)
        }
    }

    /// Judges the control socket: `socket` says whether its file exists,
    /// or why its path could not be had.
    pub fn check_ipc(&self, socket: Result<bool, String>, duration_ms: u64) -> (check:
        ComponentCheck)
        ensures
            match socket {
                Ok(true) => check.reports("ipc"@, HealthStatus::Healthy, None, duration_ms),
                Ok(false) => check.reports(
                    "ipc"@,
                    HealthStatus::Unhealthy,
                    Some("IPC socket not found"@),
                    duration_ms,
                ),
                Err(why) => check.reports(
                    "ipc"@,
                    HealthStatus::Unhealthy,
                    Some("Failed to get IPC socket path: "@ + why@),
                    duration_ms,
                ),
            },
    {
        match socket {
            Ok(true) => ComponentCheck::healthy("ipc", duration_ms),
            Ok(false) => ComponentCheck::unhealthy("ipc", "IPC socket not found", duration_ms),
            Err(why) => {
                let message = concat("Failed to get IPC socket path: ", why.as_str());
                ComponentCheck::unhealthy("ipc", message.as_str(), duration_ms)
            },
        }
    }

    /// Judges the model: loaded or not.
    pub fn check_model(&self, model_loaded: bool, duration_ms: u64) -> (check: ComponentCheck)
        ensures
            model_loaded ==> check.reports("model"@, HealthStatus::Healthy, None, duration_ms),
            !model_loaded ==> check.reports(
                "model"@,
                HealthStatus::Degraded,
                Some("No model loaded"@),
                duration_ms,
            ),
    {
        if model_loaded {
            ComponentCheck::healthy("model", duration_ms)
        } else {
            ComponentCheck::degraded("model", "No model loaded", duration_ms)
        }
    }

    /// Judges the audio system: `devices` is the number of input devices
    /// found, or why they could not be listed.
    pub fn check_audio(&self, devices: Result<usize, String>, duration_ms: u64) -> (check:
        ComponentCheck)
        ensures
            match devices {
                Ok(n) => if n > 0 {
                    check.reports("audio"@, HealthStatus::Healthy, None, duration_ms)
                } else {
                    check.reports(
                        "audio"@,
                        HealthStatus::Unhealthy,
                        Some("No audio input devices found"@),
                        duration_ms,
                    )
                },
                Err(why) => check.reports(
                    "audio"@,
                    HealthStatus::Unhealthy,
                    Some("Failed to list audio devices: "@ + why@),
                    duration_ms,
                ),
            },
    {
        match devices {
            Ok(n) => {
                if n > 0 {
                    ComponentCheck::healthy("audio", duration_ms)
                } else {
                    ComponentCheck::unhealthy("audio", "No audio input devices found", duration_ms)
                }
            },
            Err(why) => {
                let message = concat("Failed to list audio devices: ", why.as_str());
                ComponentCheck::unhealthy("audio", message.as_str(), duration_ms)
            },
        }
    }

    /// Puts checks together into one result with the overall status.
    pub fn check(&self, checks: Vec<ComponentCheck>, timestamp: u64, duration_ms: u64) -> (result:
        HealthCheck)
        ensures
            result.checks == checks,
            result.timestamp == timestamp,
            result.duration_ms == duration_ms,
            result.status == overall_status(checks@),
    {
        let mut any_unhealthy = false;
        let mut any_degraded = false;
        let mut i: usize = 0;
        while i < checks.len()
            invariant
                i <= checks@.len(),
                any_unhealthy == (exists|k: int|
                    0 <= k < i && checks@[k].status == HealthStatus::Unhealthy),
                any_degraded == (exists|k: int|
                    0 <= k < i && checks@[k].status == HealthStatus::Degraded),
            decreases checks@.len() - i,
        {
            match checks[i].status {
                HealthStatus::Unhealthy => {
                    any_unhealthy = true;
                },
                HealthStatus::Degraded => {
                    any_degraded = true;
                },
                HealthStatus::Healthy => {},
            }
            i = i + 1;
        }
        let status = if any_unhealthy {
            HealthStatus::Unhealthy
        } else if any_degraded {
            HealthStatus::Degraded
        } else {
            HealthStatus::Healthy
        };
        HealthCheck { status, checks, timestamp, duration_ms }
    }
}

/// Keeps the latest health check.
pub struct HealthMonitor {
    checker: HealthChecker,
    check_interval_ms: u64,
    last_check: Option<HealthCheck>,
}

impl HealthMonitor {
    /// A monitor that checks every `check_interval_ms` milliseconds and has
    /// not checked yet.
    pub fn new(check_interval_ms: u64) -> (monitor: Self)
        ensures
            monitor.spec_interval_ms() == check_interval_ms,
            monitor.spec_last_check() is None,
    {
        HealthMonitor { checker: HealthChecker::new(), check_interval_ms, last_check: None }
    }

    pub closed spec fn spec_interval_ms(&self) -> u64 {
        self.check_interval_ms
    }

    pub closed spec fn spec_last_check(&self) -> Option<HealthCheck> {
        self.last_check
    }

    /// The time between checks, in milliseconds.
    pub fn check_interval_ms(&self) -> (ms: u64)
        ensures
            ms == self.spec_interval_ms(),
    {
        self.check_interval_ms
    }

    /// Records a check as the latest.
    pub fn record(&mut self, check: HealthCheck)
        ensures
            final(self).spec_last_check() == Some(check),
            final(self).spec_interval_ms() == old(self).spec_interval_ms(),
    {
        self.last_check = Some(check);
    }

    /// The latest check, if one was made.
    pub fn last_check(&self) -> (check: Option<&HealthCheck>)
        ensures
            match check {
                Some(c) => self.spec_last_check() == Some(*c),
                None => self.spec_last_check() is None,
            },
    {
        self.last_check.as_ref()
    }
}

} // verus!
