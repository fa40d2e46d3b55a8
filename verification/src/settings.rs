//! Per-tick simulation settings supplied by the host.

use vstd::prelude::*;

verus! {

/// Default number of fall/rise/slide iterations per tick.
pub const INIT_MOVEMENT_STEPS: u32 = 3;

/// Default number of lateral-dispersion iterations per dispersion phase.
pub const INIT_DISPERSION_STEPS: u32 = 10;

/// Dispersion iterations used on hosts without a discrete GPU or with
/// little device memory.
pub const REDUCED_DISPERSION_STEPS: u32 = 4;

/// Settings the host hands the engine each tick; read-only to the core.
#[derive(Debug, Clone, Copy, PartialEq, Eq, Structural)]
pub struct AppSettings {
    pub is_paused: bool,
    pub movement_steps: u32,
    pub dispersion_steps: u32,
    pub print_performance: bool,
}

impl AppSettings {
    /// The default settings: running, full movement and dispersion counts,
    /// no performance reporting.
    pub fn new() -> (r: AppSettings)
        ensures
            r.is_paused == false,
            r.movement_steps == INIT_MOVEMENT_STEPS,
            r.dispersion_steps == INIT_DISPERSION_STEPS,
            r.print_performance == false,
    {
        AppSettings {
            movement_steps: INIT_MOVEMENT_STEPS,
            is_paused: false,
            dispersion_steps: INIT_DISPERSION_STEPS,
            print_performance: false,
        }
    }

    /// Scales the default workload down on weak devices: hosts report
    /// whether the device is a discrete GPU and how much device memory it
    /// has, in megabytes.
    pub fn update_based_on_device_info_and_env(&mut self, is_discrete_gpu: bool, max_mem_mb: u32)
        ensures
            final(self).is_paused == old(self).is_paused,
            final(self).print_performance == old(self).print_performance,
            !is_discrete_gpu ==> final(self).dispersion_steps == REDUCED_DISPERSION_STEPS
                && final(self).movement_steps == 1,
            is_discrete_gpu && max_mem_mb < 2048 ==> final(self).dispersion_steps
                == REDUCED_DISPERSION_STEPS && final(self).movement_steps == 2,
            is_discrete_gpu && max_mem_mb >= 2048 ==> final(self).dispersion_steps
                == old(self).dispersion_steps && final(self).movement_steps
                == old(self).movement_steps,
    {
        if !is_discrete_gpu {
            self.dispersion_steps = REDUCED_DISPERSION_STEPS;
            self.movement_steps = 1;
        } else if max_mem_mb < 2048 {
            self.dispersion_steps = REDUCED_DISPERSION_STEPS;
            self.movement_steps = 2;
        } else if max_mem_mb < 1024 {
            self.dispersion_steps = 3;
            self.movement_steps = 1;
        }
    }
}

impl Default for AppSettings {
    fn default() -> (r: AppSettings)
        ensures
            r.is_paused == false,
            r.movement_steps == INIT_MOVEMENT_STEPS,
            r.dispersion_steps == INIT_DISPERSION_STEPS,
            r.print_performance == false,
    {
        AppSettings::new()
    }
}

} // verus!
