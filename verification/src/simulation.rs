//! The decisions of the print simulation: when a job moves from one stage to
//! the next, how printing progresses, and when the printer comes to rest.
//!
//! The simulation's physics (heating and cooling curves, elapsed time scaled
//! by the time multiplier, layers per second) works in floating point and is
//! measured outside this library; each tick it hands over its readings, and
//! the functions here apply them to the state.

use vstd::prelude::*;

use crate::state::ams::{AmsState, FilamentTray};
use crate::state::printer::{GcodeState, PrintJob, PrintStage, PrinterState};
use crate::state::temperature::{zero, Temperature};

verus! {

/// What the physics of the simulation measured at one tick, after updating
/// temperatures and fans.
#[derive(Clone, Copy, Debug)]
pub struct TickReadings {
    /// Nozzle and bed are both within tolerance of the heating stage's targets.
    pub heating_targets_reached: bool,
    /// The time spent in the current stage, scaled by the time multiplier,
    /// has reached the duration of bed levelling.
    pub bed_leveling_elapsed: bool,
    /// ... has reached the duration of purging.
    pub purging_elapsed: bool,
    /// ... has reached the duration of cooling.
    pub cooling_elapsed: bool,
    /// Nozzle below 50 °C and bed below 40 °C.
    pub cooled_down: bool,
    /// Layers printed during this tick: the scaled time over the time per
    /// layer, truncated; 0 when the time per layer is not positive.
    pub layers_to_advance: u32,
    /// Filament used by those layers, in percent of a spool, truncated.
    pub consume_percent: u8,
    /// Nozzle and bed are back within tolerance of the ambient temperature.
    pub near_ambient: bool,
}

/// The stage that follows heating: bed levelling when the job asks for it,
/// purging otherwise.
pub open spec fn after_heating(job: PrintJob) -> PrintStage {
    if job.bed_levelling {
        PrintStage::BedLeveling
    } else {
        PrintStage::Purging
    }
}

/// The stage that follows the current stage of `job`: heating, then bed
/// levelling (when the job asks for it), purging, printing, cooling, complete.
pub open spec fn next_stage(job: PrintJob) -> PrintStage {
    match job.current_stage {
        PrintStage::Heating { .. } => after_heating(job),
        PrintStage::BedLeveling => PrintStage::Purging,
        PrintStage::Purging => PrintStage::Printing,
        PrintStage::Printing => PrintStage::Cooling,
        PrintStage::Cooling => PrintStage::Complete,
        PrintStage::Complete => PrintStage::Complete,
    }
}

/// Whether `new` is `old` with its job moved to stage `next` (started at some
/// time) and nothing else changed.
pub open spec fn moved_to(old: PrinterState, new: PrinterState, next: PrintStage) -> bool {
    &&& old.print_job is Some
    &&& new.print_job is Some
    &&& new.print_job->0.stage_started_at >= 0
    &&& new == PrinterState {
        print_job: Some(
            PrintJob {
                current_stage: next,
                stage_started_at: new.print_job->0.stage_started_at,
                ..old.print_job->0
            },
        ),
        ..old
    }
}

/// Whether printing advances at this tick: the job has layers and some were printed.
pub open spec fn advances(job: PrintJob, readings: TickReadings) -> bool {
    job.total_layer_num > 0 && readings.layers_to_advance > 0
}

/// The layer reached after `readings`: never past the last one.
pub open spec fn layer_after(job: PrintJob, readings: TickReadings) -> u32 {
    if job.layer_num + readings.layers_to_advance <= job.total_layer_num {
        (job.layer_num + readings.layers_to_advance) as u32
    } else {
        job.total_layer_num
    }
}

/// Filament used at a tick that printed layers: at least one percent.
pub open spec fn used_percent(readings: TickReadings) -> u8 {
    if readings.consume_percent >= 1 {
        readings.consume_percent
    } else {
        1
    }
}

/// The tray after `percent` of its filament was used.
pub open spec fn consumed_tray(tray: FilamentTray, percent: u8) -> FilamentTray {
    FilamentTray {
        remaining_percent: FilamentTray::remaining_after(tray.remaining_percent, percent),
        ..tray
    }
}

/// Whether `new` is `old` after a job that feeds from the AMS used `percent`
/// of its first mapped tray (of unit 0): only that tray changes, and only if
/// it exists.
pub open spec fn ams_after_use(old: AmsState, new: AmsState, job: PrintJob, percent: u8) -> bool {
    if job.use_ams && job.ams_mapping.len() > 0 {
        match old.tray(0, job.ams_mapping[0]) {
            Some(tray) => new.replaces_tray(old, 0, job.ams_mapping[0], consumed_tray(tray, percent)),
            None => new == old,
        }
    } else {
        new == old
    }
}

/// Whether `new_job` and `new_ams` are what one tick of printing makes of
/// `job` and `ams`: the layer advances by what was printed, the percentage and
/// the remaining time follow (`percent_of` and `remaining_of` are the
/// floating-point formulas), and the filament used comes off the AMS.
pub open spec fn printing_progress<P: Fn(u32, u32) -> u8, R: Fn(u32) -> u32>(
    job: PrintJob,
    ams: AmsState,
    readings: TickReadings,
    new_job: PrintJob,
    new_ams: AmsState,
    percent_of: P,
    remaining_of: R,
) -> bool {
    if advances(job, readings) {
        &&& new_job == PrintJob {
            layer_num: layer_after(job, readings),
            mc_percent: new_job.mc_percent,
            mc_remaining_time: new_job.mc_remaining_time,
            ..job
        }
        &&& percent_of.ensures((new_job.layer_num, job.total_layer_num), new_job.mc_percent)
        &&& remaining_of.ensures(
            ((job.total_layer_num - new_job.layer_num) as u32,),
            new_job.mc_remaining_time,
        )
        &&& ams_after_use(ams, new_ams, job, used_percent(readings))
    } else {
        new_job == job && new_ams == ams
    }
}

/// Whether a printer without a job is at rest: both heaters off and nozzle
/// and bed back near the ambient temperature.
pub open spec fn at_rest(state: PrinterState, readings: TickReadings) -> bool {
    &&& state.nozzle_target_temp.is_zero_celsius()
    &&& state.bed_target_temp.is_zero_celsius()
    &&& readings.near_ambient
}

/// Whether `new` is what one tick of the simulation makes of `old`, given the
/// tick's `readings`.
pub open spec fn tick_applied<P: Fn(u32, u32) -> u8, R: Fn(u32) -> u32>(
    old: PrinterState,
    new: PrinterState,
    readings: TickReadings,
    percent_of: P,
    remaining_of: R,
) -> bool {
    match old.print_job {
        None => new == if at_rest(old, readings) && old.gcode_state == GcodeState::Finish {
            old.with_gcode_state(GcodeState::Idle)
        } else {
            old
        },
        Some(job) => match job.current_stage {
            PrintStage::Heating { .. } => if readings.heating_targets_reached {
                moved_to(old.with_gcode_state(GcodeState::Running), new, after_heating(job))
            } else {
                new == old
            },
            PrintStage::BedLeveling => if readings.bed_leveling_elapsed {
                moved_to(old, new, PrintStage::Purging)
            } else {
                new == old
            },
            PrintStage::Purging => if readings.purging_elapsed {
                moved_to(old, new, PrintStage::Printing)
            } else {
                new == old
            },
            PrintStage::Printing => if old.gcode_state == GcodeState::Running {
                &&& new.print_job is Some
                &&& exists|progressed: PrintJob, ams: AmsState|
                    {
                        &&& #[trigger] printing_progress(
                            job,
                            old.ams,
                            readings,
                            progressed,
                            ams,
                            percent_of,
                            remaining_of,
                        )
                        &&& if progressed.layer_num >= progressed.total_layer_num {
                            moved_to(
                                PrinterState {
                                    print_job: Some(progressed),
                                    ams,
                                    nozzle_target_temp: zero(),
                                    bed_target_temp: zero(),
                                    ..old
                                },
                                new,
                                PrintStage::Cooling,
                            )
                        } else {
                            new == PrinterState { print_job: Some(progressed), ams, ..old }
                        }
                    }
            } else {
                new == old
            },
            PrintStage::Cooling => if readings.cooling_elapsed || readings.cooled_down {
                moved_to(old, new, PrintStage::Complete)
            } else {
                new == old
            },
            PrintStage::Complete => new == old.completed(),
        },
    }
}

/// Whether the tick would push the layer count past what a `u32` holds.
pub open spec fn layer_overflows(state: PrinterState, readings: TickReadings) -> bool {
    match state.print_job {
        Some(job) => {
            &&& job.current_stage == PrintStage::Printing
            &&& state.gcode_state == GcodeState::Running
            &&& advances(job, readings)
            &&& job.layer_num + readings.layers_to_advance > u32::MAX
        },
        None => false,
    }
}

/// One tick of printing: advance the layer, the percentage and the remaining
/// time, and take the filament used from the AMS.
fn advance_printing<P: Fn(u32, u32) -> u8, R: Fn(u32) -> u32>(
    job: &mut PrintJob,
    ams: &mut AmsState,
    readings: &TickReadings,
    percent_of: &P,
    remaining_of: &R,
)
    requires
        forall|l: u32, t: u32| percent_of.requires((l, t)),
        forall|r: u32| remaining_of.requires((r,)),
        advances(*old(job), *readings) ==> old(job).layer_num + readings.layers_to_advance
            <= u32::MAX,
    ensures
        printing_progress(
            *old(job),
            *old(ams),
            *readings,
            *final(job),
            *final(ams),
            *percent_of,
            *remaining_of,
        ),
{
    if job.total_layer_num > 0 && readings.layers_to_advance > 0 {
        let reached = job.layer_num + readings.layers_to_advance;
        let new_layer = if reached <= job.total_layer_num {
            reached
        } else {
            job.total_layer_num
        };
        job.update_progress(new_layer, percent_of);
        let remaining_layers = job.total_layer_num - job.layer_num;
        job.mc_remaining_time = remaining_of(remaining_layers);
        if job.use_ams && job.ams_mapping.len() > 0 {
            let tray_id = job.ams_mapping[0];
            let percent = if readings.consume_percent >= 1 {
                readings.consume_percent
            } else {
                1
            };
            match ams.get_tray_mut(0, tray_id) {
                Some(tray) => tray.consume(percent),
                None => {},
            }
        }
    }
}

/// Apply one tick of the simulation to the state: move the print job through
/// its stages (heating, bed levelling, purging, printing, cooling,
/// complete) as the readings allow, and return a finished printer to idle
/// once both heaters are off and it has cooled down. `percent_of` and `remaining_of` are the
/// floating-point progress and remaining-time formulas.
pub fn simulation_step<P: Fn(u32, u32) -> u8, R: Fn(u32) -> u32>(
    state: &mut PrinterState,
    readings: &TickReadings,
    percent_of: &P,
    remaining_of: &R,
)
    requires
        forall|l: u32, t: u32| percent_of.requires((l, t)),
        forall|r: u32| remaining_of.requires((r,)),
        !layer_overflows(*old(state), *readings),
    ensures
        tick_applied(*old(state), *final(state), *readings, *percent_of, *remaining_of),
        old(state).print_job is Some && old(state).print_job->0.current_stage
            == PrintStage::Cooling && readings.cooling_elapsed ==> final(state).print_job is Some
            && final(state).print_job->0.current_stage == PrintStage::Complete,
        old(state).print_job is None || !old(state).print_job->0.use_ams ==> final(state).ams
            == old(state).ams,
{
    let ghost old_state = *state;
    match state.print_job.take() {
        None => {
            if state.nozzle_target_temp.is_zero() && state.bed_target_temp.is_zero()
                && readings.near_ambient && state.gcode_state == GcodeState::Finish {
                state.gcode_state = GcodeState::Idle;
            }
        },
        Some(mut job) => {
            match job.current_stage {
                PrintStage::Heating { .. } => {
                    if readings.heating_targets_reached {
                        let next = if job.bed_levelling {
                            PrintStage::BedLeveling
                        } else {
                            PrintStage::Purging
                        };
                        job.advance_stage(next);
                        state.gcode_state = GcodeState::Running;
                    }
                    state.print_job = Some(job);
                },
                PrintStage::BedLeveling => {
                    if readings.bed_leveling_elapsed {
                        job.advance_stage(PrintStage::Purging);
                    }
                    state.print_job = Some(job);
                },
                PrintStage::Purging => {
                    if readings.purging_elapsed {
                        job.advance_stage(PrintStage::Printing);
                    }
                    state.print_job = Some(job);
                },
                PrintStage::Printing => {
                    if state.gcode_state == GcodeState::Running {
                        advance_printing(&mut job, &mut state.ams, readings, percent_of, remaining_of);
                        let ghost progressed = job;
                        let ghost ams = state.ams;
                        if job.layer_num >= job.total_layer_num {
                            state.nozzle_target_temp = Temperature::zero();
                            state.bed_target_temp = Temperature::zero();
                            job.advance_stage(PrintStage::Cooling);
                        }
                        state.print_job = Some(job);
                        assert(printing_progress(
                            old_state.print_job->0,
                            old_state.ams,
                            *readings,
                            progressed,
                            ams,
                            *percent_of,
                            *remaining_of,
                        ));
                    } else {
                        state.print_job = Some(job);
                    }
                },
                PrintStage::Cooling => {
                    if readings.cooling_elapsed || readings.cooled_down {
                        job.advance_stage(PrintStage::Complete);
                    }
                    state.print_job = Some(job);
                },
                PrintStage::Complete => {
                    state.print_job = Some(job);
                    state.complete_print();
                },
            }
        },
    }
}

/// Heatbreak fan speed while the nozzle is hot.
pub const HEATBREAK_FAN_SPEED: u8 = 7;

/// Part cooling fan speed while printing: full speed.
pub const COOLING_FAN_SPEED: u8 = 15;

/// Auxiliary fan speed while nozzle or bed run hot.
pub const AUX_FAN_SPEED: u8 = 10;

/// Chamber fan speed while the chamber is warm.
pub const CHAMBER_FAN_SPEED: u8 = 5;

/// The temperature thresholds that the fans react to, as the physics of the
/// simulation measured them.
#[derive(Clone, Copy, Debug)]
pub struct FanReadings {
    /// Nozzle above 50 °C.
    pub nozzle_hot: bool,
    /// Nozzle above 200 °C or bed above 80 °C.
    pub heaters_hot: bool,
    /// Chamber above 40 °C.
    pub chamber_warm: bool,
}

/// The state with its fans set for the readings: the heatbreak fan runs
/// while the nozzle is hot, the cooling fan at full speed while printing,
/// the auxiliary fan while nozzle or bed run hot, the chamber fan while the
/// chamber is warm.
pub open spec fn fans_set(state: PrinterState, readings: FanReadings) -> PrinterState {
    PrinterState {
        heatbreak_fan_speed: if readings.nozzle_hot {
            HEATBREAK_FAN_SPEED
        } else {
            0
        },
        cooling_fan_speed: if state.gcode_state == GcodeState::Running {
            COOLING_FAN_SPEED
        } else {
            0
        },
        aux_fan_speed: if readings.heaters_hot {
            AUX_FAN_SPEED
        } else {
            0
        },
        chamber_fan_speed: if readings.chamber_warm {
            CHAMBER_FAN_SPEED
        } else {
            0
        },
        ..state
    }
}

/// Update fan speeds based on printer state.
pub fn update_fans(state: &mut PrinterState, readings: &FanReadings)
    ensures
        *final(state) == fans_set(*old(state), *readings),
        final(state).heatbreak_fan_speed == if readings.nozzle_hot { 7u8 } else { 0u8 },
        final(state).cooling_fan_speed == if old(state).gcode_state == GcodeState::Running {
            15u8
        } else {
            0u8
        },
        final(state).aux_fan_speed == if readings.heaters_hot { 10u8 } else { 0u8 },
        final(state).chamber_fan_speed == if readings.chamber_warm { 5u8 } else { 0u8 },
        final(state).gcode_state == old(state).gcode_state,
{
    state.heatbreak_fan_speed = if readings.nozzle_hot {
        HEATBREAK_FAN_SPEED
    } else {
        0
    };
    state.cooling_fan_speed = if state.gcode_state == GcodeState::Running {
        COOLING_FAN_SPEED
    } else {
        0
    };
    state.aux_fan_speed = if readings.heaters_hot {
        AUX_FAN_SPEED
    } else {
        0
    };
    state.chamber_fan_speed = if readings.chamber_warm {
        CHAMBER_FAN_SPEED
    } else {
        0
    };
}

} // verus!
