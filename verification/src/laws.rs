//! Properties of the library that span several operations.

use vstd::prelude::*;

use crate::commands::{
    command_applied, command_outcome, deterministic_parser, gcode_target, lemma_parses_first_unique,
    normalized_gcode, parses_first, CommandOutcome, GcodeTarget,
};
use crate::text::{
    ascii_upper_text, has_prefix, is_ascii_text, trim_end, trim_start, trimmed, white_space, words,
};
use crate::config::EmulatorConfig;
use crate::messages::{light_mode, Command, PrintCommand, PrintCommandData, PrintReport};
use crate::simulation::{
    fans_set, moved_to, next_stage, printing_progress, tick_applied, FanReadings, TickReadings,
};
use crate::state::ams::{has_unit, is_first_unit, AmsState, FilamentTray};
use crate::state::printer::{GcodeState, PrintJob, PrintStage, PrinterState};
use crate::state::temperature::{zero, Temperature};

verus! {

/// Toggling the chamber light twice gives back the state it started from.
pub proof fn toggle_light_twice(state: PrinterState)
    ensures
        state.with_light(!state.lights_on).with_light(
            !state.with_light(!state.lights_on).lights_on,
        ) == state,
{
}

/// A pause that succeeds is undone by a resume: the resume succeeds and the
/// printer is back in the state it was in before the pause.
pub proof fn resume_undoes_pause(state: PrinterState)
    requires
        state.can_pause(),
    ensures
        state.with_gcode_state(GcodeState::Pause).can_resume(),
        state.with_gcode_state(GcodeState::Pause).with_gcode_state(GcodeState::Running) == state,
{
}

/// A resume that succeeds is undone by a pause.
pub proof fn pause_undoes_resume(state: PrinterState)
    requires
        state.can_resume(),
    ensures
        state.with_gcode_state(GcodeState::Running).can_pause(),
        state.with_gcode_state(GcodeState::Running).with_gcode_state(GcodeState::Pause) == state,
{
}

/// After a stop there is nothing left to stop, pause or resume: the printer
/// is idle with both heaters off.
pub proof fn stop_leaves_nothing_to_control(state: PrinterState)
    ensures
        state.stopped().print_job is None,
        !state.stopped().can_pause(),
        !state.stopped().can_resume(),
        state.stopped().gcode_state == GcodeState::Idle,
        state.stopped().nozzle_target_temp == zero(),
        state.stopped().bed_target_temp == zero(),
{
}

/// Stopping a job that was just started leaves the printer as it was, except
/// that it is idle with both heaters off.
pub proof fn stop_after_start(state: PrinterState, job: PrintJob)
    ensures
        state.started(job).stopped() == state.stopped(),
        state.started(job).print_job is Some,
{
}

/// A finished job leaves the printer finished, with no job and the heaters off;
/// pause, resume and stop then have nothing to act on.
pub proof fn complete_leaves_nothing_to_control(state: PrinterState)
    ensures
        state.completed().gcode_state == GcodeState::Finish,
        state.completed().print_job is None,
        !state.completed().can_pause(),
        !state.completed().can_resume(),
        state.completed().nozzle_target_temp == zero(),
        state.completed().bed_target_temp == zero(),
{
}

/// Using filament twice is using it once by the sum: what is left never goes
/// below zero.
pub proof fn consume_composes(remaining: u8, first: u8, second: u8)
    ensures
        FilamentTray::remaining_after(FilamentTray::remaining_after(remaining, first), second)
            == if first + second <= remaining {
            (remaining - first - second) as u8
        } else {
            0u8
        },
        FilamentTray::remaining_after(remaining, first) <= remaining,
{
}

/// TLS moves the broker from the default port to the TLS port and leaves
/// any other port alone; switching it off never moves the port.
pub proof fn tls_port(port: u16)
    ensures
        EmulatorConfig::port_with_tls(1883, true) == 8883,
        port != 1883 ==> EmulatorConfig::port_with_tls(port, true) == port,
        EmulatorConfig::port_with_tls(port, false) == port,
{
}

/// The names of the G-code states tell them apart.
pub proof fn gcode_state_names_distinct(a: GcodeState, b: GcodeState)
    ensures
        a.name() == b.name() ==> a == b,
{
    reveal_strlit("IDLE");
    reveal_strlit("PREPARE");
    reveal_strlit("RUNNING");
    reveal_strlit("PAUSE");
    reveal_strlit("FINISH");
    reveal_strlit("FAILED");
    if a.name() == b.name() {
        assert(a.name().len() == b.name().len());
        assert(a.name()[0] == b.name()[0]);
        assert(a.name()[1] == b.name()[1]);
    }
}

/// A push request never changes the printer.
pub proof fn push_changes_nothing<F: Fn(&str) -> Option<Temperature>>(
    command: Command,
    old: PrinterState,
    new: PrinterState,
    parse: F,
)
    requires
        command is Pushing,
        command_applied(command, old, new, parse),
    ensures
        new == old,
{
}

/// No request changes the printer's identity, its AMS, its temperatures or
/// its fans: requests only act on the light, the job, the G-code state and
/// the heater targets.
pub proof fn commands_keep_identity<F: Fn(&str) -> Option<Temperature>>(
    command: Command,
    old: PrinterState,
    new: PrinterState,
    parse: F,
)
    requires
        command_applied(command, old, new, parse),
    ensures
        new.serial_number == old.serial_number,
        new.model == old.model,
        new.firmware_version == old.firmware_version,
        new.ams == old.ams,
        new.nozzle_temp == old.nozzle_temp,
        new.bed_temp == old.bed_temp,
        new.chamber_temp == old.chamber_temp,
        new.heatbreak_fan_speed == old.heatbreak_fan_speed,
        new.cooling_fan_speed == old.cooling_fan_speed,
        new.aux_fan_speed == old.aux_fan_speed,
        new.chamber_fan_speed == old.chamber_fan_speed,
        new.speed_level == old.speed_level,
        new.speed_magnitude == old.speed_magnitude,
{
}

/// Whether `a` and `b` are the same job started by one request, apart from
/// what is drawn afresh at each start: the task id and the start time.
pub open spec fn same_started_job(a: PrintJob, b: PrintJob) -> bool {
    &&& a.subtask_name@ == b.subtask_name@
    &&& a.gcode_file@ == b.gcode_file@
    &&& a.ams_mapping@ == b.ams_mapping@
    &&& a.plate_number == b.plate_number
    &&& a.mc_percent == b.mc_percent
    &&& a.layer_num == b.layer_num
    &&& a.total_layer_num == b.total_layer_num
    &&& a.mc_remaining_time == b.mc_remaining_time
    &&& a.estimated_total_time == b.estimated_total_time
    &&& a.current_stage == b.current_stage
    &&& a.bed_levelling == b.bed_levelling
    &&& a.use_ams == b.use_ams
}

/// `handle_command` and `process_command_pure` do the same to the printer:
/// two states that both are what `command` makes of `old` (as both functions
/// ensure) are equal, when the temperature parser reads a text by its
/// characters alone; of a `project_file` request only the fresh task id and
/// start time may differ. Of push and system requests, only `pushall` asks
/// for the state to be published.
pub proof fn handled_and_pure_agree<F: Fn(&str) -> Option<Temperature>>(
    command: Command,
    old: PrinterState,
    handled: PrinterState,
    pure: PrinterState,
    parse: F,
)
    requires
        deterministic_parser(parse),
        command_applied(command, old, handled, parse),
        command_applied(command, old, pure, parse),
    ensures
        !(command matches Command::Print(p) && p.print.command@ == "project_file"@) ==> handled
            == pure,
        command matches Command::Print(p) && p.print.command@ == "project_file"@ ==> {
            &&& handled.print_job is Some
            &&& pure.print_job is Some
            &&& same_started_job(handled.print_job->0, pure.print_job->0)
            &&& PrinterState { print_job: None, ..handled } == PrinterState {
                print_job: None,
                ..pure
            }
        },
        command matches Command::Pushing(p) ==> (command_outcome(command, old)
            == CommandOutcome::PublishReport <==> p.pushing.command@ == "pushall"@),
        command is System ==> command_outcome(command, old) != CommandOutcome::PublishReport,
{
    if let Command::Print(p) = command {
        let name = p.print.command@;
        if name != "project_file"@ && name != "pause"@ && name != "resume"@ && name != "stop"@
            && name == "gcode_line"@ {
            if let Some(line) = p.print.param {
                let gcode = normalized_gcode(line@);
                if gcode_target(gcode) != GcodeTarget::Ignored {
                    let r1 = choose|r: Option<Temperature>|
                        #[trigger] parses_first(parse, words(gcode), r) && handled == match r {
                            Some(t) => if gcode_target(gcode) == GcodeTarget::Nozzle {
                                old.with_nozzle_target(t)
                            } else {
                                old.with_bed_target(t)
                            },
                            None => old,
                        };
                    let r2 = choose|r: Option<Temperature>|
                        #[trigger] parses_first(parse, words(gcode), r) && pure == match r {
                            Some(t) => if gcode_target(gcode) == GcodeTarget::Nozzle {
                                old.with_nozzle_target(t)
                            } else {
                                old.with_bed_target(t)
                            },
                            None => old,
                        };
                    lemma_parses_first_unique(parse, words(gcode), r1, r2);
                }
            }
        }
    }
}

/// An ASCII G-code line with no white space around it is read as its ASCII
/// upper-case: `m104 ...` and `M104 ...` (and M109) address the nozzle,
/// `m140 ...` and `M140 ...` (and M190) the bed.
pub proof fn ascii_gcode_lines(line: Seq<char>)
    requires
        is_ascii_text(line),
        line.len() > 0,
        !white_space(line[0]),
        !white_space(line.last()),
    ensures
        normalized_gcode(line) == ascii_upper_text(line),
        (has_prefix(ascii_upper_text(line), "M104"@) || has_prefix(ascii_upper_text(line), "M109"@))
            ==> gcode_target(normalized_gcode(line)) == GcodeTarget::Nozzle,
        !(has_prefix(ascii_upper_text(line), "M104"@) || has_prefix(ascii_upper_text(line), "M109"@))
            && (has_prefix(ascii_upper_text(line), "M140"@) || has_prefix(
            ascii_upper_text(line),
            "M190"@,
        )) ==> gcode_target(normalized_gcode(line)) == GcodeTarget::Bed,
{
    assert(trim_start(line) == line);
    assert(trim_end(line) == line);
    assert(trimmed(line) == line);
}

/// A light command shows in the next report: `ledctrl` with mode "on" turns
/// the reported chamber light on, any other mode turns it off.
pub proof fn light_command_shows_in_report<F: Fn(&str) -> Option<Temperature>>(
    command: Command,
    old: PrinterState,
    new: PrinterState,
    parse: F,
    report: PrintReport,
)
    requires
        command matches Command::System(s) && s.system.command@ == "ledctrl"@
            && s.system.led_mode is Some,
        command_applied(command, old, new, parse),
        report.reports(new),
    ensures
        report.lights_report[0].mode@ == light_mode(
            command->System_0.system.led_mode->0@ == "on"@,
        ),
{
}

/// A tray that was written through `get_tray_mut` reads back as written, and
/// every other tray reads as before.
pub proof fn tray_read_after_write(
    old: AmsState,
    new: AmsState,
    unit_id: u8,
    tray_id: u8,
    tray: FilamentTray,
    other_unit: u8,
    other_tray: u8,
)
    requires
        old.tray(unit_id, tray_id) is Some,
        new.replaces_tray(old, unit_id, tray_id, tray),
    ensures
        new.tray(unit_id, tray_id) == Some(tray),
        other_unit != unit_id || other_tray != tray_id ==> new.tray(other_unit, other_tray)
            == old.tray(other_unit, other_tray),
{
    let i = choose|i: int|
        {
            &&& is_first_unit(old.units@, unit_id, i)
            &&& new.units.len() == old.units.len()
            &&& forall|j: int|
                0 <= j < old.units.len() && j != i ==> new.units[j] == old.units[j]
            &&& new.units[i].replaces_tray(old.units[i], tray_id as int, tray)
        };
    assert forall|j: int| 0 <= j < new.units.len() implies new.units[j].id == old.units[j].id by {
        if j != i {
            assert(new.units[j] == old.units[j]);
        }
    }
    assert forall|u: u8, k: int| is_first_unit(new.units@, u, k) <==> is_first_unit(old.units@, u, k) by {
        if is_first_unit(new.units@, u, k) {
            assert forall|j: int| 0 <= j < k implies old.units@[j].id != u by {
                assert(new.units@[j].id == old.units@[j].id);
            }
        }
        if is_first_unit(old.units@, u, k) {
            assert forall|j: int| 0 <= j < k implies new.units@[j].id != u by {
                assert(new.units@[j].id == old.units@[j].id);
            }
        }
    }
    assert forall|u: u8| has_unit(new.units@, u) <==> has_unit(old.units@, u) by {
        if has_unit(new.units@, u) {
            let k = choose|k: int| 0 <= k < new.units.len() && new.units@[k].id == u;
            assert(old.units@[k].id == u);
        }
        if has_unit(old.units@, u) {
            let k = choose|k: int| 0 <= k < old.units.len() && old.units@[k].id == u;
            assert(new.units@[k].id == u);
        }
    }
    crate::state::ams::lemma_first_unit_unique(old.units@, unit_id, i);
    crate::state::ams::lemma_first_unit_unique(new.units@, unit_id, i);
    if other_unit != unit_id || other_tray != tray_id {
        if has_unit(old.units@, other_unit) && other_tray < 4 {
            crate::state::ams::lemma_has_first_unit(old.units@, other_unit);
            let k = choose|k: int| is_first_unit(old.units@, other_unit, k);
            crate::state::ams::lemma_first_unit_unique(old.units@, other_unit, k);
            crate::state::ams::lemma_first_unit_unique(new.units@, other_unit, k);
            if k == i {
                assert(other_unit == unit_id);
                assert(new.units[i].trays@[other_tray as int] == old.units[i].trays@[other_tray as int]);
            } else {
                assert(new.units[k] == old.units[k]);
            }
        }
    }
}

/// A tick of the simulation keeps the print job the same job, never moves
/// it back to an earlier stage, and, for a job that is not past its last
/// layer, never moves its layer back nor past the last one.
pub proof fn tick_moves_forward<P: Fn(u32, u32) -> u8, R: Fn(u32) -> u32>(
    old: PrinterState,
    new: PrinterState,
    readings: TickReadings,
    percent_of: P,
    remaining_of: R,
)
    requires
        tick_applied(old, new, readings, percent_of, remaining_of),
        old.print_job is Some,
        new.print_job is Some,
    ensures
        new.print_job->0.same_job(old.print_job->0),
        old.print_job->0.current_stage.stage_number() <= new.print_job->0.current_stage.stage_number(),
        old.print_job->0.layer_num <= old.print_job->0.total_layer_num ==> {
            &&& old.print_job->0.layer_num <= new.print_job->0.layer_num
            &&& new.print_job->0.layer_num <= new.print_job->0.total_layer_num
        },
{
    let job = old.print_job->0;
    if job.current_stage == PrintStage::Printing && old.gcode_state
        == GcodeState::Running {
        let (progressed, ams) = choose|progressed: PrintJob, ams: AmsState|
            {
                &&& #[trigger] printing_progress(
                    job,
                    old.ams,
                    readings,
                    progressed,
                    ams,
                    percent_of,
                    remaining_of,
                )
                &&& if progressed.layer_num >= progressed.total_layer_num {
                    moved_to(
                        PrinterState {
                            print_job: Some(progressed),
                            ams,
                            nozzle_target_temp: zero(),
                            bed_target_temp: zero(),
                            ..old
                        },
                        new,
                        PrintStage::Cooling,
                    )
                } else {
                    new == PrinterState { print_job: Some(progressed), ams, ..old }
                }
            };
        assert(progressed.same_job(job));
    }
}

/// A tick moves a job at most one stage on, in the order heating, bed
/// levelling (when the job asks for it), purging, printing, cooling,
/// complete; a complete job is cleared. The job keeps its task, name, file
/// and layer count.
pub proof fn tick_stage_order<P: Fn(u32, u32) -> u8, R: Fn(u32) -> u32>(
    old: PrinterState,
    new: PrinterState,
    readings: TickReadings,
    percent_of: P,
    remaining_of: R,
)
    requires
        tick_applied(old, new, readings, percent_of, remaining_of),
        old.print_job is Some,
    ensures
        old.print_job->0.current_stage == PrintStage::Complete ==> new.print_job is None,
        old.print_job->0.current_stage != PrintStage::Complete ==> {
            &&& new.print_job is Some
            &&& new.print_job->0.current_stage == old.print_job->0.current_stage
                || new.print_job->0.current_stage == next_stage(old.print_job->0)
            &&& new.print_job->0.same_job(old.print_job->0)
        },
{
    let job = old.print_job->0;
    if job.current_stage == PrintStage::Printing && old.gcode_state == GcodeState::Running {
        let (progressed, ams) = choose|progressed: PrintJob, ams: AmsState|
            {
                &&& #[trigger] printing_progress(
                    job,
                    old.ams,
                    readings,
                    progressed,
                    ams,
                    percent_of,
                    remaining_of,
                )
                &&& if progressed.layer_num >= progressed.total_layer_num {
                    moved_to(
                        PrinterState {
                            print_job: Some(progressed),
                            ams,
                            nozzle_target_temp: zero(),
                            bed_target_temp: zero(),
                            ..old
                        },
                        new,
                        PrintStage::Cooling,
                    )
                } else {
                    new == PrinterState { print_job: Some(progressed), ams, ..old }
                }
            };
        assert(progressed.same_job(job));
        assert(progressed.current_stage == job.current_stage);
    }
}

/// What one tick does to a job in each stage, as the stage machine of the
/// simulation goes: heating ends (into bed levelling when the job asks for
/// it, purging otherwise, and the printer starts running) once the targets
/// are reached; bed levelling and purging end when their time is up; cooling
/// ends when its time is up or nozzle and bed have cooled down, whichever
/// comes first; a complete job is cleared and the printer is finished. A stage
/// that does not end leaves the printer as it was.
pub proof fn tick_stage_transitions<P: Fn(u32, u32) -> u8, R: Fn(u32) -> u32>(
    old: PrinterState,
    new: PrinterState,
    readings: TickReadings,
    percent_of: P,
    remaining_of: R,
)
    requires
        tick_applied(old, new, readings, percent_of, remaining_of),
        old.print_job is Some,
    ensures
        old.print_job->0.current_stage is Heating ==> if readings.heating_targets_reached {
            &&& new.print_job is Some
            &&& new.print_job->0.current_stage == if old.print_job->0.bed_levelling {
                PrintStage::BedLeveling
            } else {
                PrintStage::Purging
            }
            &&& new.gcode_state == GcodeState::Running
        } else {
            new == old
        },
        old.print_job->0.current_stage == PrintStage::BedLeveling ==> if readings.bed_leveling_elapsed {
            new.print_job is Some && new.print_job->0.current_stage == PrintStage::Purging
        } else {
            new == old
        },
        old.print_job->0.current_stage == PrintStage::Purging ==> if readings.purging_elapsed {
            new.print_job is Some && new.print_job->0.current_stage == PrintStage::Printing
        } else {
            new == old
        },
        old.print_job->0.current_stage == PrintStage::Cooling ==> if readings.cooling_elapsed
            || readings.cooled_down {
            new.print_job is Some && new.print_job->0.current_stage == PrintStage::Complete
        } else {
            new == old
        },
        old.print_job->0.current_stage == PrintStage::Cooling && readings.cooling_elapsed
            ==> new.print_job is Some && new.print_job->0.current_stage == PrintStage::Complete,
        old.print_job->0.current_stage == PrintStage::Complete ==> {
            &&& new.print_job is None
            &&& new.gcode_state == GcodeState::Finish
            &&& new.nozzle_target_temp == zero()
            &&& new.bed_target_temp == zero()
        },
        old.print_job->0.current_stage != PrintStage::Printing ==> new.ams == old.ams,
{
}

/// A tick never touches the AMS of a printer without a job, nor of one whose
/// job does not feed from the AMS.
pub proof fn tick_uses_ams_only_for_ams_jobs<P: Fn(u32, u32) -> u8, R: Fn(u32) -> u32>(
    old: PrinterState,
    new: PrinterState,
    readings: TickReadings,
    percent_of: P,
    remaining_of: R,
)
    requires
        tick_applied(old, new, readings, percent_of, remaining_of),
        old.print_job is None || !old.print_job->0.use_ams,
    ensures
        new.ams == old.ams,
{
    if old.print_job is Some {
        let job = old.print_job->0;
        if job.current_stage == PrintStage::Printing && old.gcode_state == GcodeState::Running {
            let (progressed, ams) = choose|progressed: PrintJob, ams: AmsState|
                {
                    &&& #[trigger] printing_progress(
                        job,
                        old.ams,
                        readings,
                        progressed,
                        ams,
                        percent_of,
                        remaining_of,
                    )
                    &&& if progressed.layer_num >= progressed.total_layer_num {
                        moved_to(
                            PrinterState {
                                print_job: Some(progressed),
                                ams,
                                nozzle_target_temp: zero(),
                                bed_target_temp: zero(),
                                ..old
                            },
                            new,
                            PrintStage::Cooling,
                        )
                    } else {
                        new == PrinterState { print_job: Some(progressed), ams, ..old }
                    }
                };
            assert(ams == old.ams);
        }
    }
}

/// A printing tick of a job that feeds from the AMS takes the filament it
/// used (at least one percent) from the first mapped tray of unit 0, never
/// going below zero, and leaves the rest of that tray as it was.
pub proof fn tick_takes_filament<P: Fn(u32, u32) -> u8, R: Fn(u32) -> u32>(
    old: PrinterState,
    new: PrinterState,
    readings: TickReadings,
    percent_of: P,
    remaining_of: R,
    tray: FilamentTray,
)
    requires
        tick_applied(old, new, readings, percent_of, remaining_of),
        old.print_job is Some,
        old.print_job->0.current_stage == PrintStage::Printing,
        old.gcode_state == GcodeState::Running,
        old.print_job->0.use_ams,
        old.print_job->0.ams_mapping.len() > 0,
        old.print_job->0.total_layer_num > 0,
        readings.layers_to_advance > 0,
        old.ams.tray(0, old.print_job->0.ams_mapping[0]) == Some(tray),
    ensures
        ({
            let used: int = if readings.consume_percent >= 1 {
                readings.consume_percent as int
            } else {
                1
            };
            &&& new.ams.tray(0, old.print_job->0.ams_mapping[0]) is Some
            &&& new.ams.tray(0, old.print_job->0.ams_mapping[0])->0.remaining_percent == if tray.remaining_percent >= used {
                tray.remaining_percent - used
            } else {
                0
            }
            &&& new.ams.tray(0, old.print_job->0.ams_mapping[0])->0.filament_type
                == tray.filament_type
            &&& new.ams.tray(0, old.print_job->0.ams_mapping[0])->0.present == tray.present
        }),
{
    let job = old.print_job->0;
    let (progressed, ams) = choose|progressed: PrintJob, ams: AmsState|
        {
            &&& #[trigger] printing_progress(
                job,
                old.ams,
                readings,
                progressed,
                ams,
                percent_of,
                remaining_of,
            )
            &&& if progressed.layer_num >= progressed.total_layer_num {
                moved_to(
                    PrinterState {
                        print_job: Some(progressed),
                        ams,
                        nozzle_target_temp: zero(),
                        bed_target_temp: zero(),
                        ..old
                    },
                    new,
                    PrintStage::Cooling,
                )
            } else {
                new == PrinterState { print_job: Some(progressed), ams, ..old }
            }
        };
    let m0 = job.ams_mapping[0];
    let consumed = crate::simulation::consumed_tray(tray, crate::simulation::used_percent(readings));
    tray_read_after_write(old.ams, ams, 0, m0, consumed, 0, m0);
    assert(new.ams == ams);
}

/// The fans follow the readings and the G-code state: the heatbreak fan runs
/// at 7 exactly while the nozzle is hot, the part cooling fan at 15 exactly
/// while the printer is running (not while paused, preparing or idle), the
/// auxiliary fan at 10 exactly while nozzle or bed run hot, and the chamber
/// fan at 5 exactly while the chamber is warm; nothing else changes.
pub proof fn fans_follow_readings(state: PrinterState, readings: FanReadings)
    ensures
        fans_set(state, readings).heatbreak_fan_speed == if readings.nozzle_hot {
            7u8
        } else {
            0u8
        },
        fans_set(state, readings).cooling_fan_speed == if state.gcode_state
            == GcodeState::Running {
            15u8
        } else {
            0u8
        },
        state.gcode_state != GcodeState::Running ==> fans_set(state, readings).cooling_fan_speed
            == 0,
        fans_set(state, readings).aux_fan_speed == if readings.heaters_hot {
            10u8
        } else {
            0u8
        },
        fans_set(state, readings).chamber_fan_speed == if readings.chamber_warm {
            5u8
        } else {
            0u8
        },
        (PrinterState {
            heatbreak_fan_speed: state.heatbreak_fan_speed,
            cooling_fan_speed: state.cooling_fan_speed,
            aux_fan_speed: state.aux_fan_speed,
            chamber_fan_speed: state.chamber_fan_speed,
            ..fans_set(state, readings)
        }) == state,
{
}

/// A `project_file` request starts a job built from the request: its file is
/// the request's `param` (or "/cache/print.gcode" without one), its name the
/// request's name (or "print"), bed levelling, AMS use and mapping as asked
/// (or on, off and tray 0); it heats to 210 °C and 55 °C, and the printer
/// prepares.
pub proof fn project_file_starts_requested_job<F: Fn(&str) -> Option<Temperature>>(
    data: PrintCommandData,
    old: PrinterState,
    new: PrinterState,
    parse: F,
)
    requires
        data.command@ == "project_file"@,
        command_applied(Command::Print(PrintCommand { print: data }), old, new, parse),
    ensures
        new.print_job is Some,
        data.param matches Some(p) ==> new.print_job->0.gcode_file@ == p@,
        data.param is None ==> new.print_job->0.gcode_file@ == "/cache/print.gcode"@,
        data.subtask_name matches Some(n) ==> new.print_job->0.subtask_name@ == n@,
        data.subtask_name is None ==> new.print_job->0.subtask_name@ == "print"@,
        data.bed_levelling matches Some(b) ==> new.print_job->0.bed_levelling == b,
        data.bed_levelling is None ==> new.print_job->0.bed_levelling,
        data.use_ams matches Some(b) ==> new.print_job->0.use_ams == b,
        data.use_ams is None ==> !new.print_job->0.use_ams,
        data.ams_mapping matches Some(m) ==> new.print_job->0.ams_mapping@ == m@,
        data.ams_mapping is None ==> new.print_job->0.ams_mapping@ == seq![0u8],
        new.print_job->0.layer_num == 0,
        new.print_job->0.total_layer_num == 100,
        new.gcode_state == GcodeState::Prepare,
        new.nozzle_target_temp.bits == 0x4352_0000,
        new.bed_target_temp.bits == 0x425C_0000,
        new.print_job->0.current_stage == (PrintStage::Heating {
            target_nozzle: Temperature { bits: 0x4352_0000 },
            target_bed: Temperature { bits: 0x425C_0000 },
        }),
{
}

/// The report carries each temperature of the state in its own field: the
/// nozzle's current and target, the bed's current and target, the chamber's;
/// and the state's G-code state by name, its light and its SD card.
pub proof fn report_carries_state(report: PrintReport, state: PrinterState)
    requires
        report.reports(state),
    ensures
        report.nozzle_temper == state.nozzle_temp,
        report.nozzle_target_temper == state.nozzle_target_temp,
        report.bed_temper == state.bed_temp,
        report.bed_target_temper == state.bed_target_temp,
        report.chamber_temper == state.chamber_temp,
        report.gcode_state@ == state.gcode_state.name(),
        report.lights_report.len() == 1,
        report.lights_report[0].mode@ == if state.lights_on {
            "on"@
        } else {
            "off"@
        },
        report.sdcard == state.sd_card_present,
        report.spd_mag == state.speed_magnitude,
        state.print_job is Some ==> report.stg_cur == Some(
            state.print_job->0.current_stage.stage_number(),
        ) && report.layer_num == Some(state.print_job->0.layer_num),
        state.print_job is None ==> report.stg_cur is None && report.mc_percent is None,
{
}

} // verus!
