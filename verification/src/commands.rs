//! How requests change the printer: light control, status push, print job
//! control and G-code temperature commands.

use vstd::prelude::*;

use crate::clock::{hyphenated_uuid, new_task_id};
use crate::messages::{Command, PrintCommandData};
use crate::state::printer::{PrintJob, PrintStage, PrinterState};
use crate::state::temperature::{Temperature, DEFAULT_BED_BITS, DEFAULT_NOZZLE_BITS};
use crate::text::{
    ascii_upper_text, has_prefix, is_ascii_text, split_whitespace, starts_with, str_eq,
    to_uppercase, trim, trimmed, uppercase, words,
};

verus! {

/// Plate number of a job started by a request.
pub const JOB_PLATE: u8 = 1;

/// Layer count of a job started by a request.
pub const JOB_LAYERS: u32 = 100;

/// Estimated duration of a job started by a request, in minutes.
pub const JOB_MINUTES: u32 = 60;

/// The heater that a G-code line sets a target for.
#[derive(Clone, Copy, Debug, PartialEq, Eq, Structural)]
pub enum GcodeTarget {
    /// M104 (set) and M109 (set and wait).
    Nozzle,
    /// M140 (set) and M190 (set and wait).
    Bed,
    /// Any other line.
    Ignored,
}

/// A G-code line as the emulator reads it: trimmed and upper-cased (on
/// ASCII text, letter by letter).
pub open spec fn normalized_gcode(line: Seq<char>) -> Seq<char> {
    if is_ascii_text(trimmed(line)) {
        ascii_upper_text(trimmed(line))
    } else {
        uppercase(trimmed(line))
    }
}

/// The heater that a normalized G-code line addresses.
pub open spec fn gcode_target(gcode: Seq<char>) -> GcodeTarget {
    if has_prefix(gcode, "M104"@) || has_prefix(gcode, "M109"@) {
        GcodeTarget::Nozzle
    } else if has_prefix(gcode, "M140"@) || has_prefix(gcode, "M190"@) {
        GcodeTarget::Bed
    } else {
        GcodeTarget::Ignored
    }
}

/// Trim and upper-case a G-code line.
pub fn normalize_gcode(line: &str) -> (gcode: String)
    ensures
        gcode@ == normalized_gcode(line@),
{
    to_uppercase(trim(line))
}

/// The heater that a normalized G-code line addresses.
pub fn classify_gcode(gcode: &str) -> (target: GcodeTarget)
    ensures
        target == gcode_target(gcode@),
{
    if starts_with(gcode, "M104") || starts_with(gcode, "M109") {
        GcodeTarget::Nozzle
    } else if starts_with(gcode, "M140") || starts_with(gcode, "M190") {
        GcodeTarget::Bed
    } else {
        GcodeTarget::Ignored
    }
}

/// Whether `r` is what reading the temperature from the words `ws` gives:
/// the first word that starts with `S` and whose rest `parse` reads as a
/// number yields it; `None` when there is no such word.
pub open spec fn parses_first<F: Fn(&str) -> Option<Temperature>>(
    parse: F,
    ws: Seq<Seq<char>>,
    r: Option<Temperature>,
) -> bool
    decreases ws.len(),
{
    if ws.len() == 0 {
        r is None
    } else if ws[0].len() > 0 && ws[0][0] == 'S' {
        ||| (r is Some && exists|w: &str| w@ == ws[0].drop_first() && parse.ensures((w,), r))
        ||| ((exists|w: &str|
            w@ == ws[0].drop_first() && parse.ensures((w,), None::<Temperature>))
            && parses_first(parse, ws.drop_first(), r))
    } else {
        parses_first(parse, ws.drop_first(), r)
    }
}

/// Whether `parse` reads a text by its characters alone: texts with the same
/// characters give the same result.
pub open spec fn deterministic_parser<F: Fn(&str) -> Option<Temperature>>(parse: F) -> bool {
    forall|w1: &str, w2: &str, r1: Option<Temperature>, r2: Option<Temperature>|
        w1@ == w2@ && #[trigger] parse.ensures((w1,), r1) && #[trigger] parse.ensures((w2,), r2)
            ==> r1 == r2
}

/// With a parser that reads a text by its characters alone, reading the
/// temperature from a list of words has one result.
pub proof fn lemma_parses_first_unique<F: Fn(&str) -> Option<Temperature>>(
    parse: F,
    ws: Seq<Seq<char>>,
    r1: Option<Temperature>,
    r2: Option<Temperature>,
)
    requires
        deterministic_parser(parse),
        parses_first(parse, ws, r1),
        parses_first(parse, ws, r2),
    ensures
        r1 == r2,
    decreases ws.len(),
{
    if ws.len() > 0 {
        if ws[0].len() > 0 && ws[0][0] == 'S' {
            let some1 = r1 is Some && exists|w: &str|
                w@ == ws[0].drop_first() && parse.ensures((w,), r1);
            let some2 = r2 is Some && exists|w: &str|
                w@ == ws[0].drop_first() && parse.ensures((w,), r2);
            if some1 && some2 {
                let w1 = choose|w: &str| w@ == ws[0].drop_first() && parse.ensures((w,), r1);
                let w2 = choose|w: &str| w@ == ws[0].drop_first() && parse.ensures((w,), r2);
                assert(parse.ensures((w1,), r1) && parse.ensures((w2,), r2));
            } else if some1 {
                let w1 = choose|w: &str| w@ == ws[0].drop_first() && parse.ensures((w,), r1);
                let w2 = choose|w: &str|
                    w@ == ws[0].drop_first() && parse.ensures((w,), None::<Temperature>);
                assert(parse.ensures((w1,), r1) && parse.ensures((w2,), None::<Temperature>));
            } else if some2 {
                let w1 = choose|w: &str|
                    w@ == ws[0].drop_first() && parse.ensures((w,), None::<Temperature>);
                let w2 = choose|w: &str| w@ == ws[0].drop_first() && parse.ensures((w,), r2);
                assert(parse.ensures((w1,), None::<Temperature>) && parse.ensures((w2,), r2));
            } else {
                lemma_parses_first_unique(parse, ws.drop_first(), r1, r2);
            }
        } else {
            lemma_parses_first_unique(parse, ws.drop_first(), r1, r2);
        }
    }
}

/// Parse the temperature parameter (the `S` value, as in "M104 S210") of a
/// G-code line. `parse` reads a number; it is the floating-point parser.
pub fn parse_temperature_param<F: Fn(&str) -> Option<Temperature>>(
    gcode: &str,
    parse: &F,
) -> (r: Option<Temperature>)
    requires
        forall|w: &str| parse.requires((w,)),
    ensures
        parses_first(*parse, words(gcode@), r),
{
    let parts = split_whitespace(gcode);
    let ghost ws = words(gcode@);
    assert(ws.skip(0) =~= ws);
    let mut i: usize = 0;
    while i < parts.len()
        invariant
            forall|w: &str| parse.requires((w,)),
            i <= parts.len(),
            ws == words(gcode@),
            parts.len() == ws.len(),
            forall|k: int| 0 <= k < parts.len() ==> #[trigger] parts[k]@ == ws[k],
            forall|r: Option<Temperature>|
                #[trigger] parses_first(*parse, ws.skip(i as int), r) ==> parses_first(
                    *parse,
                    ws,
                    r,
                ),
        decreases parts.len() - i,
    {
        let part = parts[i].as_str();
        let ghost rest_ws = ws.skip(i as int);
        assert(rest_ws.drop_first() =~= ws.skip(i + 1));
        assert(rest_ws[0] == part@);
        if part.unicode_len() > 0 && part.get_char(0) == 'S' {
            let rest = part.substring_char(1, part.unicode_len());
            assert(rest@ =~= part@.drop_first());
            let value = parse(rest);
            if value.is_some() {
                assert(parses_first(*parse, ws.skip(i as int), value));
                return value;
            }
            assert forall|r: Option<Temperature>|
                #[trigger] parses_first(*parse, ws.skip(i + 1), r) implies parses_first(
                    *parse,
                    rest_ws,
                    r,
                ) by {
                assert(parse.ensures((rest,), None::<Temperature>));
            }
        } else {
            assert forall|r: Option<Temperature>|
                #[trigger] parses_first(*parse, ws.skip(i + 1), r) implies parses_first(
                    *parse,
                    rest_ws,
                    r,
                ) by {}
        }
        i += 1;
    }
    assert(ws.skip(i as int) =~= Seq::<Seq<char>>::empty());
    assert(parses_first(*parse, ws.skip(i as int), None));
    None
}

/// What a pause, resume or stop asked for.
#[derive(Clone, Copy, Debug, PartialEq, Eq, Structural)]
pub enum PrintAction {
    Pause,
    Resume,
    Stop,
}

/// What the emulator does after a command, besides changing its state.
#[derive(Clone, Copy, Debug, PartialEq, Eq, Structural)]
pub enum CommandOutcome {
    /// Publish the current state on the report topic.
    PublishReport,
    /// The state was updated; nothing is published.
    Applied,
    /// The command asked for nothing the emulator does.
    Ignored,
    /// A pause, resume or stop that found no print it could act on.
    Refused(PrintAction),
    /// A print command that the emulator does not know.
    UnknownPrintCommand,
}

/// What the emulator does after `command` in `state`.
pub open spec fn command_outcome(command: Command, state: PrinterState) -> CommandOutcome {
    match command {
        Command::Pushing(p) => if p.pushing.command@ == "pushall"@ {
            CommandOutcome::PublishReport
        } else {
            CommandOutcome::Ignored
        },
        Command::System(s) => if s.system.command@ == "ledctrl"@ && s.system.led_mode is Some {
            CommandOutcome::Applied
        } else {
            CommandOutcome::Ignored
        },
        Command::Print(p) => {
            let name = p.print.command@;
            if name == "project_file"@ {
                CommandOutcome::PublishReport
            } else if name == "pause"@ {
                if state.can_pause() {
                    CommandOutcome::PublishReport
                } else {
                    CommandOutcome::Refused(PrintAction::Pause)
                }
            } else if name == "resume"@ {
                if state.can_resume() {
                    CommandOutcome::PublishReport
                } else {
                    CommandOutcome::Refused(PrintAction::Resume)
                }
            } else if name == "stop"@ {
                if state.print_job is Some {
                    CommandOutcome::PublishReport
                } else {
                    CommandOutcome::Refused(PrintAction::Stop)
                }
            } else if name == "gcode_line"@ {
                if p.print.param is Some {
                    CommandOutcome::Applied
                } else {
                    CommandOutcome::Ignored
                }
            } else {
                CommandOutcome::UnknownPrintCommand
            }
        },
    }
}

/// Whether `job` is the job that a `project_file` request with `data` starts:
/// a fresh task id; the request's name, file, bed levelling, AMS use and
/// mapping, or "print", "/cache/print.gcode", levelling on, no AMS and tray 0
/// where it gives none; plate 1, 100 layers, 60 minutes, heating to 210 °C
/// and 55 °C, no progress yet.
pub open spec fn job_for_request(job: PrintJob, data: PrintCommandData) -> bool {
    &&& hyphenated_uuid(job.task_id@)
    &&& job.subtask_name@ == match data.subtask_name {
        Some(s) => s@,
        None => "print"@,
    }
    &&& job.gcode_file@ == match data.param {
        Some(s) => s@,
        None => "/cache/print.gcode"@,
    }
    &&& job.plate_number == JOB_PLATE
    &&& job.mc_percent == 0
    &&& job.layer_num == 0
    &&& job.total_layer_num == JOB_LAYERS
    &&& job.mc_remaining_time == JOB_MINUTES
    &&& job.start_time >= 0
    &&& job.estimated_total_time == JOB_MINUTES as u64 * 60
    &&& job.current_stage == (PrintStage::Heating {
        target_nozzle: Temperature { bits: DEFAULT_NOZZLE_BITS },
        target_bed: Temperature { bits: DEFAULT_BED_BITS },
    })
    &&& job.stage_started_at == job.start_time
    &&& job.bed_levelling == match data.bed_levelling {
        Some(b) => b,
        None => true,
    }
    &&& job.use_ams == match data.use_ams {
        Some(b) => b,
        None => false,
    }
    &&& job.ams_mapping@ == match data.ams_mapping {
        Some(m) => m@,
        None => seq![0u8],
    }
}

/// Whether `new` is what a G-code line `line` makes of `old`: the line,
/// trimmed and upper-cased, sets the nozzle or bed target to its `S` value
/// when it addresses a heater and carries one; otherwise nothing changes.
pub open spec fn gcode_applied<F: Fn(&str) -> Option<Temperature>>(
    line: Seq<char>,
    old: PrinterState,
    new: PrinterState,
    parse: F,
) -> bool {
    let gcode = normalized_gcode(line);
    match gcode_target(gcode) {
        GcodeTarget::Ignored => new == old,
        target => exists|r: Option<Temperature>|
            #[trigger] parses_first(parse, words(gcode), r) && new == match r {
                Some(t) => if target == GcodeTarget::Nozzle {
                    old.with_nozzle_target(t)
                } else {
                    old.with_bed_target(t)
                },
                None => old,
            },
    }
}

/// Whether `new` is what `command` makes of `old`.
pub open spec fn command_applied<F: Fn(&str) -> Option<Temperature>>(
    command: Command,
    old: PrinterState,
    new: PrinterState,
    parse: F,
) -> bool {
    match command {
        Command::Pushing(_) => new == old,
        Command::System(s) => if s.system.command@ == "ledctrl"@ {
            match s.system.led_mode {
                Some(mode) => new == old.with_light(mode@ == "on"@),
                None => new == old,
            }
        } else {
            new == old
        },
        Command::Print(p) => {
            let name = p.print.command@;
            if name == "project_file"@ {
                &&& new.print_job is Some
                &&& job_for_request(new.print_job->0, p.print)
                &&& new == old.started(new.print_job->0)
            } else if name == "pause"@ {
                new == if old.can_pause() {
                    old.with_gcode_state(crate::state::printer::GcodeState::Pause)
                } else {
                    old
                }
            } else if name == "resume"@ {
                new == if old.can_resume() {
                    old.with_gcode_state(crate::state::printer::GcodeState::Running)
                } else {
                    old
                }
            } else if name == "stop"@ {
                new == if old.print_job is Some {
                    old.stopped()
                } else {
                    old
                }
            } else if name == "gcode_line"@ {
                match p.print.param {
                    Some(line) => gcode_applied(line@, old, new, parse),
                    None => new == old,
                }
            } else {
                new == old
            }
        },
    }
}

/// Apply a G-code line (temperature commands) to the state.
pub fn apply_gcode_line<F: Fn(&str) -> Option<Temperature>>(
    line: &str,
    state: &mut PrinterState,
    parse_temperature: &F,
)
    requires
        forall|w: &str| parse_temperature.requires((w,)),
    ensures
        gcode_applied(line@, *old(state), *final(state), *parse_temperature),
{
    let gcode = normalize_gcode(line);
    let target = classify_gcode(gcode.as_str());
    match target {
        GcodeTarget::Ignored => {},
        _ => {
            let r = parse_temperature_param(gcode.as_str(), parse_temperature);
            match r {
                Some(t) => {
                    if target == GcodeTarget::Nozzle {
                        state.set_nozzle_target(t);
                    } else {
                        state.set_bed_target(t);
                    }
                },
                None => {},
            }
            assert(parses_first(*parse_temperature, words(gcode@), r));
        },
    }
}

/// The job that a `project_file` request starts.
fn job_from_request(data: &PrintCommandData) -> (job: PrintJob)
    ensures
        job_for_request(job, *data),
        data.param matches Some(p) ==> job.gcode_file@ == p@,
        data.param is None ==> job.gcode_file@ == "/cache/print.gcode"@,
{
    let subtask_name = match &data.subtask_name {
        Some(s) => s.clone(),
        None => String::from_str("print"),
    };
    let gcode_file = match &data.param {
        Some(s) => s.clone(),
        None => String::from_str("/cache/print.gcode"),
    };
    let ams_mapping = match &data.ams_mapping {
        Some(m) => m.clone(),
        None => {
            let mut v: Vec<u8> = Vec::new();
            v.push(0);
            v
        },
    };
    proof {
        if let Some(m) = &data.ams_mapping {
            assert(ams_mapping@ =~= m@);
        } else {
            assert(ams_mapping@ =~= seq![0u8]);
        }
    }
    PrintJob::new(
        new_task_id(),
        subtask_name,
        gcode_file,
        JOB_PLATE,
        JOB_LAYERS,
        JOB_MINUTES,
        match data.bed_levelling {
            Some(b) => b,
            None => true,
        },
        match data.use_ams {
            Some(b) => b,
            None => false,
        },
        ams_mapping,
        Temperature::from_bits(DEFAULT_NOZZLE_BITS),
        Temperature::from_bits(DEFAULT_BED_BITS),
    )
}

/// Handle a single command: change the state as the command asks and say
/// what is to follow (publishing the state, or reporting a refusal).
/// `parse_temperature` reads the `S` value of a G-code line.
pub fn handle_command<F: Fn(&str) -> Option<Temperature>>(
    command: Command,
    state: &mut PrinterState,
    parse_temperature: &F,
) -> (outcome: CommandOutcome)
    requires
        forall|w: &str| parse_temperature.requires((w,)),
    ensures
        command_applied(command, *old(state), *final(state), *parse_temperature),
        outcome == command_outcome(command, *old(state)),
{
    match command {
        Command::Pushing(pushing) => {
            if str_eq(pushing.pushing.command.as_str(), "pushall") {
                CommandOutcome::PublishReport
            } else {
                CommandOutcome::Ignored
            }
        },
        Command::System(system) => {
            if str_eq(system.system.command.as_str(), "ledctrl") {
                match &system.system.led_mode {
                    Some(mode) => {
                        let on = str_eq(mode.as_str(), "on");
                        state.set_light(on);
                        CommandOutcome::Applied
                    },
                    None => CommandOutcome::Ignored,
                }
            } else {
                CommandOutcome::Ignored
            }
        },
        Command::Print(print) => {
            let data = &print.print;
            let name = data.command.as_str();
            if str_eq(name, "project_file") {
                let job = job_from_request(data);
                state.start_print(job);
                CommandOutcome::PublishReport
            } else if str_eq(name, "pause") {
                if state.pause_print() {
                    CommandOutcome::PublishReport
                } else {
                    CommandOutcome::Refused(PrintAction::Pause)
                }
            } else if str_eq(name, "resume") {
                if state.resume_print() {
                    CommandOutcome::PublishReport
                } else {
                    CommandOutcome::Refused(PrintAction::Resume)
                }
            } else if str_eq(name, "stop") {
                if state.stop_print() {
                    CommandOutcome::PublishReport
                } else {
                    CommandOutcome::Refused(PrintAction::Stop)
                }
            } else if str_eq(name, "gcode_line") {
                match &data.param {
                    Some(line) => {
                        apply_gcode_line(line.as_str(), state, parse_temperature);
                        CommandOutcome::Applied
                    },
                    None => CommandOutcome::Ignored,
                }
            } else {
                CommandOutcome::UnknownPrintCommand
            }
        },
    }
}

/// Process a command and return the updated state.
pub fn process_command_pure<F: Fn(&str) -> Option<Temperature>>(
    command: Command,
    state: PrinterState,
    parse_temperature: &F,
) -> (new_state: PrinterState)
    requires
        forall|w: &str| parse_temperature.requires((w,)),
    ensures
        command_applied(command, state, new_state, *parse_temperature),
{
    let mut state = state;
    handle_command(command, &mut state, parse_temperature);
    state
}

} // verus!
