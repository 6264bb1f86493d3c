use bambu_print_rs::commands::{
    classify_gcode, handle_command, normalize_gcode, parse_temperature_param,
    process_command_pure, CommandOutcome, GcodeTarget, PrintAction,
};
use bambu_print_rs::messages::{
    ReportMessage,
    Command, PrintCommand, PrintCommandData, PushingCommand, PushingCommandData, SystemCommand,
    SystemCommandData,
};
use bambu_print_rs::state::{GcodeState, PrinterState, Temperature};

fn parse(text: &str) -> Option<Temperature> {
    text.parse::<f32>().ok().map(|t| Temperature::from_bits(t.to_bits()))
}

fn celsius(t: Temperature) -> f32 {
    f32::from_bits(t.bits)
}

fn parse_temperature(gcode: &str) -> Option<f32> {
    parse_temperature_param(gcode, &parse).map(celsius)
}

fn print_command(command: &str, param: Option<&str>, subtask_name: Option<&str>) -> Command {
    Command::Print(PrintCommand {
        print: PrintCommandData {
            sequence_id: "1".to_string(),
            command: command.to_string(),
            param: param.map(|p| p.to_string()),
            url: None,
            subtask_name: subtask_name.map(|s| s.to_string()),
            use_ams: None,
            ams_mapping: None,
            timelapse: None,
            bed_levelling: None,
            flow_cali: None,
            vibration_cali: None,
            layer_inspect: None,
        },
    })
}

fn ledctrl(mode: &str) -> Command {
    Command::System(SystemCommand {
        system: SystemCommandData {
            sequence_id: "1".to_string(),
            command: "ledctrl".to_string(),
            led_node: Some("chamber_light".to_string()),
            led_mode: Some(mode.to_string()),
        },
    })
}

fn pushall() -> Command {
    Command::Pushing(PushingCommand {
        pushing: PushingCommandData {
            sequence_id: "3".to_string(),
            command: "pushall".to_string(),
        },
    })
}

#[test]
fn test_process_ledctrl_on() {
    let state = PrinterState::new("TEST123".to_string());
    assert!(!state.lights_on);

    let command = Command::System(SystemCommand {
        system: SystemCommandData {
            sequence_id: "1".to_string(),
            command: "ledctrl".to_string(),
            led_node: Some("chamber_light".to_string()),
            led_mode: Some("on".to_string()),
        },
    });

    let new_state = process_command_pure(command, state, &parse);
    assert!(new_state.lights_on);
}

#[test]
fn test_process_ledctrl_off() {
    let mut state = PrinterState::new("TEST123".to_string());
    state.set_light(true);
    assert!(state.lights_on);

    let command = Command::System(SystemCommand {
        system: SystemCommandData {
            sequence_id: "2".to_string(),
            command: "ledctrl".to_string(),
            led_node: Some("chamber_light".to_string()),
            led_mode: Some("off".to_string()),
        },
    });

    let new_state = process_command_pure(command, state, &parse);
    assert!(!new_state.lights_on);
}

#[test]
fn test_process_pushall_no_state_change() {
    let state = PrinterState::new("TEST123".to_string());
    let original_lights = state.lights_on;

    let command = pushall();

    let new_state = process_command_pure(command, state, &parse);
    assert_eq!(new_state.lights_on, original_lights);
}

#[test]
fn test_process_project_file() {
    let state = PrinterState::new("TEST123".to_string());
    assert!(state.print_job.is_none());
    assert_eq!(state.gcode_state, GcodeState::Idle);

    let command = Command::Print(PrintCommand {
        print: PrintCommandData {
            sequence_id: "1".to_string(),
            command: "project_file".to_string(),
            param: Some("Metadata/plate_1.gcode".to_string()),
            url: Some("ftp:///model.3mf".to_string()),
            subtask_name: Some("benchy".to_string()),
            use_ams: Some(true),
            ams_mapping: Some(vec![0, 1]),
            timelapse: Some(true),
            bed_levelling: Some(true),
            flow_cali: None,
            vibration_cali: None,
            layer_inspect: None,
        },
    });

    let new_state = process_command_pure(command, state, &parse);
    assert!(new_state.print_job.is_some());
    assert_eq!(new_state.gcode_state, GcodeState::Prepare);

    let job = new_state.print_job.as_ref().unwrap();
    assert_eq!(job.subtask_name, "benchy");
    assert!(job.use_ams);
    assert!(job.bed_levelling);
}

#[test]
fn test_process_project_file_defaults() {
    let state = PrinterState::new("TEST123".to_string());
    let new_state = process_command_pure(print_command("project_file", None, None), state, &parse);
    let job = new_state.print_job.as_ref().unwrap();
    assert_eq!(job.subtask_name, "print");
    assert_eq!(job.gcode_file, "/cache/print.gcode");
    assert!(job.bed_levelling);
    assert!(!job.use_ams);
    assert_eq!(job.ams_mapping, vec![0]);
    assert_eq!(job.total_layer_num, 100);
    assert_eq!(job.mc_remaining_time, 60);
    assert_eq!(job.plate_number, 1);
    assert_eq!(job.task_id.len(), 36);
    assert_eq!(job.task_id.chars().nth(8), Some('-'));
    assert_eq!(job.task_id.chars().nth(14), Some('4'));
    assert_eq!(celsius(new_state.nozzle_target_temp), 210.0);
    assert_eq!(celsius(new_state.bed_target_temp), 55.0);
}

#[test]
fn test_process_pause_command() {
    let mut state = PrinterState::new("TEST123".to_string());

    // Start a print first
    let start_cmd = print_command("project_file", None, Some("test"));

    state = process_command_pure(start_cmd, state, &parse);
    state.gcode_state = GcodeState::Running; // Simulate being in running state

    // Pause the print
    let pause_cmd = print_command("pause", None, None);

    let new_state = process_command_pure(pause_cmd, state, &parse);
    assert_eq!(new_state.gcode_state, GcodeState::Pause);
}

#[test]
fn test_process_resume_command() {
    let mut state = PrinterState::new("TEST123".to_string());

    // Start and pause a print
    let start_cmd = print_command("project_file", None, Some("test"));

    state = process_command_pure(start_cmd, state, &parse);
    state.gcode_state = GcodeState::Pause;

    // Resume the print
    let resume_cmd = print_command("resume", None, None);

    let new_state = process_command_pure(resume_cmd, state, &parse);
    assert_eq!(new_state.gcode_state, GcodeState::Running);
}

#[test]
fn test_process_stop_command() {
    let mut state = PrinterState::new("TEST123".to_string());

    // Start a print
    let start_cmd = print_command("project_file", None, Some("test"));

    state = process_command_pure(start_cmd, state, &parse);
    assert!(state.print_job.is_some());

    // Stop the print
    let stop_cmd = print_command("stop", None, None);

    let new_state = process_command_pure(stop_cmd, state, &parse);
    assert!(new_state.print_job.is_none());
    assert_eq!(new_state.gcode_state, GcodeState::Idle);
}

#[test]
fn test_process_gcode_line_nozzle_temp() {
    let state = PrinterState::new("TEST123".to_string());
    assert_eq!(celsius(state.nozzle_target_temp), 0.0);

    let command = print_command("gcode_line", Some("M104 S210\n"), None);

    let new_state = process_command_pure(command, state, &parse);
    assert_eq!(celsius(new_state.nozzle_target_temp), 210.0);
}

#[test]
fn test_process_gcode_line_bed_temp() {
    let state = PrinterState::new("TEST123".to_string());
    assert_eq!(celsius(state.bed_target_temp), 0.0);

    let command = print_command("gcode_line", Some("M140 S60\n"), None);

    let new_state = process_command_pure(command, state, &parse);
    assert_eq!(celsius(new_state.bed_target_temp), 60.0);
}

#[test]
fn test_process_gcode_line_lowercase_and_wait_variants() {
    let state = PrinterState::new("TEST123".to_string());
    let state = process_command_pure(print_command("gcode_line", Some("  m109 s205.5 "), None), state, &parse);
    assert_eq!(celsius(state.nozzle_target_temp), 205.5);
    let state = process_command_pure(print_command("gcode_line", Some("M190 S65"), None), state, &parse);
    assert_eq!(celsius(state.bed_target_temp), 65.0);
    let state = process_command_pure(print_command("gcode_line", Some("G28 S99"), None), state, &parse);
    assert_eq!(celsius(state.nozzle_target_temp), 205.5);
    assert_eq!(celsius(state.bed_target_temp), 65.0);
    let state = process_command_pure(print_command("gcode_line", Some("M104 Sx S99"), None), state, &parse);
    assert_eq!(celsius(state.nozzle_target_temp), 99.0);
}

#[test]
fn test_parse_temperature_param() {
    assert_eq!(parse_temperature("M104 S210"), Some(210.0));
    assert_eq!(parse_temperature("M109 S200"), Some(200.0));
    assert_eq!(parse_temperature("M140 S55"), Some(55.0));
    assert_eq!(parse_temperature("M104"), None);
    assert_eq!(parse_temperature("G28"), None);
}

#[test]
fn test_normalize_and_classify_gcode() {
    assert_eq!(normalize_gcode("  m104 s210\n"), "M104 S210");
    assert_eq!(classify_gcode("M104 S210"), GcodeTarget::Nozzle);
    assert_eq!(classify_gcode("M109"), GcodeTarget::Nozzle);
    assert_eq!(classify_gcode("M140 S1"), GcodeTarget::Bed);
    assert_eq!(classify_gcode("M190"), GcodeTarget::Bed);
    assert_eq!(classify_gcode("G28"), GcodeTarget::Ignored);
    assert_eq!(classify_gcode("M10"), GcodeTarget::Ignored);
}

#[test]
fn test_handle_command_outcomes() {
    let mut state = PrinterState::new("TEST123".to_string());
    assert_eq!(handle_command(pushall(), &mut state, &parse), CommandOutcome::PublishReport);
    assert_eq!(handle_command(ledctrl("on"), &mut state, &parse), CommandOutcome::Applied);
    assert!(state.lights_on);
    assert_eq!(
        handle_command(print_command("pause", None, None), &mut state, &parse),
        CommandOutcome::Refused(PrintAction::Pause)
    );
    assert_eq!(
        handle_command(print_command("resume", None, None), &mut state, &parse),
        CommandOutcome::Refused(PrintAction::Resume)
    );
    assert_eq!(
        handle_command(print_command("stop", None, None), &mut state, &parse),
        CommandOutcome::Refused(PrintAction::Stop)
    );
    assert_eq!(
        handle_command(print_command("project_file", None, None), &mut state, &parse),
        CommandOutcome::PublishReport
    );
    assert_eq!(
        handle_command(print_command("gcode_line", Some("M104 S1"), None), &mut state, &parse),
        CommandOutcome::Applied
    );
    assert_eq!(
        handle_command(print_command("gcode_line", None, None), &mut state, &parse),
        CommandOutcome::Ignored
    );
    assert_eq!(
        handle_command(print_command("calibrate", None, None), &mut state, &parse),
        CommandOutcome::UnknownPrintCommand
    );
    assert_eq!(
        handle_command(print_command("stop", None, None), &mut state, &parse),
        CommandOutcome::PublishReport
    );
}

#[test]
fn test_ledctrl_other_mode_turns_light_off() {
    let mut state = PrinterState::new("TEST123".to_string());
    state.set_light(true);
    let state = process_command_pure(ledctrl("flashing"), state, &parse);
    assert!(!state.lights_on);
}

#[test]
fn test_light_command_shows_in_report() {

    let state = PrinterState::new("TEST123".to_string());
    let state = process_command_pure(ledctrl("on"), state, &parse);
    assert_eq!(ReportMessage::from_state(&state).print.lights_report[0].mode, "on");
    let state = process_command_pure(ledctrl("off"), state, &parse);
    assert_eq!(ReportMessage::from_state(&state).print.lights_report[0].mode, "off");
}

#[test]
fn test_handle_command_agrees_with_process_command_pure() {
    let commands = vec![
        pushall(),
        ledctrl("on"),
        print_command("gcode_line", Some("M104 S215"), None),
        print_command("gcode_line", Some("m140 s70"), None),
        print_command("pause", None, None),
        print_command("stop", None, None),
        print_command("calibrate", None, None),
    ];
    for command in commands {
        let mut handled = PrinterState::new("TEST123".to_string());
        handle_command(command.clone(), &mut handled, &parse);
        let pure = process_command_pure(command, PrinterState::new("TEST123".to_string()), &parse);
        assert_eq!(handled.lights_on, pure.lights_on);
        assert_eq!(handled.gcode_state, pure.gcode_state);
        assert_eq!(handled.nozzle_target_temp, pure.nozzle_target_temp);
        assert_eq!(handled.bed_target_temp, pure.bed_target_temp);
        assert_eq!(handled.print_job.is_some(), pure.print_job.is_some());
    }
}

#[test]
fn test_started_job_task_id_is_uuid() {
    let state = process_command_pure(
        print_command("project_file", None, None),
        PrinterState::new("TEST123".to_string()),
        &parse,
    );
    let id: Vec<char> = state.print_job.unwrap().task_id.chars().collect();
    assert_eq!(id.len(), 36);
    for (i, c) in id.iter().enumerate() {
        if i == 8 || i == 13 || i == 18 || i == 23 {
            assert_eq!(*c, '-');
        } else {
            assert!(c.is_ascii_digit() || ('a'..='f').contains(c));
        }
    }
    assert_eq!(id[14], '4');
    assert!(matches!(id[19], '8' | '9' | 'a' | 'b'));
}
