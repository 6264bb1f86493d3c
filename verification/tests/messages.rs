use bambu_print_rs::messages::{AmsReport, AmsUnitReport, PrintReport, ReportMessage, TrayReport};
use bambu_print_rs::state::{AmsState, AmsUnit, FilamentTray, PrintJob, PrinterState, Temperature};

fn celsius(t: Temperature) -> f32 {
    f32::from_bits(t.bits)
}

#[test]
fn test_report_message_from_state() {
    let state = PrinterState::new("TEST123".to_string());
    let report = ReportMessage::from_state(&state);

    assert_eq!(report.print.gcode_state, "IDLE");
    assert_eq!(celsius(report.print.nozzle_temper), 25.0);
    assert_eq!(celsius(report.print.bed_temper), 25.0);
    assert!(report.print.sdcard);
}

#[test]
fn test_ams_report_from_state() {
    let ams_state = AmsState::new();
    let report = AmsReport::from_state(&ams_state);

    assert_eq!(report.ams.len(), 1);
    assert_eq!(report.ams_exist_bits, "1");
    assert_eq!(report.tray_exist_bits, "f");
}

#[test]
fn test_ams_report_tray_now_and_version() {
    let mut ams_state = AmsState::new();
    assert_eq!(AmsReport::from_state(&ams_state).tray_now, "0");
    ams_state.current_tray = Some(3);
    assert_eq!(AmsReport::from_state(&ams_state).tray_now, "3");
    ams_state.current_tray = None;
    let report = AmsReport::from_state(&ams_state);
    assert_eq!(report.tray_now, "0");
    assert_eq!(report.version, 3);
}

#[test]
fn test_ams_unit_report() {
    let unit = AmsUnit::new(2);
    let report = AmsUnitReport::from_unit(&unit);
    assert_eq!(report.id, "2");
    assert_eq!(report.humidity, "3");
    assert_eq!(celsius(report.temp), 24.5);
    assert_eq!(report.tray.len(), 4);
    assert_eq!(report.tray[2].tray_type, "PETG");
    assert_eq!(report.tray[2].tray_color, "2ECC71FF");
    assert_eq!(report.tray[3].id, "3");
}

#[test]
fn test_tray_report() {
    let mut tray = FilamentTray::new(1, "ABS", "123456FF");
    tray.consume(5);
    let report = TrayReport::from_tray(&tray);
    assert_eq!(report.id, "1");
    assert_eq!(report.tray_type, "ABS");
    assert_eq!(report.tray_color, "123456FF");
    assert_eq!(report.remain, 80);
    assert_eq!(report.nozzle_temp_min, 240);
    assert_eq!(report.nozzle_temp_max, 270);
    assert_eq!(report.bed_temp, 90);
}

#[test]
fn test_print_report_idle_fields() {
    let state = PrinterState::new("TEST123".to_string());
    let report = PrintReport::from_state(&state);
    assert!(report.mc_percent.is_none());
    assert!(report.stg_cur.is_none());
    assert!(report.subtask_name.is_none());
    assert_eq!(report.wifi_signal, "-48dBm");
    assert_eq!(report.spd_lvl, 2);
    assert_eq!(report.spd_mag, 100);
    assert_eq!(report.heatbreak_fan_speed, "0");
    assert_eq!(report.lights_report.len(), 1);
    assert_eq!(report.lights_report[0].node, "chamber_light");
    assert_eq!(report.lights_report[0].mode, "off");
    assert_eq!(report.upload.status, "idle");
    assert_eq!(report.upload.progress, 0);
    assert_eq!(report.upload.message, "");
    assert!(report.hms.is_empty());
}

#[test]
fn test_print_report_with_job_and_light() {
    let mut state = PrinterState::new("TEST123".to_string());
    state.set_light(true);
    state.cooling_fan_speed = 15;
    state.aux_fan_speed = 10;
    state.chamber_fan_speed = 5;
    let job = PrintJob::new(
        "id".to_string(),
        "benchy".to_string(),
        "/cache/benchy.gcode".to_string(),
        1,
        120,
        45,
        true,
        false,
        vec![],
        Temperature::from_bits(200.0f32.to_bits()),
        Temperature::from_bits(60.0f32.to_bits()),
    );
    state.start_print(job);
    let report = PrintReport::from_state(&state);
    assert_eq!(report.gcode_state, "PREPARE");
    assert_eq!(report.mc_percent, Some(0));
    assert_eq!(report.mc_remaining_time, Some(45));
    assert_eq!(report.layer_num, Some(0));
    assert_eq!(report.total_layer_num, Some(120));
    assert_eq!(report.subtask_name, Some("benchy".to_string()));
    assert_eq!(report.gcode_file, Some("/cache/benchy.gcode".to_string()));
    assert_eq!(report.stg_cur, Some(0));
    assert_eq!(celsius(report.nozzle_target_temper), 200.0);
    assert_eq!(report.lights_report[0].mode, "on");
    assert_eq!(report.cooling_fan_speed, "15");
    assert_eq!(report.big_fan1_speed, "10");
    assert_eq!(report.big_fan2_speed, "5");
}
