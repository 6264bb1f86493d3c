//! Messages of the printer's MQTT protocol: the status report that the
//! printer publishes and the requests that clients send it.

use vstd::prelude::*;

use crate::state::ams::{AmsState, AmsUnit, FilamentTray};
use crate::state::printer::PrinterState;
use crate::state::temperature::Temperature;
use crate::text::{decimal, decimal_string};

verus! {

/// `serde_json::Value`: an arbitrary JSON value, carried through unread.
#[verifier::external_type_specification]
#[verifier::external_body]
pub struct ExJsonValue(serde_json::Value);

/// Bit mask of the AMS units present, in hexadecimal: one unit.
pub open spec fn ams_exist_bits() -> Seq<char> {
    "1"@
}

/// Bit mask of the trays present, in hexadecimal: all four (0b1111).
pub open spec fn tray_exist_bits() -> Seq<char> {
    "f"@
}

/// Version of the AMS report format.
pub const AMS_REPORT_VERSION: u32 = 3;

/// Top-level report message (emulator to client).
#[derive(Debug, Clone)]
pub struct ReportMessage {
    pub print: PrintReport,
}

impl ReportMessage {
    /// Create a report message from printer state.
    pub fn from_state(state: &PrinterState) -> (report: Self)
        ensures
            report.print.reports(*state),
    {
        ReportMessage { print: PrintReport::from_state(state) }
    }
}

/// Light status report.
#[derive(Debug, Clone)]
pub struct LightReport {
    pub node: String,
    pub mode: String,
}

/// The mode that the light report gives for a light that is on or off.
pub open spec fn light_mode(on: bool) -> Seq<char> {
    if on {
        "on"@
    } else {
        "off"@
    }
}

/// Filament tray report.
#[derive(Debug, Clone)]
pub struct TrayReport {
    pub id: String,
    pub tray_type: String,
    pub tray_color: String,
    pub remain: u8,
    pub nozzle_temp_min: u16,
    pub nozzle_temp_max: u16,
    pub bed_temp: u16,
}

impl TrayReport {
    /// Whether this report describes `tray`.
    pub open spec fn reports(self, tray: FilamentTray) -> bool {
        &&& self.id@ == decimal(tray.id as nat)
        &&& self.tray_type@ == tray.filament_type@
        &&& self.tray_color@ == tray.color@
        &&& self.remain == tray.remaining_percent
        &&& self.nozzle_temp_min == tray.nozzle_temp_min
        &&& self.nozzle_temp_max == tray.nozzle_temp_max
        &&& self.bed_temp == tray.bed_temp
    }

    pub fn from_tray(tray: &FilamentTray) -> (report: Self)
        ensures
            report.reports(*tray),
    {
        TrayReport {
            id: decimal_string(tray.id as u32),
            tray_type: tray.filament_type.clone(),
            tray_color: tray.color.clone(),
            remain: tray.remaining_percent,
            nozzle_temp_min: tray.nozzle_temp_min,
            nozzle_temp_max: tray.nozzle_temp_max,
            bed_temp: tray.bed_temp,
        }
    }
}

/// AMS unit report. The unit's temperature is carried as the temperature
/// itself and rendered as text when the report is encoded.
#[derive(Debug, Clone)]
pub struct AmsUnitReport {
    pub id: String,
    pub humidity: String,
    pub temp: Temperature,
    pub tray: Vec<TrayReport>,
}

impl AmsUnitReport {
    /// Whether this report describes `unit`, tray by tray.
    pub open spec fn reports(self, unit: AmsUnit) -> bool {
        &&& self.id@ == decimal(unit.id as nat)
        &&& self.humidity@ == decimal(unit.humidity as nat)
        &&& self.temp == unit.temp
        &&& self.tray.len() == 4
        &&& forall|i: int| 0 <= i < 4 ==> #[trigger] self.tray[i].reports(unit.trays@[i])
    }

    pub fn from_unit(unit: &AmsUnit) -> (report: Self)
        ensures
            report.reports(*unit),
    {
        let mut tray: Vec<TrayReport> = Vec::new();
        let mut k: usize = 0;
        while k < 4
            invariant
                k <= 4,
                tray.len() == k,
                forall|i: int| 0 <= i < k ==> #[trigger] tray[i].reports(unit.trays@[i]),
            decreases 4 - k,
        {
            tray.push(TrayReport::from_tray(&unit.trays[k]));
            k += 1;
        }
        AmsUnitReport {
            id: decimal_string(unit.id as u32),
            humidity: decimal_string(unit.humidity as u32),
            temp: unit.temp,
            tray,
        }
    }
}

/// AMS status report.
#[derive(Debug, Clone)]
pub struct AmsReport {
    pub ams: Vec<AmsUnitReport>,
    pub ams_exist_bits: String,
    pub tray_exist_bits: String,
    pub tray_now: String,
    pub version: u32,
}

impl AmsReport {
    /// Whether this report describes `ams`: every unit in order, the tray in
    /// use ("0" when none is), one unit and four trays present, format 3.
    pub open spec fn reports(self, ams_state: AmsState) -> bool {
        &&& self.ams.len() == ams_state.units.len()
        &&& forall|i: int|
            0 <= i < self.ams.len() ==> #[trigger] self.ams[i].reports(ams_state.units[i])
        &&& self.ams_exist_bits@ == ams_exist_bits()
        &&& self.tray_exist_bits@ == tray_exist_bits()
        &&& self.tray_now@ == match ams_state.current_tray {
            Some(t) => decimal(t as nat),
            None => "0"@,
        }
        &&& self.version == AMS_REPORT_VERSION
    }

    pub fn from_state(ams_state: &AmsState) -> (report: Self)
        ensures
            report.reports(*ams_state),
    {
        let mut ams: Vec<AmsUnitReport> = Vec::new();
        let mut k: usize = 0;
        while k < ams_state.units.len()
            invariant
                k <= ams_state.units.len(),
                ams.len() == k,
                forall|i: int| 0 <= i < k ==> #[trigger] ams[i].reports(ams_state.units[i]),
            decreases ams_state.units.len() - k,
        {
            ams.push(AmsUnitReport::from_unit(&ams_state.units[k]));
            k += 1;
        }
        let tray_now = match ams_state.current_tray {
            Some(t) => decimal_string(t as u32),
            None => String::from_str("0"),
        };
        AmsReport {
            ams,
            ams_exist_bits: String::from_str("1"),
            tray_exist_bits: String::from_str("f"),
            tray_now,
            version: AMS_REPORT_VERSION,
        }
    }
}

/// Upload status.
#[derive(Debug, Clone)]
pub struct UploadStatus {
    pub status: String,
    pub progress: u8,
    pub message: String,
}

impl UploadStatus {
    /// No upload going on.
    pub open spec fn is_idle(self) -> bool {
        &&& self.status@ == "idle"@
        &&& self.progress == 0
        &&& self.message@ == Seq::<char>::empty()
    }
}

/// Print status report.
#[derive(Debug, Clone)]
pub struct PrintReport {
    pub nozzle_temper: Temperature,
    pub nozzle_target_temper: Temperature,
    pub bed_temper: Temperature,
    pub bed_target_temper: Temperature,
    pub chamber_temper: Temperature,
    pub gcode_state: String,
    /// Progress of the print job; these are absent when there is none.
    pub mc_percent: Option<u8>,
    pub mc_remaining_time: Option<u32>,
    pub layer_num: Option<u32>,
    pub total_layer_num: Option<u32>,
    pub subtask_name: Option<String>,
    pub gcode_file: Option<String>,
    pub stg_cur: Option<u8>,
    pub wifi_signal: String,
    pub spd_lvl: u8,
    pub spd_mag: u8,
    /// Fans are reported as strings in the real protocol.
    pub heatbreak_fan_speed: String,
    pub cooling_fan_speed: String,
    pub big_fan1_speed: String,
    pub big_fan2_speed: String,
    pub lights_report: Vec<LightReport>,
    pub ams: AmsReport,
    pub upload: UploadStatus,
    /// Hardware Management System (errors): none are raised.
    pub hms: Vec<serde_json::Value>,
    pub sdcard: bool,
}

/// The view of an optional string.
pub open spec fn opt_view(s: Option<String>) -> Option<Seq<char>> {
    match s {
        Some(t) => Some(t@),
        None => None,
    }
}

impl PrintReport {
    /// Whether the job fields of this report describe the print job of `state`,
    /// and are all absent when there is none.
    pub open spec fn reports_job(self, state: PrinterState) -> bool {
        match state.print_job {
            Some(job) => {
                &&& self.mc_percent == Some(job.mc_percent)
                &&& self.mc_remaining_time == Some(job.mc_remaining_time)
                &&& self.layer_num == Some(job.layer_num)
                &&& self.total_layer_num == Some(job.total_layer_num)
                &&& opt_view(self.subtask_name) == Some(job.subtask_name@)
                &&& opt_view(self.gcode_file) == Some(job.gcode_file@)
                &&& self.stg_cur == Some(job.current_stage.stage_number())
            },
            None => {
                &&& self.mc_percent is None
                &&& self.mc_remaining_time is None
                &&& self.layer_num is None
                &&& self.total_layer_num is None
                &&& self.subtask_name is None
                &&& self.gcode_file is None
                &&& self.stg_cur is None
            },
        }
    }

    /// Whether this report describes `state`.
    pub open spec fn reports(self, state: PrinterState) -> bool {
        &&& self.nozzle_temper == state.nozzle_temp
        &&& self.nozzle_target_temper == state.nozzle_target_temp
        &&& self.bed_temper == state.bed_temp
        &&& self.bed_target_temper == state.bed_target_temp
        &&& self.chamber_temper == state.chamber_temp
        &&& self.gcode_state@ == state.gcode_state.name()
        &&& self.reports_job(state)
        &&& self.wifi_signal@ == state.wifi_signal@
        &&& self.spd_lvl == state.speed_level.level()
        &&& self.spd_mag == state.speed_magnitude
        &&& self.heatbreak_fan_speed@ == decimal(state.heatbreak_fan_speed as nat)
        &&& self.cooling_fan_speed@ == decimal(state.cooling_fan_speed as nat)
        &&& self.big_fan1_speed@ == decimal(state.aux_fan_speed as nat)
        &&& self.big_fan2_speed@ == decimal(state.chamber_fan_speed as nat)
        &&& self.lights_report.len() == 1
        &&& self.lights_report[0].node@ == "chamber_light"@
        &&& self.lights_report[0].mode@ == light_mode(state.lights_on)
        &&& self.ams.reports(state.ams)
        &&& self.upload.is_idle()
        &&& self.hms.len() == 0
        &&& self.sdcard == state.sd_card_present
    }

    /// Create a print report from printer state.
    pub fn from_state(state: &PrinterState) -> (report: Self)
        ensures
            report.reports(*state),
            report.nozzle_temper == state.nozzle_temp,
            report.nozzle_target_temper == state.nozzle_target_temp,
            report.bed_temper == state.bed_temp,
            report.bed_target_temper == state.bed_target_temp,
            report.chamber_temper == state.chamber_temp,
    {
        let (mc_percent, mc_remaining_time, layer_num, total_layer_num, subtask_name, gcode_file, stg_cur) =
            match &state.print_job {
            Some(job) => (
                Some(job.mc_percent),
                Some(job.mc_remaining_time),
                Some(job.layer_num),
                Some(job.total_layer_num),
                Some(job.subtask_name.clone()),
                Some(job.gcode_file.clone()),
                Some(job.current_stage.as_stage_number()),
            ),
            None => (None, None, None, None, None, None, None),
        };
        let mode = if state.lights_on {
            String::from_str("on")
        } else {
            String::from_str("off")
        };
        let mut lights_report: Vec<LightReport> = Vec::new();
        lights_report.push(LightReport { node: String::from_str("chamber_light"), mode });
        PrintReport {
            nozzle_temper: state.nozzle_temp,
            nozzle_target_temper: state.nozzle_target_temp,
            bed_temper: state.bed_temp,
            bed_target_temper: state.bed_target_temp,
            chamber_temper: state.chamber_temp,
            gcode_state: String::from_str(state.gcode_state.as_str()),
            mc_percent,
            mc_remaining_time,
            layer_num,
            total_layer_num,
            subtask_name,
            gcode_file,
            stg_cur,
            wifi_signal: state.wifi_signal.clone(),
            spd_lvl: state.speed_level.as_u8(),
            spd_mag: state.speed_magnitude,
            heatbreak_fan_speed: decimal_string(state.heatbreak_fan_speed as u32),
            cooling_fan_speed: decimal_string(state.cooling_fan_speed as u32),
            big_fan1_speed: decimal_string(state.aux_fan_speed as u32),
            big_fan2_speed: decimal_string(state.chamber_fan_speed as u32),
            lights_report,
            ams: AmsReport::from_state(&state.ams),
            upload: UploadStatus {
                status: String::from_str("idle"),
                progress: 0,
                message: String::new(),
            },
            hms: Vec::new(),
            sdcard: state.sd_card_present,
        }
    }
}

/// Top-level request message (client to emulator).
#[derive(Debug, Clone)]
pub struct RequestMessage {
    pub command: Command,
}

/// Command variants.
#[derive(Debug, Clone)]
pub enum Command {
    Print(PrintCommand),
    System(SystemCommand),
    Pushing(PushingCommand),
}

/// Print command wrapper.
#[derive(Debug, Clone)]
pub struct PrintCommand {
    pub print: PrintCommandData,
}

/// Print command data.
#[derive(Debug, Clone)]
pub struct PrintCommandData {
    pub sequence_id: String,
    pub command: String,
    /// G-code file path (for project_file) or G-code line content (for gcode_line).
    pub param: Option<String>,
    /// FTP URL to the .3mf file (e.g. "ftp:///model.3mf").
    pub url: Option<String>,
    /// Name of the print job.
    pub subtask_name: Option<String>,
    /// Whether to use AMS.
    pub use_ams: Option<bool>,
    /// AMS tray mapping (e.g. [0, 1, 2, 3]).
    pub ams_mapping: Option<Vec<u8>>,
    /// Enable timelapse recording.
    pub timelapse: Option<bool>,
    /// Enable bed leveling.
    pub bed_levelling: Option<bool>,
    /// Enable flow calibration.
    pub flow_cali: Option<bool>,
    /// Enable vibration calibration.
    pub vibration_cali: Option<bool>,
    /// Enable layer inspection.
    pub layer_inspect: Option<bool>,
}

/// System command wrapper.
#[derive(Debug, Clone)]
pub struct SystemCommand {
    pub system: SystemCommandData,
}

/// System command data.
#[derive(Debug, Clone)]
pub struct SystemCommandData {
    pub sequence_id: String,
    pub command: String,
    pub led_node: Option<String>,
    pub led_mode: Option<String>,
}

/// Pushing command wrapper.
#[derive(Debug, Clone)]
pub struct PushingCommand {
    pub pushing: PushingCommandData,
}

/// Pushing command data.
#[derive(Debug, Clone)]
pub struct PushingCommandData {
    pub sequence_id: String,
    pub command: String,
}

} // verus!
