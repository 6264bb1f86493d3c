//! Printer state: identity, temperatures, the print job and its stages, and
//! the transitions that commands make on them.

use vstd::prelude::*;

use crate::clock::now_millis;
use crate::state::ams::AmsState;
use crate::state::temperature::{
    zero, Temperature, AMBIENT_BITS, DEFAULT_BED_BITS, DEFAULT_NOZZLE_BITS, ZERO_BITS,
};

verus! {

/// Firmware version that the emulator reports.
pub open spec fn firmware_version() -> Seq<char> {
    "01.08.00.00"@
}

/// Wi-Fi signal that the emulator reports.
pub open spec fn wifi_signal() -> Seq<char> {
    "-48dBm"@
}

/// Speed magnitude (percent) of the standard speed level.
pub const STANDARD_SPEED_MAGNITUDE: u8 = 100;

/// Print simulation stages.
#[derive(Clone, Copy, Debug, PartialEq, Eq, Structural)]
pub enum PrintStage {
    /// Heating nozzle and bed to target temperatures.
    Heating { target_nozzle: Temperature, target_bed: Temperature },
    /// Auto bed leveling.
    BedLeveling,
    /// Purging/priming the nozzle.
    Purging,
    /// Active printing.
    Printing,
    /// Cooling down after print.
    Cooling,
    /// Print complete.
    Complete,
}

impl PrintStage {
    /// The number that the `stg_cur` field of a report carries for a stage.
    pub open spec fn stage_number(self) -> u8 {
        match self {
            PrintStage::Heating { .. } => 0,
            PrintStage::BedLeveling => 1,
            PrintStage::Purging => 2,
            PrintStage::Printing => 3,
            PrintStage::Cooling => 4,
            PrintStage::Complete => 5,
        }
    }

    /// Get the stage number for MQTT reporting (stg_cur field).
    pub fn as_stage_number(&self) -> (n: u8)
        ensures
            n == self.stage_number(),
    {
        match self {
            PrintStage::Heating { .. } => 0,
            PrintStage::BedLeveling => 1,
            PrintStage::Purging => 2,
            PrintStage::Printing => 3,
            PrintStage::Cooling => 4,
            PrintStage::Complete => 5,
        }
    }

    /// The nozzle target that starting a job in this stage sets: the heating
    /// stage's own target, 210 °C otherwise.
    pub open spec fn start_nozzle_target(self) -> Temperature {
        match self {
            PrintStage::Heating { target_nozzle, .. } => target_nozzle,
            _ => Temperature { bits: DEFAULT_NOZZLE_BITS },
        }
    }

    /// The bed target that starting a job in this stage sets: the heating
    /// stage's own target, 55 °C otherwise.
    pub open spec fn start_bed_target(self) -> Temperature {
        match self {
            PrintStage::Heating { target_bed, .. } => target_bed,
            _ => Temperature { bits: DEFAULT_BED_BITS },
        }
    }
}

/// Active print job state.
#[derive(Debug, Clone)]
pub struct PrintJob {
    pub task_id: String,
    pub subtask_name: String,
    pub gcode_file: String,
    pub plate_number: u8,
    /// Progress, 0 to 100.
    pub mc_percent: u8,
    pub layer_num: u32,
    pub total_layer_num: u32,
    /// Minutes.
    pub mc_remaining_time: u32,
    /// Milliseconds since the Unix epoch.
    pub start_time: i64,
    /// Seconds.
    pub estimated_total_time: u64,
    pub current_stage: PrintStage,
    /// Milliseconds since the Unix epoch.
    pub stage_started_at: i64,
    pub bed_levelling: bool,
    pub use_ams: bool,
    pub ams_mapping: Vec<u8>,
}

impl PrintJob {
    /// Whether `self` and `other` are the same job, whatever their progress
    /// and stage: everything fixed when the job was created is equal.
    pub open spec fn same_job(self, other: PrintJob) -> bool {
        &&& self.task_id == other.task_id
        &&& self.subtask_name == other.subtask_name
        &&& self.gcode_file == other.gcode_file
        &&& self.plate_number == other.plate_number
        &&& self.total_layer_num == other.total_layer_num
        &&& self.start_time == other.start_time
        &&& self.estimated_total_time == other.estimated_total_time
        &&& self.bed_levelling == other.bed_levelling
        &&& self.use_ams == other.use_ams
        &&& self.ams_mapping == other.ams_mapping
    }

    /// Create a new print job. It starts now, in the heating stage, with no
    /// progress; its remaining time is the whole estimate.
    pub fn new(
        task_id: String,
        subtask_name: String,
        gcode_file: String,
        plate_number: u8,
        total_layers: u32,
        estimated_time_mins: u32,
        bed_levelling: bool,
        use_ams: bool,
        ams_mapping: Vec<u8>,
        target_nozzle_temp: Temperature,
        target_bed_temp: Temperature,
    ) -> (job: Self)
        ensures
            job.task_id == task_id,
            job.subtask_name == subtask_name,
            job.gcode_file == gcode_file,
            job.plate_number == plate_number,
            job.mc_percent == 0,
            job.layer_num == 0,
            job.total_layer_num == total_layers,
            job.mc_remaining_time == estimated_time_mins,
            job.start_time >= 0,
            job.estimated_total_time == estimated_time_mins as u64 * 60,
            job.current_stage == (PrintStage::Heating {
                target_nozzle: target_nozzle_temp,
                target_bed: target_bed_temp,
            }),
            job.stage_started_at == job.start_time,
            job.bed_levelling == bed_levelling,
            job.use_ams == use_ams,
            job.ams_mapping == ams_mapping,
    {
        let now = now_millis();
        PrintJob {
            task_id,
            subtask_name,
            gcode_file,
            plate_number,
            mc_percent: 0,
            layer_num: 0,
            total_layer_num: total_layers,
            mc_remaining_time: estimated_time_mins,
            start_time: now,
            estimated_total_time: (estimated_time_mins as u64) * 60,
            current_stage: PrintStage::Heating {
                target_nozzle: target_nozzle_temp,
                target_bed: target_bed_temp,
            },
            stage_started_at: now,
            bed_levelling,
            use_ams,
            ams_mapping,
        }
    }

    /// Advance to the next print stage; the stage starts now.
    pub fn advance_stage(&mut self, next_stage: PrintStage)
        ensures
            final(self).current_stage == next_stage,
            final(self).stage_started_at >= 0,
            *final(self) == (PrintJob {
                current_stage: next_stage,
                stage_started_at: final(self).stage_started_at,
                ..*old(self)
            }),
    {
        self.current_stage = next_stage;
        self.stage_started_at = now_millis();
    }

    /// The layer that progress to `layer` records: never past the last one.
    pub open spec fn clamped_layer(self, layer: u32) -> u32 {
        if layer <= self.total_layer_num {
            layer
        } else {
            self.total_layer_num
        }
    }

    /// Update progress based on layer completion. The layer is clamped to the
    /// job's layer count; when the job has layers, the percentage becomes
    /// what `percent_of` gives for the clamped layer and the layer count.
    /// `percent_of` is the progress formula, which works in floating point
    /// (the layer over the layer count, times 100, truncated).
    pub fn update_progress<F: Fn(u32, u32) -> u8>(&mut self, layer: u32, percent_of: &F)
        requires
            forall|l: u32, t: u32| percent_of.requires((l, t)),
        ensures
            final(self).layer_num == old(self).clamped_layer(layer),
            old(self).total_layer_num > 0 ==> percent_of.ensures(
                (final(self).layer_num, old(self).total_layer_num),
                final(self).mc_percent,
            ),
            old(self).total_layer_num == 0 ==> final(self).mc_percent == old(self).mc_percent,
            *final(self) == (PrintJob {
                layer_num: final(self).layer_num,
                mc_percent: final(self).mc_percent,
                ..*old(self)
            }),
    {
        self.layer_num = if layer <= self.total_layer_num {
            layer
        } else {
            self.total_layer_num
        };
        if self.total_layer_num > 0 {
            self.mc_percent = percent_of(self.layer_num, self.total_layer_num);
        }
    }
}

/// Printer model.
#[derive(Clone, Copy, Debug, PartialEq, Eq, Structural)]
pub enum PrinterModel {
    X1Carbon,
    X1,
    P1S,
    P1P,
    A1,
    A1Mini,
}

impl PrinterModel {
    /// The model's name as the printer reports it.
    pub open spec fn name(self) -> Seq<char> {
        match self {
            PrinterModel::X1Carbon => "X1 Carbon"@,
            PrinterModel::X1 => "X1"@,
            PrinterModel::P1S => "P1S"@,
            PrinterModel::P1P => "P1P"@,
            PrinterModel::A1 => "A1"@,
            PrinterModel::A1Mini => "A1 Mini"@,
        }
    }

    pub fn as_str(&self) -> (s: &'static str)
        ensures
            s@ == self.name(),
    {
        match self {
            PrinterModel::X1Carbon => "X1 Carbon",
            PrinterModel::X1 => "X1",
            PrinterModel::P1S => "P1S",
            PrinterModel::P1P => "P1P",
            PrinterModel::A1 => "A1",
            PrinterModel::A1Mini => "A1 Mini",
        }
    }
}

/// G-code execution state.
#[derive(Clone, Copy, Debug, PartialEq, Eq, Structural)]
pub enum GcodeState {
    Idle,
    Prepare,
    Running,
    Pause,
    Finish,
    Failed,
}

impl GcodeState {
    /// The state's name on the wire.
    pub open spec fn name(self) -> Seq<char> {
        match self {
            GcodeState::Idle => "IDLE"@,
            GcodeState::Prepare => "PREPARE"@,
            GcodeState::Running => "RUNNING"@,
            GcodeState::Pause => "PAUSE"@,
            GcodeState::Finish => "FINISH"@,
            GcodeState::Failed => "FAILED"@,
        }
    }

    pub fn as_str(&self) -> (s: &'static str)
        ensures
            s@ == self.name(),
    {
        match self {
            GcodeState::Idle => "IDLE",
            GcodeState::Prepare => "PREPARE",
            GcodeState::Running => "RUNNING",
            GcodeState::Pause => "PAUSE",
            GcodeState::Finish => "FINISH",
            GcodeState::Failed => "FAILED",
        }
    }
}

/// Speed level presets.
#[derive(Clone, Copy, Debug, PartialEq, Eq, Structural)]
pub enum SpeedLevel {
    Silent,
    Standard,
    Sport,
    Ludicrous,
}

impl SpeedLevel {
    /// The level's number in the protocol: 1 (silent) to 4 (ludicrous).
    pub open spec fn level(self) -> u8 {
        match self {
            SpeedLevel::Silent => 1,
            SpeedLevel::Standard => 2,
            SpeedLevel::Sport => 3,
            SpeedLevel::Ludicrous => 4,
        }
    }

    /// The level's number in the protocol.
    pub fn as_u8(&self) -> (n: u8)
        ensures
            n == self.level(),
    {
        match self {
            SpeedLevel::Silent => 1,
            SpeedLevel::Standard => 2,
            SpeedLevel::Sport => 3,
            SpeedLevel::Ludicrous => 4,
        }
    }
}

/// Main printer state.
#[derive(Debug, Clone)]
pub struct PrinterState {
    pub serial_number: String,
    pub model: PrinterModel,
    pub firmware_version: String,
    pub nozzle_temp: Temperature,
    pub nozzle_target_temp: Temperature,
    pub bed_temp: Temperature,
    pub bed_target_temp: Temperature,
    pub chamber_temp: Temperature,
    pub gcode_state: GcodeState,
    pub print_job: Option<PrintJob>,
    pub ams: AmsState,
    pub lights_on: bool,
    pub door_open: bool,
    pub sd_card_present: bool,
    pub wifi_signal: String,
    /// Fans: 0 to 15 for most of them.
    pub heatbreak_fan_speed: u8,
    pub cooling_fan_speed: u8,
    pub aux_fan_speed: u8,
    pub chamber_fan_speed: u8,
    pub speed_level: SpeedLevel,
    /// 50 to 166 (percent).
    pub speed_magnitude: u8,
}

impl PrinterState {
    /// The state of a printer that has just been switched on: an idle X1
    /// Carbon at ambient temperature with its heaters off, no job, a new AMS,
    /// light off, door closed, SD card in, fans still, standard speed.
    pub open spec fn is_initial(self, serial_number: Seq<char>) -> bool {
        &&& self.serial_number@ == serial_number
        &&& self.model == PrinterModel::X1Carbon
        &&& self.firmware_version@ == firmware_version()
        &&& self.nozzle_temp.bits == AMBIENT_BITS
        &&& self.nozzle_target_temp.bits == ZERO_BITS
        &&& self.bed_temp.bits == AMBIENT_BITS
        &&& self.bed_target_temp.bits == ZERO_BITS
        &&& self.chamber_temp.bits == AMBIENT_BITS
        &&& self.gcode_state == GcodeState::Idle
        &&& self.print_job is None
        &&& self.ams.is_new_ams()
        &&& !self.lights_on
        &&& !self.door_open
        &&& self.sd_card_present
        &&& self.wifi_signal@ == wifi_signal()
        &&& self.heatbreak_fan_speed == 0
        &&& self.cooling_fan_speed == 0
        &&& self.aux_fan_speed == 0
        &&& self.chamber_fan_speed == 0
        &&& self.speed_level == SpeedLevel::Standard
        &&& self.speed_magnitude == STANDARD_SPEED_MAGNITUDE
    }

    /// Create a new printer state with default values.
    pub fn new(serial_number: String) -> (state: Self)
        ensures
            state.is_initial(serial_number@),
    {
        PrinterState {
            serial_number,
            model: PrinterModel::X1Carbon,
            firmware_version: String::from_str("01.08.00.00"),
            nozzle_temp: Temperature::ambient(),
            nozzle_target_temp: Temperature::zero(),
            bed_temp: Temperature::ambient(),
            bed_target_temp: Temperature::zero(),
            chamber_temp: Temperature::ambient(),
            gcode_state: GcodeState::Idle,
            print_job: None,
            ams: AmsState::new(),
            lights_on: false,
            door_open: false,
            sd_card_present: true,
            wifi_signal: String::from_str("-48dBm"),
            heatbreak_fan_speed: 0,
            cooling_fan_speed: 0,
            aux_fan_speed: 0,
            chamber_fan_speed: 0,
            speed_level: SpeedLevel::Standard,
            speed_magnitude: STANDARD_SPEED_MAGNITUDE,
        }
    }

    /// The state with the chamber light on or off.
    pub open spec fn with_light(self, on: bool) -> PrinterState {
        PrinterState { lights_on: on, ..self }
    }

    /// Toggle chamber light.
    pub fn toggle_light(&mut self)
        ensures
            *final(self) == old(self).with_light(!old(self).lights_on),
    {
        self.lights_on = !self.lights_on;
    }

    /// Set chamber light state.
    pub fn set_light(&mut self, on: bool)
        ensures
            *final(self) == old(self).with_light(on),
    {
        self.lights_on = on;
    }

    /// The state once `job` has been started: preparing, with the job's
    /// heating targets (or 210 °C and 55 °C when the job is past heating).
    pub open spec fn started(self, job: PrintJob) -> PrinterState {
        PrinterState {
            gcode_state: GcodeState::Prepare,
            nozzle_target_temp: job.current_stage.start_nozzle_target(),
            bed_target_temp: job.current_stage.start_bed_target(),
            print_job: Some(job),
            ..self
        }
    }

    /// Start a new print job.
    pub fn start_print(&mut self, job: PrintJob)
        ensures
            *final(self) == old(self).started(job),
    {
        self.gcode_state = GcodeState::Prepare;
        self.nozzle_target_temp = match &job.current_stage {
            PrintStage::Heating { target_nozzle, .. } => *target_nozzle,
            _ => Temperature::from_bits(DEFAULT_NOZZLE_BITS),
        };
        self.bed_target_temp = match &job.current_stage {
            PrintStage::Heating { target_bed, .. } => *target_bed,
            _ => Temperature::from_bits(DEFAULT_BED_BITS),
        };
        self.print_job = Some(job);
    }

    /// Whether a pause has something to act on: a job that is running.
    pub open spec fn can_pause(self) -> bool {
        self.print_job is Some && self.gcode_state == GcodeState::Running
    }

    /// Whether a resume has something to act on: a job that is paused.
    pub open spec fn can_resume(self) -> bool {
        self.print_job is Some && self.gcode_state == GcodeState::Pause
    }

    /// The state with another G-code state.
    pub open spec fn with_gcode_state(self, gcode_state: GcodeState) -> PrinterState {
        PrinterState { gcode_state, ..self }
    }

    /// The state with no job, idle, both heaters off.
    pub open spec fn stopped(self) -> PrinterState {
        PrinterState {
            print_job: None,
            gcode_state: GcodeState::Idle,
            nozzle_target_temp: zero(),
            bed_target_temp: zero(),
            ..self
        }
    }

    /// The state with no job, finished, both heaters off.
    pub open spec fn completed(self) -> PrinterState {
        PrinterState {
            print_job: None,
            gcode_state: GcodeState::Finish,
            nozzle_target_temp: zero(),
            bed_target_temp: zero(),
            ..self
        }
    }

    /// Pause the current print job. Returns whether there was a running job to pause.
    pub fn pause_print(&mut self) -> (paused: bool)
        ensures
            paused == old(self).can_pause(),
            *final(self) == if paused {
                old(self).with_gcode_state(GcodeState::Pause)
            } else {
                *old(self)
            },
    {
        if self.print_job.is_some() && self.gcode_state == GcodeState::Running {
            self.gcode_state = GcodeState::Pause;
            true
        } else {
            false
        }
    }

    /// Resume a paused print job. Returns whether there was a paused job to resume.
    pub fn resume_print(&mut self) -> (resumed: bool)
        ensures
            resumed == old(self).can_resume(),
            *final(self) == if resumed {
                old(self).with_gcode_state(GcodeState::Running)
            } else {
                *old(self)
            },
    {
        if self.print_job.is_some() && self.gcode_state == GcodeState::Pause {
            self.gcode_state = GcodeState::Running;
            true
        } else {
            false
        }
    }

    /// Stop/cancel the current print job. Returns whether there was a job to stop.
    pub fn stop_print(&mut self) -> (stopped: bool)
        ensures
            stopped == old(self).print_job is Some,
            *final(self) == if stopped {
                old(self).stopped()
            } else {
                *old(self)
            },
    {
        if self.print_job.is_some() {
            self.print_job = None;
            self.gcode_state = GcodeState::Idle;
            self.nozzle_target_temp = Temperature::zero();
            self.bed_target_temp = Temperature::zero();
            true
        } else {
            false
        }
    }

    /// Complete the current print job.
    pub fn complete_print(&mut self)
        ensures
            *final(self) == old(self).completed(),
    {
        self.print_job = None;
        self.gcode_state = GcodeState::Finish;
        self.nozzle_target_temp = Temperature::zero();
        self.bed_target_temp = Temperature::zero();
    }

    /// The state with another nozzle target.
    pub open spec fn with_nozzle_target(self, temp: Temperature) -> PrinterState {
        PrinterState { nozzle_target_temp: temp, ..self }
    }

    /// The state with another bed target.
    pub open spec fn with_bed_target(self, temp: Temperature) -> PrinterState {
        PrinterState { bed_target_temp: temp, ..self }
    }

    /// Set nozzle target temperature (for gcode commands).
    pub fn set_nozzle_target(&mut self, temp: Temperature)
        ensures
            *final(self) == old(self).with_nozzle_target(temp),
    {
        self.nozzle_target_temp = temp;
    }

    /// Set bed target temperature (for gcode commands).
    pub fn set_bed_target(&mut self, temp: Temperature)
        ensures
            *final(self) == old(self).with_bed_target(temp),
    {
        self.bed_target_temp = temp;
    }
}

} // verus!
