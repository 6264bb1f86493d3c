//! AMS (Automatic Material System) state: the units and their filament trays.

use vstd::prelude::*;

use crate::state::temperature::{Temperature, AMS_UNIT_BITS};
use crate::text::str_eq;

verus! {

/// Filament left on a new spool, in percent.
pub const NEW_SPOOL_PERCENT: u8 = 85;

/// Humidity that a new AMS unit reports, on the 0 to 5 scale.
pub const NEW_UNIT_HUMIDITY: u8 = 3;

/// Nozzle minimum, nozzle maximum and bed temperature (°C) recommended for a
/// filament type: PLA, PETG, ABS and TPU have their own, anything else gets a
/// generic set.
pub open spec fn filament_temps(filament_type: Seq<char>) -> (u16, u16, u16) {
    if filament_type == "PLA"@ {
        (190, 230, 55)
    } else if filament_type == "PETG"@ {
        (220, 250, 70)
    } else if filament_type == "ABS"@ {
        (240, 270, 90)
    } else if filament_type == "TPU"@ {
        (210, 230, 45)
    } else {
        (200, 220, 60)
    }
}

/// A single filament tray in an AMS unit.
#[derive(Debug, Clone)]
pub struct FilamentTray {
    pub id: u8,
    pub present: bool,
    /// "PLA", "PETG", "ABS", ...
    pub filament_type: String,
    /// Hex RRGGBBAA, e.g. "FF5733FF".
    pub color: String,
    /// 0 to 100.
    pub remaining_percent: u8,
    pub nozzle_temp_min: u16,
    pub nozzle_temp_max: u16,
    pub bed_temp: u16,
}

impl FilamentTray {
    /// A tray holding a fresh spool of the given filament and colour.
    pub open spec fn is_loaded(self, id: u8, filament_type: Seq<char>, color: Seq<char>) -> bool {
        let (nozzle_min, nozzle_max, bed) = filament_temps(filament_type);
        &&& self.id == id
        &&& self.present
        &&& self.filament_type@ == filament_type
        &&& self.color@ == color
        &&& self.remaining_percent == NEW_SPOOL_PERCENT
        &&& self.nozzle_temp_min == nozzle_min
        &&& self.nozzle_temp_max == nozzle_max
        &&& self.bed_temp == bed
    }

    /// A tray without a spool.
    pub open spec fn is_empty_tray(self, id: u8) -> bool {
        &&& self.id == id
        &&& !self.present
        &&& self.filament_type@ == Seq::<char>::empty()
        &&& self.color@ == "000000FF"@
        &&& self.remaining_percent == 0
        &&& self.nozzle_temp_min == 0
        &&& self.nozzle_temp_max == 0
        &&& self.bed_temp == 0
    }

    /// Create a new filament tray.
    pub fn new(id: u8, filament_type: &str, color: &str) -> (tray: Self)
        ensures
            tray.is_loaded(id, filament_type@, color@),
    {
        let (nozzle_min, nozzle_max, bed_temp): (u16, u16, u16) = if str_eq(filament_type, "PLA") {
            (190, 230, 55)
        } else if str_eq(filament_type, "PETG") {
            (220, 250, 70)
        } else if str_eq(filament_type, "ABS") {
            (240, 270, 90)
        } else if str_eq(filament_type, "TPU") {
            (210, 230, 45)
        } else {
            (200, 220, 60)
        };
        FilamentTray {
            id,
            present: true,
            filament_type: String::from_str(filament_type),
            color: String::from_str(color),
            remaining_percent: NEW_SPOOL_PERCENT,
            nozzle_temp_min: nozzle_min,
            nozzle_temp_max: nozzle_max,
            bed_temp,
        }
    }

    /// Create an empty tray.
    pub fn empty(id: u8) -> (tray: Self)
        ensures
            tray.is_empty_tray(id),
    {
        FilamentTray {
            id,
            present: false,
            filament_type: String::new(),
            color: String::from_str("000000FF"),
            remaining_percent: 0,
            nozzle_temp_min: 0,
            nozzle_temp_max: 0,
            bed_temp: 0,
        }
    }

    /// What is left of `remaining` after `percent` is used: never below zero.
    pub open spec fn remaining_after(remaining: u8, percent: u8) -> u8 {
        if remaining >= percent {
            (remaining - percent) as u8
        } else {
            0
        }
    }

    /// Consume filament (reduce remaining percentage, stopping at zero).
    pub fn consume(&mut self, percent: u8)
        ensures
            *final(self) == (FilamentTray {
                remaining_percent: Self::remaining_after(old(self).remaining_percent, percent),
                ..*old(self)
            }),
    {
        self.remaining_percent = self.remaining_percent.saturating_sub(percent);
    }
}

/// A single AMS unit (the printer has one, it can have up to four).
#[derive(Debug, Clone)]
pub struct AmsUnit {
    pub id: u8,
    /// 0 to 5 scale.
    pub humidity: u8,
    pub temp: Temperature,
    pub trays: [FilamentTray; 4],
}

impl AmsUnit {
    /// A unit as it comes up: mid-range humidity, 24.5 °C, and four loaded
    /// trays (PLA red, PLA blue, PETG green, PLA black).
    pub open spec fn is_new_unit(self, id: u8) -> bool {
        &&& self.id == id
        &&& self.humidity == NEW_UNIT_HUMIDITY
        &&& self.temp.bits == AMS_UNIT_BITS
        &&& self.trays@[0].is_loaded(0, "PLA"@, "FF5733FF"@)
        &&& self.trays@[1].is_loaded(1, "PLA"@, "3498DBFF"@)
        &&& self.trays@[2].is_loaded(2, "PETG"@, "2ECC71FF"@)
        &&& self.trays@[3].is_loaded(3, "PLA"@, "000000FF"@)
    }

    /// Whether this unit is `old` with tray `k` replaced by `tray`.
    pub open spec fn replaces_tray(self, old: AmsUnit, k: int, tray: FilamentTray) -> bool {
        &&& self.id == old.id
        &&& self.humidity == old.humidity
        &&& self.temp == old.temp
        &&& self.trays@ == old.trays@.update(k, tray)
    }

    /// Create a new AMS unit with default trays.
    pub fn new(id: u8) -> (unit: Self)
        ensures
            unit.is_new_unit(id),
    {
        AmsUnit {
            id,
            humidity: NEW_UNIT_HUMIDITY,
            temp: Temperature::from_bits(AMS_UNIT_BITS),
            trays: [
                FilamentTray::new(0, "PLA", "FF5733FF"),
                FilamentTray::new(1, "PLA", "3498DBFF"),
                FilamentTray::new(2, "PETG", "2ECC71FF"),
                FilamentTray::new(3, "PLA", "000000FF"),
            ],
        }
    }
}

/// AMS state for the printer.
#[derive(Debug, Clone)]
pub struct AmsState {
    pub units: Vec<AmsUnit>,
    pub current_tray: Option<u8>,
    pub ams_status: u8,
    pub ams_rfid_status: u8,
}

/// Whether `i` is the position of the first unit in `units` whose id is `unit_id`.
pub open spec fn is_first_unit(units: Seq<AmsUnit>, unit_id: u8, i: int) -> bool {
    &&& 0 <= i < units.len()
    &&& units[i].id == unit_id
    &&& forall|j: int| 0 <= j < i ==> units[j].id != unit_id
}

/// Whether some unit in `units` has the id `unit_id`.
pub open spec fn has_unit(units: Seq<AmsUnit>, unit_id: u8) -> bool {
    exists|i: int| 0 <= i < units.len() && units[i].id == unit_id
}

impl AmsState {
    /// The AMS as it comes up: one new unit with id 0, tray 0 in use, status
    /// 0 and working RFID (status 1).
    pub open spec fn is_new_ams(self) -> bool {
        &&& self.units.len() == 1
        &&& self.units[0].is_new_unit(0)
        &&& self.current_tray == Some(0u8)
        &&& self.ams_status == 0
        &&& self.ams_rfid_status == 1
    }

    /// The tray `tray_id` of the first unit whose id is `unit_id`, if both exist.
    pub open spec fn tray(self, unit_id: u8, tray_id: u8) -> Option<FilamentTray> {
        if has_unit(self.units@, unit_id) && tray_id < 4 {
            let i = choose|i: int| is_first_unit(self.units@, unit_id, i);
            Some(self.units[i].trays@[tray_id as int])
        } else {
            None
        }
    }

    /// Whether this state is `old` with the tray that `old.tray(unit_id,
    /// tray_id)` names replaced by `tray`, and nothing else changed.
    pub open spec fn replaces_tray(self, old: AmsState, unit_id: u8, tray_id: u8, tray: FilamentTray) -> bool {
        &&& exists|i: int| {
            &&& is_first_unit(old.units@, unit_id, i)
            &&& self.units.len() == old.units.len()
            &&& forall|j: int| 0 <= j < old.units.len() && j != i ==> self.units[j] == old.units[j]
            &&& self.units[i].replaces_tray(old.units[i], tray_id as int, tray)
        }
        &&& self.current_tray == old.current_tray
        &&& self.ams_status == old.ams_status
        &&& self.ams_rfid_status == old.ams_rfid_status
    }

    /// Create a new AMS state with one unit and 4 trays.
    pub fn new() -> (ams: Self)
        ensures
            ams.is_new_ams(),
    {
        let unit = AmsUnit::new(0);
        let mut units = Vec::new();
        units.push(unit);
        AmsState { units, current_tray: Some(0), ams_status: 0, ams_rfid_status: 1 }
    }

    /// Position of the first unit with the given id.
    fn find_unit(&self, unit_id: u8) -> (r: Option<usize>)
        ensures
            match r {
                Some(i) => is_first_unit(self.units@, unit_id, i as int),
                None => !has_unit(self.units@, unit_id),
            },
    {
        let mut i: usize = 0;
        while i < self.units.len()
            invariant
                i <= self.units.len(),
                forall|j: int| 0 <= j < i ==> self.units@[j].id != unit_id,
            decreases self.units.len() - i,
        {
            if self.units[i].id == unit_id {
                return Some(i);
            }
            i += 1;
        }
        None
    }

    /// Get a specific tray by unit and tray ID.
    pub fn get_tray(&self, unit_id: u8, tray_id: u8) -> (r: Option<&FilamentTray>)
        ensures
            r matches Some(t) ==> self.tray(unit_id, tray_id) == Some(*t),
            r is None ==> self.tray(unit_id, tray_id) is None,
    {
        match self.find_unit(unit_id) {
            Some(i) => {
                proof {
                    lemma_first_unit_unique(self.units@, unit_id, i as int);
                }
                if tray_id < 4 {
                    Some(&self.units[i].trays[tray_id as usize])
                } else {
                    None
                }
            },
            None => None,
        }
    }

    /// Get a mutable reference to a specific tray. Through it the caller
    /// changes that tray and nothing else.
    pub fn get_tray_mut(&mut self, unit_id: u8, tray_id: u8) -> (r: Option<&mut FilamentTray>)
        ensures
            match r {
                Some(t) => {
                    &&& old(self).tray(unit_id, tray_id) == Some(*t)
                    &&& final(self).replaces_tray(*old(self), unit_id, tray_id, *final(t))
                },
                None => {
                    &&& old(self).tray(unit_id, tray_id) is None
                    &&& *final(self) == *old(self)
                },
            },
    {
        match self.find_unit(unit_id) {
            Some(i) => {
                proof {
                    lemma_first_unit_unique(self.units@, unit_id, i as int);
                }
                if tray_id < 4 {
                    let unit = &mut self.units[i];
                    Some(&mut unit.trays[tray_id as usize])
                } else {
                    None
                }
            },
            None => None,
        }
    }
}

/// The first unit with a given id is the one `choose` picks.
pub proof fn lemma_first_unit_unique(units: Seq<AmsUnit>, unit_id: u8, i: int)
    requires
        is_first_unit(units, unit_id, i),
    ensures
        has_unit(units, unit_id),
        (choose|k: int| is_first_unit(units, unit_id, k)) == i,
{
    let k = choose|k: int| is_first_unit(units, unit_id, k);
    assert(is_first_unit(units, unit_id, k));
    if k < i {
        assert(units[k].id != unit_id);
    } else if k > i {
        assert(units[i].id != unit_id);
    }
}

/// A unit with a given id comes first at some position.
pub proof fn lemma_has_first_unit(units: Seq<AmsUnit>, unit_id: u8)
    requires
        has_unit(units, unit_id),
    ensures
        exists|i: int| is_first_unit(units, unit_id, i),
    decreases units.len(),
{
    if units.last().id == unit_id && !has_unit(units.drop_last(), unit_id) {
        assert(is_first_unit(units, unit_id, units.len() - 1)) by {
            assert forall|j: int| 0 <= j < units.len() - 1 implies units[j].id != unit_id by {
                if units[j].id == unit_id {
                    assert(units.drop_last()[j].id == unit_id);
                }
            }
        }
    } else {
        if !has_unit(units.drop_last(), unit_id) {
            let k = choose|k: int| 0 <= k < units.len() && units[k].id == unit_id;
            if k < units.len() - 1 {
                assert(units.drop_last()[k].id == unit_id);
            }
        }
        lemma_has_first_unit(units.drop_last(), unit_id);
        let i = choose|i: int| is_first_unit(units.drop_last(), unit_id, i);
        assert(units.drop_last()[i] == units[i]);
        assert forall|j: int| 0 <= j < i implies units[j].id != unit_id by {
            assert(units.drop_last()[j] == units[j]);
        }
        assert(is_first_unit(units, unit_id, i));
    }
}

impl Default for AmsState {
    fn default() -> (ams: Self)
        ensures
            ams.is_new_ams(),
    {
        Self::new()
    }
}

} // verus!
