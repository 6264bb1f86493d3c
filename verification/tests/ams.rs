use bambu_print_rs::state::{AmsState, AmsUnit, FilamentTray};

#[test]
fn test_new_ams_state() {
    let ams = AmsState::new();
    assert_eq!(ams.units.len(), 1);
    assert_eq!(ams.units[0].id, 0);
    assert_eq!(ams.units[0].trays.len(), 4);
    assert_eq!(ams.current_tray, Some(0));
}

#[test]
fn test_default_ams_state() {
    let ams = AmsState::default();
    assert_eq!(ams.units.len(), 1);
    assert_eq!(ams.ams_rfid_status, 1);
}

#[test]
fn test_get_tray() {
    let ams = AmsState::new();
    let tray = ams.get_tray(0, 0).unwrap();
    assert_eq!(tray.id, 0);
    assert_eq!(tray.filament_type, "PLA");
}

#[test]
fn test_get_tray_nonexistent() {
    let ams = AmsState::new();
    assert!(ams.get_tray(1, 0).is_none()); // Unit 1 doesn't exist
    assert!(ams.get_tray(0, 5).is_none()); // Tray 5 doesn't exist
}

#[test]
fn test_get_tray_mut() {
    let mut ams = AmsState::new();
    if let Some(tray) = ams.get_tray_mut(0, 0) {
        tray.remaining_percent = 50;
    }
    assert_eq!(ams.get_tray(0, 0).unwrap().remaining_percent, 50);
}

#[test]
fn test_get_tray_mut_leaves_other_trays() {
    let mut ams = AmsState::new();
    if let Some(tray) = ams.get_tray_mut(0, 2) {
        tray.consume(100);
    }
    assert_eq!(ams.get_tray(0, 2).unwrap().remaining_percent, 0);
    assert_eq!(ams.get_tray(0, 1).unwrap().remaining_percent, 85);
    assert_eq!(ams.get_tray(0, 3).unwrap().remaining_percent, 85);
    assert!(ams.get_tray_mut(3, 0).is_none());
}

#[test]
fn test_get_tray_first_unit_with_id() {
    let mut ams = AmsState::new();
    let mut second = AmsUnit::new(0);
    second.trays[0] = FilamentTray::new(0, "ABS", "FFFFFFFF");
    ams.units.push(second);
    assert_eq!(ams.get_tray(0, 0).unwrap().filament_type, "PLA");
}

#[test]
fn test_new_ams_unit() {
    let unit = AmsUnit::new(0);
    assert_eq!(unit.id, 0);
    assert_eq!(unit.humidity, 3);
    assert_eq!(f32::from_bits(unit.temp.bits), 24.5);
    assert_eq!(unit.trays.len(), 4);
}

#[test]
fn test_filament_tray_pla() {
    let tray = FilamentTray::new(0, "PLA", "FF5733FF");
    assert_eq!(tray.id, 0);
    assert!(tray.present);
    assert_eq!(tray.filament_type, "PLA");
    assert_eq!(tray.color, "FF5733FF");
    assert_eq!(tray.nozzle_temp_min, 190);
    assert_eq!(tray.nozzle_temp_max, 230);
    assert_eq!(tray.bed_temp, 55);
    assert_eq!(tray.remaining_percent, 85);
}

#[test]
fn test_filament_tray_petg() {
    let tray = FilamentTray::new(1, "PETG", "3498DBFF");
    assert_eq!(tray.filament_type, "PETG");
    assert_eq!(tray.nozzle_temp_min, 220);
    assert_eq!(tray.nozzle_temp_max, 250);
    assert_eq!(tray.bed_temp, 70);
}

#[test]
fn test_filament_tray_abs() {
    let tray = FilamentTray::new(2, "ABS", "000000FF");
    assert_eq!(tray.filament_type, "ABS");
    assert_eq!(tray.nozzle_temp_min, 240);
    assert_eq!(tray.nozzle_temp_max, 270);
    assert_eq!(tray.bed_temp, 90);
}

#[test]
fn test_filament_tray_tpu_and_unknown() {
    let tpu = FilamentTray::new(0, "TPU", "FFFFFFFF");
    assert_eq!((tpu.nozzle_temp_min, tpu.nozzle_temp_max, tpu.bed_temp), (210, 230, 45));
    let other = FilamentTray::new(0, "NYLON", "FFFFFFFF");
    assert_eq!((other.nozzle_temp_min, other.nozzle_temp_max, other.bed_temp), (200, 220, 60));
    let lower = FilamentTray::new(0, "pla", "FFFFFFFF");
    assert_eq!(lower.nozzle_temp_min, 200);
}

#[test]
fn test_empty_tray() {
    let tray = FilamentTray::empty(3);
    assert_eq!(tray.id, 3);
    assert!(!tray.present);
    assert_eq!(tray.remaining_percent, 0);
    assert_eq!(tray.filament_type, "");
}

#[test]
fn test_consume_filament() {
    let mut tray = FilamentTray::new(0, "PLA", "FF5733FF");
    assert_eq!(tray.remaining_percent, 85);
    tray.consume(10);
    assert_eq!(tray.remaining_percent, 75);
    tray.consume(80);
    assert_eq!(tray.remaining_percent, 0); // Saturating sub
}

#[test]
fn test_consume_composes() {
    let mut a = FilamentTray::new(0, "PLA", "FF5733FF");
    a.consume(20);
    a.consume(30);
    let mut b = FilamentTray::new(0, "PLA", "FF5733FF");
    b.consume(50);
    assert_eq!(a.remaining_percent, b.remaining_percent);
    assert_eq!(a.remaining_percent, 35);
}
