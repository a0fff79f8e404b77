//! The fixed configuration records the mount call is made with.

use sdmmc::config::{HostConfig, MountConfig, SlotConfig, MKDIR_PERMISSIONS};

#[test]
fn host_defaults() {
    let c = HostConfig::new();
    assert_eq!(c.flags, 0x0001);
    assert_eq!(c.slot, 1);
    assert_eq!(c.max_freq_khz, 20_000);
    assert_eq!(c.io_voltage_mv, 3300);
    assert_eq!(c.command_timeout_ms, 0);
}

#[test]
fn slot_defaults() {
    let c = SlotConfig::new();
    assert_eq!(c.gpio_cd, -1);
    assert_eq!(c.gpio_wp, -1);
    assert_eq!(c.width, 4);
    assert_eq!(c.flags, 0);
}

#[test]
fn mount_defaults() {
    let c = MountConfig::new();
    assert!(!c.format_if_mount_failed);
    assert_eq!(c.max_files, 5);
    assert_eq!(c.allocation_unit_size, 0);
}

#[test]
fn mkdir_permission_bits_are_rw_for_all() {
    assert_eq!(MKDIR_PERMISSIONS, 0o666);
    assert_eq!(MKDIR_PERMISSIONS, 438);
}
