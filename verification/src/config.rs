//! The fixed configuration the storage interface is brought up with.
//!
//! The native layer takes these as three configuration records plus a
//! permission word for directory creation. They are modelled here as plain
//! integers and booleans — the native record stores the I/O voltage as a
//! floating-point volt figure, which is carried here in millivolts — and the
//! constructors pin every default the mount call relies on.

use vstd::prelude::*;

verus! {

/// Permission bits handed to the native mkdir call: read and write for
/// owner, group and others (octal 666).
pub const MKDIR_PERMISSIONS: u32 = 0o666;

/// Host controller configuration: which slot to drive, how fast, and at what
/// voltage (in millivolts; the native record keeps volts).
#[derive(Clone, Copy, Debug, PartialEq, Eq, Structural)]
pub struct HostConfig {
    /// Bus width capability flags; bit 0 alone selects a single data line.
    pub flags: u32,
    pub slot: i32,
    pub max_freq_khz: i32,
    pub io_voltage_mv: u32,
    pub command_timeout_ms: i32,
}

impl HostConfig {
    /// The fixed host configuration used for every mount: single-line bus,
    /// slot 1, a 20 MHz clock ceiling, 3.3 V I/O, and no command timeout
    /// override.
    pub fn new() -> (c: HostConfig)
        ensures
            c == (HostConfig {
                flags: 0x0001u32,
                slot: 1i32,
                max_freq_khz: 20_000i32,
                io_voltage_mv: 3300u32,
                command_timeout_ms: 0i32,
            }),
    {
        HostConfig {
            flags: 0x0001,
            slot: 1,
            max_freq_khz: 20_000,
            io_voltage_mv: 3300,
            command_timeout_ms: 0,
        }
    }
}

/// Slot wiring configuration: card-detect and write-protect lines (negative
/// means not connected) and the slot's wired data width.
#[derive(Clone, Copy, Debug, PartialEq, Eq, Structural)]
pub struct SlotConfig {
    pub gpio_cd: i32,
    pub gpio_wp: i32,
    pub width: u8,
    pub flags: u32,
}

impl SlotConfig {
    /// The fixed slot configuration used for every mount: no card-detect or
    /// write-protect line, four data lines wired, no extra flags.
    pub fn new() -> (c: SlotConfig)
        ensures
            c == (SlotConfig { gpio_cd: -1i32, gpio_wp: -1i32, width: 4u8, flags: 0u32 }),
    {
        SlotConfig { gpio_cd: -1, gpio_wp: -1, width: 4, flags: 0 }
    }
}

/// Mount-time filesystem configuration.
#[derive(Clone, Copy, Debug, PartialEq, Eq, Structural)]
pub struct MountConfig {
    /// Never reformat the card when mounting fails.
    pub format_if_mount_failed: bool,
    /// Cap on simultaneously open files.
    pub max_files: i32,
    /// Allocation unit size for a (never requested) format; zero keeps the
    /// native default.
    pub allocation_unit_size: usize,
}

impl MountConfig {
    /// The fixed mount configuration: no format on failure, at most five
    /// open files, default allocation unit.
    pub fn new() -> (c: MountConfig)
        ensures
            c == (MountConfig {
                format_if_mount_failed: false,
                max_files: 5i32,
                allocation_unit_size: 0usize,
            }),
    {
        MountConfig { format_if_mount_failed: false, max_files: 5, allocation_unit_size: 0 }
    }
}

} // verus!
