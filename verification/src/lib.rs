//! Bus discovery and storage-controller bring-up for a small x86 kernel,
//! together with the kernel's small helpers.
//!
//! Discovery works on a snapshot of the PCI configuration space
//! ([`config_space`]). Words, longs and bytes are read from it as the
//! access mechanism yields them, and a function's header is decoded from
//! them ([`pci`]). A function's capability chain is walked record by
//! record ([`capability`]), and buses, devices and functions are scanned
//! from bus 0 through bridges into a registry ([`enumerator`]); what
//! holds of every scan is proved in [`scan_laws`]. A SATA controller that
//! the walk recognises is brought up, and its memory-mapped registers are
//! decoded from a snapshot of their window ([`ahci`]). Headers and
//! records can be written into a snapshot, and decoding yields back what
//! was written ([`encode`], [`capability_store`]). Diagnostic text is
//! rendered by [`report`] and [`text`].
//!
//! The other modules hold the kernel's address translation
//! ([`memlayout`]), the clock's date ([`time`]), the audio controller's
//! capabilities ([`hda`]), scope guards ([`lock`], [`scope_guard`]), file
//! reads ([`file`]), the terminal's control sequences ([`ansi_escape`]),
//! the sanitizer's messages ([`ubsanitizer`]), the frame buffer
//! ([`gui`]), device names ([`libpci`]), request codes ([`ioctl`]), a
//! first function for callers written in C ([`example`]) and plain
//! records ([`bindings`], [`kernel_binding`]).

pub mod ahci;
pub mod ansi_escape;
pub mod bindings;
pub mod capability;
pub mod capability_store;
pub mod config_space;
pub mod encode;
pub mod enumerator;
pub mod example;
pub mod file;
pub mod gui;
pub mod hda;
pub mod ioctl;
pub mod kernel_binding;
pub mod libpci;
pub mod lock;
pub mod memlayout;
pub mod pci;
pub mod report;
pub mod scan_laws;
pub mod scope_guard;
pub mod text;
pub mod time;
pub mod ubsanitizer;
