//! Records that the kernel's file layer exchanges with its callers.

use vstd::prelude::*;

verus! {

/// Longest name of a directory entry.
pub const DIRSIZ: u32 = 254;

pub const PROT_READ: u32 = 1;

pub const PROT_WRITE: u32 = 2;

pub const MAP_SHARED: u32 = 1;

pub const O_RDONLY: i32 = 0;

pub const O_WRONLY: i32 = 1;

pub const O_RDWR: i32 = 2;

pub const O_CREATE: i32 = 512;

pub const O_APPEND: i32 = 1024;

/// What the kernel reports about a file.
#[allow(non_camel_case_types)]
#[derive(Debug, Copy, Clone, PartialEq, Eq)]
pub struct stat {
    pub st_dev: i32,
    pub st_ino: u32,
    pub st_nlink: i16,
    pub st_size: u64,
    pub st_mode: u32,
    pub st_uid: u16,
    pub st_gid: u16,
    pub st_ctime: u64,
    pub st_atime: u64,
    pub st_mtime: u64,
}

/// An inode as it is stored on disk.
#[allow(non_camel_case_types)]
#[derive(Debug, Copy, Clone, PartialEq, Eq)]
pub struct dinode {
    pub ctime: u64,
    pub atime: u64,
    pub mtime: u64,
    pub size: u64,
    pub mode: u32,
    pub gid: u16,
    pub uid: u16,
    pub addrs: [u64; 10],
    pub major: i16,
    pub minor: i16,
    pub nlink: i16,
}

/// A pipe; its contents belong to the kernel.
#[allow(non_camel_case_types)]
#[derive(Debug, PartialEq, Eq)]
pub struct pipe {
    _address: u8,
}

/// A processor; its contents belong to the kernel.
#[allow(non_camel_case_types)]
#[derive(Debug, PartialEq, Eq)]
pub struct cpu {
    _address: u8,
}

} // verus!
