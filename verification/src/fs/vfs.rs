//! Virtual-filesystem interfaces.
//!
//! Minimal node, directory, filesystem and block-device capabilities
//! that concrete filesystems implement. The traits are pure interfaces:
//! each implementation states its own behaviour in its own contracts.

use vstd::prelude::*;

verus! {

/// File type of a filesystem node.
#[derive(Debug, Clone, Copy, PartialEq, Eq, Structural)]
pub enum FileType {
    Regular,
    Directory,
    Other,
}

/// File permissions.
#[derive(Debug, Clone, Copy, PartialEq, Eq, Structural)]
pub struct Permissions {
    pub read: bool,
    pub write: bool,
    pub execute: bool,
}

impl Permissions {
    /// Default permissions: readable and writable, not executable.
    pub fn new() -> (r: Permissions)
        ensures
            r == (Permissions { read: true, write: true, execute: false }),
    {
        Permissions { read: true, write: true, execute: false }
    }
}

/// Metadata of a filesystem node.
#[derive(Debug, Clone, Copy)]
pub struct Metadata {
    pub file_type: FileType,
    pub size: u64,
    pub permissions: Permissions,
}

/// One directory entry.
#[derive(Debug, Clone)]
pub struct DirEntry {
    pub name: String,
    pub inode: u64,
    pub file_type: FileType,
}

/// Filesystem operation errors.
#[derive(Debug, Clone, Copy, PartialEq, Eq, Structural)]
pub enum FsError {
    NotFound,
    NotDirectory,
    AlreadyExists,
    IoError,
    InvalidArgument,
    Unsupported,
}

impl FsError {
    /// A short description of the error.
    pub fn as_str(&self) -> (r: &'static str)
        ensures
            self is NotFound ==> r@ == "not found"@,
            self is NotDirectory ==> r@ == "not a directory"@,
            self is AlreadyExists ==> r@ == "already exists"@,
            self is IoError ==> r@ == "i/o error"@,
            self is InvalidArgument ==> r@ == "invalid argument"@,
            self is Unsupported ==> r@ == "operation unsupported"@,
    {
        match self {
            FsError::NotFound => "not found",
            FsError::NotDirectory => "not a directory",
            FsError::AlreadyExists => "already exists",
            FsError::IoError => "i/o error",
            FsError::InvalidArgument => "invalid argument",
            FsError::Unsupported => "operation unsupported",
        }
    }
}

/// File-like operations.
pub trait FileOps {
    fn read(&self, offset: u64, buf: &mut Vec<u8>) -> Result<usize, FsError>;

    fn write(&self, offset: u64, buf: &[u8]) -> Result<usize, FsError>;

    fn truncate(&self, size: u64) -> Result<(), FsError>;

    fn sync(&self) -> Result<(), FsError>;
}

/// Directory operations, named over entries.
pub trait DirOps {
    fn readdir(&self) -> Result<Vec<DirEntry>, FsError>;

    fn lookup(&self, name: &str) -> Result<DirEntry, FsError>;

    fn create(&self, name: &str, perms: Permissions) -> Result<DirEntry, FsError>;

    fn mkdir(&self, name: &str, perms: Permissions) -> Result<DirEntry, FsError>;

    fn unlink(&self, name: &str) -> Result<(), FsError>;
}

/// A filesystem node: a file or a directory.
pub trait VfsNode {
    fn node_type(&self) -> FileType;

    fn metadata(&self) -> Result<Metadata, FsError>;

    fn set_metadata(&self, metadata: &Metadata) -> Result<(), FsError>;
}

/// Filesystem-level operations used by a mount manager.
pub trait FilesystemOps {
    type Root;

    fn root(&self) -> Self::Root;

    fn sync(&self) -> Result<(), FsError>;

    fn unmount(&self) -> Result<(), FsError>;
}

/// Block-device capability a filesystem is mounted over; implemented by
/// the storage layer's users.
pub trait BlockDevice {
    fn read_blocks(&self, lba: u64, buf: &mut Vec<u8>) -> Result<(), FsError>;

    fn write_blocks(&self, lba: u64, buf: &[u8]) -> Result<(), FsError>;

    fn sector_size(&self) -> usize;
}

} // verus!
