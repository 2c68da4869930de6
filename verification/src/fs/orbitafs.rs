//! Beginnings of the OrbitaFS implementation.
//!
//! OrbitaFS is planned to provide journaling and snapshot support; for
//! now only the skeleton node and filesystem shells are defined, and
//! file and directory operations answer `Unsupported` (or empty),
//! exactly as stated here.

use vstd::prelude::*;

use crate::fs::vfs::{
    BlockDevice, DirEntry, DirOps, FileOps, FileType, FilesystemOps, FsError, Metadata,
    Permissions, VfsNode,
};

verus! {

/// In-memory placeholder node.
pub struct OrbitaNode {
    pub name: String,
    pub node_type: FileType,
}

impl OrbitaNode {
    /// A node with the given name and type.
    pub fn new(name: &str, node_type: FileType) -> (r: OrbitaNode)
        ensures
            r.name@ == name@,
            r.node_type == node_type,
    {
        OrbitaNode { name: name.to_owned(), node_type }
    }
}

impl VfsNode for OrbitaNode {
    fn node_type(&self) -> FileType {
        self.node_type
    }

    fn metadata(&self) -> Result<Metadata, FsError> {
        Ok(Metadata { file_type: self.node_type, size: 0, permissions: Permissions::new() })
    }

    fn set_metadata(&self, _metadata: &Metadata) -> Result<(), FsError> {
        Err(FsError::Unsupported)
    }
}

impl FileOps for OrbitaNode {
    fn read(&self, _offset: u64, _buf: &mut Vec<u8>) -> Result<usize, FsError> {
        Err(FsError::Unsupported)
    }

    fn write(&self, _offset: u64, _buf: &[u8]) -> Result<usize, FsError> {
        Err(FsError::Unsupported)
    }

    fn truncate(&self, _size: u64) -> Result<(), FsError> {
        Err(FsError::Unsupported)
    }

    fn sync(&self) -> Result<(), FsError> {
        Ok(())
    }
}

impl DirOps for OrbitaNode {
    fn readdir(&self) -> Result<Vec<DirEntry>, FsError> {
        Ok(Vec::new())
    }

    fn lookup(&self, _name: &str) -> Result<DirEntry, FsError> {
        Err(FsError::NotFound)
    }

    fn create(&self, _name: &str, _perms: Permissions) -> Result<DirEntry, FsError> {
        Err(FsError::Unsupported)
    }

    fn mkdir(&self, _name: &str, _perms: Permissions) -> Result<DirEntry, FsError> {
        Err(FsError::Unsupported)
    }

    fn unlink(&self, _name: &str) -> Result<(), FsError> {
        Err(FsError::Unsupported)
    }
}

/// Filesystem placeholder over a block device.
pub struct OrbitaFs<D: BlockDevice> {
    device: D,
}

impl<D: BlockDevice> OrbitaFs<D> {
    /// A filesystem shell over `device`; its root is an empty directory
    /// node.
    pub fn new(device: D) -> (r: OrbitaFs<D>) {
        OrbitaFs { device }
    }

    /// The block device the filesystem was mounted over.
    pub fn device(&self) -> &D {
        &self.device
    }
}

impl<D: BlockDevice> FilesystemOps for OrbitaFs<D> {
    type Root = OrbitaNode;

    fn root(&self) -> OrbitaNode {
        OrbitaNode::new("", FileType::Directory)
    }

    fn sync(&self) -> Result<(), FsError> {
        Ok(())
    }

    fn unmount(&self) -> Result<(), FsError> {
        Ok(())
    }
}

} // verus!
