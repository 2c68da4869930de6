//! Extended-filesystem placeholder.
//!
//! Only the in-memory node and filesystem shells exist; parsing the
//! on-disk layout is future work, so file and directory operations
//! answer `Unsupported` (or empty), exactly as stated here.

use vstd::prelude::*;

use crate::fs::vfs::{
    BlockDevice, DirEntry, DirOps, FileOps, FileType, FilesystemOps, FsError, Metadata,
    Permissions, VfsNode,
};

verus! {

/// In-memory placeholder node.
pub struct Ext2Node {
    pub name: String,
    pub node_type: FileType,
}

impl Ext2Node {
    /// A node with the given name and type.
    pub fn new(name: &str, node_type: FileType) -> (r: Ext2Node)
        ensures
            r.name@ == name@,
            r.node_type == node_type,
    {
        Ext2Node { name: name.to_owned(), node_type }
    }
}

impl VfsNode for Ext2Node {
    fn node_type(&self) -> FileType {
        self.node_type
    }

    fn metadata(&self) -> Result<Metadata, FsError> {
        Ok(Metadata { file_type: self.node_type, size: 0, permissions: Permissions::new() })
    }

    fn set_metadata(&self, _metadata: &Metadata) -> Result<(), FsError> {
        Err(FsError::Unsupported)
    }
}

impl FileOps for Ext2Node {
    fn read(&self, _offset: u64, _buf: &mut Vec<u8>) -> Result<usize, FsError> {
        Err(FsError::Unsupported)
    }

    fn write(&self, _offset: u64, _buf: &[u8]) -> Result<usize, FsError> {
        Err(FsError::Unsupported)
    }

    fn truncate(&self, _size: u64) -> Result<(), FsError> {
        Err(FsError::Unsupported)
    }

    fn sync(&self) -> Result<(), FsError> {
        Ok(())
    }
}

impl DirOps for Ext2Node {
    fn readdir(&self) -> Result<Vec<DirEntry>, FsError> {
        Ok(Vec::new())
    }

    fn lookup(&self, _name: &str) -> Result<DirEntry, FsError> {
        Err(FsError::NotFound)
    }

    fn create(&self, _name: &str, _perms: Permissions) -> Result<DirEntry, FsError> {
        Err(FsError::Unsupported)
    }

    fn mkdir(&self, _name: &str, _perms: Permissions) -> Result<DirEntry, FsError> {
        Err(FsError::Unsupported)
    }

    fn unlink(&self, _name: &str) -> Result<(), FsError> {
        Err(FsError::Unsupported)
    }
}

/// Filesystem placeholder over a block device.
pub struct Ext2Fs<D: BlockDevice> {
    device: D,
}

impl<D: BlockDevice> Ext2Fs<D> {
    /// A filesystem shell over `device`; its root is an empty directory
    /// node.
    pub fn new(device: D) -> (r: Ext2Fs<D>) {
        Ext2Fs { device }
    }

    /// The block device the filesystem was mounted over.
    pub fn device(&self) -> &D {
        &self.device
    }
}

impl<D: BlockDevice> FilesystemOps for Ext2Fs<D> {
    type Root = Ext2Node;

    fn root(&self) -> Ext2Node {
        Ext2Node::new("", FileType::Directory)
    }

    fn sync(&self) -> Result<(), FsError> {
        Ok(())
    }

    fn unmount(&self) -> Result<(), FsError> {
        Ok(())
    }
}

} // verus!
