//! Filesystem interfaces and placeholder implementations.

pub mod ext2;

pub mod orbitafs;

pub mod vfs;
