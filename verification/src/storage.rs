//! Storage drivers.

pub mod ahci;

pub mod ata;
