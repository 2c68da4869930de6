//! Sound drivers.

pub mod ac97;

pub mod hda;
