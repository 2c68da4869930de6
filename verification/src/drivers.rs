//! Concrete device drivers.

pub mod e1000;

pub mod rtl8139;

pub mod template_driver;
