//! The platform backends: the parts that decide and compute.
pub mod sysfs;
pub mod ucsi_debugfs;
