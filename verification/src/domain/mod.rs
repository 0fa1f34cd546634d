//! Domain module: the VM entity and its lifecycle, host checks and resources.
pub mod repository;
pub mod requirements;
pub mod resources;
pub mod vm;
