//! Infrastructure module: what the ZFS, bhyve, cloud-init and HTTP layers
//! compute before and after they talk to the system.
pub mod api;
pub mod bhyve;
pub mod cloudinit;
pub mod jobs;
pub mod lifecycle;
pub mod zfs;
