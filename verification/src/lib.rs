//! Verified core of the veln virtual machine manager for FreeBSD bhyve:
//! the VM lifecycle, host resource rules, bhyve and ZFS naming, cloud-init
//! documents, API authorization decisions and the text they are made of.
pub mod api_key_commands;
pub mod application;
pub mod command;
pub mod config;
pub mod domain;
pub mod error;
pub mod infrastructure;
pub mod text;
