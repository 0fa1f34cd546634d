//! Errors of the virtual machine manager.
use vstd::prelude::*;

verus! {

/// What can go wrong while managing virtual machines.
#[derive(Debug)]
pub enum VelnError {
    /// The command needs root privileges.
    RootRequired,
    /// A VM (or another named object) does not exist, or already does.
    VmNotFound(String),
    /// A ZFS command failed.
    ZfsError(String),
    /// The configuration is missing or invalid, or an operation was refused.
    Config(String),
    /// The host cannot run bhyve.
    HostRequirements(String),
    /// The host lacks memory, disk or CPU cores for a VM.
    InsufficientResources(String),
    /// A VM state change that the lifecycle does not allow: from, to.
    InvalidStateTransition(String, String),
    /// An operating-system error, by its message.
    Io(String),
}

/// The model of an error: its kind and its messages.
pub enum ErrorView {
    RootRequired,
    VmNotFound(Seq<char>),
    ZfsError(Seq<char>),
    Config(Seq<char>),
    HostRequirements(Seq<char>),
    InsufficientResources(Seq<char>),
    InvalidStateTransition(Seq<char>, Seq<char>),
    Io(Seq<char>),
}

impl View for VelnError {
    type V = ErrorView;

    open spec fn view(&self) -> ErrorView {
        match self {
            VelnError::RootRequired => ErrorView::RootRequired,
            VelnError::VmNotFound(m) => ErrorView::VmNotFound(m@),
            VelnError::ZfsError(m) => ErrorView::ZfsError(m@),
            VelnError::Config(m) => ErrorView::Config(m@),
            VelnError::HostRequirements(m) => ErrorView::HostRequirements(m@),
            VelnError::InsufficientResources(m) => ErrorView::InsufficientResources(m@),
            VelnError::InvalidStateTransition(a, b) => ErrorView::InvalidStateTransition(a@, b@),
            VelnError::Io(m) => ErrorView::Io(m@),
        }
    }
}

/// The result type of the manager's operations.
pub type Result<T> = core::result::Result<T, VelnError>;

} // verus!
