use vstd::prelude::*;
use crate::status::{DacalStatus, StatusModel};

verus! {

/// A failure reported by the USB transport, one variant for each kind of
/// transport error, plus `Malformed` for a response too short to decode.
#[derive(Clone, Copy, Debug, PartialEq, Eq, Structural)]
pub enum TransportError {
    Io,
    InvalidParam,
    Access,
    NoDevice,
    NotFound,
    Busy,
    Timeout,
    Overflow,
    Pipe,
    Interrupted,
    NoMem,
    NotSupported,
    BadDescriptor,
    Malformed,
    Other,
}

/// The unified error of every spindle operation.
#[derive(Debug)]
pub enum SpindleError {
    Io,
    NoAccess,
    NoSpindle { id: u16 },
    NoSlot { id: u16, number: u8 },
    Busy { id: u16 },
    Timeout,
    NoMem,
    UnsupportedOperation,
    ErrorStatus { status: DacalStatus },
    Unknown,
}

/// The mathematical value of a `SpindleError`.
pub enum ErrorModel {
    Io,
    NoAccess,
    NoSpindle { id: u16 },
    NoSlot { id: u16, number: u8 },
    Busy { id: u16 },
    Timeout,
    NoMem,
    UnsupportedOperation,
    ErrorStatus { status: StatusModel },
    Unknown,
}

impl View for SpindleError {
    type V = ErrorModel;

    open spec fn view(&self) -> ErrorModel {
        match self {
            SpindleError::Io => ErrorModel::Io,
            SpindleError::NoAccess => ErrorModel::NoAccess,
            SpindleError::NoSpindle { id } => ErrorModel::NoSpindle { id: *id },
            SpindleError::NoSlot { id, number } => ErrorModel::NoSlot { id: *id, number: *number },
            SpindleError::Busy { id } => ErrorModel::Busy { id: *id },
            SpindleError::Timeout => ErrorModel::Timeout,
            SpindleError::NoMem => ErrorModel::NoMem,
            SpindleError::UnsupportedOperation => ErrorModel::UnsupportedOperation,
            SpindleError::ErrorStatus { status } => ErrorModel::ErrorStatus { status: status@ },
            SpindleError::Unknown => ErrorModel::Unknown,
        }
    }
}

/// Why one command of a sequence failed: the transfer itself, or the status
/// text that the device answered with.
#[derive(Debug)]
pub enum CommandError {
    Transport { error: TransportError },
    Device { status: DacalStatus },
}

/// The mathematical value of a `CommandError`.
pub enum CommandErrorModel {
    Transport { error: TransportError },
    Device { status: StatusModel },
}

impl View for CommandError {
    type V = CommandErrorModel;

    open spec fn view(&self) -> CommandErrorModel {
        match self {
            CommandError::Transport { error } => CommandErrorModel::Transport { error: *error },
            CommandError::Device { status } => CommandErrorModel::Device { status: status@ },
        }
    }
}

/// The error a transport failure stands for when no device id gives it context.
pub open spec fn transport_error_spec(e: TransportError) -> ErrorModel {
    match e {
        TransportError::Io => ErrorModel::Io,
        TransportError::NotSupported => ErrorModel::UnsupportedOperation,
        TransportError::Access => ErrorModel::NoAccess,
        _ => ErrorModel::Unknown,
    }
}

impl From<TransportError> for SpindleError {
    fn from(e: TransportError) -> (r: SpindleError)
        ensures
            r@ == transport_error_spec(e),
    {
        match e {
            TransportError::Io => SpindleError::Io,
            TransportError::NotSupported => SpindleError::UnsupportedOperation,
            TransportError::Access => SpindleError::NoAccess,
            _ => SpindleError::Unknown,
        }
    }
}

impl vstd::std_specs::convert::FromSpecImpl<TransportError> for SpindleError {
    open spec fn obeys_from_spec() -> bool {
        true
    }

    open spec fn from_spec(e: TransportError) -> SpindleError {
        match e {
            TransportError::Io => SpindleError::Io,
            TransportError::NotSupported => SpindleError::UnsupportedOperation,
            TransportError::Access => SpindleError::NoAccess,
            _ => SpindleError::Unknown,
        }
    }
}

/// How a failed command of the device with id `id` surfaces to the caller:
/// a busy transport and a busy device are both `Busy { id }`, any other
/// device status is `ErrorStatus`, and other transport failures are mapped
/// as by `transport_error_spec`.
pub open spec fn classify_spec(id: u16, e: CommandErrorModel) -> ErrorModel {
    match e {
        CommandErrorModel::Transport { error: TransportError::Busy } => ErrorModel::Busy { id },
        CommandErrorModel::Device { status: StatusModel::Busy } => ErrorModel::Busy { id },
        CommandErrorModel::Transport { error } => transport_error_spec(error),
        CommandErrorModel::Device { status } => ErrorModel::ErrorStatus { status },
    }
}

/// Merges a failed command into the spindle error taxonomy.
pub fn classify(id: u16, e: CommandError) -> (r: SpindleError)
    ensures
        r@ == classify_spec(id, e@),
{
    match e {
        CommandError::Transport { error: TransportError::Busy } => SpindleError::Busy { id },
        CommandError::Device { status: DacalStatus::Busy } => SpindleError::Busy { id },
        CommandError::Transport { error } => SpindleError::from(error),
        CommandError::Device { status } => SpindleError::ErrorStatus { status },
    }
}

} // verus!
