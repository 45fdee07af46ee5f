use vstd::prelude::*;
use crate::error::{CommandError, CommandErrorModel, TransportError};
use crate::status::{decode_status, response_status, DacalStatus, StatusModel};

verus! {

/// Asks the device for its identification response.
pub const IDENTIFY: u8 = 0x0a;
/// Resets the device.
pub const RESET: u8 = 0x0b;
/// Moves the arm; the next command issued is the slot number to move to.
pub const MOVE_TO: u8 = 0x0c;
/// Retracts the arm.
pub const RETRACT: u8 = 0x0e;
/// Switches the indicator light on.
pub const LED_ON: u8 = 0x0f;
/// Switches the indicator light off.
pub const LED_OFF: u8 = 0x10;
/// Asks the device for its status.
pub const GET_STATUS: u8 = 0x11;

/// The lowest slot number.
pub const FIRST_SLOT: u8 = 1;
/// The highest slot number.
pub const LAST_SLOT: u8 = 150;

/// USB vendor id of the spindle.
pub const VENDOR_ID: u16 = 0x04b4;
/// USB product id of the spindle.
pub const PRODUCT_ID: u16 = 0x5a9b;

/// Request type of every command: device-to-host, standard, to the device.
pub const REQUEST_TYPE: u8 = 0x80;
/// The GET_DESCRIPTOR request that carries every command.
pub const GET_DESCRIPTOR: u8 = 0x06;
/// The string descriptor type, in the high byte of the request value.
pub const STRING_DESCRIPTOR: u16 = 0x0300;
/// The index field of every command.
pub const COMMAND_INDEX: u16 = 1033;
/// Timeout of every transfer, in milliseconds.
pub const TIMEOUT_MS: u64 = 1000;
/// Buffer size for the identification response.
pub const IDENTIFY_BUFFER: usize = 8;
/// Buffer size for every other response.
pub const COMMAND_BUFFER: usize = 255;

/// A USB control IN transfer that carries one command.
pub struct ControlRequest {
    pub request_type: u8,
    pub request: u8,
    pub value: u16,
    pub index: u16,
    pub length: usize,
    pub timeout_ms: u64,
}

/// Encodes command `code` as a string descriptor request whose descriptor
/// index is the code.
pub fn control_request(code: u8) -> (r: ControlRequest)
    ensures
        r.request_type == REQUEST_TYPE,
        r.request == GET_DESCRIPTOR,
        r.value == STRING_DESCRIPTOR + code,
        r.index == COMMAND_INDEX,
        r.length == (if code == IDENTIFY { IDENTIFY_BUFFER } else { COMMAND_BUFFER }),
        r.timeout_ms == TIMEOUT_MS,
{
    let value: u16 = STRING_DESCRIPTOR | (code as u16);
    assert((0x0300u16 | (code as u16)) == 0x0300u16 + (code as u16)) by (bit_vector)
        requires
            code <= 255,
    ;
    let length: usize = if code == IDENTIFY { IDENTIFY_BUFFER } else { COMMAND_BUFFER };
    ControlRequest {
        request_type: REQUEST_TYPE,
        request: GET_DESCRIPTOR,
        value,
        index: COMMAND_INDEX,
        length,
        timeout_ms: TIMEOUT_MS,
    }
}

/// The bytes read by a transfer, or its failure.
pub open spec fn read_view(read: Result<Vec<u8>, TransportError>) -> Result<Seq<u8>, TransportError> {
    match read {
        Ok(b) => Ok(b@),
        Err(e) => Err(e),
    }
}

/// What one command comes to, given what its transfer read: a failed
/// transfer fails the command, and so does any status but `Ack`.
pub open spec fn command_outcome_spec(read: Result<Seq<u8>, TransportError>) -> Result<(), CommandErrorModel> {
    match read {
        Err(error) => Err(CommandErrorModel::Transport { error }),
        Ok(b) => if response_status(b) == StatusModel::Ack {
            Ok(())
        } else {
            Err(CommandErrorModel::Device { status: response_status(b) })
        },
    }
}

/// The mathematical value of a command's outcome.
pub open spec fn outcome_view(r: Result<(), CommandError>) -> Result<(), CommandErrorModel> {
    match r {
        Ok(()) => Ok(()),
        Err(e) => Err(e@),
    }
}

/// Decides what one command came to, given what its transfer read.
pub fn command_outcome(read: Result<Vec<u8>, TransportError>) -> (r: Result<(), CommandError>)
    ensures
        outcome_view(r) == command_outcome_spec(read_view(read)),
{
    match read {
        Err(error) => Err(CommandError::Transport { error }),
        Ok(bytes) => {
            let status = decode_status(bytes.as_slice());
            match status {
                DacalStatus::Ack => Ok(()),
                _ => Err(CommandError::Device { status }),
            }
        },
    }
}

} // verus!
