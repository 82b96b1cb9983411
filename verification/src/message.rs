//! The wire format: a three-byte Control Change message that sets the
//! channel volume.

use vstd::prelude::*;

verus! {

/// Status byte of a Control Change message on channel 0.
pub const CONTROL_CHANGE_STATUS: u8 = 0xB0;

/// Controller number of the channel volume.
pub const VOLUME_CONTROLLER: u8 = 0x07;

/// Largest value that a MIDI data byte can carry.
pub const MAX_DATA_VALUE: u8 = 127;

/// The bytes of the message that sets the volume to `value`: the status
/// byte, the controller number, the value.
pub open spec fn volume_message_bytes(value: u8) -> Seq<u8> {
    seq![CONTROL_CHANGE_STATUS, VOLUME_CONTROLLER, value]
}

/// Whether `bytes` are a Control Change message on channel 0: its status
/// byte, followed by a controller number and a value that are both data
/// bytes.
pub open spec fn is_control_change(bytes: Seq<u8>) -> bool {
    &&& bytes.len() == 3
    &&& bytes[0] == CONTROL_CHANGE_STATUS
    &&& bytes[1] <= MAX_DATA_VALUE
    &&& bytes[2] <= MAX_DATA_VALUE
}

/// Builds the message that sets the volume to `value`.
///
/// The bytes are a Control Change message exactly when `value` is a data
/// byte.
pub fn volume_message(value: u8) -> (message: [u8; 3])
    ensures
        message@ == volume_message_bytes(value),
        is_control_change(message@) <==> value <= MAX_DATA_VALUE,
{
    [CONTROL_CHANGE_STATUS, VOLUME_CONTROLLER, value]
}

} // verus!
