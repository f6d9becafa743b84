//! The fixed 16-byte command frame sent over the serial link for one
//! actuator target.

use vstd::prelude::*;
use crate::actuator::ActuatorId;

verus! {

/// Length of every command frame, in bytes.
pub const FRAME_LEN: usize = 16;

/// Byte 0 of every frame: the frame start marker.
pub const FRAME_MARKER: u8 = 0xff;

/// Bytes 1 through 4 of every frame: the magic header.
pub const MAGIC_0: u8 = 0x04;

pub const MAGIC_1: u8 = 0x0c;

pub const MAGIC_2: u8 = 0x08;

pub const MAGIC_3: u8 = 0x0e;

/// Bytes 5 and 6 of every frame: the "set servo position" command code.
pub const COMMAND_0: u8 = 0x05;

pub const COMMAND_1: u8 = 0x08;

/// Byte 15 of every frame: the newline terminator.
pub const TERMINATOR: u8 = 0x0a;

/// The 16 bytes of the frame that drives actuator `id` to position
/// `pos`: marker, magic header, command code, six reserved zero bytes,
/// the actuator's wire code, the position byte, and the terminator.
pub open spec fn spec_frame(id: ActuatorId, pos: u8) -> Seq<u8> {
    seq![
        FRAME_MARKER,
        MAGIC_0,
        MAGIC_1,
        MAGIC_2,
        MAGIC_3,
        COMMAND_0,
        COMMAND_1,
        0u8,
        0u8,
        0u8,
        0u8,
        0u8,
        0u8,
        id.spec_code(),
        pos,
        TERMINATOR,
    ]
}

/// One command for the actuator controller: an immutable 16-byte frame,
/// produced fresh for every send.
pub struct CommandFrame {
    bytes: Vec<u8>,
}

impl View for CommandFrame {
    type V = Seq<u8>;

    closed spec fn view(&self) -> Seq<u8> {
        self.bytes@
    }
}

impl CommandFrame {
    /// Encode the command that drives `id` to position `pos`. Total:
    /// every actuator code and every position byte has a frame.
    pub fn encode(id: ActuatorId, pos: u8) -> (f: CommandFrame)
        ensures
            f@ == spec_frame(id, pos),
            f@.len() == FRAME_LEN,
    {
        let mut bytes: Vec<u8> = Vec::new();
        bytes.push(FRAME_MARKER);
        bytes.push(MAGIC_0);
        bytes.push(MAGIC_1);
        bytes.push(MAGIC_2);
        bytes.push(MAGIC_3);
        bytes.push(COMMAND_0);
        bytes.push(COMMAND_1);
        bytes.push(0);
        bytes.push(0);
        bytes.push(0);
        bytes.push(0);
        bytes.push(0);
        bytes.push(0);
        bytes.push(id.code());
        bytes.push(pos);
        bytes.push(TERMINATOR);
        proof {
            assert(bytes@ =~= spec_frame(id, pos));
        }
        CommandFrame { bytes }
    }

    /// The frame's bytes, in wire order, for handing to the transport.
    pub fn bytes(&self) -> (b: &Vec<u8>)
        ensures
            b@ == self@,
    {
        &self.bytes
    }
}

/// Every command frame is exactly 16 bytes; its marker, magic header,
/// command code, reserved bytes and terminator are fixed regardless of
/// which actuator and position are sent, and only bytes 13 and 14 carry
/// the target.
pub proof fn lemma_frame_fixed_bytes(a1: ActuatorId, p1: u8, a2: ActuatorId, p2: u8)
    ensures
        spec_frame(a1, p1).len() == FRAME_LEN,
        spec_frame(a1, p1)[0] == FRAME_MARKER,
        spec_frame(a1, p1)[1] == MAGIC_0,
        spec_frame(a1, p1)[2] == MAGIC_1,
        spec_frame(a1, p1)[3] == MAGIC_2,
        spec_frame(a1, p1)[4] == MAGIC_3,
        spec_frame(a1, p1)[5] == COMMAND_0,
        spec_frame(a1, p1)[6] == COMMAND_1,
        spec_frame(a1, p1)[13] == a1.spec_code(),
        spec_frame(a1, p1)[14] == p1,
        spec_frame(a1, p1)[15] == TERMINATOR,
        forall|i: int|
            0 <= i <= 6 || 7 <= i <= 12 || i == 15 ==> #[trigger] spec_frame(a1, p1)[i]
                == spec_frame(a2, p2)[i],
{
}

} // verus!
