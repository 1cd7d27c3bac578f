//! Command protocol decoder: turns an inbound wire frame into a typed
//! instruction with its operands.
//!
//! A frame is one instruction-id byte followed by the payload. Unknown ids
//! decode to `Noop` — they are silently ignored, never an error. A payload
//! shorter than the instruction needs is a decode error, as is an operand
//! the device cannot address (a malformed position, a palette color above
//! 127): the frame fails closed and no device state changes.

use vstd::prelude::*;

use crate::grid::spec_valid_position;

verus! {

/// The instruction kinds of the wire protocol, keyed by the frame's id
/// byte.
#[derive(Clone, Copy, PartialEq, Eq, Debug, Structural)]
pub enum Instruction {
    /// Any id outside the dispatch table: ignored.
    Noop,
    /// Id 0x03: set one cell's palette color.
    SetTileColor,
    /// Id 0x04: set one cell's RGB color.
    SetTileRgb,
    /// Id 0x05: repaint the grid from pre-tagged raw body bytes.
    SetGridRaw,
    /// Id 0x06: repaint the grid from 64 palette colors.
    SetGridColor,
    /// Id 0x07: repaint the grid from 64 RGB triples.
    SetGridRgb,
}

/// The instruction kind an id byte selects.
pub open spec fn spec_instruction(id: u8) -> Instruction {
    if id == 0x03 {
        Instruction::SetTileColor
    } else if id == 0x04 {
        Instruction::SetTileRgb
    } else if id == 0x05 {
        Instruction::SetGridRaw
    } else if id == 0x06 {
        Instruction::SetGridColor
    } else if id == 0x07 {
        Instruction::SetGridRgb
    } else {
        Instruction::Noop
    }
}

/// Maps a frame's id byte to its instruction kind; every id outside the
/// table is `Noop`.
pub fn get_instruction(id: u8) -> (instruction: Instruction)
    ensures
        instruction == spec_instruction(id),
{
    match id {
        0x03 => Instruction::SetTileColor,
        0x04 => Instruction::SetTileRgb,
        0x05 => Instruction::SetGridRaw,
        0x06 => Instruction::SetGridColor,
        0x07 => Instruction::SetGridRgb,
        _ => Instruction::Noop,
    }
}

/// A decoded instruction together with its operands, ready to dispatch.
pub enum Command {
    /// Ignored frame: nothing to do.
    Noop,
    /// Set the cell at the position to the palette color.
    SetTileColor(u8, u8),
    /// Set the cell at the position to the RGB color.
    SetTileRgb(u8, u8, u8, u8),
    /// Repaint the grid from 192 pre-tagged raw body bytes.
    SetGridRaw(Vec<u8>),
    /// Repaint the grid from 64 palette colors in row-major order.
    SetGridColor(Vec<u8>),
    /// Repaint the grid from 64 RGB triples (192 bytes) in row-major order.
    SetGridRgb(Vec<u8>),
}

/// The mathematical shape of a decoded command: `Command` with its byte
/// buffers abstracted to sequences.
pub enum CommandModel {
    Noop,
    SetTileColor(u8, u8),
    SetTileRgb(u8, u8, u8, u8),
    SetGridRaw(Seq<u8>),
    SetGridColor(Seq<u8>),
    SetGridRgb(Seq<u8>),
}

impl View for Command {
    type V = CommandModel;

    open spec fn view(&self) -> CommandModel {
        match self {
            Command::Noop => CommandModel::Noop,
            Command::SetTileColor(position, color) => CommandModel::SetTileColor(
                *position,
                *color,
            ),
            Command::SetTileRgb(position, r, g, b) => CommandModel::SetTileRgb(
                *position,
                *r,
                *g,
                *b,
            ),
            Command::SetGridRaw(payload) => CommandModel::SetGridRaw(payload@),
            Command::SetGridColor(colors) => CommandModel::SetGridColor(colors@),
            Command::SetGridRgb(rgb) => CommandModel::SetGridRgb(rgb@),
        }
    }
}

/// Why a frame was rejected.
#[derive(Clone, Copy, PartialEq, Eq, Debug, Structural)]
pub enum DecodeError {
    /// The frame ends before the instruction's payload does.
    ShortFrame,
    /// A position operand is not a device-valid cell address.
    InvalidPosition,
    /// A palette color operand is above 127.
    InvalidColor,
}

/// What a well-formed frame decodes to, and why an ill-formed one is
/// rejected. The payload starts at frame offset 1; a payload longer than
/// the instruction needs is ignored past the needed length.
pub open spec fn spec_decode(frame: Seq<u8>) -> Result<CommandModel, DecodeError> {
    if frame.len() < 1 {
        Err(DecodeError::ShortFrame)
    } else {
        let id = frame[0];
        let payload = frame.skip(1);
        if id == 0x03 {
            if payload.len() < 2 {
                Err(DecodeError::ShortFrame)
            } else if !spec_valid_position(payload[0]) {
                Err(DecodeError::InvalidPosition)
            } else if payload[1] > 127 {
                Err(DecodeError::InvalidColor)
            } else {
                Ok(CommandModel::SetTileColor(payload[0], payload[1]))
            }
        } else if id == 0x04 {
            if payload.len() < 4 {
                Err(DecodeError::ShortFrame)
            } else if !spec_valid_position(payload[0]) {
                Err(DecodeError::InvalidPosition)
            } else {
                Ok(CommandModel::SetTileRgb(payload[0], payload[1], payload[2], payload[3]))
            }
        } else if id == 0x05 {
            if payload.len() < 192 {
                Err(DecodeError::ShortFrame)
            } else {
                Ok(CommandModel::SetGridRaw(payload.take(192)))
            }
        } else if id == 0x06 {
            if payload.len() < 64 {
                Err(DecodeError::ShortFrame)
            } else if exists|i: int| 0 <= i < 64 && payload[i] > 127 {
                Err(DecodeError::InvalidColor)
            } else {
                Ok(CommandModel::SetGridColor(payload.take(64)))
            }
        } else if id == 0x07 {
            if payload.len() < 192 {
                Err(DecodeError::ShortFrame)
            } else {
                Ok(CommandModel::SetGridRgb(payload.take(192)))
            }
        } else {
            Ok(CommandModel::Noop)
        }
    }
}

/// What decoding guarantees of every command it accepts: positions are
/// device-valid, palette colors fit in 7 bits, grid payloads have their
/// exact length.
pub open spec fn spec_command_wf(command: CommandModel) -> bool {
    match command {
        CommandModel::Noop => true,
        CommandModel::SetTileColor(position, color) => spec_valid_position(position) && color
            <= 127,
        CommandModel::SetTileRgb(position, r, g, b) => spec_valid_position(position),
        CommandModel::SetGridRaw(payload) => payload.len() == 192,
        CommandModel::SetGridColor(colors) => colors.len() == 64 && (forall|i: int|
            0 <= i < 64 ==> colors[i] <= 127),
        CommandModel::SetGridRgb(rgb) => rgb.len() == 192,
    }
}

/// Copies `count` payload bytes out of `frame`, starting right after the
/// id byte.
fn copy_payload(frame: &Vec<u8>, count: usize) -> (out: Vec<u8>)
    requires
        frame@.len() >= 1 + count,
    ensures
        out@ == frame@.skip(1).take(count as int),
{
    let mut out: Vec<u8> = Vec::new();
    let mut i: usize = 0;
    while i < count
        invariant
            frame@.len() >= 1 + count,
            i <= count,
            out@.len() == i,
            forall|j: int| 0 <= j < i ==> out@[j] == frame@[1 + j],
        decreases count - i,
    {
        out.push(frame[1 + i]);
        i = i + 1;
    }
    proof {
        assert(out@ =~= frame@.skip(1).take(count as int));
    }
    out
}

/// Decodes one wire frame into a command, or rejects it: short frames and
/// operands the device cannot address fail closed, unknown ids decode to
/// `Noop`.
pub fn decode(frame: &Vec<u8>) -> (result: Result<Command, DecodeError>)
    ensures
        match result {
            Ok(command) => {
                &&& spec_decode(frame@) == Ok::<CommandModel, DecodeError>(command@)
                &&& spec_command_wf(command@)
            },
            Err(error) => spec_decode(frame@) == Err::<CommandModel, DecodeError>(error),
        },
{
    if frame.len() < 1 {
        return Err(DecodeError::ShortFrame);
    }
    let id = frame[0];
    match get_instruction(id) {
        Instruction::SetTileColor => {
            if frame.len() < 3 {
                return Err(DecodeError::ShortFrame);
            }
            let position = frame[1];
            let color = frame[2];
            if !valid_position(position) {
                return Err(DecodeError::InvalidPosition);
            }
            if color > 127 {
                return Err(DecodeError::InvalidColor);
            }
            Ok(Command::SetTileColor(position, color))
        },
        Instruction::SetTileRgb => {
            if frame.len() < 5 {
                return Err(DecodeError::ShortFrame);
            }
            let position = frame[1];
            if !valid_position(position) {
                return Err(DecodeError::InvalidPosition);
            }
            Ok(Command::SetTileRgb(position, frame[2], frame[3], frame[4]))
        },
        Instruction::SetGridRaw => {
            if frame.len() < 193 {
                return Err(DecodeError::ShortFrame);
            }
            Ok(Command::SetGridRaw(copy_payload(frame, 192)))
        },
        Instruction::SetGridColor => {
            if frame.len() < 65 {
                return Err(DecodeError::ShortFrame);
            }
            let mut i: usize = 0;
            while i < 64
                invariant
                    frame@.len() >= 65,
                    frame@[0] == 0x06,
                    i <= 64,
                    forall|j: int| 0 <= j < i ==> frame@.skip(1)[j] <= 127,
                decreases 64 - i,
            {
                if frame[1 + i] > 127 {
                    proof {
                        assert(frame@.skip(1)[i as int] > 127);
                    }
                    return Err(DecodeError::InvalidColor);
                }
                i = i + 1;
            }
            Ok(Command::SetGridColor(copy_payload(frame, 64)))
        },
        Instruction::SetGridRgb => {
            if frame.len() < 193 {
                return Err(DecodeError::ShortFrame);
            }
            Ok(Command::SetGridRgb(copy_payload(frame, 192)))
        },
        Instruction::Noop => Ok(Command::Noop),
    }
}

/// Runtime check of `spec_valid_position`: both decimal digits in
/// `[1, 8]`.
pub fn valid_position(position: u8) -> (ok: bool)
    ensures
        ok == spec_valid_position(position),
{
    let units = position % 10;
    let tens = position / 10;
    1 <= units && units <= 8 && 1 <= tens && tens <= 8
}

} // verus!
