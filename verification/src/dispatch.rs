//! Dispatch: carries a decoded command out against the color store and
//! the SysEx encoder.
//!
//! Each command yields the exact device messages to transmit, in order.
//! Only a single-cell palette set touches the color store; every other
//! command leaves it as it was.

use vstd::prelude::*;

use crate::protocol::Command;
use crate::protocol::CommandModel;
use crate::protocol::spec_command_wf;
use crate::store::ColorStore;
use crate::store::spec_slot;
use crate::sysex::encode_grid_color;
use crate::sysex::encode_grid_raw;
use crate::sysex::encode_grid_rgb;
use crate::sysex::encode_tile_rgb;
use crate::sysex::spec_grid_color;
use crate::sysex::spec_grid_raw;
use crate::sysex::spec_grid_rgb;
use crate::sysex::spec_light_on;
use crate::sysex::spec_tile_rgb;

verus! {

/// Executes one decoded command: updates the color store where the
/// command asks for it and returns the device messages to send, in order.
pub fn dispatch(store: &mut ColorStore, command: &Command) -> (msgs: Vec<Vec<u8>>)
    requires
        old(store).wf(),
        spec_command_wf(command@),
    ensures
        final(store).wf(),
        match command@ {
            CommandModel::Noop => msgs@.len() == 0 && final(store)@ == old(store)@,
            CommandModel::SetTileColor(position, color) => {
                &&& msgs@.len() == 1
                &&& msgs@[0]@ == spec_light_on(position, color)
                &&& final(store)@ == old(store)@.update(spec_slot(position), color)
            },
            CommandModel::SetTileRgb(position, r, g, b) => {
                &&& msgs@.len() == 1
                &&& msgs@[0]@ == spec_tile_rgb(position, r, g, b)
                &&& final(store)@ == old(store)@
            },
            CommandModel::SetGridRaw(payload) => {
                &&& msgs@.len() == 1
                &&& msgs@[0]@ == spec_grid_raw(payload)
                &&& final(store)@ == old(store)@
            },
            CommandModel::SetGridColor(colors) => {
                &&& msgs@.len() == 1
                &&& msgs@[0]@ == spec_grid_color(colors)
                &&& final(store)@ == old(store)@
            },
            CommandModel::SetGridRgb(rgb) => {
                &&& msgs@.len() == 1
                &&& msgs@[0]@ == spec_grid_rgb(rgb)
                &&& final(store)@ == old(store)@
            },
        },
{
    let mut msgs: Vec<Vec<u8>> = Vec::new();
    match command {
        Command::Noop => {},
        Command::SetTileColor(position, color) => {
            let msg = store.light_on(*position, *color);
            msgs.push(msg);
        },
        Command::SetTileRgb(position, r, g, b) => {
            let msg = encode_tile_rgb(*position, *r, *g, *b);
            msgs.push(msg);
        },
        Command::SetGridRaw(payload) => {
            let msg = encode_grid_raw(payload);
            msgs.push(msg);
        },
        Command::SetGridColor(colors) => {
            let msg = encode_grid_color(colors);
            msgs.push(msg);
        },
        Command::SetGridRgb(rgb) => {
            let msg = encode_grid_rgb(rgb);
            msgs.push(msg);
        },
    }
    msgs
}

} // verus!
