//! SysEx encoder: builds the device's message shapes.
//!
//! Every System Exclusive message opens with the fixed six-byte header
//! `[240, 0, 32, 41, 2, 12]` (SysEx start plus manufacturer/device id) and
//! closes with `247` (SysEx end). The whole-grid messages carry one record
//! per cell, in row-major, row-ascending order; the device applies the
//! records in message order, so that order is part of the contract.
//! Single-cell palette lighting is not SysEx at all: it is a three-byte
//! Note-On message `[0x90, position, color]`.

use vstd::prelude::*;

use crate::grid::spec_position_for;
use crate::grid::position_for;

verus! {

/// The fixed SysEx header: start byte plus manufacturer/device id.
pub open spec fn spec_header() -> Seq<u8> {
    seq![240u8, 0u8, 32u8, 41u8, 2u8, 12u8]
}

/// The mode-toggle message: header, opcode 14, the flag (1 enables the
/// addressable "programmer" mode, 0 disables it), SysEx end.
pub open spec fn spec_mode_toggle(enable: bool) -> Seq<u8> {
    spec_header() + seq![14u8, (if enable { 1u8 } else { 0u8 }), 247u8]
}

/// The three-byte Note-On message that lights one cell with a palette color.
pub open spec fn spec_light_on(position: u8, color: u8) -> Seq<u8> {
    seq![144u8, position, color]
}

/// The device position of cell index `cell` under row-major iteration:
/// cell 0 is the top-left corner, cell 63 the bottom-right.
pub open spec fn spec_note(cell: int) -> u8 {
    spec_position_for(cell % 8, cell / 8) as u8
}

/// The first `n` three-byte records `[0, note, color]` of a palette-grid
/// message body, in row-major cell order.
pub open spec fn spec_grid_color_body(colors: Seq<u8>, n: int) -> Seq<u8>
    decreases n,
{
    if n <= 0 {
        Seq::empty()
    } else {
        spec_grid_color_body(colors, n - 1) + seq![0u8, spec_note(n - 1), colors[n - 1]]
    }
}

/// The whole-grid palette message: header, grid opcode 3, one `[0, note,
/// color]` record per cell, SysEx end.
pub open spec fn spec_grid_color(colors: Seq<u8>) -> Seq<u8> {
    spec_header() + seq![3u8] + spec_grid_color_body(colors, 64) + seq![247u8]
}

/// The first `n` five-byte records `[3, note, r, g, b]` of an RGB-grid
/// message body, in row-major cell order. `rgb` holds the 64 channel
/// triples back to back.
pub open spec fn spec_grid_rgb_body(rgb: Seq<u8>, n: int) -> Seq<u8>
    decreases n,
{
    if n <= 0 {
        Seq::empty()
    } else {
        spec_grid_rgb_body(rgb, n - 1)
            + seq![3u8, spec_note(n - 1), rgb[3 * (n - 1)], rgb[3 * (n - 1) + 1], rgb[3 * (n - 1) + 2]]
    }
}

/// The whole-grid RGB message: header, grid opcode 3, one `[3, note, r, g,
/// b]` record per cell, SysEx end.
pub open spec fn spec_grid_rgb(rgb: Seq<u8>) -> Seq<u8> {
    spec_header() + seq![3u8] + spec_grid_rgb_body(rgb, 64) + seq![247u8]
}

/// The raw whole-grid message: the caller supplies the 192 pre-tagged body
/// bytes and the encoder only frames them.
pub open spec fn spec_grid_raw(payload: Seq<u8>) -> Seq<u8> {
    spec_header() + seq![3u8] + payload + seq![247u8]
}

/// The single-cell RGB message: header, grid opcode 3, one `[3, position,
/// r, g, b]` record, SysEx end.
pub open spec fn spec_tile_rgb(position: u8, r: u8, g: u8, b: u8) -> Seq<u8> {
    spec_header() + seq![3u8, 3u8, position, r, g, b, 247u8]
}

/// Builds the mode-toggle message that switches the device's addressable
/// "programmer" mode on or off.
pub fn mode_toggle(enable: bool) -> (msg: Vec<u8>)
    ensures
        msg@ == spec_mode_toggle(enable),
{
    let mut msg: Vec<u8> = Vec::new();
    msg.push(240);
    msg.push(0);
    msg.push(32);
    msg.push(41);
    msg.push(2);
    msg.push(12);
    msg.push(14);
    msg.push(if enable { 1 } else { 0 });
    msg.push(247);
    proof {
        assert(msg@ =~= spec_mode_toggle(enable));
    }
    msg
}

/// Builds the Note-On message that lights one cell with a palette color.
pub fn light_message(position: u8, color: u8) -> (msg: Vec<u8>)
    ensures
        msg@ == spec_light_on(position, color),
{
    let mut msg: Vec<u8> = Vec::new();
    msg.push(144);
    msg.push(position);
    msg.push(color);
    proof {
        assert(msg@ =~= spec_light_on(position, color));
    }
    msg
}

/// Builds the whole-grid palette message from 64 colors in row-major order.
pub fn encode_grid_color(colors: &Vec<u8>) -> (msg: Vec<u8>)
    requires
        colors@.len() == 64,
    ensures
        msg@ == spec_grid_color(colors@),
        msg@.len() == 200,
{
    let mut msg: Vec<u8> = Vec::new();
    msg.push(240);
    msg.push(0);
    msg.push(32);
    msg.push(41);
    msg.push(2);
    msg.push(12);
    msg.push(3);
    proof {
        assert(msg@ =~= spec_header() + seq![3u8] + spec_grid_color_body(colors@, 0));
    }
    let mut cell: usize = 0;
    while cell < 64
        invariant
            colors@.len() == 64,
            cell <= 64,
            msg@ == spec_header() + seq![3u8] + spec_grid_color_body(colors@, cell as int),
        decreases 64 - cell,
    {
        let row = (cell / 8) as u8;
        let col = (cell % 8) as u8;
        let note = position_for(col, row);
        msg.push(0);
        msg.push(note);
        msg.push(colors[cell]);
        proof {
            assert(spec_note(cell as int) == note);
            assert(msg@ =~= spec_header() + seq![3u8] + spec_grid_color_body(
                colors@,
                cell as int + 1,
            ));
        }
        cell = cell + 1;
    }
    msg.push(247);
    proof {
        lemma_grid_color_body_len(colors@, 64);
        assert(msg@ =~= spec_grid_color(colors@));
    }
    msg
}

/// Builds the whole-grid RGB message from 64 channel triples (192 bytes) in
/// row-major order.
pub fn encode_grid_rgb(rgb: &Vec<u8>) -> (msg: Vec<u8>)
    requires
        rgb@.len() == 192,
    ensures
        msg@ == spec_grid_rgb(rgb@),
        msg@.len() == 328,
{
    let mut msg: Vec<u8> = Vec::new();
    msg.push(240);
    msg.push(0);
    msg.push(32);
    msg.push(41);
    msg.push(2);
    msg.push(12);
    msg.push(3);
    proof {
        assert(msg@ =~= spec_header() + seq![3u8] + spec_grid_rgb_body(rgb@, 0));
    }
    let mut cell: usize = 0;
    while cell < 64
        invariant
            rgb@.len() == 192,
            cell <= 64,
            msg@ == spec_header() + seq![3u8] + spec_grid_rgb_body(rgb@, cell as int),
        decreases 64 - cell,
    {
        let row = (cell / 8) as u8;
        let col = (cell % 8) as u8;
        let note = position_for(col, row);
        msg.push(3);
        msg.push(note);
        msg.push(rgb[3 * cell]);
        msg.push(rgb[3 * cell + 1]);
        msg.push(rgb[3 * cell + 2]);
        proof {
            assert(spec_note(cell as int) == note);
            assert(msg@ =~= spec_header() + seq![3u8] + spec_grid_rgb_body(
                rgb@,
                cell as int + 1,
            ));
        }
        cell = cell + 1;
    }
    msg.push(247);
    proof {
        lemma_grid_rgb_body_len(rgb@, 64);
        assert(msg@ =~= spec_grid_rgb(rgb@));
    }
    msg
}

/// Frames a caller-supplied, pre-tagged 192-byte grid body as a SysEx
/// message without touching its contents.
pub fn encode_grid_raw(payload: &Vec<u8>) -> (msg: Vec<u8>)
    requires
        payload@.len() == 192,
    ensures
        msg@ == spec_grid_raw(payload@),
        msg@.len() == 200,
{
    let mut msg: Vec<u8> = Vec::new();
    msg.push(240);
    msg.push(0);
    msg.push(32);
    msg.push(41);
    msg.push(2);
    msg.push(12);
    msg.push(3);
    let mut i: usize = 0;
    while i < 192
        invariant
            payload@.len() == 192,
            i <= 192,
            msg@ == spec_header() + seq![3u8] + payload@.subrange(0, i as int),
        decreases 192 - i,
    {
        msg.push(payload[i]);
        proof {
            assert(msg@ =~= spec_header() + seq![3u8] + payload@.subrange(0, i as int + 1));
        }
        i = i + 1;
    }
    msg.push(247);
    proof {
        assert(payload@.subrange(0, 192) =~= payload@);
        assert(msg@ =~= spec_grid_raw(payload@));
    }
    msg
}

/// Builds the single-cell RGB message.
pub fn encode_tile_rgb(position: u8, r: u8, g: u8, b: u8) -> (msg: Vec<u8>)
    ensures
        msg@ == spec_tile_rgb(position, r, g, b),
{
    let mut msg: Vec<u8> = Vec::new();
    msg.push(240);
    msg.push(0);
    msg.push(32);
    msg.push(41);
    msg.push(2);
    msg.push(12);
    msg.push(3);
    msg.push(3);
    msg.push(position);
    msg.push(r);
    msg.push(g);
    msg.push(b);
    msg.push(247);
    proof {
        assert(msg@ =~= spec_tile_rgb(position, r, g, b));
    }
    msg
}

/// A palette-grid body of `n` cells is `3 * n` bytes long.
pub proof fn lemma_grid_color_body_len(colors: Seq<u8>, n: int)
    requires
        n >= 0,
    ensures
        spec_grid_color_body(colors, n).len() == 3 * n,
    decreases n,
{
    if n > 0 {
        lemma_grid_color_body_len(colors, n - 1);
    }
}

/// An RGB-grid body of `n` cells is `5 * n` bytes long.
pub proof fn lemma_grid_rgb_body_len(rgb: Seq<u8>, n: int)
    requires
        n >= 0,
    ensures
        spec_grid_rgb_body(rgb, n).len() == 5 * n,
    decreases n,
{
    if n > 0 {
        lemma_grid_rgb_body_len(rgb, n - 1);
    }
}

/// The record of cell `cell` in a palette-grid body is `[0, note, color]`.
pub proof fn lemma_grid_color_body_index(colors: Seq<u8>, n: int, cell: int)
    requires
        0 <= cell < n,
    ensures
        spec_grid_color_body(colors, n)[3 * cell] == 0u8,
        spec_grid_color_body(colors, n)[3 * cell + 1] == spec_note(cell),
        spec_grid_color_body(colors, n)[3 * cell + 2] == colors[cell],
    decreases n,
{
    lemma_grid_color_body_len(colors, n - 1);
    if cell < n - 1 {
        lemma_grid_color_body_index(colors, n - 1, cell);
    }
}

/// The record of cell `cell` in an RGB-grid body is `[3, note, r, g, b]`.
pub proof fn lemma_grid_rgb_body_index(rgb: Seq<u8>, n: int, cell: int)
    requires
        0 <= cell < n,
    ensures
        spec_grid_rgb_body(rgb, n)[5 * cell] == 3u8,
        spec_grid_rgb_body(rgb, n)[5 * cell + 1] == spec_note(cell),
        spec_grid_rgb_body(rgb, n)[5 * cell + 2] == rgb[3 * cell],
        spec_grid_rgb_body(rgb, n)[5 * cell + 3] == rgb[3 * cell + 1],
        spec_grid_rgb_body(rgb, n)[5 * cell + 4] == rgb[3 * cell + 2],
    decreases n,
{
    lemma_grid_rgb_body_len(rgb, n - 1);
    if cell < n - 1 {
        lemma_grid_rgb_body_index(rgb, n - 1, cell);
    }
}

/// The three bytes of cell `cell` inside a message whose per-cell records
/// are three bytes wide and start at offset 7.
pub open spec fn spec_triplet_at(msg: Seq<u8>, cell: int) -> Seq<u8> {
    msg.subrange(7 + 3 * cell, 7 + 3 * cell + 3)
}

/// The five bytes of cell `cell` inside a message whose per-cell records
/// are five bytes wide and start at offset 7.
pub open spec fn spec_quintuplet_at(msg: Seq<u8>, cell: int) -> Seq<u8> {
    msg.subrange(7 + 5 * cell, 7 + 5 * cell + 5)
}

/// Encoding a uniform palette grid of value `v` yields a 200-byte message
/// whose per-cell records are all `[0, note, v]`.
pub proof fn lemma_uniform_grid_color(colors: Seq<u8>, v: u8)
    requires
        colors.len() == 64,
        forall|i: int| 0 <= i < 64 ==> colors[i] == v,
    ensures
        spec_grid_color(colors).len() == 200,
        forall|cell: int|
            0 <= cell < 64 ==> spec_triplet_at(spec_grid_color(colors), cell) == seq![
                0u8,
                #[trigger] spec_note(cell),
                v,
            ],
{
    lemma_grid_color_body_len(colors, 64);
    assert forall|cell: int|
        0 <= cell < 64 implies spec_triplet_at(spec_grid_color(colors), cell) == seq![
        0u8,
        #[trigger] spec_note(cell),
        v,
    ] by {
        lemma_grid_color_body_index(colors, 64, cell);
        assert(spec_triplet_at(spec_grid_color(colors), cell) =~= seq![
            0u8,
            spec_note(cell),
            v,
        ]);
    }
}

/// Encoding a uniform RGB grid of channels `(r, g, b)` yields a 328-byte
/// message whose per-cell records are all `[3, note, r, g, b]`.
pub proof fn lemma_uniform_grid_rgb(rgb: Seq<u8>, r: u8, g: u8, b: u8)
    requires
        rgb.len() == 192,
        forall|j: int|
            0 <= j < 192 ==> rgb[j] == (if j % 3 == 0 {
                r
            } else if j % 3 == 1 {
                g
            } else {
                b
            }),
    ensures
        spec_grid_rgb(rgb).len() == 328,
        forall|cell: int|
            0 <= cell < 64 ==> spec_quintuplet_at(spec_grid_rgb(rgb), cell) == seq![
                3u8,
                #[trigger] spec_note(cell),
                r,
                g,
                b,
            ],
{
    lemma_grid_rgb_body_len(rgb, 64);
    assert forall|cell: int|
        0 <= cell < 64 implies spec_quintuplet_at(spec_grid_rgb(rgb), cell) == seq![
        3u8,
        #[trigger] spec_note(cell),
        r,
        g,
        b,
    ] by {
        lemma_grid_rgb_body_index(rgb, 64, cell);
        assert((3 * cell) % 3 == 0 && (3 * cell + 1) % 3 == 1 && (3 * cell + 2) % 3 == 2)
            by (nonlinear_arith)
            requires
                0 <= cell,
        ;
        assert(rgb[3 * cell] == r && rgb[3 * cell + 1] == g && rgb[3 * cell + 2] == b);
        assert(spec_quintuplet_at(spec_grid_rgb(rgb), cell) =~= seq![
            3u8,
            spec_note(cell),
            r,
            g,
            b,
        ]);
    }
}

} // verus!
