//! Color state store: the last-set palette color of every device position.
//!
//! The device addresses cells with the two-digit codes 11..99; the store
//! keeps one color byte per code in that range, all zero at startup. It
//! backs the stateful operations: `cycle` advances a cell's color and
//! returns the light command to send, `clear` repaints every position.
//! Whole-grid paints and RGB sets do not touch the store; only operations
//! that set a single cell's palette color do.

use vstd::prelude::*;

use crate::sysex::spec_light_on;
use crate::sysex::light_message;

verus! {

/// True of every position the store tracks: the device's two-digit codes
/// 11 through 99, 89 positions in all.
pub open spec fn spec_tracked_position(position: u8) -> bool {
    11 <= position <= 99
}

/// The store's slot index of a tracked position.
pub open spec fn spec_slot(position: u8) -> int {
    position - 11
}

/// The color a cycle step advances to: one past the current color, except
/// that 127 (the top of the 7-bit palette) and anything above it wrap back
/// to 1, never to 0 and never past 127.
pub open spec fn spec_next_color(current: u8) -> u8 {
    if current >= 127 {
        1u8
    } else {
        (current + 1) as u8
    }
}

/// Last-known palette color per device position, viewed as the sequence of
/// its 89 slots (slot `i` holds position `11 + i`).
pub struct ColorStore {
    colors: Vec<u8>,
}

impl View for ColorStore {
    type V = Seq<u8>;

    closed spec fn view(&self) -> Seq<u8> {
        self.colors@
    }
}

impl ColorStore {
    /// A store is well formed when it holds exactly one slot per tracked
    /// position.
    pub open spec fn wf(&self) -> bool {
        self@.len() == 89
    }

    /// A fresh store maps every position to color 0.
    pub fn new() -> (store: ColorStore)
        ensures
            store.wf(),
            forall|i: int| 0 <= i < 89 ==> store@[i] == 0u8,
    {
        let mut colors: Vec<u8> = Vec::new();
        let mut i: usize = 0;
        while i < 89
            invariant
                i <= 89,
                colors@.len() == i,
                forall|j: int| 0 <= j < i ==> colors@[j] == 0u8,
            decreases 89 - i,
        {
            colors.push(0);
            i = i + 1;
        }
        ColorStore { colors }
    }

    /// The last-set color of `position`, 0 if it was never set.
    pub fn get(&self, position: u8) -> (color: u8)
        requires
            self.wf(),
            spec_tracked_position(position),
        ensures
            color == self@[spec_slot(position)],
    {
        self.colors[(position - 11) as usize]
    }

    /// Unconditionally overwrites the color of `position`; no other
    /// position changes.
    pub fn set(&mut self, position: u8, color: u8)
        requires
            old(self).wf(),
            spec_tracked_position(position),
        ensures
            final(self).wf(),
            final(self)@ == old(self)@.update(spec_slot(position), color),
    {
        self.colors.set((position - 11) as usize, color);
    }

    /// Records `color` as the last-set color of `position` and returns the
    /// Note-On command that lights the cell with it.
    pub fn light_on(&mut self, position: u8, color: u8) -> (msg: Vec<u8>)
        requires
            old(self).wf(),
            spec_tracked_position(position),
        ensures
            final(self).wf(),
            final(self)@ == old(self)@.update(spec_slot(position), color),
            msg@ == spec_light_on(position, color),
    {
        self.set(position, color);
        light_message(position, color)
    }

    /// Advances the color of `position` to the next palette index (wrapping
    /// from the top of the palette back to 1) and returns the Note-On
    /// command that lights the cell with the new color.
    pub fn cycle(&mut self, position: u8) -> (msg: Vec<u8>)
        requires
            old(self).wf(),
            spec_tracked_position(position),
        ensures
            final(self).wf(),
            final(self)@ == old(self)@.update(
                spec_slot(position),
                spec_next_color(old(self)@[spec_slot(position)]),
            ),
            msg@ == spec_light_on(position, spec_next_color(old(self)@[spec_slot(position)])),
    {
        let current = self.get(position);
        let next = if current >= 127 {
            1
        } else {
            current + 1
        };
        self.light_on(position, next)
    }

    /// Repaints every tracked position with `color`: the store maps every
    /// position to `color` afterwards, and exactly one Note-On command per
    /// position comes back, in ascending position order.
    pub fn clear(&mut self, color: u8) -> (msgs: Vec<Vec<u8>>)
        requires
            old(self).wf(),
        ensures
            final(self).wf(),
            forall|i: int| 0 <= i < 89 ==> final(self)@[i] == color,
            msgs@.len() == 89,
            forall|i: int|
                0 <= i < 89 ==> #[trigger] msgs@[i]@ == spec_light_on((11 + i) as u8, color),
    {
        let mut msgs: Vec<Vec<u8>> = Vec::new();
        let mut i: usize = 0;
        while i < 89
            invariant
                old(self).wf(),
                self.wf(),
                i <= 89,
                msgs@.len() == i,
                forall|j: int| 0 <= j < i ==> self@[j] == color,
                forall|j: int| i <= j < 89 ==> self@[j] == old(self)@[j],
                forall|j: int|
                    0 <= j < i ==> #[trigger] msgs@[j]@ == spec_light_on((11 + j) as u8, color),
            decreases 89 - i,
        {
            let position = 11 + (i as u8);
            let msg = self.light_on(position, color);
            msgs.push(msg);
            i = i + 1;
        }
        msgs
    }
}

} // verus!
