//! The delayed interrupt-master-enable latch.
//!
//! `EI` arms a two-step countdown; the enable itself lands only in the
//! after-execute phase of a later cycle, so the instruction following
//! `EI` always runs with interrupts still off.  `DI` cancels a pending
//! enable outright.

use vstd::prelude::*;

use crate::gb::GameBoy;

verus! {

/// IME and its countdown after one latch step.  A positive countdown
/// just decrements; at zero the enable commits, but only in the
/// after-execute phase — in the before-execute phase it is dropped.
pub open spec fn ime_apply(g: GameBoy, after_fde: bool) -> GameBoy {
    match g.ime_dispatch {
        Some(id) => if id > 0 {
            GameBoy { ime_dispatch: Some((id - 1) as u8), ..g }
        } else {
            GameBoy { ime: if after_fde { true } else { g.ime }, ime_dispatch: None, ..g }
        },
        None => g,
    }
}

impl GameBoy {
    /// Advance the delayed-enable latch by one phase.
    pub fn update_ime(&mut self, after_fde: bool)
        ensures
            *final(self) == ime_apply(*old(self), after_fde),
    {
        if let Some(id) = self.ime_dispatch {
            if id > 0 {
                self.ime_dispatch = Some(id - 1);
            } else {
                if after_fde {
                    self.ime = true;
                }
                self.ime_dispatch = None;
            }
        }
    }
}

} // verus!
