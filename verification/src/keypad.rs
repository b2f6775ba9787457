//! The sixteen keys of the machine, as the host reports them for one step.

use vstd::prelude::*;

verus! {

/// What the host knows about the keys 0 to 15 when it asks for a step:
/// which of them are down, and which of them went down since it last asked.
#[derive(Clone, Copy, Debug)]
pub struct Keys {
    pub held: [bool; 16],
    pub pressed: [bool; 16],
}

impl Keys {
    /// Whether `key` names a key and that key is down.
    pub open spec fn holds(&self, key: u8) -> bool {
        key < 16 && self.held@[key as int]
    }

    /// The lowest key that went down, if any did.
    pub open spec fn newly_pressed(&self) -> Option<u8> {
        let pressed = self.pressed@;
        if pressed[0] {
            Some(0u8)
        } else if pressed[1] {
            Some(1u8)
        } else if pressed[2] {
            Some(2u8)
        } else if pressed[3] {
            Some(3u8)
        } else if pressed[4] {
            Some(4u8)
        } else if pressed[5] {
            Some(5u8)
        } else if pressed[6] {
            Some(6u8)
        } else if pressed[7] {
            Some(7u8)
        } else if pressed[8] {
            Some(8u8)
        } else if pressed[9] {
            Some(9u8)
        } else if pressed[10] {
            Some(10u8)
        } else if pressed[11] {
            Some(11u8)
        } else if pressed[12] {
            Some(12u8)
        } else if pressed[13] {
            Some(13u8)
        } else if pressed[14] {
            Some(14u8)
        } else if pressed[15] {
            Some(15u8)
        } else {
            None
        }
    }

    /// No key is down and none went down.
    pub fn new() -> (keys: Keys)
        ensures
            forall|key: int| 0 <= key < 16 ==> !#[trigger] keys.held@[key],
            forall|key: int| 0 <= key < 16 ==> !#[trigger] keys.pressed@[key],
    {
        Keys { held: [false;16], pressed: [false;16] }
    }

    /// Records that `key` is down and was down before. A `key` above 15
    /// names no key and changes nothing.
    pub fn hold(&mut self, key: u8)
        ensures
            final(self).pressed == old(self).pressed,
            final(self).held@ == if key < 16 {
                old(self).held@.update(key as int, true)
            } else {
                old(self).held@
            },
    {
        if key < 16 {
            self.held[key as usize] = true;
        }
    }

    /// Records that `key` went down. A `key` above 15 names no key and
    /// changes nothing.
    pub fn press(&mut self, key: u8)
        ensures
            final(self).held@ == if key < 16 {
                old(self).held@.update(key as int, true)
            } else {
                old(self).held@
            },
            final(self).pressed@ == if key < 16 {
                old(self).pressed@.update(key as int, true)
            } else {
                old(self).pressed@
            },
    {
        if key < 16 {
            self.held[key as usize] = true;
            self.pressed[key as usize] = true;
        }
    }

    pub fn is_held(&self, key: u8) -> (held: bool)
        ensures
            held == self.holds(key),
    {
        key < 16 && self.held[key as usize]
    }

    /// The lowest key that went down since the host last asked.
    pub fn first_pressed(&self) -> (found: Option<u8>)
        ensures
            found == self.newly_pressed(),
            match found {
                Some(key) => key < 16 && self.pressed@[key as int] && forall|lower: int|
                    0 <= lower < key ==> !self.pressed@[lower],
                None => forall|key: int| 0 <= key < 16 ==> !self.pressed@[key],
            },
    {
        let mut key: u8 = 0;
        while key < 16
            invariant
                key <= 16,
                forall|lower: int| 0 <= lower < key ==> !self.pressed@[lower],
            decreases 16 - key,
        {
            if self.pressed[key as usize] {
                return Some(key);
            }
            key += 1;
        }
        None
    }
}

} // verus!
