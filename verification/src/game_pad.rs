//! The pad's fixed key table and its translation to a code array.

use vstd::prelude::*;

verus! {

/// The scan codes the pad can emit. `NULL` (code `0x00`) is the "no input"
/// sentinel that fills a slot whose key is released.
#[derive(Debug, Copy, Clone)]
pub enum KeyMap {
    ENTER,
    StrumUp,
    StrumDown,
    Q,
    W,
    E,
    R,
    T,
    NULL,
}

impl KeyMap {
    /// The wire code of this key.
    pub open spec fn spec_code(self) -> u8 {
        match self {
            KeyMap::ENTER => 0x28,
            KeyMap::StrumUp => 0x52,
            KeyMap::StrumDown => 0x51,
            KeyMap::Q => 0x14,
            KeyMap::W => 0x1a,
            KeyMap::E => 0x08,
            KeyMap::R => 0x15,
            KeyMap::T => 0x17,
            KeyMap::NULL => 0x00,
        }
    }

    pub fn to_u8(self) -> (code: u8)
        ensures
            code == self.spec_code(),
    {
        match self {
            KeyMap::ENTER => 0x28,
            KeyMap::StrumUp => 0x52,
            KeyMap::StrumDown => 0x51,
            KeyMap::Q => 0x14,
            KeyMap::W => 0x1a,
            KeyMap::E => 0x08,
            KeyMap::R => 0x15,
            KeyMap::T => 0x17,
            KeyMap::NULL => 0x00,
        }
    }
}

/// The key bound to logical channel `i`, in the pad's fixed channel order:
/// the two strum directions first, then the five fret keys.
pub open spec fn spec_channel_key(i: int) -> KeyMap {
    if i == 0 {
        KeyMap::StrumUp
    } else if i == 1 {
        KeyMap::StrumDown
    } else if i == 2 {
        KeyMap::Q
    } else if i == 3 {
        KeyMap::W
    } else if i == 4 {
        KeyMap::E
    } else if i == 5 {
        KeyMap::R
    } else {
        KeyMap::T
    }
}

pub fn channel_key(i: usize) -> (k: KeyMap)
    requires
        i < 7,
    ensures
        k == spec_channel_key(i as int),
{
    if i == 0 {
        KeyMap::StrumUp
    } else if i == 1 {
        KeyMap::StrumDown
    } else if i == 2 {
        KeyMap::Q
    } else if i == 3 {
        KeyMap::W
    } else if i == 4 {
        KeyMap::E
    } else if i == 5 {
        KeyMap::R
    } else {
        KeyMap::T
    }
}

/// The code slot `i` carries for the snapshot `states`: the channel's own
/// code when the channel is active, except that strum-down (channel 1) is
/// dropped while strum-up (channel 0) is active — the two directions of the
/// strum bar exclude one another, and when a bounce asserts both the
/// first-priority direction wins. Every other case yields the sentinel.
pub open spec fn spec_pad_slot(states: Seq<bool>, i: int) -> u8 {
    if states[i] && !(i == 1 && states[0]) {
        spec_channel_key(i).spec_code()
    } else {
        KeyMap::NULL.spec_code()
    }
}

pub struct GamePad;

impl GamePad {
    /// Rewrites the whole code array for one snapshot: each slot gets its
    /// channel's code when the channel is active — with strum-up suppressing
    /// strum-down when both read active — and the sentinel otherwise, so no
    /// code from an earlier report can survive into this one.
    pub fn to_array_code(states: &[bool; 7], result: &mut [u8; 7])
        ensures
            forall|i: int| 0 <= i < 7 ==> #[trigger] final(result)@[i] == spec_pad_slot(states@, i),
    {
        let mut i: usize = 0;
        while i < 7
            invariant
                i <= 7,
                result@.len() == 7,
                forall|j: int| 0 <= j < i ==> #[trigger] result@[j] == spec_pad_slot(states@, j),
            decreases 7 - i,
        {
            if states[i] && !(i == 1 && states[0]) {
                result[i] = channel_key(i).to_u8();
            } else {
                result[i] = KeyMap::NULL.to_u8();
            }
            i = i + 1;
        }
    }
}

} // verus!
