//! The single-bitmask report variant: button bits in the low byte, the
//! analog sample in the bits above them, all carried in one 32-bit word.

use vstd::prelude::*;

verus! {

/// Whether bit `index` of `mask` is set.
pub open spec fn bit_set(mask: u32, index: u32) -> bool {
    mask & (1u32 << index) != 0
}

/// Sets or clears the button bit `index`, leaving every other bit — the
/// other buttons and the whole analog range — untouched.
pub fn with_button(mask: u32, index: u32, pressed: bool) -> (r: u32)
    requires
        index < 32,
    ensures
        bit_set(r, index) == pressed,
        forall|j: u32| j < 32 && j != index ==> bit_set(r, j) == bit_set(mask, j),
        index < 8 ==> r >> 8 == mask >> 8,
{
    if pressed {
        let r = mask | (1u32 << index);
        proof {
            assert(bit_set(r, index) && (forall|j: u32|
                j < 32 && j != index ==> bit_set(r, j) == bit_set(mask, j)) && (index < 8 ==> r >> 8
                == mask >> 8)) by (bit_vector)
                requires
                    index < 32,
                    r == mask | (1u32 << index),
            ;
        }
        r
    } else {
        let r = mask & !(1u32 << index);
        proof {
            assert(!bit_set(r, index) && (forall|j: u32|
                j < 32 && j != index ==> bit_set(r, j) == bit_set(mask, j)) && (index < 8 ==> r >> 8
                == mask >> 8)) by (bit_vector)
                requires
                    index < 32,
                    r == mask & !(1u32 << index),
            ;
        }
        r
    }
}

/// Merges a fresh analog sample into the report word: the sample replaces
/// the bits above the button byte while the button byte itself is preserved,
/// so the two producers never disturb one another's sub-range.
pub fn with_analog(mask: u32, sample: u16) -> (r: u32)
    ensures
        r & 0xff == mask & 0xff,
        r >> 8 == sample as u32,
        forall|j: u32| j < 8 ==> bit_set(r, j) == bit_set(mask, j),
{
    let r = (mask & 0x0000ff) | ((sample as u32) << 8);
    proof {
        assert((r & 0xff == mask & 0xff) && (r >> 8 == sample as u32) && (forall|j: u32|
            j < 8 ==> bit_set(r, j) == bit_set(mask, j))) by (bit_vector)
            requires
                r == (mask & 0x0000ff) | ((sample as u32) << 8),
        ;
    }
    r
}

/// Writes the whole snapshot into the button bits: bit `i` of the result is
/// channel `i`'s state, and every bit past the snapshot keeps its old value.
pub fn apply_buttons(mask: u32, states: &Vec<bool>) -> (r: u32)
    requires
        states@.len() <= 32,
    ensures
        forall|j: u32| j < states@.len() ==> bit_set(r, j) == states@[j as int],
        forall|j: u32| states@.len() <= j < 32 ==> bit_set(r, j) == bit_set(mask, j),
{
    let mut r = mask;
    let mut i: usize = 0;
    while i < states.len()
        invariant
            states@.len() <= 32,
            i <= states@.len(),
            forall|j: u32| j < i ==> bit_set(r, j) == states@[j as int],
            forall|j: u32| i <= j < 32 ==> bit_set(r, j) == bit_set(mask, j),
        decreases states@.len() - i,
    {
        r = with_button(r, i as u32, states[i]);
        i = i + 1;
    }
    r
}

/// The wire bytes of the bitmask report, least significant byte first: the
/// button byte, then the two bytes of the analog range.
pub fn mask_report_bytes(mask: u32) -> (r: Vec<u8>)
    ensures
        r@.len() == 3,
        r@[0] == (mask & 0xff) as u8,
        r@[1] == ((mask >> 8) & 0xff) as u8,
        r@[2] == ((mask >> 16) & 0xff) as u8,
{
    let mut r: Vec<u8> = Vec::new();
    r.push((mask & 0xff) as u8);
    r.push(((mask >> 8) & 0xff) as u8);
    r.push(((mask >> 16) & 0xff) as u8);
    r
}

} // verus!
