use vstd::prelude::*;

verus! {

/// The rows above a one-row line of text that centre it vertically in a
/// viewport `height` rows tall: half of what the line leaves, rounded down.
pub open spec fn centred_margin(height: nat) -> nat {
    if height == 0 {
        0
    } else {
        ((height - 1) / 2) as nat
    }
}

/// The rows left empty above (and below) the counter's line in a viewport
/// `height` rows tall.
pub fn margin_above(height: u16) -> (r: u16)
    ensures
        r == centred_margin(height as nat),
        height > 0 ==> 2 * r + 1 <= height,
{
    if height == 0 {
        0
    } else {
        (height - 1) / 2
    }
}

} // verus!
