//! Turning the display into the pixels of a texture.

use vstd::prelude::*;

verus! {

/// The colour of pixel `p` of a frame: `on` where the display pixel is
/// on, `off` where it is not.
pub open spec fn painted(display: Seq<bool>, on: u32, off: u32, p: int) -> u32 {
    if display[p] {
        on
    } else {
        off
    }
}

/// Fills `pixels` with the frame for `display`: one colour word per
/// display pixel, in the display's own order.
pub fn paint(display: &[bool; 2048], on: u32, off: u32, pixels: &mut [u32; 2048])
    ensures
        forall|p: int| 0 <= p < 2048 ==> final(pixels)@[p] == painted(display@, on, off, p),
{
    let mut p: usize = 0;
    while p < 2048
        invariant
            p <= 2048,
            forall|q: int| 0 <= q < p ==> pixels@[q] == painted(display@, on, off, q),
        decreases 2048 - p,
    {
        pixels[p] = if display[p] {
            on
        } else {
            off
        };
        p = p + 1;
    }
}

} // verus!
