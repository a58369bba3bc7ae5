//! A cheap test on raw pixels that tells whether text recognition is worth
//! running on a frame.
use vstd::prelude::*;

verus! {

/// The pixel whose channels start at byte `4 * p` is a strong red.
pub open spec fn is_red_pixel(rgba: Seq<u8>, p: int) -> bool {
    let r = rgba[4 * p] as int;
    let g = rgba[4 * p + 1] as int;
    let b = rgba[4 * p + 2] as int;
    r > 60 && r > g + 20 && r > b + 20
}

/// How many of the first `n` pixels are strong reds.
pub open spec fn red_pixels(rgba: Seq<u8>, n: int) -> nat
    decreases n,
{
    if n <= 0 {
        0
    } else {
        red_pixels(rgba, n - 1) + if is_red_pixel(rgba, n - 1) { 1nat } else { 0 }
    }
}

/// The number of whole pixels in an RGBA buffer.
pub open spec fn pixel_count(rgba: Seq<u8>) -> int {
    rgba.len() as int / 4
}

/// Whether more than one pixel in a hundred of the RGBA buffer is a strong
/// red (red above 60 and above both green and blue by more than 20).
pub fn has_red_text_present(rgba: &Vec<u8>) -> (r: bool)
    ensures
        r == (100 * red_pixels(rgba@, pixel_count(rgba@)) > pixel_count(rgba@)),
{
    let n = rgba.len() / 4;
    assert(4 * n <= rgba@.len());
    assert(rgba@.len() <= usize::MAX);
    let mut count: usize = 0;
    let mut p: usize = 0;
    while p < n
        invariant
            n == pixel_count(rgba@),
            4 * n <= rgba@.len(),
            rgba@.len() <= usize::MAX,
            p <= n,
            count == red_pixels(rgba@, p as int),
            count <= p,
        decreases n - p,
    {
        let r = rgba[4 * p] as i32;
        let g = rgba[4 * p + 1] as i32;
        let b = rgba[4 * p + 2] as i32;
        if r > 60 && r > g + 20 && r > b + 20 {
            count = count + 1;
        }
        p = p + 1;
    }
    (count as u128) * 100 > (n as u128)
}

/// The red channel of each whole pixel of an RGBA buffer.
pub fn extract_red_channel(rgba: &Vec<u8>) -> (r: Vec<u8>)
    ensures
        r@.len() == pixel_count(rgba@),
        forall|p: int| 0 <= p < r@.len() ==> #[trigger] r@[p] == rgba@[4 * p],
{
    let n = rgba.len() / 4;
    assert(4 * n <= rgba@.len());
    assert(rgba@.len() <= usize::MAX);
    let mut r: Vec<u8> = Vec::new();
    let mut p: usize = 0;
    while p < n
        invariant
            n == pixel_count(rgba@),
            4 * n <= rgba@.len(),
            rgba@.len() <= usize::MAX,
            p <= n,
            r@.len() == p,
            forall|q: int| 0 <= q < p ==> #[trigger] r@[q] == rgba@[4 * q],
        decreases n - p,
    {
        r.push(rgba[4 * p]);
        p = p + 1;
    }
    r
}

} // verus!
