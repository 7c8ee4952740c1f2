//! Assembly of finished frames.
//!
//! The device returns one flat buffer of pixels; the render contract hands
//! the caller a grid of rows instead, row-major, with row order matching
//! pixel row index. The animation encoder in turn wants tightly packed RGB
//! bytes where the frame buffer holds RGBA. Both reshapes are exact
//! element-level logic and are verified here.

use vstd::prelude::*;

verus! {

/// Cuts a flat row-major pixel buffer into its rows: row `y` of the result
/// holds exactly the elements `y * width .. (y + 1) * width` of the buffer,
/// in order.
pub fn into_rows<T: Copy>(flat: &Vec<T>, width: usize, height: usize) -> (rows: Vec<Vec<T>>)
    requires
        flat@.len() == width * height,
    ensures
        rows@.len() == height,
        forall|y: int| 0 <= y < height ==> #[trigger] rows@[y]@.len() == width,
        forall|y: int, x: int|
            0 <= y < height && 0 <= x < width ==> #[trigger] rows@[y]@[x] == flat@[y * width + x],
{
    let total: usize = flat.len();
    let mut rows: Vec<Vec<T>> = Vec::new();
    for y in 0..height
        invariant
            flat@.len() == width * height,
            total == flat@.len(),
            rows@.len() == y,
            forall|j: int| 0 <= j < y ==> #[trigger] rows@[j]@.len() == width,
            forall|j: int, x: int|
                0 <= j < y && 0 <= x < width ==> #[trigger] rows@[j]@[x] == flat@[j * width + x],
    {
        let mut row: Vec<T> = Vec::new();
        for x in 0..width
            invariant
                flat@.len() == width * height,
                total == flat@.len(),
                y < height,
                row@.len() == x,
                forall|k: int| 0 <= k < x ==> #[trigger] row@[k] == flat@[y * width + k],
        {
            proof {
                assert(y * width + x < width * height) by (nonlinear_arith)
                    requires
                        0 <= x < width,
                        0 <= y < height,
                ;
            }
            row.push(flat[y * width + x]);
        }
        rows.push(row);
    }
    rows
}

/// The RGB packing of an RGBA byte buffer: each four-byte pixel keeps its
/// first three bytes and sheds its alpha byte.
pub open spec fn spec_rgb_of_rgba(rgba: Seq<u8>) -> Seq<u8>
    recommends
        rgba.len() % 4 == 0,
    decreases rgba.len(),
{
    if rgba.len() < 4 {
        Seq::empty()
    } else {
        spec_rgb_of_rgba(rgba.subrange(0, rgba.len() - 4)) + seq![
            rgba[rgba.len() - 4],
            rgba[rgba.len() - 3],
            rgba[rgba.len() - 2],
        ]
    }
}

/// Three packed bytes come out of every four-byte pixel.
pub proof fn lemma_rgb_of_rgba_len(rgba: Seq<u8>)
    requires
        rgba.len() % 4 == 0,
    ensures
        spec_rgb_of_rgba(rgba).len() == rgba.len() / 4 * 3,
    decreases rgba.len(),
{
    if rgba.len() >= 4 {
        lemma_rgb_of_rgba_len(rgba.subrange(0, rgba.len() - 4));
    }
}

/// Strips the alpha channel from an RGBA frame buffer, leaving the RGB
/// bytes that the animation encoder consumes.
pub fn rgba_to_rgb(rgba: &Vec<u8>) -> (rgb: Vec<u8>)
    requires
        rgba@.len() % 4 == 0,
    ensures
        rgb@ == spec_rgb_of_rgba(rgba@),
        rgb@.len() == rgba@.len() / 4 * 3,
{
    let total: usize = rgba.len();
    let pixels: usize = total / 4;
    let mut rgb: Vec<u8> = Vec::new();
    for i in 0..pixels
        invariant
            rgba@.len() % 4 == 0,
            total == rgba@.len(),
            pixels == rgba@.len() / 4,
            rgb@ == spec_rgb_of_rgba(rgba@.subrange(0, 4 * i)),
    {
        rgb.push(rgba[4 * i]);
        rgb.push(rgba[4 * i + 1]);
        rgb.push(rgba[4 * i + 2]);
        proof {
            let done = rgba@.subrange(0, 4 * (i + 1));
            assert(done.subrange(0, done.len() - 4) =~= rgba@.subrange(0, 4 * i));
            assert(rgb@ =~= spec_rgb_of_rgba(done));
        }
    }
    proof {
        assert(rgba@.subrange(0, 4 * (pixels as int)) =~= rgba@);
        lemma_rgb_of_rgba_len(rgba@);
    }
    rgb
}

} // verus!
