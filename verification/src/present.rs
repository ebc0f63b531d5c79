//! The presenter: turns the machine's boolean framebuffer into the filled
//! rectangles of one displayed frame. Each lit cell becomes one square block
//! scaled by a fixed integer factor; the surrounding program clears the
//! surface, draws the blocks, and presents the frame atomically.

use vstd::prelude::*;

verus! {

/// Logical framebuffer width, in cells.
pub const DISPLAY_WIDTH: usize = 64;

/// Logical framebuffer height, in cells.
pub const DISPLAY_HEIGHT: usize = 32;

/// Integer scale factor: each lit cell becomes a SCALE-by-SCALE pixel block.
pub const SCALE: u32 = 20;

/// One filled rectangle of the composed frame, in output pixels.
#[derive(Clone, Copy, Debug, PartialEq, Eq, Structural)]
pub struct RectSpec {
    pub x: u32,
    pub y: u32,
    pub width: u32,
    pub height: u32,
}

/// The scaled block for framebuffer cell `i`: the cell sits at column
/// `i mod DISPLAY_WIDTH` and row `i div DISPLAY_WIDTH`, and its block's
/// pixel origin is that position times SCALE.
pub open spec fn rect_at(i: int) -> RectSpec {
    RectSpec {
        x: ((i % (DISPLAY_WIDTH as int)) * (SCALE as int)) as u32,
        y: ((i / (DISPLAY_WIDTH as int)) * (SCALE as int)) as u32,
        width: SCALE,
        height: SCALE,
    }
}

/// The rectangles of a framebuffer: one block per lit cell, in row-major
/// cell order.
pub open spec fn rects_of(b: Seq<bool>) -> Seq<RectSpec>
    decreases b.len(),
{
    if b.len() == 0 {
        Seq::empty()
    } else if b.last() {
        rects_of(b.drop_last()).push(rect_at(b.len() - 1))
    } else {
        rects_of(b.drop_last())
    }
}

/// How many cells of a framebuffer are lit.
pub open spec fn lit_count(b: Seq<bool>) -> nat
    decreases b.len(),
{
    if b.len() == 0 {
        0
    } else {
        lit_count(b.drop_last()) + (if b.last() {
            1nat
        } else {
            0nat
        })
    }
}

/// The presenter draws exactly as many rectangles as the framebuffer has
/// lit cells.
pub proof fn lemma_rects_count(b: Seq<bool>)
    ensures
        rects_of(b).len() == lit_count(b),
    decreases b.len(),
{
    if b.len() > 0 {
        lemma_rects_count(b.drop_last());
    }
}

/// Every lit cell's scaled block is among the frame's rectangles.
pub proof fn lemma_rects_lit_cell(b: Seq<bool>, i: int)
    requires
        0 <= i < b.len(),
        b[i],
    ensures
        rects_of(b).contains(rect_at(i)),
    decreases b.len(),
{
    if i == b.len() - 1 {
        assert(rects_of(b).last() == rect_at(i));
    } else {
        assert(b.drop_last()[i] == b[i]);
        lemma_rects_lit_cell(b.drop_last(), i);
        let j = choose|j: int| 0 <= j < rects_of(b.drop_last()).len() && rects_of(b.drop_last())[j]
            == rect_at(i);
        assert(rects_of(b)[j] == rect_at(i));
    }
}

/// Lays one frame out: one scaled block for each lit framebuffer cell, in
/// row-major order.
pub fn render_rects(buffer: &Vec<bool>) -> (rects: Vec<RectSpec>)
    requires
        buffer@.len() == DISPLAY_WIDTH * DISPLAY_HEIGHT,
    ensures
        rects@ == rects_of(buffer@),
{
    let mut rects: Vec<RectSpec> = Vec::new();
    let mut i: usize = 0;
    while i < buffer.len()
        invariant
            i <= buffer@.len(),
            buffer@.len() == DISPLAY_WIDTH * DISPLAY_HEIGHT,
            rects@ == rects_of(buffer@.take(i as int)),
        decreases buffer@.len() - i,
    {
        if buffer[i] {
            let x = (i % DISPLAY_WIDTH) as u32;
            let y = (i / DISPLAY_WIDTH) as u32;
            rects.push(
                RectSpec { x: x * SCALE, y: y * SCALE, width: SCALE, height: SCALE },
            );
            proof {
                assert(x * SCALE == rect_at(i as int).x);
                assert(y * SCALE == rect_at(i as int).y);
            }
        }
        proof {
            let t = buffer@.take(i as int + 1);
            assert(t.drop_last() =~= buffer@.take(i as int));
            assert(t.last() == buffer@[i as int]);
        }
        i += 1;
    }
    proof {
        assert(buffer@.take(buffer@.len() as int) =~= buffer@);
    }
    rects
}

} // verus!
