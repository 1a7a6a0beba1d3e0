use vstd::prelude::*;
use crate::config::{HISTORY_LEN, PPM_FLOOR, PPM_SCALE};

verus! {

broadcast use vstd::array::group_array_axioms;

/// First chart column that shows data; the columns left of it hold the axis labels.
pub const GRAPH_LEFT: usize = 47;

/// Pixel operations of one redraw: two per data column.
pub const RENDER_OPS: usize = 546;

/// Screen row of a `PPM_FLOOR` reading.
pub const BASE_ROW: i32 = 230;

/// Row of a sample: `BASE_ROW - (sample - PPM_FLOOR) / PPM_SCALE`, the
/// division rounding toward zero.
pub open spec fn spec_row(s: u32) -> int {
    if s >= PPM_FLOOR {
        BASE_ROW - (s - PPM_FLOOR) as int / PPM_SCALE as int
    } else {
        BASE_ROW + (PPM_FLOOR - s) as int / PPM_SCALE as int
    }
}

/// Screen row at which `sample` is plotted.
pub fn row_of(sample: u32) -> (y: i32)
    ensures
        y as int == spec_row(sample),
{
    if sample >= PPM_FLOOR {
        BASE_ROW - ((sample - PPM_FLOOR) / PPM_SCALE) as i32
    } else {
        BASE_ROW + ((PPM_FLOOR - sample) / PPM_SCALE) as i32
    }
}

/// One pixel to set: lit draws the curve, unlit erases it.
#[derive(Clone, Copy, Debug, PartialEq, Eq, Structural)]
pub struct PixelOp {
    pub x: i32,
    pub y: i32,
    pub lit: bool,
}

/// Operation `k` of a redraw from curve `prev` to curve `next`: for each data
/// column, first the old pixel erased, then the new one drawn.
pub open spec fn spec_op(prev: Seq<u32>, next: Seq<u32>, k: int) -> PixelOp {
    let col = GRAPH_LEFT + k / 2;
    if k % 2 == 0 {
        PixelOp { x: col as i32, y: spec_row(prev[col]) as i32, lit: false }
    } else {
        PixelOp { x: col as i32, y: spec_row(next[col]) as i32, lit: true }
    }
}

/// Keeps the curve last drawn, so that a redraw touches two pixels per column
/// instead of clearing the whole chart.
pub struct GraphRenderer {
    curve: [u32; 320],
}

impl View for GraphRenderer {
    type V = Seq<u32>;

    closed spec fn view(&self) -> Seq<u32> {
        self.curve@
    }
}

impl GraphRenderer {
    /// A renderer whose last curve is all zeros, which lies below the screen.
    pub fn new() -> (g: GraphRenderer)
        ensures
            g@ == Seq::new(HISTORY_LEN as nat, |k: int| 0u32),
    {
        let g = GraphRenderer { curve: [0u32; 320] };
        assert(g@ =~= Seq::new(HISTORY_LEN as nat, |k: int| 0u32));
        g
    }

    /// The curve last drawn.
    pub fn displayed(&self) -> (c: [u32; 320])
        ensures
            c@ == self@,
    {
        self.curve
    }

    /// The pixel operations that turn the drawn curve into `history`, in
    /// order; afterwards `history` is the drawn curve.
    pub fn render(&mut self, history: &[u32; 320]) -> (ops: [PixelOp; 546])
        ensures
            final(self)@ == history@,
            ops@.len() == RENDER_OPS,
            RENDER_OPS == 2 * (HISTORY_LEN - GRAPH_LEFT),
            forall|k: int| 0 <= k < RENDER_OPS ==> #[trigger] ops@[k] == spec_op(old(self)@, history@, k),
    {
        let mut ops = [PixelOp { x: 0, y: 0, lit: false }; 546];
        let mut col: usize = GRAPH_LEFT;
        while col < HISTORY_LEN
            invariant
                GRAPH_LEFT <= col <= HISTORY_LEN,
                self@ == old(self)@,
                ops@.len() == RENDER_OPS,
                forall|k: int|
                    0 <= k < 2 * (col - GRAPH_LEFT) ==> #[trigger] ops@[k] == spec_op(self@, history@, k),
            decreases HISTORY_LEN - col,
        {
            let x = col as i32;
            let k: usize = 2 * (col - GRAPH_LEFT);
            ops[k] = PixelOp { x, y: row_of(self.curve[col]), lit: false };
            ops[k + 1] = PixelOp { x, y: row_of(history[col]), lit: true };
            proof {
                assert(k as int / 2 == col - GRAPH_LEFT);
                assert((k + 1) as int / 2 == col - GRAPH_LEFT);
            }
            col += 1;
        }
        self.curve = *history;
        ops
    }
}

/// Decimal digits of `n` as ASCII, most significant first.
pub open spec fn decimal(n: nat) -> Seq<u8>
    decreases n,
{
    if n < 10 {
        seq![(48 + n) as u8]
    } else {
        decimal(n / 10).push((48 + n % 10) as u8)
    }
}

/// Spaces before the number so that it stands right-aligned in four places.
pub open spec fn pad_width(n: u32) -> nat {
    if n < 10 {
        3
    } else if n < 100 {
        2
    } else if n < 1000 {
        1
    } else {
        0
    }
}

/// The readout text `CO2: NNNNppm`.
pub open spec fn spec_readout(n: u32) -> Seq<u8> {
    seq![67u8, 79, 50, 58] + Seq::new(pad_width(n), |k: int| 32u8) + decimal(n as nat) + seq![
        112u8,
        112,
        109,
    ]
}

fn push_decimal(out: &mut Vec<u8>, n: u32)
    ensures
        final(out)@ == old(out)@ + decimal(n as nat),
    decreases n,
{
    if n >= 10 {
        push_decimal(out, n / 10);
    }
    out.push(48u8 + (n % 10) as u8);
    proof {
        if n < 10 {
            assert(final(out)@ =~= old(out)@ + decimal(n as nat));
        } else {
            assert(final(out)@ =~= old(out)@ + decimal(n as nat));
        }
    }
}

/// ASCII text of the numeric readout for `ppm`: `CO2:`, padding spaces, the
/// number, `ppm`.
pub fn readout_text(ppm: u32) -> (t: Vec<u8>)
    ensures
        t@ == spec_readout(ppm),
{
    let mut t: Vec<u8> = Vec::new();
    t.push(67u8);
    t.push(79u8);
    t.push(50u8);
    t.push(58u8);
    let pad: usize = if ppm < 10 {
        3
    } else if ppm < 100 {
        2
    } else if ppm < 1000 {
        1
    } else {
        0
    };
    let mut i: usize = 0;
    while i < pad
        invariant
            i <= pad,
            pad == pad_width(ppm),
            t@ == seq![67u8, 79, 50, 58] + Seq::new(i as nat, |k: int| 32u8),
        decreases pad - i,
    {
        t.push(32u8);
        i += 1;
        assert(t@ =~= seq![67u8, 79, 50, 58] + Seq::new(i as nat, |k: int| 32u8));
    }
    push_decimal(&mut t, ppm);
    t.push(112u8);
    t.push(112u8);
    t.push(109u8);
    assert(t@ =~= spec_readout(ppm));
    t
}

} // verus!
