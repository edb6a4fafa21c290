//! Rectangles of the terminal handed to each drawable, and the panel wrapper.
use vstd::prelude::*;

verus! {

/// The rectangle a drawable may paint into, in cells: origin `(x, y)`,
/// width `w` and height `h`.
#[derive(Clone, Copy, Debug, PartialEq, Eq, Structural)]
pub struct PanelDims {
    pub x: u16,
    pub y: u16,
    pub w: u16,
    pub h: u16,
}

/// A bordered panel around one kind of content.
pub struct Panel<Kind> {
    pub kind: Kind,
}

/// One row of a panel's border, starting at `(x, y)` and `width` cells wide:
/// a `full` row is border from end to end; otherwise only its first and last
/// cells are border and the cells between are blank.
#[derive(Clone, Copy, Debug, PartialEq, Eq, Structural)]
pub struct BorderRow {
    pub x: u16,
    pub y: u16,
    pub width: u16,
    pub full: bool,
}

impl PanelDims {
    /// The rectangle lies in the `u16` cell space of a terminal: its far
    /// edges do not pass `u16::MAX`.
    pub open spec fn fits(self) -> bool {
        self.x + self.w <= u16::MAX && self.y + self.h <= u16::MAX
    }

    /// Too small to hold anything: a draw into it paints nothing.
    pub open spec fn is_degenerate(self) -> bool {
        self.w < 2 || self.h < 2
    }
}

/// The border of a panel: its top and bottom rows in full, then each row
/// between them with its two side cells; nothing for a degenerate panel.
pub open spec fn border_layout(dims: PanelDims) -> Seq<BorderRow> {
    if dims.is_degenerate() {
        Seq::empty()
    } else {
        seq![
            BorderRow { x: dims.x, y: dims.y, width: dims.w, full: true },
            BorderRow { x: dims.x, y: (dims.y + dims.h - 1) as u16, width: dims.w, full: true },
        ] + Seq::new(
            (dims.h - 2) as nat,
            |i: int| BorderRow { x: dims.x, y: (dims.y + 1 + i) as u16, width: dims.w, full: false },
        )
    }
}

/// The rows of the border around the panel `dims`, as `border_layout` states.
pub fn border_rows(dims: PanelDims) -> (r: Vec<BorderRow>)
    requires
        dims.fits(),
    ensures
        r@ == border_layout(dims),
{
    let mut rows: Vec<BorderRow> = Vec::new();
    if dims.w < 2 || dims.h < 2 {
        return rows;
    }
    rows.push(BorderRow { x: dims.x, y: dims.y, width: dims.w, full: true });
    rows.push(BorderRow { x: dims.x, y: dims.y + dims.h - 1, width: dims.w, full: true });
    let mut i: u16 = 0;
    while i < dims.h - 2
        invariant
            dims.fits(),
            !dims.is_degenerate(),
            i <= dims.h - 2,
            rows@.len() == 2 + i,
            rows@[0] == border_layout(dims)[0],
            rows@[1] == border_layout(dims)[1],
            forall|j: int| 0 <= j < i ==> #[trigger] rows@[2 + j] == (BorderRow {
                x: dims.x,
                y: (dims.y + 1 + j) as u16,
                width: dims.w,
                full: false,
            }),
        decreases dims.h - 2 - i,
    {
        rows.push(BorderRow { x: dims.x, y: dims.y + 1 + i, width: dims.w, full: false });
        i = i + 1;
    }
    assert forall|k: int| 0 <= k < rows@.len() implies #[trigger] rows@[k] == border_layout(dims)[k] by {
        if k >= 2 {
            assert(rows@[2 + (k - 2)] == rows@[k]);
        }
    }
    assert(rows@ =~= border_layout(dims));
    rows
}

} // verus!
