//! The option menu: which option is selected, and where each option goes.
use vstd::prelude::*;
use crate::panel::{Panel, PanelDims};

verus! {

/// A key as the menu sees it.
#[derive(Clone, Copy, Debug, PartialEq, Eq, Structural)]
pub enum MenuKey {
    Up,
    Down,
    Other,
}

/// One option placed on the panel: write `options[option]` at `(x, y)`,
/// underlined when it is the selected one.
#[derive(Clone, Copy, Debug, PartialEq, Eq, Structural)]
pub struct MenuLine {
    pub x: u16,
    pub y: u16,
    pub option: usize,
    pub underlined: bool,
}

pub struct Menu {
    pub state: u8,
    pub options: Vec<String>,
}

/// Rows between consecutive options when `count` options share the inner
/// height `space` of the panel.
pub open spec fn y_step(space: int, count: int) -> int {
    space / count
}

/// Row of option `i`: the block of options, `(count - 1) * step + 1` rows
/// high, is centred in the inner height, one row below the top border.
pub open spec fn option_row(dims: PanelDims, count: int, i: int) -> int {
    let space = dims.h - 2;
    let step = y_step(space, count);
    let margin = space - ((count - 1) * step + 1);
    dims.y + 1 + margin / 2 + i * step
}

impl Menu {
    /// Where each option goes inside the panel `dims`: in option order, two
    /// cells right of its left edge, spread evenly over its inner height.
    /// Nothing when the panel is lower than two rows or its inner height
    /// cannot hold every option.
    pub open spec fn layout(&self, dims: PanelDims) -> Seq<MenuLine> {
        let count = self.options@.len() as int;
        if dims.h < 2 || dims.h - 2 < count {
            Seq::empty()
        } else {
            Seq::new(
                count as nat,
                |i: int|
                    MenuLine {
                        x: (dims.x + 2) as u16,
                        y: option_row(dims, count, i) as u16,
                        option: i as usize,
                        underlined: i == self.state,
                    },
            )
        }
    }

    /// At least one and at most 255 options, one of them selected.
    pub open spec fn wf(&self) -> bool {
        &&& 0 < self.options@.len() <= 255
        &&& self.state < self.options@.len()
    }

    /// A menu over `options`, the first one selected.
    pub fn new(options: Vec<String>) -> (r: Self)
        ensures
            r.state == 0,
            r.options@ == options@,
    {
        Self { state: 0, options }
    }

    /// Up selects the previous option, Down the next one, each wrapping
    /// around at the ends; other keys change nothing.
    pub fn handle_key_event(&mut self, key: MenuKey)
        requires
            old(self).wf(),
        ensures
            final(self).wf(),
            final(self).options@ == old(self).options@,
            key == MenuKey::Up ==> final(self).state == if old(self).state == 0 {
                old(self).options@.len() - 1
            } else {
                old(self).state - 1
            },
            key == MenuKey::Down ==> final(self).state == if old(self).state == old(self).options@.len() - 1 {
                0
            } else {
                old(self).state + 1
            },
            key == MenuKey::Other ==> final(self).state == old(self).state,
    {
        let last = (self.options.len() - 1) as u8;
        match key {
            MenuKey::Up => {
                if self.state == 0 {
                    self.state = last;
                } else {
                    self.state = self.state - 1;
                }
            },
            MenuKey::Down => {
                if self.state == last {
                    self.state = 0;
                } else {
                    self.state = self.state + 1;
                }
            },
            MenuKey::Other => {},
        }
    }

    /// Places the options inside the panel `dims`, as `layout` states.
    pub fn draw(&self, dims: PanelDims) -> (r: Vec<MenuLine>)
        requires
            self.wf(),
            dims.fits(),
            dims.x + 2 <= u16::MAX,
        ensures
            r@ == self.layout(dims),
    {
        let mut lines: Vec<MenuLine> = Vec::new();
        let count = self.options.len() as u32;
        if dims.h < 2 {
            return lines;
        }
        let space = dims.h as u32 - 2;
        if space < count {
            return lines;
        }
        let step = space / count;
        assert(1 <= step && step * count <= space) by (nonlinear_arith)
            requires
                step == space / count,
                0 < count <= space,
        ;
        assert((count - 1) * step + 1 <= space) by (nonlinear_arith)
            requires
                1 <= step,
                step * count <= space,
                0 < count,
        ;
        let block = (count - 1) * step + 1;
        let margin = space - block;
        let top = dims.y as u32 + 1 + margin / 2;
        let mut i: u32 = 0;
        while i < count
            invariant
                self.wf(),
                dims.fits(),
                dims.x + 2 <= u16::MAX,
                count == self.options@.len(),
                space == dims.h - 2,
                count <= space,
                step == y_step(space as int, count as int),
                1 <= step,
                block == (count - 1) * step + 1,
                block <= space,
                margin == space - block,
                top == dims.y + 1 + margin / 2,
                i <= count,
                lines@.len() == i,
                forall|j: int|
                    0 <= j < i ==> #[trigger] lines@[j] == (MenuLine {
                        x: (dims.x + 2) as u16,
                        y: option_row(dims, count as int, j) as u16,
                        option: j as usize,
                        underlined: j == self.state,
                    }),
            decreases count - i,
        {
            assert(i * step <= (count - 1) * step) by (nonlinear_arith)
                requires
                    i < count,
                    1 <= step,
            ;
            let y = top + i * step;
            assert(y == option_row(dims, count as int, i as int));
            lines.push(MenuLine { x: dims.x + 2, y: y as u16, option: i as usize, underlined: i == self.state as u32 });
            i = i + 1;
        }
        assert(lines@ =~= self.layout(dims));
        lines
    }
}

impl Panel<Menu> {
    /// Where each option of the menu goes inside the panel, as `Menu::draw` says.
    pub fn draw(&self, dims: PanelDims) -> (r: Vec<MenuLine>)
        requires
            self.kind.wf(),
            dims.fits(),
            dims.x + 2 <= u16::MAX,
        ensures
            r@ == self.kind.layout(dims),
    {
        self.kind.draw(dims)
    }
}

} // verus!
