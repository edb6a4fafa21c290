//! The globe view: camera, depth grid, and the frame that draws the mesh.
use vstd::prelude::*;
use crate::camera::Camera;
use crate::depth::{DepthGrid, cleared_cells, grid_allocatable, grid_cells, grid_dim, grid_fill, grid_new};
use crate::frame::{FrameState, PaintCommand, ScreenTriangle, fill_triangle, frame, grid_fits, mesh_triangle, paint_mesh, screen_vertex};
use crate::geometry::{ClipVertex, to_screen};
use crate::mesh::Mesh;
use crate::panel::{Panel, PanelDims};

verus! {

/// The globe view of the main panel.
pub struct Log {
    /// Offset from the end of the log: 0 shows its last line at the bottom.
    pub index: u64,
    pub camera: Camera,
    pub depth: DepthGrid,
}

impl Log {
    /// The depth grid left by the last frame, indexed relative to the panel origin.
    pub open spec fn depth_cells(&self) -> Seq<Seq<Option<i64>>> {
        grid_cells(self.depth)
    }

    pub open spec fn wf(&self) -> bool {
        self.camera.wf()
    }

    /// A view with the camera at its starting place and an empty depth grid.
    pub fn new() -> (r: Log)
        ensures
            r.index == 0,
            r.camera == Camera::new_spec(),
            r.wf(),
            r.depth_cells().len() == 0,
    {
        Log { index: 0, camera: Camera::new(), depth: grid_new(0, 0) }
    }

    /// Turns the camera about the vertical axis by `direction` steps; its
    /// distance from the origin does not change, nor does the depth grid.
    pub fn rotate(&mut self, direction: i32)
        requires
            old(self).wf(),
        ensures
            final(self).wf(),
            final(self).camera.turn == crate::camera::turned(old(self).camera.turn as int, direction as int),
            final(self).camera.distance == old(self).camera.distance,
            final(self).index == old(self).index,
            final(self).depth_cells() == old(self).depth_cells(),
    {
        self.camera.rotate(direction);
    }

    /// Draws one frame of the mesh, whose vertices the current camera has
    /// projected to `vertices`, into the panel `dims`. Returns the paint
    /// commands in the order issued: triangles in mesh order, each scanning
    /// its box row by row. A panel narrower or lower than two cells is left
    /// alone. The camera is not touched.
    pub fn draw(&mut self, dims: PanelDims, mesh: &Mesh, vertices: &Vec<ClipVertex>) -> (r: Vec<PaintCommand>)
        requires
            dims.fits(),
            grid_allocatable(dims.w as int, dims.h as int),
            mesh.wf(),
            vertices@.len() == mesh.vertex_count(),
        ensures
            r@ == frame(old(self).depth_cells(), dims, *mesh, vertices@).paints,
            final(self).depth_cells() == frame(old(self).depth_cells(), dims, *mesh, vertices@).cells,
            final(self).camera == old(self).camera,
            final(self).index == old(self).index,
            dims.is_degenerate() ==> r@.len() == 0,
    {
        let mut out: Vec<PaintCommand> = Vec::new();
        if dims.w < 2 || dims.h < 2 {
            return out;
        }
        let w = dims.w as usize;
        let h = dims.h as usize;
        let (gw, gh) = grid_dim(&self.depth);
        if gw == w && gh == h {
            grid_fill(&mut self.depth, None);
        } else {
            self.depth = grid_new(w, h);
        }
        assert(grid_cells(self.depth) =~= cleared_cells(w as nat, h as nat)) by {
            assert forall|x: int| 0 <= x < w implies #[trigger] grid_cells(self.depth)[x] =~= cleared_cells(w as nat, h as nat)[x] by {}
        }
        let ghost st0 = FrameState { cells: grid_cells(self.depth), paints: out@ };
        let len = mesh.indices.len();
        let n = len / 3;
        let mut k: usize = 0;
        while k < n
            invariant
                dims.fits(),
                !dims.is_degenerate(),
                mesh.wf(),
                vertices@.len() == mesh.vertex_count(),
                len == mesh.indices@.len(),
                n == mesh.triangle_count(),
                n == len / 3,
                k <= n,
                st0 == (FrameState { cells: cleared_cells(dims.w as nat, dims.h as nat), paints: Seq::empty() }),
                grid_fits(grid_cells(self.depth), dims),
                (FrameState { cells: grid_cells(self.depth), paints: out@ }) == paint_mesh(st0, dims, *mesh, vertices@, k as int),
                self.camera == old(self).camera,
                self.index == old(self).index,
            decreases n - k,
        {
            assert(3 * k + 2 < mesh.indices@.len()) by (nonlinear_arith)
                requires
                    k < n,
                    n == len / 3,
                    len == mesh.indices@.len(),
            ;
            let i0 = mesh.indices[3 * k] as usize;
            let i1 = mesh.indices[3 * k + 1] as usize;
            let i2 = mesh.indices[3 * k + 2] as usize;
            let t = ScreenTriangle {
                a: to_screen(vertices[i0], dims),
                b: to_screen(vertices[i1], dims),
                c: to_screen(vertices[i2], dims),
                color: mesh.colors[i0],
            };
            assert(t == mesh_triangle(*mesh, vertices@, dims, k as int));
            fill_triangle(&mut self.depth, &mut out, dims, t);
            k = k + 1;
        }
        out
    }
}

impl Panel<Log> {
    /// Draws the globe view inside the panel, as `Log::draw` does.
    pub fn draw(&mut self, dims: PanelDims, mesh: &Mesh, vertices: &Vec<ClipVertex>) -> (r: Vec<PaintCommand>)
        requires
            dims.fits(),
            grid_allocatable(dims.w as int, dims.h as int),
            mesh.wf(),
            vertices@.len() == mesh.vertex_count(),
        ensures
            r@ == frame(old(self).kind.depth_cells(), dims, *mesh, vertices@).paints,
            final(self).kind.depth_cells() == frame(old(self).kind.depth_cells(), dims, *mesh, vertices@).cells,
            final(self).kind.camera == old(self).kind.camera,
            final(self).kind.index == old(self).kind.index,
    {
        self.kind.draw(dims, mesh, vertices)
    }
}

} // verus!
