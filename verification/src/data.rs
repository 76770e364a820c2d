//! The 3D model: an ordered list of vertices with position and
//! normal, immutable after load.
//!
//! Scene-file parsing is an external collaborator; until it is wired
//! in, loading yields the centered test quadrilateral, as a decoded
//! vertex list with triangle indices.

use vstd::prelude::*;
use crate::transform::Vec3Fp;
use crate::transform::Mat4;
use crate::transform::Renderer;
use crate::transform::project_spec;
use crate::raster::FrameBuffer;
use crate::raster::plotted;
use crate::PipelineFault;

verus! {

broadcast use vstd::string::group_string_axioms;

/// One model vertex: position and normal, fixed-point.
#[derive(Clone, Copy, Debug, PartialEq, Eq, Structural)]
pub struct Vertex {
    /// Position in model space.
    pub position: Vec3Fp,
    /// Outward normal.
    pub normal: Vec3Fp,
}

/// A loaded 3D model: a name, an ordered vertex list and triangle
/// indices into it.
pub struct Model {
    /// Where the model came from.
    pub name: String,
    /// The vertices, in file order.
    pub vertices: Vec<Vertex>,
    /// Triangles as index triples into `vertices`.
    pub indices: Vec<(usize, usize, usize)>,
}

impl Model {
    /// Every triangle refers to existing vertices.
    pub open spec fn well_formed(self) -> bool {
        forall|i: int| 0 <= i < self.indices@.len() ==> (#[trigger] self.indices@[i]).0
            < self.vertices@.len() && self.indices@[i].1 < self.vertices@.len()
            && self.indices@[i].2 < self.vertices@.len()
    }
}

/// The mock vertex at list position `i`: the centered test
/// quadrilateral, one unit on each side, normals facing the camera.
pub open spec fn mock_vertex(i: int) -> Vertex {
    let n = Vec3Fp { x: 0, y: 0, z: 65536 };
    if i == 0 {
        Vertex { position: Vec3Fp { x: 0, y: 0, z: 0 }, normal: n }
    } else if i == 1 {
        Vertex { position: Vec3Fp { x: -65536i64, y: 65536, z: 0 }, normal: n }
    } else if i == 2 {
        Vertex { position: Vec3Fp { x: -65536i64, y: -65536i64, z: 0 }, normal: n }
    } else {
        Vertex { position: Vec3Fp { x: 65536, y: -65536i64, z: 0 }, normal: n }
    }
}

/// Load a model by path.  An empty path is an asset fault; any other
/// path yields the mock model carrying that path as its name.
pub fn load_model(path: &str) -> (r: Result<Model, PipelineFault>)
    ensures
        path@.len() == 0 <==> r is Err,
        r matches Err(e) ==> e == PipelineFault::AssetFault,
        r matches Ok(m) ==> {
            &&& m.name@ == path@
            &&& m.vertices@.len() == 4
            &&& forall|i: int| 0 <= i < 4 ==> #[trigger] m.vertices@[i] == mock_vertex(i)
            &&& m.indices@.len() == 2
            &&& m.indices@[0] == (0usize, 1usize, 2usize)
            &&& m.indices@[1] == (0usize, 2usize, 3usize)
            &&& m.well_formed()
        },
{
    if path.is_empty() {
        return Err(PipelineFault::AssetFault);
    }
    let normal = Vec3Fp { x: 0, y: 0, z: 65536 };
    let mut vertices: Vec<Vertex> = Vec::new();
    vertices.push(Vertex { position: Vec3Fp { x: 0, y: 0, z: 0 }, normal });
    vertices.push(Vertex { position: Vec3Fp { x: -65536, y: 65536, z: 0 }, normal });
    vertices.push(Vertex { position: Vec3Fp { x: -65536, y: -65536, z: 0 }, normal });
    vertices.push(Vertex { position: Vec3Fp { x: 65536, y: -65536, z: 0 }, normal });
    let mut indices: Vec<(usize, usize, usize)> = Vec::new();
    indices.push((0, 1, 2));
    indices.push((0, 2, 3));
    Ok(Model { name: path.to_string(), vertices, indices })
}


/// The frame buffers after projecting and plotting each vertex in
/// list order: a vertex that projects is written to its cell by the
/// nearest-wins rule; one that is skipped (behind the camera or out
/// of the working range) leaves the buffers unchanged.
pub open spec fn rendered_buffers(
    proj: Mat4,
    view: Mat4,
    model: Mat4,
    screen_w: int,
    screen_h: int,
    verts: Seq<Vertex>,
    cells_w: int,
    cells_h: int,
    depth: Seq<i64>,
    glyph: Seq<u8>,
) -> (Seq<i64>, Seq<u8>)
    decreases verts.len(),
{
    if verts.len() == 0 {
        (depth, glyph)
    } else {
        let prev = rendered_buffers(
            proj,
            view,
            model,
            screen_w,
            screen_h,
            verts.drop_last(),
            cells_w,
            cells_h,
            depth,
            glyph,
        );
        match project_spec(proj, view, model, verts.last().position, screen_w, screen_h) {
            Some(p) => plotted(cells_w, cells_h, prev.0, prev.1, p),
            None => prev,
        }
    }
}

impl Model {
    /// One render tick: project every vertex with the given model
    /// matrix and resolve it into the frame buffer, nearest depth
    /// winning.
    pub fn render(&self, renderer: &Renderer, model_matrix: &Mat4, fb: &mut FrameBuffer)
        requires
            renderer.well_formed(),
            old(fb).well_formed(),
        ensures
            final(fb).well_formed(),
            final(fb).width == old(fb).width,
            final(fb).height == old(fb).height,
            (final(fb).depth@, final(fb).glyph@) == rendered_buffers(
                renderer.projection_matrix,
                renderer.view_matrix,
                *model_matrix,
                renderer.width as int,
                renderer.height as int,
                self.vertices@,
                old(fb).width as int,
                old(fb).height as int,
                old(fb).depth@,
                old(fb).glyph@,
            ),
    {
        let n = self.vertices.len();
        let mut i: usize = 0;
        while i < n
            invariant
                n == self.vertices@.len(),
                i <= n,
                renderer.well_formed(),
                fb.well_formed(),
                fb.width == old(fb).width,
                fb.height == old(fb).height,
                (fb.depth@, fb.glyph@) == rendered_buffers(
                    renderer.projection_matrix,
                    renderer.view_matrix,
                    *model_matrix,
                    renderer.width as int,
                    renderer.height as int,
                    self.vertices@.take(i as int),
                    old(fb).width as int,
                    old(fb).height as int,
                    old(fb).depth@,
                    old(fb).glyph@,
                ),
            decreases n - i,
        {
            proof {
                assert(self.vertices@.take(i + 1).drop_last() =~= self.vertices@.take(i as int));
                assert(self.vertices@.take(i + 1).last() == self.vertices@[i as int]);
            }
            if let Some(p) = renderer.project_with_model(model_matrix, self.vertices[i].position) {
                fb.plot(p);
            }
            i = i + 1;
        }
        proof {
            assert(self.vertices@.take(n as int) =~= self.vertices@);
        }
    }
}

} // verus!

