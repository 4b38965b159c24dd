//! The fixed scene: one triangle on a gray background.
//!
//! Every coordinate and colour channel is an exact decimal, stored as a count
//! of tenths: `-5` stands for -0.5 and `10` for 1.0.

use vstd::prelude::*;

verus! {

/// How many stored units make one whole unit.
pub const SCALE: i32 = 10;

/// The vertex shader, GLSL 1.50: passes the position through and hands the
/// colour on with full opacity.
pub const VERTEX_SRC: &'static str = "
    #version 150 core
    in vec2 pos;
    in vec3 color;
    out vec4 v_Color;
    void main() {
        v_Color = vec4(color, 1.0);
        gl_Position = vec4(pos, 0.0, 1.0);
    }
";

/// The fragment shader, GLSL 1.50: writes the interpolated colour.
pub const FRAGMENT_SRC: &'static str = "
    #version 150 core
    in vec4 v_Color;
    out vec4 o_Color;
    void main() {
        o_Color = v_Color;
    }
";

/// One corner of the mesh: a position in the plane and an RGB colour, both in
/// tenths.
#[derive(Clone, Copy, Debug, PartialEq, Eq)]
pub struct Vertex {
    pub pos: (i32, i32),
    pub color: (i32, i32, i32),
}

/// What a clear of the frame resets. A plane that is `None` is left untouched.
#[derive(Clone, Copy, Debug, PartialEq, Eq)]
pub struct ClearData {
    /// RGBA, in tenths.
    pub color: Option<(i32, i32, i32, i32)>,
    /// Depth, in tenths.
    pub depth: Option<i32>,
    pub stencil: Option<u8>,
}

/// The three corners of the triangle, in drawing order.
pub open spec fn triangle_vertices() -> Seq<Vertex> {
    seq![
        Vertex { pos: (-5i32, -5i32), color: (10, 0, 0) },
        Vertex { pos: (5, -5i32), color: (0, 10, 0) },
        Vertex { pos: (0, 5), color: (0, 0, 10) },
    ]
}

/// The background: opaque gray, 0.3 in each colour channel, with depth and
/// stencil left alone.
pub open spec fn background() -> ClearData {
    ClearData { color: Some((3i32, 3i32, 3i32, 10i32)), depth: None, stencil: None }
}

/// The vertex list of the mesh.
pub fn triangle() -> (mesh: Vec<Vertex>)
    ensures
        mesh@ == triangle_vertices(),
        mesh@.len() == 3,
{
    let mut mesh: Vec<Vertex> = Vec::new();
    mesh.push(Vertex { pos: (-5, -5), color: (10, 0, 0) });
    mesh.push(Vertex { pos: (5, -5), color: (0, 10, 0) });
    mesh.push(Vertex { pos: (0, 5), color: (0, 0, 10) });
    mesh
}

/// The clear that opens every frame.
pub fn clear_data() -> (clear: ClearData)
    ensures
        clear == background(),
{
    ClearData { color: Some((3, 3, 3, 10)), depth: None, stencil: None }
}

} // verus!
