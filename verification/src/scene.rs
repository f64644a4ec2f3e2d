//! The fixed scene assembled at startup.
//!
//! Every quantity the backend needs is described as exact plain data:
//! colors, vertex attributes and camera parameters are multiples of one
//! tenth and are stored in tenths, so the description is pinned by its
//! contract down to the last coordinate. The unverified shell converts
//! this record into backend resources (font, pipeline, buffers,
//! textures) once, before the first frame.

use vstd::prelude::*;

verus! {

use crate::motion::Offset;

/// A color with channels in tenths of the unit range.
#[derive(Clone, Copy, PartialEq, Eq, Structural, Debug)]
pub struct ColorTenths {
    pub r: i32,
    pub g: i32,
    pub b: i32,
    pub a: i32,
}

/// How the color and depth buffers are reset before each frame.
#[derive(Clone, Copy, PartialEq, Eq, Structural, Debug)]
pub struct ClearConfig {
    pub color: ColorTenths,
    pub depth_tenths: i32,
}

/// One vertex: position, color and texture coordinates, in tenths.
#[derive(Clone, Copy, PartialEq, Eq, Structural, Debug)]
pub struct VertexTenths {
    pub px: i32,
    pub py: i32,
    pub pz: i32,
    pub cr: i32,
    pub cg: i32,
    pub cb: i32,
    pub u: i32,
    pub v: i32,
}

/// Component layout of one vertex attribute.
#[derive(Clone, Copy, PartialEq, Eq, Structural, Debug)]
pub enum AttrFormat {
    Float32x2,
    Float32x3,
}

/// One attribute slot of the vertex layout.
#[derive(Clone, Copy, PartialEq, Eq, Structural, Debug)]
pub struct VertexAttr {
    pub location: u32,
    pub format: AttrFormat,
}

/// Depth comparison chosen for the pipeline's depth test.
#[derive(Clone, Copy, PartialEq, Eq, Structural, Debug)]
pub enum DepthCompare {
    Never,
    Less,
    Equal,
    LessEqual,
    Greater,
    NotEqual,
    GreaterEqual,
    Always,
}

/// Depth-testing options compiled into the pipeline.
#[derive(Clone, Copy, PartialEq, Eq, Structural, Debug)]
pub struct DepthOptions {
    pub write: bool,
    pub compare: DepthCompare,
}

/// A point in camera space, in tenths.
#[derive(Clone, Copy, PartialEq, Eq, Structural, Debug)]
pub struct Vec3Tenths {
    pub x: i32,
    pub y: i32,
    pub z: i32,
}

/// Parameters of the fixed camera transform: a perspective projection
/// composed with a look-at view. The field of view is in tenths of a
/// degree and the aspect ratio is the exact quotient of the two sides.
#[derive(Clone, Copy, PartialEq, Eq, Structural, Debug)]
pub struct Camera {
    pub fov_y_degrees_tenths: i32,
    pub aspect_width: i32,
    pub aspect_height: i32,
    pub near_tenths: i32,
    pub far_tenths: i32,
    pub eye: Vec3Tenths,
    pub target: Vec3Tenths,
    pub up: Vec3Tenths,
}

/// Everything the startup phase decides, as plain data: clear options,
/// camera, vertex layout, the triangle's vertices and indices, binding
/// slots and names, texture sizes, and the circle's starting offset.
#[derive(Clone, PartialEq, Eq, Debug)]
pub struct SceneConfig {
    pub clear: ClearConfig,
    pub camera: Camera,
    pub layout: Vec<VertexAttr>,
    pub vertices: Vec<VertexTenths>,
    pub indices: Vec<u32>,
    pub depth: DepthOptions,
    pub uniform_slot: u32,
    pub uniform_name: String,
    pub texture_slot: u32,
    pub texture_uniform_name: String,
    pub empty_texture_width: u32,
    pub empty_texture_height: u32,
    pub render_texture_width: u32,
    pub render_texture_height: u32,
    pub asset_path: String,
    pub initial_offset: Offset,
}

/// The frame is cleared to opaque blue.
pub open spec fn clear_blue() -> ClearConfig {
    ClearConfig { color: ColorTenths { r: 0, g: 0, b: 10, a: 10 }, depth_tenths: 10 }
}

/// The fixed camera: 45 degree vertical field of view, 4:3 aspect,
/// near plane 0.1, far plane 100, eye at (4,3,3) looking at the origin
/// with +Y up.
pub open spec fn fixed_camera() -> Camera {
    Camera {
        fov_y_degrees_tenths: 450,
        aspect_width: 4,
        aspect_height: 3,
        near_tenths: 1,
        far_tenths: 1000,
        eye: Vec3Tenths { x: 40, y: 30, z: 30 },
        target: Vec3Tenths { x: 0, y: 0, z: 0 },
        up: Vec3Tenths { x: 0, y: 10, z: 0 },
    }
}

/// The vertex layout: position (3 floats), color (3 floats), texture
/// coordinates (2 floats), at locations 0, 1 and 2.
pub open spec fn fixed_layout() -> Seq<VertexAttr> {
    seq![
        VertexAttr { location: 0, format: AttrFormat::Float32x3 },
        VertexAttr { location: 1, format: AttrFormat::Float32x3 },
        VertexAttr { location: 2, format: AttrFormat::Float32x2 },
    ]
}

/// The single triangle, wound counter-clockwise, with one strong color
/// channel per corner and all texture coordinates at the origin.
pub open spec fn fixed_vertices() -> Seq<VertexTenths> {
    seq![
        VertexTenths { px: 0, py: 0, pz: 0, cr: 10, cg: 2, cb: 3, u: 0, v: 0 },
        VertexTenths { px: 10, py: 0, pz: 0, cr: 1, cg: 10, cb: 3, u: 0, v: 0 },
        VertexTenths { px: 0, py: 10, pz: 0, cr: 1, cg: 2, cb: 10, u: 0, v: 0 },
    ]
}

/// The triangle's index list.
pub open spec fn fixed_indices() -> Seq<u32> {
    seq![0u32, 1u32, 2u32]
}

/// The whole startup record, pinned field by field. Any two records
/// satisfying this predicate hold identical data.
pub open spec fn scene_fixed(s: SceneConfig) -> bool {
    &&& s.clear == clear_blue()
    &&& s.camera == fixed_camera()
    &&& s.layout@ == fixed_layout()
    &&& s.vertices@ == fixed_vertices()
    &&& s.indices@ == fixed_indices()
    &&& s.depth == (DepthOptions { write: true, compare: DepthCompare::Less })
    &&& s.uniform_slot == 0
    &&& s.uniform_name@ == "Locals"@
    &&& s.texture_slot == 0
    &&& s.texture_uniform_name@ == "u_texture"@
    &&& s.empty_texture_width == 320
    &&& s.empty_texture_height == 240
    &&& s.render_texture_width == 320
    &&& s.render_texture_height == 240
    &&& s.asset_path@ == "assets/cat.png"@
    &&& s.initial_offset == (Offset { x: 0, y: 0 })
}

/// Assemble the startup record. Its output is a pure function of the
/// constants above: the returned record satisfies `scene_fixed`, which
/// pins every field, so repeated calls agree on all of their data.
pub fn setup() -> (s: SceneConfig)
    ensures
        scene_fixed(s),
{
    let mut layout: Vec<VertexAttr> = Vec::new();
    layout.push(VertexAttr { location: 0, format: AttrFormat::Float32x3 });
    layout.push(VertexAttr { location: 1, format: AttrFormat::Float32x3 });
    layout.push(VertexAttr { location: 2, format: AttrFormat::Float32x2 });
    assert(layout@ =~= fixed_layout());

    let mut vertices: Vec<VertexTenths> = Vec::new();
    vertices.push(VertexTenths { px: 0, py: 0, pz: 0, cr: 10, cg: 2, cb: 3, u: 0, v: 0 });
    vertices.push(VertexTenths { px: 10, py: 0, pz: 0, cr: 1, cg: 10, cb: 3, u: 0, v: 0 });
    vertices.push(VertexTenths { px: 0, py: 10, pz: 0, cr: 1, cg: 2, cb: 10, u: 0, v: 0 });
    assert(vertices@ =~= fixed_vertices());

    let mut indices: Vec<u32> = Vec::new();
    indices.push(0);
    indices.push(1);
    indices.push(2);
    assert(indices@ =~= fixed_indices());

    SceneConfig {
        clear: ClearConfig { color: ColorTenths { r: 0, g: 0, b: 10, a: 10 }, depth_tenths: 10 },
        camera: Camera {
            fov_y_degrees_tenths: 450,
            aspect_width: 4,
            aspect_height: 3,
            near_tenths: 1,
            far_tenths: 1000,
            eye: Vec3Tenths { x: 40, y: 30, z: 30 },
            target: Vec3Tenths { x: 0, y: 0, z: 0 },
            up: Vec3Tenths { x: 0, y: 10, z: 0 },
        },
        layout,
        vertices,
        indices,
        depth: DepthOptions { write: true, compare: DepthCompare::Less },
        uniform_slot: 0,
        uniform_name: String::from_str("Locals"),
        texture_slot: 0,
        texture_uniform_name: String::from_str("u_texture"),
        empty_texture_width: 320,
        empty_texture_height: 240,
        render_texture_width: 320,
        render_texture_height: 240,
        asset_path: String::from_str("assets/cat.png"),
        initial_offset: Offset { x: 0, y: 0 },
    }
}

/// Startup is deterministic: two records that both satisfy the fixed
/// scene predicate carry identical buffer contents (the same three
/// vertices and the same index list), the same camera parameters, and
/// the same value in every remaining field.
pub proof fn lemma_setup_deterministic(a: SceneConfig, b: SceneConfig)
    requires
        scene_fixed(a),
        scene_fixed(b),
    ensures
        a.vertices@ == b.vertices@,
        a.indices@ == b.indices@,
        a.camera == b.camera,
        a.layout@ == b.layout@,
        a.clear == b.clear,
        a.depth == b.depth,
        a.uniform_slot == b.uniform_slot,
        a.uniform_name@ == b.uniform_name@,
        a.texture_slot == b.texture_slot,
        a.texture_uniform_name@ == b.texture_uniform_name@,
        a.empty_texture_width == b.empty_texture_width,
        a.empty_texture_height == b.empty_texture_height,
        a.render_texture_width == b.render_texture_width,
        a.render_texture_height == b.render_texture_height,
        a.asset_path@ == b.asset_path@,
        a.initial_offset == b.initial_offset,
{
}

} // verus!
