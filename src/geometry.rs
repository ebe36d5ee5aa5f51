use vstd::prelude::*;

verus! {

/// Number of vertices in the quad.
pub const QUAD_VERTEX_COUNT: usize = 4;

/// Number of indices in the quad (two triangles).
pub const QUAD_INDEX_COUNT: usize = 6;

/// The index pattern of the quad: triangles (0, 1, 2) and (2, 1, 3).
pub open spec fn quad_index_pattern() -> Seq<u16> {
    seq![0u16, 1u16, 2u16, 2u16, 1u16, 3u16]
}

/// The quad's index list.
pub fn quad_indices() -> (r: Vec<u16>)
    ensures
        r@ == quad_index_pattern(),
        r@.len() == QUAD_INDEX_COUNT,
{
    let r = vec![0u16, 1u16, 2u16, 2u16, 1u16, 3u16];
    assert(r@ =~= quad_index_pattern());
    r
}


/// One corner of the quad in window pixel coordinates, with its colour in
/// hundredths per channel (red, green, blue, alpha), so that `30` is `0.3`.
#[derive(Clone, Copy, Debug, PartialEq, Eq, Structural)]
pub struct Vertex {
    pub x: u32,
    pub y: u32,
    pub red: u8,
    pub green: u8,
    pub blue: u8,
    pub alpha: u8,
}

/// The quad's corners: top-left, top-right, bottom-left, bottom-right.
pub open spec fn quad_vertex_pattern() -> Seq<Vertex> {
    seq![
        Vertex { x: 25, y: 25, red: 30, green: 50, blue: 80, alpha: 100 },
        Vertex { x: 750, y: 25, red: 30, green: 30, blue: 40, alpha: 100 },
        Vertex { x: 25, y: 750, red: 60, green: 10, blue: 80, alpha: 100 },
        Vertex { x: 750, y: 750, red: 30, green: 50, blue: 60, alpha: 100 },
    ]
}

/// A colour channel is within the unit range.
pub open spec fn channel_ok(c: u8) -> bool {
    c <= 100
}

pub open spec fn vertex_color_ok(v: Vertex) -> bool {
    channel_ok(v.red) && channel_ok(v.green) && channel_ok(v.blue) && channel_ok(v.alpha)
}

/// The quad's vertex list.
pub fn quad_vertices() -> (r: Vec<Vertex>)
    ensures
        r@ == quad_vertex_pattern(),
        r@.len() == QUAD_VERTEX_COUNT,
{
    let r = vec![
        Vertex { x: 25, y: 25, red: 30, green: 50, blue: 80, alpha: 100 },
        Vertex { x: 750, y: 25, red: 30, green: 30, blue: 40, alpha: 100 },
        Vertex { x: 25, y: 750, red: 60, green: 10, blue: 80, alpha: 100 },
        Vertex { x: 750, y: 750, red: 30, green: 50, blue: 60, alpha: 100 },
    ];
    assert(r@ =~= quad_vertex_pattern());
    r
}

/// The `u16` that two bytes make, low byte first.
pub open spec fn u16_le(lo: u8, hi: u8) -> int {
    lo as int + 256 * (hi as int)
}

/// `b` holds the values of `v`, two bytes each, in one byte order throughout:
/// low byte first when `little`, high byte first otherwise.
pub open spec fn u16s_as_bytes(v: Seq<u16>, b: Seq<u8>, little: bool) -> bool {
    &&& b.len() == 2 * v.len()
    &&& forall|i: int|
        0 <= i < v.len() ==> #[trigger] v[i] as int == if little {
            u16_le(b[2 * i], b[2 * i + 1])
        } else {
            u16_le(b[2 * i + 1], b[2 * i])
        }
}

/// Relies on bytemuck::cast_slice from `u16` to `u8`: the same memory read as
/// bytes, so two bytes per value in the machine's byte order. A `u8` target
/// has alignment 1 and divides any length, so the cast does not fail.
#[verifier::external_body]
fn u16_bytes(v: &[u16]) -> (r: Vec<u8>)
    ensures
        u16s_as_bytes(v@, r@, true) || u16s_as_bytes(v@, r@, false),
{
    bytemuck::cast_slice::<u16, u8>(v).to_vec()
}

/// The bytes uploaded to the index buffer: the quad's indices in the
/// machine's byte order.
pub fn quad_index_bytes() -> (r: Vec<u8>)
    ensures
        r@.len() == 2 * QUAD_INDEX_COUNT,
        u16s_as_bytes(quad_index_pattern(), r@, true) || u16s_as_bytes(
            quad_index_pattern(),
            r@,
            false,
        ),
{
    let indices = quad_indices();
    u16_bytes(indices.as_slice())
}

/// Size in bytes of one 32-bit float component.
pub const FLOAT_BYTES: u64 = 4;

/// Size in bytes of the uniform block: one 4x4 float matrix.
pub const UNIFORM_BYTES: u64 = 16 * FLOAT_BYTES;

/// One attribute of a vertex buffer layout: a vector of `components` 32-bit
/// floats at byte `offset`, read by the shader at `shader_location`.
#[derive(Clone, Copy, Debug, PartialEq, Eq, Structural)]
pub struct VertexAttribute {
    pub offset: u64,
    pub shader_location: u32,
    pub components: u32,
}

/// The layout of one vertex in the vertex buffer.
pub struct VertexLayout {
    pub array_stride: u64,
    pub attributes: Vec<VertexAttribute>,
}

/// The attributes lie back to back from offset 0, fill the stride exactly,
/// and the shader locations count up from 0.
pub open spec fn layout_packed(stride: u64, attrs: Seq<VertexAttribute>) -> bool {
    &&& attrs.len() > 0
    &&& attrs[0].offset == 0
    &&& forall|i: int|
        0 <= i < attrs.len() ==> (#[trigger] attrs[i]).shader_location == i
    &&& forall|i: int|
        0 <= i < attrs.len() - 1 ==> attrs[i + 1].offset == (#[trigger] attrs[i]).offset
            + FLOAT_BYTES * attrs[i].components
    &&& stride == attrs.last().offset + FLOAT_BYTES * attrs.last().components
}

impl Vertex {
    /// The buffer layout of a vertex as the shader reads it: a 2-float
    /// position at location 0, then a 4-float colour at location 1.
    pub fn impl_vertex() -> (r: VertexLayout)
        ensures
            r.array_stride == 24,
            r.attributes@ == seq![
                VertexAttribute { offset: 0, shader_location: 0, components: 2 },
                VertexAttribute { offset: 8, shader_location: 1, components: 4 },
            ],
            layout_packed(r.array_stride, r.attributes@),
    {
        let attributes = vec![
            VertexAttribute { offset: 0, shader_location: 0, components: 2 },
            VertexAttribute { offset: 2 * FLOAT_BYTES, shader_location: 1, components: 4 },
        ];
        let r = VertexLayout { array_stride: 6 * FLOAT_BYTES, attributes };
        assert(r.attributes@ =~= seq![
            VertexAttribute { offset: 0, shader_location: 0, components: 2 },
            VertexAttribute { offset: 8, shader_location: 1, components: 4 },
        ]);
        r
    }
}

/// One indexed draw: indices `first_index .. end_index` with `base_vertex`
/// added to each, for instances `first_instance .. end_instance`.
#[derive(Clone, Copy, Debug, PartialEq, Eq, Structural)]
pub struct DrawCall {
    pub first_index: u32,
    pub end_index: u32,
    pub base_vertex: i32,
    pub first_instance: u32,
    pub end_instance: u32,
}

/// The single draw of each frame: every index of the quad, one instance.
pub open spec fn quad_draw_spec() -> DrawCall {
    DrawCall {
        first_index: 0,
        end_index: QUAD_INDEX_COUNT as u32,
        base_vertex: 0,
        first_instance: 0,
        end_instance: 1,
    }
}

/// The draw that each frame makes.
pub fn quad_draw_call() -> (r: DrawCall)
    ensures
        r == quad_draw_spec(),
{
    DrawCall {
        first_index: 0,
        end_index: QUAD_INDEX_COUNT as u32,
        base_vertex: 0,
        first_instance: 0,
        end_instance: 1,
    }
}

/// Every index of `indices` names a vertex of a list of `n` vertices.
pub open spec fn indices_in_range(indices: Seq<u16>, n: int) -> bool {
    forall|i: int| 0 <= i < indices.len() ==> (#[trigger] indices[i]) < n
}

/// The quad's geometry is consistent: 4 vertices and 6 indices, every index
/// names one of the vertices, each group of three forms a triangle of three
/// distinct corners, both triangles are non-degenerate and wind the same way
/// (so back-face culling keeps both or drops both), every colour channel is
/// within range, and the draw call reads exactly the index list.
pub proof fn lemma_quad_geometry_consistent(v: Vec<Vertex>, ix: Vec<u16>, d: DrawCall)
    requires
        v@ == quad_vertex_pattern(),
        ix@ == quad_index_pattern(),
        d == quad_draw_spec(),
    ensures
        v@.len() == QUAD_VERTEX_COUNT,
        ix@.len() == QUAD_INDEX_COUNT,
        ix@.len() % 3 == 0,
        indices_in_range(ix@, v@.len() as int),
        forall|t: int| 0 <= t < 2 ==> #[trigger] triangle_distinct(ix@, t),
        forall|t: int| 0 <= t < 2 ==> #[trigger] twice_area(v@, ix@, t) == twice_area(v@, ix@, 0),
        twice_area(v@, ix@, 0) != 0,
        forall|i: int| 0 <= i < v@.len() ==> vertex_color_ok(#[trigger] v@[i]),
        d.first_index == 0 && d.end_index == ix@.len(),
{
    assert(ix@[0] == 0 && ix@[1] == 1 && ix@[2] == 2);
    assert(ix@[3] == 2 && ix@[4] == 1 && ix@[5] == 3);
    let p = quad_vertex_pattern();
    assert(p[0].x == 25 && p[0].y == 25 && p[1].x == 750 && p[1].y == 25);
    assert(p[2].x == 25 && p[2].y == 750 && p[3].x == 750 && p[3].y == 750);
    let (a0, b0, c0) = (v@[0], v@[1], v@[2]);
    assert(twice_area(v@, ix@, 0) == (b0.x - a0.x) * (c0.y - a0.y) - (b0.y - a0.y) * (c0.x
        - a0.x));
    assert((b0.x - a0.x) * (c0.y - a0.y) - (b0.y - a0.y) * (c0.x - a0.x) == 725 * 725)
        by (nonlinear_arith)
        requires
            b0.x - a0.x == 725 && c0.y - a0.y == 725 && b0.y - a0.y == 0,
    ;
    let (a1, b1, c1) = (v@[2], v@[1], v@[3]);
    assert(twice_area(v@, ix@, 1) == (b1.x - a1.x) * (c1.y - a1.y) - (b1.y - a1.y) * (c1.x
        - a1.x));
    assert((b1.x - a1.x) * (c1.y - a1.y) - (b1.y - a1.y) * (c1.x - a1.x) == 725 * 725)
        by (nonlinear_arith)
        requires
            b1.x - a1.x == 725 && c1.y - a1.y == 0 && b1.y - a1.y == -725 && c1.x - a1.x == 725,
    ;
    assert(triangle_distinct(ix@, 0) && triangle_distinct(ix@, 1));
    assert forall|i: int| 0 <= i < v@.len() implies vertex_color_ok(#[trigger] v@[i]) by {}
}

/// Triangle `t` of an index list names three different vertices.
pub open spec fn triangle_distinct(ix: Seq<u16>, t: int) -> bool {
    ix[3 * t] != ix[3 * t + 1] && ix[3 * t + 1] != ix[3 * t + 2] && ix[3 * t] != ix[3 * t + 2]
}

/// Twice the signed area of triangle `t` of an index list over `v`, in
/// pixel coordinates.
pub open spec fn twice_area(v: Seq<Vertex>, ix: Seq<u16>, t: int) -> int {
    let a = v[ix[3 * t] as int];
    let b = v[ix[3 * t + 1] as int];
    let c = v[ix[3 * t + 2] as int];
    (b.x - a.x) * (c.y - a.y) - (b.y - a.y) * (c.x - a.x)
}

} // verus!
