//! The presentation side: a quad over the whole surface whose fragments read
//! the traced image.

use crate::gpu::layout::{encode_words, encoded, lemma_words_at};
use crate::gpu::raytracer::compute_pipeline::{
    bindings_well_formed, has_group, usage_of, Binding, BindingKind, BufferId, Stages,
};
use crate::scalar::{Scalar, Vec2, ONE_BITS, ZERO_BITS};
use vstd::prelude::*;

verus! {

/// Bytes in an encoded vertex.
pub const VERTEX_SIZE: u64 = 16;

/// Bit pattern of minus one.
pub const MINUS_ONE_BITS: u32 = 0xBF80_0000;

/// Indices drawn for the quad: two triangles.
pub const QUAD_INDICES: u32 = 6;

/// A corner of the quad: where it lies on the surface, and where in the
/// traced image.
#[derive(Clone, Copy, Debug, PartialEq, Eq, Structural)]
pub struct Vertex {
    pub position: Vec2,
    pub tex_coords: Vec2,
}

/// Where an attribute lies in a vertex and where the vertex stage finds it.
/// Every attribute is a pair of scalars.
#[derive(Clone, Copy, Debug, PartialEq, Eq, Structural)]
pub struct VertexAttribute {
    pub offset: u64,
    pub shader_location: u32,
}

/// How the vertex buffer is read: one vertex every `array_stride` bytes.
#[derive(Clone, Copy, Debug, PartialEq, Eq, Structural)]
pub struct VertexLayout {
    pub array_stride: u64,
    pub position: VertexAttribute,
    pub tex_coords: VertexAttribute,
}

/// One indexed draw of a single instance.
#[derive(Clone, Copy, Debug, PartialEq, Eq, Structural)]
pub struct Draw {
    pub first_index: u32,
    pub index_count: u32,
    pub base_vertex: i32,
    pub instances: u32,
}

impl Vertex {
    pub open spec fn words(self) -> Seq<u32> {
        seq![
            self.position.x.bits,
            self.position.y.bits,
            self.tex_coords.x.bits,
            self.tex_coords.y.bits,
        ]
    }

    /// The vertex with the given coordinates, by bit pattern.
    pub open spec fn of_bits(x: u32, y: u32, u: u32, v: u32) -> Vertex {
        Vertex {
            position: Vec2 { x: Scalar { bits: x }, y: Scalar { bits: y } },
            tex_coords: Vec2 { x: Scalar { bits: u }, y: Scalar { bits: v } },
        }
    }

    pub fn from_bits(x: u32, y: u32, u: u32, v: u32) -> (vertex: Vertex)
        ensures
            vertex == Vertex::of_bits(x, y, u, v),
    {
        Vertex { position: Vec2::from_bits(x, y), tex_coords: Vec2::from_bits(u, v) }
    }

    /// The layout of the vertex buffer: the position first, at location 0,
    /// the texture coordinates behind it, at location 1.
    pub open spec fn layout() -> VertexLayout {
        VertexLayout {
            array_stride: VERTEX_SIZE,
            position: VertexAttribute { offset: 0, shader_location: 0 },
            tex_coords: VertexAttribute { offset: 8, shader_location: 1 },
        }
    }

    pub fn desc() -> (layout: VertexLayout)
        ensures
            layout == Vertex::layout(),
    {
        VertexLayout {
            array_stride: VERTEX_SIZE,
            position: VertexAttribute { offset: 0, shader_location: 0 },
            tex_coords: VertexAttribute { offset: 8, shader_location: 1 },
        }
    }
}

/// The words of a run of vertices.
pub open spec fn vertices_words(vertices: Seq<Vertex>) -> Seq<u32> {
    Seq::new(4 * vertices.len(), |i: int| vertices[i / 4].words()[i % 4])
}

/// The corners of the quad: top right, top left, bottom left, bottom right.
/// The surface runs from -1 to 1 and the image from 0 to 1.
pub open spec fn quad_vertices_spec() -> Seq<Vertex> {
    seq![
        Vertex::of_bits(ONE_BITS, ONE_BITS, ONE_BITS, ONE_BITS),
        Vertex::of_bits(MINUS_ONE_BITS, ONE_BITS, ZERO_BITS, ONE_BITS),
        Vertex::of_bits(MINUS_ONE_BITS, MINUS_ONE_BITS, ZERO_BITS, ZERO_BITS),
        Vertex::of_bits(ONE_BITS, MINUS_ONE_BITS, ONE_BITS, ZERO_BITS),
    ]
}

/// The two triangles of the quad, which share the diagonal from corner 0 to
/// corner 2.
pub open spec fn quad_indices_spec() -> Seq<u32> {
    seq![0u32, 1u32, 2u32, 0u32, 3u32, 2u32]
}

/// The binding of the presentation pass: the traced image, read-only, seen
/// by the fragment stage.
pub open spec fn render_bindings() -> Seq<Binding> {
    seq![
        Binding {
            group: 0,
            binding: 0,
            visibility: Stages { compute: false, fragment: true },
            kind: BindingKind::StorageReadOnly,
            buffer: BufferId::Output,
        },
    ]
}

/// The layout describes the encoded vertex: the attributes follow one
/// another without a gap from the first byte to the stride, and each covers
/// the two words of its field.
pub proof fn lemma_layout_matches_encoding(v: Vertex)
    ensures
        encoded(v.words()).len() == Vertex::layout().array_stride,
        Vertex::layout().position.offset == 0,
        Vertex::layout().tex_coords.offset == Vertex::layout().position.offset + 8,
        Vertex::layout().array_stride == Vertex::layout().tex_coords.offset + 8,
        Vertex::layout().position.shader_location != Vertex::layout().tex_coords.shader_location,
        encoded(v.words()).subrange(0, 8) == encoded(seq![v.position.x.bits, v.position.y.bits]),
        encoded(v.words()).subrange(8, 16) == encoded(
            seq![v.tex_coords.x.bits, v.tex_coords.y.bits],
        ),
{
    assert(encoded(v.words()).subrange(0, 8) =~= encoded(
        seq![v.position.x.bits, v.position.y.bits],
    ));
    assert(encoded(v.words()).subrange(8, 16) =~= encoded(
        seq![v.tex_coords.x.bits, v.tex_coords.y.bits],
    ));
}

/// The vertex buffer holds its vertices back to back, one every stride.
pub proof fn lemma_vertex_at(vertices: Seq<Vertex>, i: int)
    requires
        0 <= i < vertices.len(),
    ensures
        encoded(vertices_words(vertices)).len() == VERTEX_SIZE * vertices.len(),
        encoded(vertices_words(vertices)).subrange(16 * i, 16 * i + 16) == encoded(
            vertices[i].words(),
        ),
{
    let w = vertices_words(vertices);
    lemma_words_at(w, 4 * i, 4 * i + 4);
    assert(w.subrange(4 * i, 4 * i + 4) =~= vertices[i].words());
}

/// Every index of the quad names one of its corners, every corner is named,
/// and a corner shows the point of the image that lies where it lies on the
/// surface: the image's coordinate is one where the surface's is one, and
/// zero where it is minus one.
pub proof fn lemma_quad_is_sound()
    ensures
        quad_indices_spec().len() == QUAD_INDICES,
        quad_vertices_spec().len() == 4,
        forall|i: int|
            0 <= i < quad_indices_spec().len() ==> (#[trigger] quad_indices_spec()[i])
                < quad_vertices_spec().len(),
        forall|c: int| 0 <= c < 4 ==> #[trigger] quad_indices_spec().contains(c as u32),
        forall|c: int|
            0 <= c < 4 ==> {
                let v = #[trigger] quad_vertices_spec()[c];
                &&& (v.position.x.bits == ONE_BITS && v.tex_coords.x.bits == ONE_BITS
                    || v.position.x.bits == MINUS_ONE_BITS && v.tex_coords.x.bits == ZERO_BITS)
                &&& (v.position.y.bits == ONE_BITS && v.tex_coords.y.bits == ONE_BITS
                    || v.position.y.bits == MINUS_ONE_BITS && v.tex_coords.y.bits == ZERO_BITS)
            },
        forall|c: int, d: int|
            0 <= c < d < 4 ==> (#[trigger] quad_vertices_spec()[c]).position
                != (#[trigger] quad_vertices_spec()[d]).position,
{
    let q = quad_indices_spec();
    let v = quad_vertices_spec();
    assert(q[0] == 0 && q[1] == 1 && q[2] == 2 && q[3] == 0 && q[4] == 3 && q[5] == 2);
    assert(q.contains(0u32) && q.contains(1u32) && q.contains(2u32) && q.contains(3u32));
    assert(v[0] == Vertex::of_bits(ONE_BITS, ONE_BITS, ONE_BITS, ONE_BITS));
    assert(v[1] == Vertex::of_bits(MINUS_ONE_BITS, ONE_BITS, ZERO_BITS, ONE_BITS));
    assert(v[2] == Vertex::of_bits(MINUS_ONE_BITS, MINUS_ONE_BITS, ZERO_BITS, ZERO_BITS));
    assert(v[3] == Vertex::of_bits(ONE_BITS, MINUS_ONE_BITS, ONE_BITS, ZERO_BITS));
}

/// The presentation pass has one well-formed bind group, which binds the
/// traced image as something it cannot write.
pub proof fn lemma_render_bindings_well_formed()
    ensures
        bindings_well_formed(render_bindings(), 1),
        render_bindings().len() == 1,
        render_bindings()[0].buffer == BufferId::Output,
        render_bindings()[0].kind == BindingKind::StorageReadOnly,
        usage_of(BufferId::Output).storage,
{
    let t = render_bindings();
    assert(t[0].group == 0 && t[0].binding == 0);
    assert(has_group(t, 0));
}

/// The host's share of the presentation side. The device objects are made
/// from what its methods return.
#[derive(Clone, Copy, Debug, PartialEq, Eq, Structural)]
pub struct RenderState {
    pub num_indices: u32,
}

impl RenderState {
    pub fn new() -> (state: RenderState)
        ensures
            state.num_indices == QUAD_INDICES,
    {
        RenderState { num_indices: QUAD_INDICES }
    }

    /// The corners of the quad.
    pub fn vertices() -> (vertices: Vec<Vertex>)
        ensures
            vertices@ == quad_vertices_spec(),
    {
        let mut vertices: Vec<Vertex> = Vec::new();
        vertices.push(Vertex::from_bits(ONE_BITS, ONE_BITS, ONE_BITS, ONE_BITS));
        vertices.push(Vertex::from_bits(MINUS_ONE_BITS, ONE_BITS, ZERO_BITS, ONE_BITS));
        vertices.push(Vertex::from_bits(MINUS_ONE_BITS, MINUS_ONE_BITS, ZERO_BITS, ZERO_BITS));
        vertices.push(Vertex::from_bits(ONE_BITS, MINUS_ONE_BITS, ONE_BITS, ZERO_BITS));
        assert(vertices@ =~= quad_vertices_spec());
        vertices
    }

    /// The indices of the quad's two triangles.
    pub fn indices() -> (indices: Vec<u32>)
        ensures
            indices@ == quad_indices_spec(),
    {
        let mut indices: Vec<u32> = Vec::new();
        indices.push(0);
        indices.push(1);
        indices.push(2);
        indices.push(0);
        indices.push(3);
        indices.push(2);
        assert(indices@ =~= quad_indices_spec());
        indices
    }

    /// The content of the vertex buffer.
    pub fn vertex_bytes() -> (bytes: Vec<u8>)
        ensures
            bytes@ == encoded(vertices_words(quad_vertices_spec())),
            bytes.len() == 4 * VERTEX_SIZE,
    {
        let vertices = RenderState::vertices();
        let mut words: Vec<u32> = Vec::new();
        let mut i: usize = 0;
        assert(words@ =~= vertices_words(vertices@.take(0)));
        while i < vertices.len()
            invariant
                0 <= i <= vertices.len(),
                words@ == vertices_words(vertices@.take(i as int)),
            decreases vertices.len() - i,
        {
            let v = vertices[i];
            words.push(v.position.x.bits);
            words.push(v.position.y.bits);
            words.push(v.tex_coords.x.bits);
            words.push(v.tex_coords.y.bits);
            assert(words@ =~= vertices_words(vertices@.take(i as int + 1)));
            i += 1;
        }
        assert(vertices@.take(i as int) =~= vertices@);
        encode_words(&words)
    }

    /// The content of the index buffer: each index one word.
    pub fn index_bytes() -> (bytes: Vec<u8>)
        ensures
            bytes@ == encoded(quad_indices_spec()),
            bytes.len() == 4 * QUAD_INDICES,
    {
        let indices = RenderState::indices();
        encode_words(&indices)
    }

    /// The binding of the presentation pass.
    pub fn bindings() -> (table: Vec<Binding>)
        ensures
            table@ == render_bindings(),
    {
        let mut table: Vec<Binding> = Vec::new();
        table.push(
            Binding {
                group: 0,
                binding: 0,
                visibility: Stages { compute: false, fragment: true },
                kind: BindingKind::StorageReadOnly,
                buffer: BufferId::Output,
            },
        );
        assert(table@ =~= render_bindings());
        table
    }

    /// What to draw into the next image of the surface. When none could be
    /// acquired the frame is skipped and nothing is drawn.
    pub fn render(&self, frame_acquired: bool) -> (draw: Option<Draw>)
        ensures
            draw == if frame_acquired {
                Some(
                    Draw {
                        first_index: 0,
                        index_count: self.num_indices,
                        base_vertex: 0,
                        instances: 1,
                    },
                )
            } else {
                None
            },
    {
        if frame_acquired {
            Some(
                Draw {
                    first_index: 0,
                    index_count: self.num_indices,
                    base_vertex: 0,
                    instances: 1,
                },
            )
        } else {
            None
        }
    }
}

} // verus!
