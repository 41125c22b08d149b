//! The buffers that make up a vertex array object for a mesh, and how the
//! shaders read them.

use vstd::prelude::*;
use crate::layout::{bytes_of, byte_size_of_array};

verus! {

/// The OpenGL binding point a buffer is filled through.
#[derive(Clone, Copy, Debug, PartialEq, Eq, Structural)]
pub enum BufferTarget {
    /// `ARRAY_BUFFER`: per-vertex attribute data.
    Array,
    /// `ELEMENT_ARRAY_BUFFER`: the triangle indices.
    ElementArray,
}

/// Which of the mesh's arrays a buffer is filled from.
#[derive(Clone, Copy, Debug, PartialEq, Eq, Structural)]
pub enum BufferSource {
    Vertices,
    Indices,
    Colors,
    Normals,
}

/// How the data of a buffer is expected to be used (`STATIC_DRAW`: written
/// once, drawn many times).
#[derive(Clone, Copy, Debug, PartialEq, Eq, Structural)]
pub enum BufferUsage {
    StaticDraw,
}

/// The type of each component of an attribute value.
#[derive(Clone, Copy, Debug, PartialEq, Eq, Structural)]
pub enum ComponentType {
    /// `FLOAT`: a 32-bit float.
    Float,
}

/// A shader input fed from a buffer, as `VertexAttribPointer` takes it: its
/// location, how many components make up one value and their type, whether
/// integers are normalized, the byte stride between values (zero: tightly
/// packed) and the byte offset of the first value.
#[derive(Clone, Copy, Debug, PartialEq, Eq, Structural)]
pub struct VertexAttribute {
    pub index: u32,
    pub components: i32,
    pub component_type: ComponentType,
    pub normalized: bool,
    pub stride: i32,
    pub offset: u32,
}

/// A tightly packed float attribute starting at the beginning of its buffer.
pub open spec fn packed_float_attribute(index: u32, components: i32) -> VertexAttribute {
    VertexAttribute {
        index,
        components,
        component_type: ComponentType::Float,
        normalized: false,
        stride: 0,
        offset: 0,
    }
}

/// A tightly packed float attribute starting at the beginning of its buffer.
fn packed_float(index: u32, components: i32) -> (a: VertexAttribute)
    ensures
        a == packed_float_attribute(index, components),
{
    VertexAttribute {
        index,
        components,
        component_type: ComponentType::Float,
        normalized: false,
        stride: 0,
        offset: 0,
    }
}

/// One buffer of a vertex array object, in the order it is created: generate,
/// bind to `target`, fill with `byte_size` bytes of `source` for `usage`,
/// then, for an attribute buffer, point and enable `attribute`.
#[derive(Clone, Copy, Debug, PartialEq, Eq, Structural)]
pub struct BufferUpload {
    pub target: BufferTarget,
    pub source: BufferSource,
    pub byte_size: isize,
    pub usage: BufferUsage,
    pub attribute: Option<VertexAttribute>,
}

/// The buffers of a mesh's vertex array object, given the byte sizes of its
/// arrays: positions at location 0 (three floats), the indices, colors at
/// location 1 (four floats), and the normals twice, at location 2 and at
/// location 3 (three floats each). Every buffer is filled for static drawing,
/// and every attribute is tightly packed, not normalized, from offset zero.
pub open spec fn spec_vao_buffers(
    vertices_bytes: isize,
    indices_bytes: isize,
    colors_bytes: isize,
    normals_bytes: isize,
) -> Seq<BufferUpload> {
    seq![
        BufferUpload {
            target: BufferTarget::Array,
            source: BufferSource::Vertices,
            byte_size: vertices_bytes,
            usage: BufferUsage::StaticDraw,
            attribute: Some(packed_float_attribute(0, 3)),
        },
        BufferUpload {
            target: BufferTarget::ElementArray,
            source: BufferSource::Indices,
            byte_size: indices_bytes,
            usage: BufferUsage::StaticDraw,
            attribute: None,
        },
        BufferUpload {
            target: BufferTarget::Array,
            source: BufferSource::Colors,
            byte_size: colors_bytes,
            usage: BufferUsage::StaticDraw,
            attribute: Some(packed_float_attribute(1, 4)),
        },
        BufferUpload {
            target: BufferTarget::Array,
            source: BufferSource::Normals,
            byte_size: normals_bytes,
            usage: BufferUsage::StaticDraw,
            attribute: Some(packed_float_attribute(2, 3)),
        },
        BufferUpload {
            target: BufferTarget::Array,
            source: BufferSource::Normals,
            byte_size: normals_bytes,
            usage: BufferUsage::StaticDraw,
            attribute: Some(packed_float_attribute(3, 3)),
        },
    ]
}

/// The buffers to create, in order, for a vertex array object holding a mesh
/// with these positions, triangle indices, colors and normals.
pub fn vao_buffers<V, I>(vertices: &[V], indices: &[I], colors: &[V], normals: &[V]) -> (buffers: Vec<BufferUpload>)
    requires
        bytes_of::<V>(vertices@.len() as int) <= isize::MAX,
        bytes_of::<I>(indices@.len() as int) <= isize::MAX,
        bytes_of::<V>(colors@.len() as int) <= isize::MAX,
        bytes_of::<V>(normals@.len() as int) <= isize::MAX,
    ensures
        buffers@ == spec_vao_buffers(
            bytes_of::<V>(vertices@.len() as int) as isize,
            bytes_of::<I>(indices@.len() as int) as isize,
            bytes_of::<V>(colors@.len() as int) as isize,
            bytes_of::<V>(normals@.len() as int) as isize,
        ),
        forall|i: int| 0 <= i < buffers@.len() ==> buffers@[i].byte_size as int == match buffers@[i].source {
            BufferSource::Vertices => bytes_of::<V>(vertices@.len() as int),
            BufferSource::Indices => bytes_of::<I>(indices@.len() as int),
            BufferSource::Colors => bytes_of::<V>(colors@.len() as int),
            BufferSource::Normals => bytes_of::<V>(normals@.len() as int),
        },
        forall|i: int| 0 <= i < buffers@.len() ==>
            ((buffers@[i].target == BufferTarget::ElementArray) <==> (buffers@[i].source == BufferSource::Indices)),
        exists|i: int| 0 <= i < buffers@.len() && buffers@[i].source == BufferSource::Vertices,
        exists|i: int| 0 <= i < buffers@.len() && buffers@[i].source == BufferSource::Indices,
        exists|i: int| 0 <= i < buffers@.len() && buffers@[i].source == BufferSource::Colors,
        exists|i: int| 0 <= i < buffers@.len() && buffers@[i].source == BufferSource::Normals,
{
    let vertices_bytes = byte_size_of_array(vertices);
    let indices_bytes = byte_size_of_array(indices);
    let colors_bytes = byte_size_of_array(colors);
    let normals_bytes = byte_size_of_array(normals);
    let mut buffers: Vec<BufferUpload> = Vec::with_capacity(5);
    buffers.push(BufferUpload {
        target: BufferTarget::Array,
        source: BufferSource::Vertices,
        byte_size: vertices_bytes,
        usage: BufferUsage::StaticDraw,
        attribute: Some(packed_float(0, 3)),
    });
    buffers.push(BufferUpload {
        target: BufferTarget::ElementArray,
        source: BufferSource::Indices,
        byte_size: indices_bytes,
        usage: BufferUsage::StaticDraw,
        attribute: None,
    });
    buffers.push(BufferUpload {
        target: BufferTarget::Array,
        source: BufferSource::Colors,
        byte_size: colors_bytes,
        usage: BufferUsage::StaticDraw,
        attribute: Some(packed_float(1, 4)),
    });
    buffers.push(BufferUpload {
        target: BufferTarget::Array,
        source: BufferSource::Normals,
        byte_size: normals_bytes,
        usage: BufferUsage::StaticDraw,
        attribute: Some(packed_float(2, 3)),
    });
    buffers.push(BufferUpload {
        target: BufferTarget::Array,
        source: BufferSource::Normals,
        byte_size: normals_bytes,
        usage: BufferUsage::StaticDraw,
        attribute: Some(packed_float(3, 3)),
    });
    proof {
        assert(buffers@ =~= spec_vao_buffers(vertices_bytes, indices_bytes, colors_bytes, normals_bytes));
        law_vao_sizes_match_sources(vertices_bytes, indices_bytes, colors_bytes, normals_bytes);
    }
    buffers
}

/// Every vertex array object has exactly one index buffer, feeding no
/// attribute; every other buffer feeds an attribute, no two of them the same
/// location, each location below four.
pub proof fn law_vao_layout(vertices_bytes: isize, indices_bytes: isize, colors_bytes: isize, normals_bytes: isize)
    ensures
        ({
            let b = spec_vao_buffers(vertices_bytes, indices_bytes, colors_bytes, normals_bytes);
            &&& forall|i: int| 0 <= i < b.len() ==> ((b[i].target == BufferTarget::ElementArray) <==> b[i].attribute is None)
            &&& forall|i: int| 0 <= i < b.len() && b[i].target == BufferTarget::ElementArray ==> i == 1
            &&& forall|i: int| 0 <= i < b.len() && b[i].attribute is Some ==> b[i].attribute->0.index < 4
            &&& forall|i: int, j: int| 0 <= i < b.len() && 0 <= j < b.len() && i != j
                && b[i].attribute is Some && b[j].attribute is Some
                ==> b[i].attribute->0.index != b[j].attribute->0.index
        }),
{
    let b = spec_vao_buffers(vertices_bytes, indices_bytes, colors_bytes, normals_bytes);
    assert(b.len() == 5);
    assert(b[0].attribute->0.index == 0);
    assert(b[2].attribute->0.index == 1);
    assert(b[3].attribute->0.index == 2);
    assert(b[4].attribute->0.index == 3);
}

/// Every buffer is filled with the whole of its source array: its byte size
/// is that array's byte size, so the index buffer holds all the indices
/// whatever the size of the other arrays. The index buffer is the one bound
/// as the element array, and every array of the mesh is uploaded.
pub proof fn law_vao_sizes_match_sources(
    vertices_bytes: isize,
    indices_bytes: isize,
    colors_bytes: isize,
    normals_bytes: isize,
)
    ensures
        ({
            let b = spec_vao_buffers(vertices_bytes, indices_bytes, colors_bytes, normals_bytes);
            &&& forall|i: int| 0 <= i < b.len() ==> b[i].byte_size == match b[i].source {
                BufferSource::Vertices => vertices_bytes,
                BufferSource::Indices => indices_bytes,
                BufferSource::Colors => colors_bytes,
                BufferSource::Normals => normals_bytes,
            }
            &&& forall|i: int| 0 <= i < b.len() ==>
                ((b[i].target == BufferTarget::ElementArray) <==> (b[i].source == BufferSource::Indices))
            &&& exists|i: int| 0 <= i < b.len() && b[i].source == BufferSource::Vertices
            &&& exists|i: int| 0 <= i < b.len() && b[i].source == BufferSource::Indices
            &&& exists|i: int| 0 <= i < b.len() && b[i].source == BufferSource::Colors
            &&& exists|i: int| 0 <= i < b.len() && b[i].source == BufferSource::Normals
        }),
{
    let b = spec_vao_buffers(vertices_bytes, indices_bytes, colors_bytes, normals_bytes);
    assert(b[0].source == BufferSource::Vertices);
    assert(b[1].source == BufferSource::Indices);
    assert(b[2].source == BufferSource::Colors);
    assert(b[3].source == BufferSource::Normals);
}

} // verus!
