//! Vertex formats, vertex buffer layouts and index data of static geometry.
use vstd::prelude::*;

use crate::IntoBytes;

verus! {

/// Layout of one vertex attribute: component type and count.
#[derive(Debug, Clone, Copy, PartialEq, Eq, Structural)]
pub enum VertexFormat {
    Float32,
    Sint32,
    Uint32,
    Float32x2,
    Sint32x2,
    Uint32x2,
    Float32x3,
    Sint32x3,
    Uint32x3,
    Float32x4,
    Sint32x4,
    Uint32x4,
    Sint16x2,
    Snorm16x2,
    Uint16x2,
    Unorm16x2,
    Sint16x4,
    Snorm16x4,
    Uint16x4,
    Unorm16x4,
    Sint8x2,
    Snorm8x2,
    Uint8x2,
    Unorm8x2,
    Sint8x4,
    Snorm8x4,
    Uint8x4,
    Unorm8x4,
}

impl VertexFormat {
    /// Bytes of one component.
    pub open spec fn component_bytes(self) -> nat {
        match self {
            VertexFormat::Float32 | VertexFormat::Sint32 | VertexFormat::Uint32
            | VertexFormat::Float32x2 | VertexFormat::Sint32x2 | VertexFormat::Uint32x2
            | VertexFormat::Float32x3 | VertexFormat::Sint32x3 | VertexFormat::Uint32x3
            | VertexFormat::Float32x4 | VertexFormat::Sint32x4 | VertexFormat::Uint32x4 => 4,
            VertexFormat::Sint16x2 | VertexFormat::Snorm16x2 | VertexFormat::Uint16x2
            | VertexFormat::Unorm16x2 | VertexFormat::Sint16x4 | VertexFormat::Snorm16x4
            | VertexFormat::Uint16x4 | VertexFormat::Unorm16x4 => 2,
            _ => 1,
        }
    }

    /// Number of components.
    pub open spec fn components(self) -> nat {
        match self {
            VertexFormat::Float32 | VertexFormat::Sint32 | VertexFormat::Uint32 => 1,
            VertexFormat::Float32x2 | VertexFormat::Sint32x2 | VertexFormat::Uint32x2
            | VertexFormat::Sint16x2 | VertexFormat::Snorm16x2 | VertexFormat::Uint16x2
            | VertexFormat::Unorm16x2 | VertexFormat::Sint8x2 | VertexFormat::Snorm8x2
            | VertexFormat::Uint8x2 | VertexFormat::Unorm8x2 => 2,
            VertexFormat::Float32x3 | VertexFormat::Sint32x3 | VertexFormat::Uint32x3 => 3,
            _ => 4,
        }
    }

    pub open spec fn spec_size(self) -> nat {
        self.components() * self.component_bytes()
    }

    /// Bytes that one value of this format takes in a vertex.
    pub fn size(&self) -> (r: u64)
        ensures
            r == self.spec_size(),
    {
        match self {
            VertexFormat::Float32 => 4,
            VertexFormat::Sint32 => 4,
            VertexFormat::Uint32 => 4,
            VertexFormat::Float32x2 => 4 * 2,
            VertexFormat::Sint32x2 => 4 * 2,
            VertexFormat::Uint32x2 => 4 * 2,
            VertexFormat::Float32x3 => 4 * 3,
            VertexFormat::Sint32x3 => 4 * 3,
            VertexFormat::Uint32x3 => 4 * 3,
            VertexFormat::Float32x4 => 4 * 4,
            VertexFormat::Sint32x4 => 4 * 4,
            VertexFormat::Uint32x4 => 4 * 4,
            VertexFormat::Sint16x2 => 2 * 2,
            VertexFormat::Snorm16x2 => 2 * 2,
            VertexFormat::Uint16x2 => 2 * 2,
            VertexFormat::Unorm16x2 => 2 * 2,
            VertexFormat::Sint16x4 => 2 * 4,
            VertexFormat::Snorm16x4 => 2 * 4,
            VertexFormat::Uint16x4 => 2 * 4,
            VertexFormat::Unorm16x4 => 2 * 4,
            VertexFormat::Sint8x2 => 2,
            VertexFormat::Snorm8x2 => 2,
            VertexFormat::Uint8x2 => 2,
            VertexFormat::Unorm8x2 => 2,
            VertexFormat::Sint8x4 => 4,
            VertexFormat::Snorm8x4 => 4,
            VertexFormat::Uint8x4 => 4,
            VertexFormat::Unorm8x4 => 4,
        }
    }
}

#[derive(Debug, Clone, Copy, PartialEq, Eq, PartialOrd, Ord, Hash)]
pub struct MeshVertexAttributeId(u32);

impl MeshVertexAttributeId {
    pub closed spec fn id(self) -> u32 {
        self.0
    }

    pub fn new(id: u32) -> (r: Self)
        ensures
            r.id() == id,
    {
        MeshVertexAttributeId(id)
    }
}

/// A named vertex attribute of a mesh.
#[derive(Debug, Clone, Copy)]
pub struct MeshVertexAttribute {
    pub name: &'static str,
    pub id: MeshVertexAttributeId,
    pub format: VertexFormat,
}

impl MeshVertexAttribute {
    pub fn new(name: &'static str, id: u32, format: VertexFormat) -> (r: Self)
        ensures
            r.name == name,
            r.id.id() == id,
            r.format == format,
    {
        MeshVertexAttribute { name, id: MeshVertexAttributeId::new(id), format }
    }
}

/// Whether a vertex buffer advances per vertex or per instance.
#[derive(Debug, Clone, Copy, PartialEq, Eq, Structural)]
pub enum InputRate {
    Vertex,
    Instance,
}

/// One attribute inside an interleaved vertex.
#[derive(Debug, Clone, Copy, PartialEq, Eq, Structural)]
pub struct VertexAttribute {
    pub format: VertexFormat,
    pub offset: u64,
    pub location: u32,
}

/// Attributes packed one after the other in each vertex.
#[derive(Debug, Clone)]
pub struct VertexBufferLayout {
    pub stride: u64,
    pub input_rate: InputRate,
    pub attributes: Vec<VertexAttribute>,
}

/// Bytes taken by the formats of `fs`, one after the other.
pub open spec fn packed_size(fs: Seq<VertexFormat>) -> nat
    decreases fs.len(),
{
    if fs.len() == 0 {
        0
    } else {
        packed_size(fs.drop_last()) + fs.last().spec_size()
    }
}

proof fn lemma_packed_size_bound(fs: Seq<VertexFormat>)
    ensures
        packed_size(fs) <= 16 * fs.len(),
    decreases fs.len(),
{
    if fs.len() > 0 {
        lemma_packed_size_bound(fs.drop_last());
        let c = fs.last().components();
        let b = fs.last().component_bytes();
        assert(c * b <= 16) by (nonlinear_arith)
            requires
                c <= 4,
                b <= 4,
        ;
    }
}

impl VertexBufferLayout {
    /// Places the attributes in the given order, each right after the one before.
    pub fn from_formats(input_rate: InputRate, vertex_formats: &Vec<VertexFormat>) -> (r: Self)
        requires
            vertex_formats.len() <= u32::MAX,
        ensures
            r.input_rate == input_rate,
            r.stride == packed_size(vertex_formats@),
            r.attributes.len() == vertex_formats.len(),
            forall|i: int|
                0 <= i < vertex_formats.len() ==> #[trigger] r.attributes@[i] == (VertexAttribute {
                    format: vertex_formats@[i],
                    offset: packed_size(vertex_formats@.take(i)) as u64,
                    location: i as u32,
                }),
    {
        let mut attributes: Vec<VertexAttribute> = Vec::new();
        let mut offset: u64 = 0;
        let mut i: usize = 0;
        while i < vertex_formats.len()
            invariant
                i <= vertex_formats.len() <= u32::MAX,
                offset == packed_size(vertex_formats@.take(i as int)),
                attributes.len() == i,
                forall|j: int|
                    0 <= j < i ==> #[trigger] attributes@[j] == (VertexAttribute {
                        format: vertex_formats@[j],
                        offset: packed_size(vertex_formats@.take(j)) as u64,
                        location: j as u32,
                    }),
            decreases vertex_formats.len() - i,
        {
            let format = vertex_formats[i];
            proof {
                lemma_packed_size_bound(vertex_formats@.take(i + 1));
                assert(vertex_formats@.take(i + 1).drop_last() =~= vertex_formats@.take(
                    i as int,
                ));
            }
            attributes.push(VertexAttribute { format, offset, location: i as u32 });
            offset = offset + format.size();
            i = i + 1;
        }
        proof {
            assert(vertex_formats@.take(vertex_formats.len() as int) =~= vertex_formats@);
        }
        VertexBufferLayout { stride: offset, input_rate, attributes }
    }
}

/// Index data of a mesh.
#[derive(Debug, Clone)]
pub enum Indices {
    U16(Vec<u16>),
    U32(Vec<u32>),
}

impl Indices {
    pub open spec fn spec_len(&self) -> nat {
        match self {
            Indices::U16(v) => v@.len(),
            Indices::U32(v) => v@.len(),
        }
    }

    /// Bytes of one index.
    pub open spec fn index_bytes(&self) -> nat {
        match self {
            Indices::U16(_) => 2,
            Indices::U32(_) => 4,
        }
    }

    /// Number of indices.
    pub fn len(&self) -> (r: usize)
        ensures
            r == self.spec_len(),
    {
        match self {
            Indices::U16(v) => v.len(),
            Indices::U32(v) => v.len(),
        }
    }

    pub fn is_empty(&self) -> (r: bool)
        ensures
            r == (self.spec_len() == 0),
    {
        self.len() == 0
    }
}

/// Relies on bytemuck::cast_slice: the indices' memory seen as bytes, two per index.
#[verifier::external_body]
fn u16_slice_bytes(v: &Vec<u16>) -> (r: Vec<u8>)
    ensures
        r@.len() == 2 * v@.len(),
{
    bytemuck::cast_slice::<u16, u8>(v.as_slice()).to_vec()
}

/// Relies on bytemuck::cast_slice: the indices' memory seen as bytes, four per index.
#[verifier::external_body]
fn u32_slice_bytes(v: &Vec<u32>) -> (r: Vec<u8>)
    ensures
        r@.len() == 4 * v@.len(),
{
    bytemuck::cast_slice::<u32, u8>(v.as_slice()).to_vec()
}

impl IntoBytes for Indices {
    /// The index buffer contents, in the host's byte order.
    fn to_bytes(&self) -> (r: Vec<u8>)
        ensures
            r@.len() == self.index_bytes() * self.spec_len(),
    {
        match self {
            Indices::U16(v) => u16_slice_bytes(v),
            Indices::U32(v) => u32_slice_bytes(v),
        }
    }
}

} // verus!
