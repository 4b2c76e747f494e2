use vstd::prelude::*;

verus! {

use crate::{gl_type_size, size_of, GL_FLOAT, GL_INT};

/// Handle of a buffer object that the graphics driver allocated.
/// The driver calls themselves live outside the library; this side only
/// carries the handle and accounts for offsets into the buffer's storage.
pub struct Buffer(pub u32);

/// Packing of index and vertex data into one shared buffer object:
/// the index data lies at the front, the vertex data directly behind it.
pub struct SharedBufferLayout {
    pub vertex_bytes: usize,
    pub index_bytes: usize,
}

impl SharedBufferLayout {
    pub fn new(vertex_bytes: usize, index_bytes: usize) -> (l: SharedBufferLayout)
        requires
            vertex_bytes + index_bytes <= usize::MAX,
        ensures
            l.vertex_bytes == vertex_bytes,
            l.index_bytes == index_bytes,
    {
        SharedBufferLayout { vertex_bytes, index_bytes }
    }

    /// Bytes the shared buffer must be allocated with: both regions together.
    pub fn total_bytes(&self) -> (n: usize)
        requires
            self.vertex_bytes + self.index_bytes <= usize::MAX,
        ensures
            n == self.index_bytes + self.vertex_bytes,
    {
        self.index_bytes + self.vertex_bytes
    }

    /// The index data is copied to the front of the buffer.
    pub fn index_offset(&self) -> (n: usize)
        ensures
            n == 0,
    {
        0
    }

    /// The vertex data is copied directly behind the index data.
    pub fn vertex_offset(&self) -> (n: usize)
        ensures
            n == self.index_bytes,
    {
        self.index_bytes
    }
}

/// Binding of the shared buffer to slot zero of a vertex array:
/// where the first vertex lies and how many bytes one vertex takes.
pub struct VertexBufferBinding {
    pub buffer: u32,
    pub first_vertex_offset: usize,
    pub stride: u32,
}

/// One vertex attribute of a vertex array: which slot it reads, how many
/// components it has, their driver type code, and the byte offset of the
/// attribute inside a single vertex.
pub struct AttributeFormat {
    pub vao: u32,
    pub index: u32,
    pub size: u32,
    pub gl_type: u32,
    pub relative_offset: u32,
}

/// Lays vertex attributes out one behind the other: each call to
/// `attribute` takes the next attribute slot and starts where the
/// components declared so far end.
pub struct VertexBuilder {
    pub next_attribute: u32,
    pub last_size: u32,
    pub vao: u32,
}

/// Number of interleaved components each vertex holds: a position of three
/// and a texture coordinate of two.
pub const VERTEX_COMPONENTS: u32 = 5;

impl VertexBuilder {
    /// Starts the layout of the vertex array `vao` over a shared buffer
    /// whose index data takes `index_bytes`: the vertices begin right
    /// behind it, spaced a whole vertex of floats apart.
    pub fn bind_buffers(buffer: Buffer, index_bytes: usize, vao: u32) -> (r: (
        VertexBuilder,
        VertexBufferBinding,
    ))
        ensures
            r.0.next_attribute == 0,
            r.0.last_size == 0,
            r.0.vao == vao,
            r.1.buffer == buffer.0,
            r.1.first_vertex_offset == index_bytes,
            r.1.stride == VERTEX_COMPONENTS * gl_type_size(GL_FLOAT),
    {
        let stride: u32 = VERTEX_COMPONENTS * size_of(GL_FLOAT);
        let binding = VertexBufferBinding { buffer: buffer.0, first_vertex_offset: index_bytes, stride };
        let builder = VertexBuilder { next_attribute: 0, last_size: 0, vao };
        (builder, binding)
    }

    /// Claims the next attribute slot for `size` components of type
    /// `gl_type`, placed where the components declared so far end; the
    /// offset counts float-sized components, as every attribute of this
    /// renderer holds floats.
    pub fn attribute(self, size: u32, gl_type: u32) -> (r: (VertexBuilder, AttributeFormat))
        requires
            gl_type == GL_FLOAT || gl_type == GL_INT,
            self.next_attribute < u32::MAX,
            self.last_size + size <= u32::MAX,
            self.last_size * gl_type_size(GL_FLOAT) <= u32::MAX,
        ensures
            r.1.vao == self.vao,
            r.1.index == self.next_attribute,
            r.1.size == size,
            r.1.gl_type == gl_type,
            r.1.relative_offset == self.last_size * gl_type_size(GL_FLOAT),
            r.0.vao == self.vao,
            r.0.next_attribute == self.next_attribute + 1,
            r.0.last_size == self.last_size + size,
    {
        let format = AttributeFormat {
            vao: self.vao,
            index: self.next_attribute,
            size,
            gl_type,
            relative_offset: self.last_size * size_of(GL_FLOAT),
        };
        let builder = VertexBuilder {
            next_attribute: self.next_attribute + 1,
            last_size: self.last_size + size,
            vao: self.vao,
        };
        (builder, format)
    }
}

/// Write cursor into a fixed-capacity uniform buffer: successive values are
/// placed one behind the other and the cursor rewinds to zero once a frame.
pub struct UBO {
    pub ubo: Buffer,
    pub offset: usize,
    pub size: usize,
}

impl UBO {
    /// The cursor never runs past the buffer's capacity.
    pub open spec fn wf(self) -> bool {
        self.offset <= self.size
    }

    /// A fresh cursor over the buffer `ubo` of `size` bytes, standing at
    /// its start.
    pub fn new(ubo: Buffer, size: usize) -> (u: UBO)
        ensures
            u.wf(),
            u.ubo == ubo,
            u.offset == 0,
            u.size == size,
    {
        UBO { ubo, offset: 0, size }
    }

    /// Reserves the next `attr_size` bytes of the buffer and says where
    /// they begin; the value must still fit in front of the capacity.
    pub fn next_attribute(&mut self, attr_size: usize) -> (write_at: usize)
        requires
            old(self).wf(),
            old(self).offset + attr_size <= old(self).size,
        ensures
            final(self).wf(),
            write_at == old(self).offset,
            final(self).offset == old(self).offset + attr_size,
            final(self).size == old(self).size,
            final(self).ubo == old(self).ubo,
    {
        let write_at = self.offset;
        self.offset = self.offset + attr_size;
        write_at
    }

    /// Reserves the next `attr_size` bytes but takes the reservation right
    /// back: the value lands where the cursor stands, and the next one
    /// overwrites it.
    pub fn next_attribute_reduced(&mut self, attr_size: usize) -> (write_at: usize)
        requires
            old(self).wf(),
            old(self).offset + attr_size <= old(self).size,
        ensures
            final(self).wf(),
            write_at == old(self).offset,
            *final(self) == *old(self),
    {
        let write_at = self.next_attribute(attr_size);
        self.offset = self.offset - attr_size;
        write_at
    }

    /// Rewinds the cursor to the start of the buffer.
    pub fn clear(&mut self)
        ensures
            final(self).wf(),
            final(self).offset == 0,
            final(self).size == old(self).size,
            final(self).ubo == old(self).ubo,
    {
        self.offset = 0;
    }
}

} // verus!
