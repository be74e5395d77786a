//! OpenGL buffer objects as the back end keeps track of them: vertex layouts,
//! vertex and index buffers with their capacity, length and count, and uniform
//! buffers with the slots written into them. The API calls themselves are made
//! by the caller from the values computed here.

use vstd::prelude::*;

use crate::graphics::gl_enums::{
    GL_ARRAY_BUFFER, GL_DOUBLE, GL_FLOAT, GL_INT, GL_INVALID_INDEX, GL_SHORT, GL_UNSIGNED_INT,
    GL_UNSIGNED_SHORT,
};
use crate::graphics::renderer::{EnumGlBufferError, EnumOpenGLError};

verus! {

/// The most bytes a vertex buffer may hold.
pub const C_VBO_SIZE_LIMIT: usize = 10_000_000;

/// The most bytes an index buffer may hold.
pub const C_IBO_SIZE_LIMIT: usize = 10_000_000;

/// The size in bytes of a 4x4 matrix of `f32`.
pub const C_MAT4_SIZE: usize = 64;

#[derive(Debug, Copy, Clone, PartialEq, Eq, Structural, Hash)]
pub enum EnumBufferState {
    NotCreated,
    Created,
    Bound,
    Unbound,
    Deleted,
}

/// The type of a vertex attribute, with its component count where it varies.
#[derive(Debug, Copy, Clone, PartialEq, Eq, Structural, Hash)]
pub enum EnumAttributeType {
    UnsignedShort(i32),
    Short(i32),
    UnsignedInt(i32),
    Int(i32),
    Float(i32),
    Double(i32),
    Vec2,
    Vec3,
    Vec4,
    Mat4,
}

/// One attribute of a vertex layout.
#[derive(Debug, Copy, Clone, PartialEq, Eq, Structural, Hash)]
pub struct GlVertexAttribute {
    pub m_gl_type: u32,
    pub m_count: i32,
    pub m_buffer_size: usize,
    pub m_buffer_offset: usize,
    pub m_normalized: u8,
    pub m_attribute_divisor: u8,
}

/// The API type, component count and size of an attribute of type `t`.
pub open spec fn spec_attribute_layout(t: EnumAttributeType) -> (u32, i32, usize) {
    match t {
        EnumAttributeType::UnsignedShort(c) => (GL_UNSIGNED_SHORT, c, 4),
        EnumAttributeType::Short(c) => (GL_SHORT, c, 4),
        EnumAttributeType::UnsignedInt(c) => (GL_UNSIGNED_INT, c, 4),
        EnumAttributeType::Int(c) => (GL_INT, c, 4),
        EnumAttributeType::Float(c) => (GL_FLOAT, c, 4),
        EnumAttributeType::Double(c) => (GL_DOUBLE, c, 8),
        EnumAttributeType::Vec2 => (GL_FLOAT, 2, 8),
        EnumAttributeType::Vec3 => (GL_FLOAT, 3, 12),
        EnumAttributeType::Vec4 => (GL_FLOAT, 4, 16),
        EnumAttributeType::Mat4 => (GL_FLOAT, 16, 64),
    }
}

impl GlVertexAttribute {
    /// An attribute of type `gl_type` at `vbo_offset` in the vertex. The divisor
    /// may not exceed the most vertex attributes the API supports
    /// (`max_vertex_attribs`, read as a byte, as the API's count is). A `Short`
    /// attribute is laid out at offset 0 whatever `vbo_offset` is.
    pub fn new(
        gl_type: EnumAttributeType,
        should_normalize: bool,
        vbo_offset: usize,
        attribute_divisor: u8,
        max_vertex_attribs: i32,
    ) -> (r: Result<GlVertexAttribute, EnumOpenGLError>)
        ensures
            r is Err <==> attribute_divisor > (max_vertex_attribs as u8),
            r is Err ==> r == Err::<GlVertexAttribute, EnumOpenGLError>(
                EnumOpenGLError::InvalidBufferOperation(EnumGlBufferError::InvalidAttributeDivisor),
            ),
            r matches Ok(a) ==> {
                &&& a.m_gl_type == spec_attribute_layout(gl_type).0
                &&& a.m_count == spec_attribute_layout(gl_type).1
                &&& a.m_buffer_size == spec_attribute_layout(gl_type).2
                &&& a.m_buffer_offset == (if gl_type is Short {
                    0
                } else {
                    vbo_offset
                })
                &&& a.m_normalized == (if should_normalize {
                    1u8
                } else {
                    0u8
                })
                &&& a.m_attribute_divisor == attribute_divisor
            },
    {
        let max_div = max_vertex_attribs as u8;
        if attribute_divisor > max_div {
            return Err(
                EnumOpenGLError::InvalidBufferOperation(EnumGlBufferError::InvalidAttributeDivisor),
            );
        }
        let normalized: u8 = if should_normalize {
            1
        } else {
            0
        };
        let (gl, count, size, offset): (u32, i32, usize, usize) = match gl_type {
            EnumAttributeType::UnsignedShort(c) => (GL_UNSIGNED_SHORT, c, 4, vbo_offset),
            EnumAttributeType::Short(c) => (GL_SHORT, c, 4, 0),
            EnumAttributeType::UnsignedInt(c) => (GL_UNSIGNED_INT, c, 4, vbo_offset),
            EnumAttributeType::Int(c) => (GL_INT, c, 4, vbo_offset),
            EnumAttributeType::Float(c) => (GL_FLOAT, c, 4, vbo_offset),
            EnumAttributeType::Double(c) => (GL_DOUBLE, c, 8, vbo_offset),
            EnumAttributeType::Vec2 => (GL_FLOAT, 2, 8, vbo_offset),
            EnumAttributeType::Vec3 => (GL_FLOAT, 3, 12, vbo_offset),
            EnumAttributeType::Vec4 => (GL_FLOAT, 4, 16, vbo_offset),
            EnumAttributeType::Mat4 => (GL_FLOAT, 16, 64, vbo_offset),
        };
        Ok(
            GlVertexAttribute {
                m_gl_type: gl,
                m_count: count,
                m_buffer_size: size,
                m_buffer_offset: offset,
                m_normalized: normalized,
                m_attribute_divisor: attribute_divisor,
            },
        )
    }
}

/// One call that enables a vertex attribute: `integer` attributes go through
/// the integer pointer call.
#[derive(Debug, Copy, Clone, PartialEq, Eq, Structural, Hash)]
pub struct GlAttributePointer {
    pub m_index: u32,
    pub m_count: i32,
    pub m_gl_type: u32,
    pub m_normalized: u8,
    pub m_stride: usize,
    pub m_offset: usize,
    pub m_integer: bool,
}

/// The pointer calls that enable attribute `a` at location `index`: integer
/// types through the integer call; a matrix as four vectors of four at
/// locations `index` to `index + 3`, the `k`-th at `offset + 16 * k` (the
/// component count taken as the step); any other type as one call.
pub open spec fn spec_attribute_pointers(a: GlVertexAttribute, index: int, stride: usize) -> Seq<
    GlAttributePointer,
> {
    if a.m_gl_type == GL_UNSIGNED_INT || a.m_gl_type == GL_INT {
        seq![
            GlAttributePointer {
                m_index: index as u32,
                m_count: a.m_count,
                m_gl_type: a.m_gl_type,
                m_normalized: a.m_normalized,
                m_stride: stride,
                m_offset: a.m_buffer_offset,
                m_integer: true,
            },
        ]
    } else if a.m_count == 16 {
        Seq::new(
            4,
            |k: int|
                GlAttributePointer {
                    m_index: (index + k) as u32,
                    m_count: 4,
                    m_gl_type: a.m_gl_type,
                    m_normalized: a.m_normalized,
                    m_stride: stride,
                    m_offset: (a.m_buffer_offset + 16 * k) as usize,
                    m_integer: false,
                },
        )
    } else {
        seq![
            GlAttributePointer {
                m_index: index as u32,
                m_count: a.m_count,
                m_gl_type: a.m_gl_type,
                m_normalized: a.m_normalized,
                m_stride: stride,
                m_offset: a.m_buffer_offset,
                m_integer: false,
            },
        ]
    }
}

/// The pointer calls for the first `n` attributes of `attrs`, in order.
pub open spec fn spec_layout_pointers(attrs: Seq<GlVertexAttribute>, n: int, stride: usize) -> Seq<
    GlAttributePointer,
>
    decreases n,
{
    if n <= 0 {
        Seq::empty()
    } else {
        spec_layout_pointers(attrs, n - 1, stride) + spec_attribute_pointers(
            attrs[n - 1],
            n - 1,
            stride,
        )
    }
}

/// A vertex array object as the back end tracks it.
#[derive(Debug, Copy, Clone, PartialEq, Eq, Structural, Hash)]
pub struct GlVao {
    pub m_state: EnumBufferState,
    pub m_buffer_id: u32,
}

impl GlVao {
    pub fn default() -> (r: GlVao)
        ensures
            r.m_state == EnumBufferState::Created,
            r.m_buffer_id == 0,
    {
        GlVao { m_state: EnumBufferState::Created, m_buffer_id: 0 }
    }

    /// The vertex array object the API created under `buffer_id`.
    pub fn new(buffer_id: u32) -> (r: GlVao)
        ensures
            r.m_state == EnumBufferState::Created,
            r.m_buffer_id == buffer_id,
    {
        GlVao { m_state: EnumBufferState::Created, m_buffer_id: buffer_id }
    }

    /// Marks the array bound; returns whether the API bind call is due (the
    /// array was created or unbound).
    pub fn bind(&mut self) -> (r: bool)
        ensures
            r == (old(self).m_state == EnumBufferState::Created || old(self).m_state
                == EnumBufferState::Unbound),
            final(self).m_state == EnumBufferState::Bound,
            final(self).m_buffer_id == old(self).m_buffer_id,
    {
        let due = self.m_state == EnumBufferState::Created || self.m_state == EnumBufferState::Unbound;
        self.m_state = EnumBufferState::Bound;
        due
    }

    /// Marks the array unbound; returns whether the API unbind call is due.
    pub fn unbind(&mut self) -> (r: bool)
        ensures
            r == (old(self).m_state == EnumBufferState::Bound),
            final(self).m_state == EnumBufferState::Unbound,
            final(self).m_buffer_id == old(self).m_buffer_id,
    {
        let due = self.m_state == EnumBufferState::Bound;
        self.m_state = EnumBufferState::Unbound;
        due
    }

    /// Frees the array: it is unbound first, so the deletion is always due
    /// and the array ends deleted.
    pub fn free(&mut self) -> (r: bool)
        ensures
            r,
            final(self).m_state == EnumBufferState::Deleted,
            final(self).m_buffer_id == old(self).m_buffer_id,
    {
        self.unbind();
        // Unbinding leaves the state `Unbound`, which is neither deleted nor
        // never created: the deletion goes ahead.
        let due = !(self.m_state == EnumBufferState::Deleted || self.m_state
            == EnumBufferState::NotCreated);
        self.m_state = EnumBufferState::Deleted;
        due
    }

    /// The pointer calls that enable `attributes` with `stride` bytes per
    /// vertex. An empty layout, or one whose attribute index exceeds
    /// `max_vertex_attribs`, is refused.
    pub fn enable_attributes(
        &mut self,
        stride: usize,
        attributes: &Vec<GlVertexAttribute>,
        max_vertex_attribs: i32,
    ) -> (r: Result<Vec<GlAttributePointer>, EnumOpenGLError>)
        requires
            attributes.len() < u32::MAX - 4,
            forall|i: int|
                0 <= i < attributes.len() ==> #[trigger] attributes[i].m_buffer_offset + 48
                    <= usize::MAX,
        ensures
            r is Err <==> (attributes.len() == 0 || (attributes.len() - 1 > (
            max_vertex_attribs as usize))),
            r is Err ==> r == Err::<Vec<GlAttributePointer>, EnumOpenGLError>(
                EnumOpenGLError::InvalidBufferOperation(EnumGlBufferError::InvalidVertexAttribute),
            ),
            r matches Ok(calls) ==> calls@ == spec_layout_pointers(
                attributes@,
                attributes.len() as int,
                stride,
            ),
            attributes.len() > 0 ==> final(self).m_state == EnumBufferState::Bound,
            attributes.len() == 0 ==> *final(self) == *old(self),
            final(self).m_buffer_id == old(self).m_buffer_id,
    {
        if attributes.len() == 0 {
            return Err(
                EnumOpenGLError::InvalidBufferOperation(EnumGlBufferError::InvalidVertexAttribute),
            );
        }
        self.bind();
        let max = max_vertex_attribs as usize;
        let mut calls: Vec<GlAttributePointer> = Vec::new();
        let mut index: usize = 0;
        while index < attributes.len()
            invariant
                0 <= index <= attributes.len(),
                attributes.len() < u32::MAX - 4,
                max == max_vertex_attribs as usize,
                index <= max + 1,
                self.m_state == EnumBufferState::Bound,
                self.m_buffer_id == old(self).m_buffer_id,
                calls@ == spec_layout_pointers(attributes@, index as int, stride),
                forall|i: int|
                    0 <= i < attributes.len() ==> #[trigger] attributes[i].m_buffer_offset + 48
                        <= usize::MAX,
            decreases attributes.len() - index,
        {
            if index > max {
                return Err(
                    EnumOpenGLError::InvalidBufferOperation(
                        EnumGlBufferError::InvalidVertexAttribute,
                    ),
                );
            }
            let a = attributes[index];
            let ghost before = calls@;
            if a.m_gl_type == GL_UNSIGNED_INT || a.m_gl_type == GL_INT {
                calls.push(
                    GlAttributePointer {
                        m_index: index as u32,
                        m_count: a.m_count,
                        m_gl_type: a.m_gl_type,
                        m_normalized: a.m_normalized,
                        m_stride: stride,
                        m_offset: a.m_buffer_offset,
                        m_integer: true,
                    },
                );
            } else if a.m_count == 16 {
                let mut k: usize = 0;
                while k < 4
                    invariant
                        0 <= k <= 4,
                        index < attributes.len() < u32::MAX - 4,
                        a.m_buffer_offset + 48 <= usize::MAX,
                        calls@ == before + spec_attribute_pointers(a, index as int, stride).take(
                            k as int,
                        ),
                        a.m_count == 16,
                        !(a.m_gl_type == GL_UNSIGNED_INT || a.m_gl_type == GL_INT),
                    decreases 4 - k,
                {
                    calls.push(
                        GlAttributePointer {
                            m_index: (index + k) as u32,
                            m_count: 4,
                            m_gl_type: a.m_gl_type,
                            m_normalized: a.m_normalized,
                            m_stride: stride,
                            m_offset: a.m_buffer_offset + 16 * k,
                            m_integer: false,
                        },
                    );
                    k = k + 1;
                    assert(spec_attribute_pointers(a, index as int, stride).take(k as int)
                        =~= spec_attribute_pointers(a, index as int, stride).take(
                        (k - 1) as int,
                    ).push(spec_attribute_pointers(a, index as int, stride)[k - 1]));
                }
                assert(spec_attribute_pointers(a, index as int, stride).take(4) =~= spec_attribute_pointers(
                    a,
                    index as int,
                    stride,
                ));
            } else {
                calls.push(
                    GlAttributePointer {
                        m_index: index as u32,
                        m_count: a.m_count,
                        m_gl_type: a.m_gl_type,
                        m_normalized: a.m_normalized,
                        m_stride: stride,
                        m_offset: a.m_buffer_offset,
                        m_integer: false,
                    },
                );
            }
            assert(calls@ =~= spec_layout_pointers(attributes@, index + 1, stride));
            index = index + 1;
        }
        Ok(calls)
    }
}

/// A vertex buffer as the back end tracks it: its capacity, the bytes and the
/// elements it holds, and the API buffer it lives in (and lived in before its
/// last reallocation).
#[derive(Debug, Copy, Clone, PartialEq, Eq, Structural, Hash)]
pub struct GlVbo {
    pub m_buffer_id: u32,
    pub m_capacity: usize,
    pub m_length: usize,
    pub m_count: usize,
    pub m_type: u32,
    pub m_state: EnumBufferState,
    pub m_old_buffer_id: u32,
}

/// Where a write of data lands in a buffer, and by how much the buffer must
/// first grow (0: it fits).
#[derive(Debug, Copy, Clone, PartialEq, Eq, Structural, Hash)]
pub struct GlBufferWrite {
    pub m_offset: usize,
    pub m_size: usize,
    pub m_count: usize,
    pub m_expand_by: usize,
}

/// The write of `count` elements of `element_size` bytes at the end of a
/// buffer of `length` bytes out of `capacity`.
pub open spec fn spec_buffer_write(length: usize, capacity: usize, element_size: usize, count: usize) -> GlBufferWrite {
    let size = (element_size * count) as usize;
    GlBufferWrite {
        m_offset: length,
        m_size: size,
        m_count: count,
        m_expand_by: if length + size > capacity {
            size
        } else {
            0
        },
    }
}

/// A planned write keeps a buffer within its capacity: the data lands after
/// what the buffer holds, and where it does not fit the buffer grows by its
/// size. With `push`, a buffer within its capacity stays within it.
pub proof fn lemma_planned_write_fits(length: usize, capacity: usize, element_size: usize, count: usize)
    requires
        length <= capacity,
        element_size * count <= usize::MAX,
    ensures
        ({
            let w = spec_buffer_write(length, capacity, element_size, count);
            &&& w.m_offset == length
            &&& w.m_size == element_size * count
            &&& length + w.m_size <= capacity + w.m_expand_by
        }),
{
}

impl GlVbo {
    /// A buffer that holds nothing and was not created.
    pub fn default() -> (r: GlVbo)
        ensures
            r == (GlVbo {
                m_buffer_id: 0,
                m_capacity: 0,
                m_length: 0,
                m_count: 0,
                m_type: GL_ARRAY_BUFFER,
                m_state: EnumBufferState::NotCreated,
                m_old_buffer_id: 0,
            }),
    {
        GlVbo {
            m_buffer_id: 0,
            m_capacity: 0,
            m_length: 0,
            m_count: 0,
            m_type: GL_ARRAY_BUFFER,
            m_state: EnumBufferState::NotCreated,
            m_old_buffer_id: 0,
        }
    }

    /// Whether a vertex buffer may reserve `capacity` bytes: some, and fewer
    /// than the limit.
    pub fn check_capacity(capacity: usize) -> (r: Result<(), EnumOpenGLError>)
        ensures
            r is Ok <==> (capacity != 0 && capacity < C_VBO_SIZE_LIMIT),
            r is Err ==> r == Err::<(), EnumOpenGLError>(
                EnumOpenGLError::InvalidBufferOperation(EnumGlBufferError::InvalidBufferSize),
            ),
    {
        if capacity == 0 || capacity >= C_VBO_SIZE_LIMIT {
            return Err(EnumOpenGLError::InvalidBufferOperation(EnumGlBufferError::InvalidBufferSize));
        }
        Ok(())
    }

    /// The buffer of `capacity` bytes for target `vbo_type` that the API
    /// created under `buffer_id`: empty, and (no earlier buffer) counted as
    /// migrated from buffer 0.
    pub fn new(vbo_type: u32, capacity: usize, buffer_id: u32) -> (r: Result<GlVbo, EnumOpenGLError>)
        ensures
            r is Ok <==> (capacity != 0 && capacity < C_VBO_SIZE_LIMIT),
            r is Err ==> r == Err::<GlVbo, EnumOpenGLError>(
                EnumOpenGLError::InvalidBufferOperation(EnumGlBufferError::InvalidBufferSize),
            ),
            r matches Ok(v) ==> v == (GlVbo {
                m_buffer_id: buffer_id,
                m_capacity: capacity,
                m_length: 0,
                m_count: 0,
                m_type: vbo_type,
                m_state: EnumBufferState::Created,
                m_old_buffer_id: 0,
            }),
    {
        Self::check_capacity(capacity)?;
        Ok(
            GlVbo {
                m_buffer_id: buffer_id,
                m_capacity: capacity,
                m_length: 0,
                m_count: 0,
                m_type: vbo_type,
                m_state: EnumBufferState::Created,
                m_old_buffer_id: 0,
            },
        )
    }

    /// Whether the buffer moved to another API buffer since it was created or
    /// last reallocated.
    pub fn has_migrated(&self) -> (r: bool)
        ensures
            r == (self.m_old_buffer_id != self.m_buffer_id),
    {
        self.m_old_buffer_id != self.m_buffer_id
    }

    pub fn is_empty(&self) -> (r: bool)
        ensures
            r == (self.m_length == 0),
    {
        self.m_length == 0
    }

    /// Marks the buffer bound; the bind call is always due.
    pub fn bind(&mut self)
        ensures
            *final(self) == (GlVbo { m_state: EnumBufferState::Bound, ..*old(self) }),
    {
        self.m_state = EnumBufferState::Bound;
    }

    /// Marks the buffer unbound; the unbind call is always due.
    pub fn unbind(&mut self)
        ensures
            *final(self) == (GlVbo { m_state: EnumBufferState::Unbound, ..*old(self) }),
    {
        self.m_state = EnumBufferState::Unbound;
    }

    /// Where appending `count` elements of `element_size` bytes lands. Nothing
    /// to append is refused; where the data does not fit, the buffer must grow
    /// by the data's size, which the limit may refuse.
    pub fn plan_push(&self, element_size: usize, count: usize) -> (r: Result<GlBufferWrite, EnumOpenGLError>)
        requires
            element_size * count <= isize::MAX,
            self.m_length <= C_VBO_SIZE_LIMIT,
            self.m_capacity <= C_VBO_SIZE_LIMIT,
        ensures
            r is Ok <==> count != 0 && (self.m_length + element_size * count > self.m_capacity ==> (
            element_size * count != 0 && element_size * count + self.m_capacity
                <= C_VBO_SIZE_LIMIT)),
            count == 0 ==> r == Err::<GlBufferWrite, EnumOpenGLError>(
                EnumOpenGLError::InvalidBufferOperation(EnumGlBufferError::InvalidBufferSize),
            ),
            count != 0 && r is Err ==> r == Err::<GlBufferWrite, EnumOpenGLError>(
                EnumOpenGLError::InvalidBufferOperation(EnumGlBufferError::InvalidCapacitySize),
            ),
            r matches Ok(w) ==> w == spec_buffer_write(
                self.m_length,
                self.m_capacity,
                element_size,
                count,
            ),
    {
        if count == 0 {
            return Err(EnumOpenGLError::InvalidBufferOperation(EnumGlBufferError::InvalidBufferSize));
        }
        let size = element_size * count;
        let mut expand_by: usize = 0;
        if self.m_length + size > self.m_capacity {
            self.check_expand(size)?;
            expand_by = size;
        }
        Ok(GlBufferWrite { m_offset: self.m_length, m_size: size, m_count: count, m_expand_by: expand_by })
    }

    /// Records a planned write: the buffer grows first where it must (into
    /// `new_buffer_id`), then holds the data.
    pub fn push(&mut self, write: GlBufferWrite, new_buffer_id: u32)
        requires
            write.m_offset == old(self).m_length,
            old(self).m_length <= C_VBO_SIZE_LIMIT,
            write.m_size <= isize::MAX,
            old(self).m_count + write.m_count <= usize::MAX,
            write.m_expand_by != 0 ==> write.m_expand_by + old(self).m_capacity <= C_VBO_SIZE_LIMIT,
        ensures
            final(self).m_length == old(self).m_length + write.m_size,
            final(self).m_count == old(self).m_count + write.m_count,
            final(self).m_capacity == old(self).m_capacity + write.m_expand_by,
            old(self).m_length + write.m_size <= old(self).m_capacity + write.m_expand_by ==> final(self).m_length
                <= final(self).m_capacity,
            final(self).m_state == EnumBufferState::Bound,
            final(self).m_type == old(self).m_type,
            write.m_expand_by != 0 ==> final(self).m_buffer_id == new_buffer_id
                && final(self).m_old_buffer_id == old(self).m_buffer_id,
            write.m_expand_by == 0 ==> final(self).m_buffer_id == old(self).m_buffer_id
                && final(self).m_old_buffer_id == old(self).m_old_buffer_id,
    {
        if write.m_expand_by != 0 {
            let grown = self.expand(write.m_expand_by, new_buffer_id);
            assert(grown is Ok);
        }
        self.m_length = self.m_length + write.m_size;
        self.m_count = self.m_count + write.m_count;
        self.bind();
    }

    /// Appends `count` elements of `element_size` bytes: plans the write
    /// (see `plan_push`) and records it, the buffer growing by the data's
    /// size into `new_buffer_id` where the data does not fit. Nothing to
    /// append is refused with `InvalidBufferSize`, growth past the limit with
    /// `InvalidCapacitySize`; a refused append changes nothing. A buffer
    /// within its capacity stays within it. Returns the write to upload.
    pub fn push_elements(&mut self, element_size: usize, count: usize, new_buffer_id: u32) -> (r: Result<
        GlBufferWrite,
        EnumOpenGLError,
    >)
        requires
            element_size * count <= isize::MAX,
            old(self).m_length <= C_VBO_SIZE_LIMIT,
            old(self).m_capacity <= C_VBO_SIZE_LIMIT,
            old(self).m_count + count <= usize::MAX,
        ensures
            count == 0 ==> r == Err::<GlBufferWrite, EnumOpenGLError>(
                EnumOpenGLError::InvalidBufferOperation(EnumGlBufferError::InvalidBufferSize),
            ),
            r is Err ==> *final(self) == *old(self),
            r is Ok <==> count != 0 && (old(self).m_length + element_size * count > old(self).m_capacity ==> (
            element_size * count != 0 && element_size * count + old(self).m_capacity <= C_VBO_SIZE_LIMIT)),
            count != 0 && r is Err ==> r == Err::<GlBufferWrite, EnumOpenGLError>(
                EnumOpenGLError::InvalidBufferOperation(EnumGlBufferError::InvalidCapacitySize),
            ),
            r matches Ok(w) ==> {
                &&& w == spec_buffer_write(old(self).m_length, old(self).m_capacity, element_size, count)
                &&& final(self).m_length == old(self).m_length + element_size * count
                &&& final(self).m_count == old(self).m_count + count
                &&& final(self).m_capacity == (if old(self).m_length + element_size * count > old(self).m_capacity {
                    old(self).m_capacity + element_size * count
                } else {
                    old(self).m_capacity as int
                })
                &&& old(self).m_length <= old(self).m_capacity ==> final(self).m_length <= final(self).m_capacity
                &&& final(self).m_state == EnumBufferState::Bound
            },
    {
        let w = self.plan_push(element_size, count)?;
        self.push(w, new_buffer_id);
        Ok(w)
    }

    /// Whether the buffer may grow by `alloc_size` bytes: some, within the limit.
    pub fn check_expand(&self, alloc_size: usize) -> (r: Result<(), EnumOpenGLError>)
        requires
            self.m_capacity <= C_VBO_SIZE_LIMIT,
        ensures
            r is Ok <==> (alloc_size != 0 && alloc_size + self.m_capacity <= C_VBO_SIZE_LIMIT),
            r is Err ==> r == Err::<(), EnumOpenGLError>(
                EnumOpenGLError::InvalidBufferOperation(EnumGlBufferError::InvalidCapacitySize),
            ),
    {
        if alloc_size == 0 || alloc_size > C_VBO_SIZE_LIMIT - self.m_capacity {
            return Err(
                EnumOpenGLError::InvalidBufferOperation(EnumGlBufferError::InvalidCapacitySize),
            );
        }
        Ok(())
    }

    /// Records that the buffer grew by `alloc_size` bytes into the API buffer
    /// `new_buffer_id`; the old one is remembered.
    pub fn expand(&mut self, alloc_size: usize, new_buffer_id: u32) -> (r: Result<(), EnumOpenGLError>)
        ensures
            r is Err <==> (alloc_size == 0 || alloc_size + old(self).m_capacity > C_VBO_SIZE_LIMIT),
            r is Err ==> r == Err::<(), EnumOpenGLError>(
                EnumOpenGLError::InvalidBufferOperation(EnumGlBufferError::InvalidCapacitySize),
            ) && *final(self) == *old(self),
            r is Ok ==> *final(self) == (GlVbo {
                m_capacity: (old(self).m_capacity + alloc_size) as usize,
                m_old_buffer_id: old(self).m_buffer_id,
                m_buffer_id: new_buffer_id,
                m_state: EnumBufferState::Unbound,
                ..*old(self)
            }),
    {
        if alloc_size == 0 || self.m_capacity > C_VBO_SIZE_LIMIT || alloc_size > C_VBO_SIZE_LIMIT - self.m_capacity {
            return Err(EnumOpenGLError::InvalidBufferOperation(EnumGlBufferError::InvalidCapacitySize));
        }
        self.unbind();
        self.m_old_buffer_id = self.m_buffer_id;
        self.m_buffer_id = new_buffer_id;
        self.m_capacity = self.m_capacity + alloc_size;
        Ok(())
    }

    /// Records that the buffer shrank by `dealloc_size` bytes into the API
    /// buffer `new_buffer_id`. Shrinking by nothing is refused.
    pub fn shrink(&mut self, dealloc_size: usize, new_buffer_id: u32) -> (r: Result<(), EnumOpenGLError>)
        requires
            dealloc_size <= old(self).m_capacity,
        ensures
            r is Err <==> dealloc_size == 0,
            r is Err ==> r == Err::<(), EnumOpenGLError>(
                EnumOpenGLError::InvalidBufferOperation(EnumGlBufferError::InvalidBufferSize),
            ) && *final(self) == *old(self),
            r is Ok ==> *final(self) == (GlVbo {
                m_capacity: (old(self).m_capacity - dealloc_size) as usize,
                m_old_buffer_id: old(self).m_buffer_id,
                m_buffer_id: new_buffer_id,
                m_state: EnumBufferState::Unbound,
                ..*old(self)
            }),
    {
        if dealloc_size == 0 {
            return Err(EnumOpenGLError::InvalidBufferOperation(EnumGlBufferError::InvalidBufferSize));
        }
        self.unbind();
        self.m_old_buffer_id = self.m_buffer_id;
        self.m_buffer_id = new_buffer_id;
        self.m_capacity = self.m_capacity - dealloc_size;
        Ok(())
    }

    /// Resizes with `to_size`: 0 is refused and the current capacity changes
    /// nothing. A smaller value shrinks the buffer by `to_size` bytes (into
    /// `shrink_id`) and the buffer is then still grown by `to_size` bytes
    /// (into `expand_id`), the result being the shrinking's; a larger value
    /// grows it by `to_size` bytes. `to_size` is thus an amount of bytes to
    /// move by, not the capacity the buffer ends with.
    pub fn resize(&mut self, to_size: usize, shrink_id: u32, expand_id: u32) -> (r: Result<
        (),
        EnumOpenGLError,
    >)
        requires
            old(self).m_capacity <= C_VBO_SIZE_LIMIT,
        ensures
            to_size == 0 ==> r == Err::<(), EnumOpenGLError>(
                EnumOpenGLError::InvalidBufferOperation(EnumGlBufferError::InvalidBufferSize),
            ) && *final(self) == *old(self),
            to_size == old(self).m_capacity && to_size != 0 ==> r is Ok && *final(self) == *old(self),
            0 < to_size < old(self).m_capacity ==> r is Ok && final(self).m_capacity
                == old(self).m_capacity && final(self).m_buffer_id == expand_id
                && final(self).m_old_buffer_id == shrink_id,
            to_size > old(self).m_capacity ==> (r is Ok <==> to_size + old(self).m_capacity
                <= C_VBO_SIZE_LIMIT) && final(self).m_capacity == (if r is Ok {
                old(self).m_capacity + to_size
            } else {
                old(self).m_capacity as int
            }),
    {
        if to_size == 0 {
            return Err(EnumOpenGLError::InvalidBufferOperation(EnumGlBufferError::InvalidBufferSize));
        }
        if to_size == self.m_capacity {
            return Ok(());
        }
        if to_size < self.m_capacity {
            let shrunk = self.shrink(to_size, shrink_id);
            let _ = self.expand(to_size, expand_id);
            shrunk
        } else {
            self.expand(to_size, expand_id)
        }
    }

    /// Strips `count` elements of `size` bytes at `buffer_offset`: nothing, or
    /// more than the buffer holds, is refused. The length drops by `size` and
    /// the count by `count`. Returns whether the whole buffer is invalidated.
    pub fn strip(&mut self, buffer_offset: usize, size: usize, count: usize) -> (r: Result<
        bool,
        EnumOpenGLError,
    >)
        requires
            size * count <= usize::MAX,
            count <= old(self).m_count,
        ensures
            r is Err <==> (size * count == 0 || size * count > old(self).m_length),
            r is Err ==> r == Err::<bool, EnumOpenGLError>(
                EnumOpenGLError::InvalidBufferOperation(EnumGlBufferError::InvalidBufferSize),
            ) && *final(self) == *old(self),
            r matches Ok(whole) ==> whole == (size * count == old(self).m_length) && *final(self) == (
            GlVbo {
                m_length: (old(self).m_length - size) as usize,
                m_count: (old(self).m_count - count) as usize,
                m_state: EnumBufferState::Bound,
                ..*old(self)
            }),
    {
        let total = size * count;
        if total == 0 || total > self.m_length {
            return Err(EnumOpenGLError::InvalidBufferOperation(EnumGlBufferError::InvalidBufferSize));
        }
        self.bind();
        assert(size <= total) by (nonlinear_arith)
            requires
                total == size * count,
                count >= 1,
        ;
        self.m_length = self.m_length - size;
        self.m_count = self.m_count - count;
        Ok(total == self.m_length + size)
    }

    /// Frees the buffer: it is unbound first, so the deletion is always due.
    /// Empties the buffer (bound first); its capacity is kept. Returns how
    /// many bytes the API is to clear from the start.
    pub fn clear(&mut self) -> (r: usize)
        ensures
            r == old(self).m_length,
            *final(self) == (GlVbo { m_length: 0, m_state: EnumBufferState::Bound, ..*old(self) }),
    {
        self.bind();
        let cleared = self.m_length;
        self.m_length = 0;
        cleared
    }

    pub fn free(&mut self)
        ensures
            *final(self) == (GlVbo { m_state: EnumBufferState::Deleted, ..*old(self) }),
    {
        self.unbind();
        self.m_state = EnumBufferState::Deleted;
    }
}

/// An index buffer as the back end tracks it.
#[derive(Debug, Copy, Clone, PartialEq, Eq, Structural, Hash)]
pub struct GlIbo {
    pub m_buffer_id: u32,
    pub m_capacity: usize,
    pub m_length: usize,
    pub m_count: usize,
    pub m_state: EnumBufferState,
}

impl GlIbo {
    pub fn default() -> (r: GlIbo)
        ensures
            r == (GlIbo {
                m_buffer_id: 0,
                m_capacity: 0,
                m_length: 0,
                m_count: 0,
                m_state: EnumBufferState::NotCreated,
            }),
            r.spec_is_empty(),
    {
        GlIbo { m_buffer_id: 0, m_capacity: 0, m_length: 0, m_count: 0, m_state: EnumBufferState::NotCreated }
    }

    /// Whether an index buffer may reserve `capacity` bytes: some, and at most
    /// the limit.
    pub fn check_capacity(capacity: usize) -> (r: Result<(), EnumOpenGLError>)
        ensures
            r is Ok <==> (capacity != 0 && capacity <= C_IBO_SIZE_LIMIT),
            r is Err ==> r == Err::<(), EnumOpenGLError>(
                EnumOpenGLError::InvalidBufferOperation(EnumGlBufferError::InvalidBufferSize),
            ),
    {
        if capacity == 0 || capacity > C_IBO_SIZE_LIMIT {
            return Err(EnumOpenGLError::InvalidBufferOperation(EnumGlBufferError::InvalidBufferSize));
        }
        Ok(())
    }

    /// The index buffer of `capacity` bytes that the API created under `buffer_id`.
    pub fn new(capacity: usize, buffer_id: u32) -> (r: Result<GlIbo, EnumOpenGLError>)
        ensures
            r is Ok <==> (capacity != 0 && capacity <= C_IBO_SIZE_LIMIT),
            r is Err ==> r == Err::<GlIbo, EnumOpenGLError>(
                EnumOpenGLError::InvalidBufferOperation(EnumGlBufferError::InvalidBufferSize),
            ),
            r matches Ok(b) ==> b == (GlIbo {
                m_buffer_id: buffer_id,
                m_capacity: capacity,
                m_length: 0,
                m_count: 0,
                m_state: EnumBufferState::Created,
            }),
    {
        Self::check_capacity(capacity)?;
        Ok(
            GlIbo {
                m_buffer_id: buffer_id,
                m_capacity: capacity,
                m_length: 0,
                m_count: 0,
                m_state: EnumBufferState::Created,
            },
        )
    }

    /// Whether the buffer holds no index.
    pub open spec fn spec_is_empty(&self) -> bool {
        self.m_length == 0 || self.m_count == 0
    }

    /// Whether the buffer holds no index.
    pub fn is_empty(&self) -> (r: bool)
        ensures
            r == self.spec_is_empty(),
    {
        self.m_length == 0 || self.m_count == 0
    }

    pub fn bind(&mut self)
        ensures
            *final(self) == (GlIbo { m_state: EnumBufferState::Bound, ..*old(self) }),
    {
        self.m_state = EnumBufferState::Bound;
    }

    pub fn unbind(&mut self)
        ensures
            *final(self) == (GlIbo { m_state: EnumBufferState::Unbound, ..*old(self) }),
    {
        self.m_state = EnumBufferState::Unbound;
    }

    /// Where appending `count` indices of `element_size` bytes lands, as for
    /// a vertex buffer, under the index buffer limit.
    pub fn plan_push(&self, element_size: usize, count: usize) -> (r: Result<GlBufferWrite, EnumOpenGLError>)
        requires
            element_size * count <= isize::MAX,
            self.m_length <= C_IBO_SIZE_LIMIT,
            self.m_capacity <= C_IBO_SIZE_LIMIT,
        ensures
            r is Ok <==> count != 0 && (self.m_length + element_size * count > self.m_capacity ==> (
            element_size * count != 0 && element_size * count + self.m_capacity
                <= C_IBO_SIZE_LIMIT)),
            count == 0 ==> r == Err::<GlBufferWrite, EnumOpenGLError>(
                EnumOpenGLError::InvalidBufferOperation(EnumGlBufferError::InvalidBufferSize),
            ),
            count != 0 && r is Err ==> r == Err::<GlBufferWrite, EnumOpenGLError>(
                EnumOpenGLError::InvalidBufferOperation(EnumGlBufferError::InvalidCapacitySize),
            ),
            r matches Ok(w) ==> w == spec_buffer_write(
                self.m_length,
                self.m_capacity,
                element_size,
                count,
            ),
    {
        if count == 0 {
            return Err(EnumOpenGLError::InvalidBufferOperation(EnumGlBufferError::InvalidBufferSize));
        }
        let size = element_size * count;
        let mut expand_by: usize = 0;
        if self.m_length + size > self.m_capacity {
            self.check_expand(size)?;
            expand_by = size;
        }
        Ok(GlBufferWrite { m_offset: self.m_length, m_size: size, m_count: count, m_expand_by: expand_by })
    }

    /// Records a planned write of indices.
    pub fn push(&mut self, write: GlBufferWrite, new_buffer_id: u32)
        requires
            write.m_offset == old(self).m_length,
            old(self).m_length <= C_IBO_SIZE_LIMIT,
            write.m_size <= isize::MAX,
            old(self).m_count + write.m_count <= usize::MAX,
            write.m_expand_by != 0 ==> write.m_expand_by + old(self).m_capacity <= C_IBO_SIZE_LIMIT,
        ensures
            final(self).m_length == old(self).m_length + write.m_size,
            final(self).m_count == old(self).m_count + write.m_count,
            final(self).m_capacity == old(self).m_capacity + write.m_expand_by,
            old(self).m_length + write.m_size <= old(self).m_capacity + write.m_expand_by ==> final(self).m_length
                <= final(self).m_capacity,
            final(self).m_state == EnumBufferState::Bound,
            write.m_expand_by != 0 ==> final(self).m_buffer_id == new_buffer_id,
            write.m_expand_by == 0 ==> final(self).m_buffer_id == old(self).m_buffer_id,
    {
        if write.m_expand_by != 0 {
            let grown = self.expand(write.m_expand_by, new_buffer_id);
            assert(grown is Ok);
        }
        self.m_length = self.m_length + write.m_size;
        self.m_count = self.m_count + write.m_count;
        self.bind();
    }

    /// Appends `count` elements of `element_size` bytes: plans the write
    /// (see `plan_push`) and records it, the buffer growing by the data's
    /// size into `new_buffer_id` where the data does not fit. Nothing to
    /// append is refused with `InvalidBufferSize`, growth past the limit with
    /// `InvalidCapacitySize`; a refused append changes nothing. A buffer
    /// within its capacity stays within it. Returns the write to upload.
    pub fn push_elements(&mut self, element_size: usize, count: usize, new_buffer_id: u32) -> (r: Result<
        GlBufferWrite,
        EnumOpenGLError,
    >)
        requires
            element_size * count <= isize::MAX,
            old(self).m_length <= C_IBO_SIZE_LIMIT,
            old(self).m_capacity <= C_IBO_SIZE_LIMIT,
            old(self).m_count + count <= usize::MAX,
        ensures
            count == 0 ==> r == Err::<GlBufferWrite, EnumOpenGLError>(
                EnumOpenGLError::InvalidBufferOperation(EnumGlBufferError::InvalidBufferSize),
            ),
            r is Err ==> *final(self) == *old(self),
            r is Ok <==> count != 0 && (old(self).m_length + element_size * count > old(self).m_capacity ==> (
            element_size * count != 0 && element_size * count + old(self).m_capacity <= C_IBO_SIZE_LIMIT)),
            count != 0 && r is Err ==> r == Err::<GlBufferWrite, EnumOpenGLError>(
                EnumOpenGLError::InvalidBufferOperation(EnumGlBufferError::InvalidCapacitySize),
            ),
            r matches Ok(w) ==> {
                &&& w == spec_buffer_write(old(self).m_length, old(self).m_capacity, element_size, count)
                &&& final(self).m_length == old(self).m_length + element_size * count
                &&& final(self).m_count == old(self).m_count + count
                &&& final(self).m_capacity == (if old(self).m_length + element_size * count > old(self).m_capacity {
                    old(self).m_capacity + element_size * count
                } else {
                    old(self).m_capacity as int
                })
                &&& old(self).m_length <= old(self).m_capacity ==> final(self).m_length <= final(self).m_capacity
                &&& final(self).m_state == EnumBufferState::Bound
                &&& element_size > 0 ==> !final(self).spec_is_empty()
            },
    {
        let w = self.plan_push(element_size, count)?;
        self.push(w, new_buffer_id);
        assert(element_size > 0 ==> element_size * count > 0) by (nonlinear_arith)
            requires
                count > 0,
        ;
        Ok(w)
    }

    pub fn check_expand(&self, alloc_size: usize) -> (r: Result<(), EnumOpenGLError>)
        requires
            self.m_capacity <= C_IBO_SIZE_LIMIT,
        ensures
            r is Ok <==> (alloc_size != 0 && alloc_size + self.m_capacity <= C_IBO_SIZE_LIMIT),
            r is Err ==> r == Err::<(), EnumOpenGLError>(
                EnumOpenGLError::InvalidBufferOperation(EnumGlBufferError::InvalidCapacitySize),
            ),
    {
        if alloc_size == 0 || alloc_size > C_IBO_SIZE_LIMIT - self.m_capacity {
            return Err(
                EnumOpenGLError::InvalidBufferOperation(EnumGlBufferError::InvalidCapacitySize),
            );
        }
        Ok(())
    }

    /// Records that the buffer grew by `alloc_size` bytes into `new_buffer_id`.
    pub fn expand(&mut self, alloc_size: usize, new_buffer_id: u32) -> (r: Result<(), EnumOpenGLError>)
        ensures
            r is Err <==> (alloc_size == 0 || alloc_size + old(self).m_capacity > C_IBO_SIZE_LIMIT),
            r is Err ==> r == Err::<(), EnumOpenGLError>(
                EnumOpenGLError::InvalidBufferOperation(EnumGlBufferError::InvalidCapacitySize),
            ) && *final(self) == *old(self),
            r is Ok ==> *final(self) == (GlIbo {
                m_capacity: (old(self).m_capacity + alloc_size) as usize,
                m_buffer_id: new_buffer_id,
                m_state: EnumBufferState::Unbound,
                ..*old(self)
            }),
    {
        if alloc_size == 0 || self.m_capacity > C_IBO_SIZE_LIMIT || alloc_size > C_IBO_SIZE_LIMIT - self.m_capacity {
            return Err(EnumOpenGLError::InvalidBufferOperation(EnumGlBufferError::InvalidCapacitySize));
        }
        self.unbind();
        self.m_buffer_id = new_buffer_id;
        self.m_capacity = self.m_capacity + alloc_size;
        Ok(())
    }

    /// Records that the buffer shrank by `dealloc_size` bytes into
    /// `new_buffer_id`; shrinking by nothing is refused.
    pub fn shrink(&mut self, dealloc_size: usize, new_buffer_id: u32) -> (r: Result<(), EnumOpenGLError>)
        requires
            dealloc_size <= old(self).m_capacity,
        ensures
            r is Err <==> dealloc_size == 0,
            r is Err ==> r == Err::<(), EnumOpenGLError>(
                EnumOpenGLError::InvalidBufferOperation(EnumGlBufferError::InvalidBufferSize),
            ) && *final(self) == *old(self),
            r is Ok ==> *final(self) == (GlIbo {
                m_capacity: (old(self).m_capacity - dealloc_size) as usize,
                m_buffer_id: new_buffer_id,
                ..*old(self)
            }),
    {
        if dealloc_size == 0 {
            return Err(EnumOpenGLError::InvalidBufferOperation(EnumGlBufferError::InvalidBufferSize));
        }
        self.m_buffer_id = new_buffer_id;
        self.m_capacity = self.m_capacity - dealloc_size;
        Ok(())
    }

    /// Strips `size` bytes at `buffer_offset`: nothing, or more than the buffer
    /// holds, is refused. The count drops by the indices those bytes held, at
    /// the buffer's bytes per index. Returns whether the whole buffer is
    /// invalidated.
    pub fn strip(&mut self, buffer_offset: usize, size: usize) -> (r: Result<bool, EnumOpenGLError>)
        requires
            old(self).m_count > 0,
            old(self).m_length >= old(self).m_count,
            size / (old(self).m_length / old(self).m_count) <= old(self).m_count,
        ensures
            r is Err <==> (size == 0 || size > old(self).m_length),
            r is Err ==> r == Err::<bool, EnumOpenGLError>(
                EnumOpenGLError::InvalidBufferOperation(EnumGlBufferError::InvalidBufferSize),
            ) && *final(self) == *old(self),
            r matches Ok(whole) ==> whole == (size == old(self).m_length) && *final(self) == (GlIbo {
                m_length: (old(self).m_length - size) as usize,
                m_count: (old(self).m_count - size / (old(self).m_length / old(self).m_count)) as usize,
                m_state: EnumBufferState::Bound,
                ..*old(self)
            }),
    {
        if size == 0 || size > self.m_length {
            return Err(EnumOpenGLError::InvalidBufferOperation(EnumGlBufferError::InvalidBufferSize));
        }
        self.bind();
        let whole = size == self.m_length;
        let size_per_index = self.m_length / self.m_count;
        assert(size_per_index >= 1) by (nonlinear_arith)
            requires
                size_per_index == self.m_length / self.m_count,
                self.m_length >= self.m_count,
                self.m_count > 0,
        ;
        self.m_length = self.m_length - size;
        self.m_count = self.m_count - size / size_per_index;
        Ok(whole)
    }

    /// Empties the buffer (bound first); its capacity is kept. Returns how
    /// many bytes the API is to clear from the start.
    pub fn clear(&mut self) -> (r: usize)
        ensures
            r == old(self).m_length,
            *final(self) == (GlIbo { m_length: 0, m_state: EnumBufferState::Bound, ..*old(self) }),
            final(self).spec_is_empty(),
    {
        self.bind();
        let cleared = self.m_length;
        self.m_length = 0;
        cleared
    }

    pub fn free(&mut self)
        ensures
            *final(self) == (GlIbo { m_state: EnumBufferState::Deleted, ..*old(self) }),
    {
        self.unbind();
        self.m_state = EnumBufferState::Deleted;
    }
}

/// The kind and size of a uniform buffer.
#[derive(Debug, Copy, Clone, PartialEq, Eq, Structural, Hash)]
pub enum EnumUboTypeSize {
    Transform(usize),
    ViewProjection,
    MVP,
    Bool,
    Int,
    Uint,
    Float,
    Double,
    Long,
    Wireframe(usize),
}

/// What is written into a uniform buffer; the matrices themselves are
/// supplied by the caller.
#[derive(Debug, Copy, Clone, PartialEq, Eq, Structural, Hash)]
pub enum EnumUboType {
    /// A model matrix for instance `usize`.
    Transform(usize),
    /// The view and projection matrices.
    ViewProjection,
    /// The model, view and projection matrices.
    MVP,
    /// The wireframe flag of instance `usize`.
    Wireframe(bool, usize),
}

/// What a write into a uniform buffer takes its bytes from.
#[derive(Debug, Copy, Clone, PartialEq, Eq, Structural, Hash)]
pub enum EnumUboSource {
    /// The `u8`-th matrix handed over (model, then view, then projection).
    Matrix(u8),
    /// A 32-bit integer: the flag as 1 or 0.
    Integer(u32),
}

/// One write into a uniform buffer.
#[derive(Debug, Copy, Clone, PartialEq, Eq, Structural, Hash)]
pub struct GlUboWrite {
    pub m_offset: usize,
    pub m_size: usize,
    pub m_source: EnumUboSource,
}

/// The bytes and slots of a uniform buffer of kind `t`.
pub open spec fn spec_ubo_size(t: EnumUboTypeSize) -> (usize, usize) {
    match t {
        EnumUboTypeSize::Transform(count) => ((C_MAT4_SIZE * count) as usize, count),
        EnumUboTypeSize::ViewProjection => ((C_MAT4_SIZE * 2) as usize, 2),
        EnumUboTypeSize::MVP => ((C_MAT4_SIZE * 3) as usize, 3),
        EnumUboTypeSize::Wireframe(count) => ((16 * count) as usize, count),
        _ => (16, 1),
    }
}

/// Uniform buffer `u` after the writes (`true`) and clears (`false`) of
/// `ops`, in order, as `GlUbo::push` and `GlUbo::clear` leave it.
pub open spec fn spec_ubo_after_ops(u: GlUbo, ops: Seq<bool>) -> GlUbo
    decreases ops.len(),
{
    if ops.len() == 0 {
        u
    } else {
        let v = spec_ubo_after_ops(u, ops.drop_last());
        if ops.last() {
            GlUbo { m_state: EnumBufferState::Bound, ..v }
        } else {
            GlUbo { m_length: 0, m_state: EnumBufferState::Bound, ..v }
        }
    }
}

/// A uniform buffer created for kind `t` keeps the slot count and capacity
/// of its kind through any writes and clears; its length stays the full
/// size of its kind until it is cleared, and is 0 from then on.
pub proof fn lemma_ubo_slots_kept(u: GlUbo, t: EnumUboTypeSize, ops: Seq<bool>)
    requires
        u.m_capacity == spec_ubo_size(t).0,
        u.m_length == spec_ubo_size(t).0,
        u.m_count == spec_ubo_size(t).1,
    ensures
        spec_ubo_after_ops(u, ops).m_count == spec_ubo_size(t).1,
        spec_ubo_after_ops(u, ops).m_capacity == spec_ubo_size(t).0,
        spec_ubo_after_ops(u, ops).m_length == (if ops.contains(false) {
            0
        } else {
            spec_ubo_size(t).0
        }),
    decreases ops.len(),
{
    if ops.len() > 0 {
        lemma_ubo_slots_kept(u, t, ops.drop_last());
        if ops.drop_last().contains(false) {
            let i = choose|i: int| 0 <= i < ops.drop_last().len() && ops.drop_last()[i] == false;
            assert(ops[i] == false);
        }
        if ops.contains(false) && ops.last() {
            let i = choose|i: int| 0 <= i < ops.len() && ops[i] == false;
            assert(i < ops.len() - 1);
            assert(ops.drop_last()[i] == false);
        }
    }
}

/// A uniform buffer as the back end tracks it.
#[derive(Debug, Copy, Clone, PartialEq, Eq, Hash)]
pub struct GlUbo {
    pub m_buffer_id: u32,
    pub m_name: Option<&'static str>,
    pub m_capacity: usize,
    pub m_length: usize,
    pub m_count: usize,
    pub m_state: EnumBufferState,
}

impl GlUbo {
    /// The uniform buffer of kind `ubo_type`, for block `block_name`, that the
    /// API created under `buffer_id`: full-sized from the start.
    pub fn new(block_name: Option<&'static str>, ubo_type: EnumUboTypeSize, buffer_id: u32) -> (r: GlUbo)
        requires
            ubo_type matches EnumUboTypeSize::Transform(c) ==> C_MAT4_SIZE * c <= usize::MAX,
            ubo_type matches EnumUboTypeSize::Wireframe(c) ==> 16 * c <= usize::MAX,
        ensures
            r.m_buffer_id == buffer_id,
            r.m_name == block_name,
            r.m_capacity == spec_ubo_size(ubo_type).0,
            r.m_length == spec_ubo_size(ubo_type).0,
            r.m_count == spec_ubo_size(ubo_type).1,
            r.m_state == EnumBufferState::Created,
    {
        let (alloc_size, data_count): (usize, usize) = match ubo_type {
            EnumUboTypeSize::Transform(count) => (C_MAT4_SIZE * count, count),
            EnumUboTypeSize::ViewProjection => (C_MAT4_SIZE * 2, 2),
            EnumUboTypeSize::MVP => (C_MAT4_SIZE * 3, 3),
            EnumUboTypeSize::Wireframe(count) => (16 * count, count),
            _ => (16, 1),
        };
        GlUbo {
            m_buffer_id: buffer_id,
            m_name: block_name,
            m_capacity: alloc_size,
            m_length: alloc_size,
            m_count: data_count,
            m_state: EnumBufferState::Created,
        }
    }

    pub fn get_id(&self) -> (r: u32)
        ensures
            r == self.m_buffer_id,
    {
        self.m_buffer_id
    }

    pub fn len(&self) -> (r: usize)
        ensures
            r == self.m_length,
    {
        self.m_length
    }

    pub fn count(&self) -> (r: usize)
        ensures
            r == self.m_count,
    {
        self.m_count
    }

    pub fn get_name(&self) -> (r: Option<&'static str>)
        ensures
            r == self.m_name,
    {
        self.m_name
    }

    /// Whether binding the buffer's block at `binding` in a shader goes
    /// ahead, given what the API reports: the most bindings it supports, the
    /// shader's active blocks, and the index of the block named like the
    /// buffer. A buffer without a name is refused; one already bound needs no
    /// call (`Ok(false)`); otherwise the binding must be supported, within the
    /// active blocks, and the block found (`Ok(true)`: the call is due).
    pub fn bind_block(&mut self, binding: u32, max_bindings: i32, active_blocks: i32, block_index: u32) -> (r: Result<
        bool,
        EnumOpenGLError,
    >)
        ensures
            ({
                let checked = old(self).m_state == EnumBufferState::Created || old(self).m_state
                    == EnumBufferState::Unbound;
                let refused = old(self).m_name is None || (checked && (max_bindings < binding as i32
                    || binding > active_blocks as u32 || block_index == GL_INVALID_INDEX));
                &&& r is Err <==> refused
                &&& r is Err ==> r == Err::<bool, EnumOpenGLError>(
                    EnumOpenGLError::InvalidBufferOperation(EnumGlBufferError::InvalidBlockBinding),
                ) && *final(self) == *old(self)
                &&& r matches Ok(due) ==> due == checked && *final(self) == (GlUbo {
                    m_state: EnumBufferState::Bound,
                    ..*old(self)
                })
            }),
    {
        if self.m_name.is_none() {
            return Err(EnumOpenGLError::InvalidBufferOperation(EnumGlBufferError::InvalidBlockBinding));
        }
        let checked = self.m_state == EnumBufferState::Created || self.m_state == EnumBufferState::Unbound;
        if checked {
            if max_bindings < binding as i32 || binding > active_blocks as u32 || block_index
                == GL_INVALID_INDEX {
                return Err(
                    EnumOpenGLError::InvalidBufferOperation(EnumGlBufferError::InvalidBlockBinding),
                );
            }
        }
        self.m_state = EnumBufferState::Bound;
        Ok(checked)
    }

    /// The writes that put `ubo_type` into the buffer (bound first). An
    /// instance past the buffer's slots is refused; note that the slot equal to
    /// the count is accepted.
    pub fn push(&mut self, ubo_type: EnumUboType) -> (r: Result<Vec<GlUboWrite>, EnumOpenGLError>)
        requires
            ubo_type matches EnumUboType::Transform(i) ==> C_MAT4_SIZE * i <= usize::MAX,
            ubo_type matches EnumUboType::Wireframe(_, i) ==> 16 * i <= usize::MAX,
        ensures
            *final(self) == (GlUbo { m_state: EnumBufferState::Bound, ..*old(self) }),
            r is Err <==> (ubo_type matches EnumUboType::Transform(i) && i > old(self).m_count) || (
            ubo_type matches EnumUboType::Wireframe(_, i) && i > old(self).m_count),
            r is Err ==> r == Err::<Vec<GlUboWrite>, EnumOpenGLError>(
                EnumOpenGLError::InvalidBufferOperation(EnumGlBufferError::InvalidBufferOffset),
            ),
            r matches Ok(w) ==> w@ == match ubo_type {
                EnumUboType::Transform(i) => seq![
                    GlUboWrite {
                        m_offset: (C_MAT4_SIZE * i) as usize,
                        m_size: C_MAT4_SIZE,
                        m_source: EnumUboSource::Matrix(0),
                    },
                ],
                EnumUboType::ViewProjection => seq![
                    GlUboWrite { m_offset: 0, m_size: C_MAT4_SIZE, m_source: EnumUboSource::Matrix(1) },
                    GlUboWrite {
                        m_offset: C_MAT4_SIZE,
                        m_size: C_MAT4_SIZE,
                        m_source: EnumUboSource::Matrix(2),
                    },
                ],
                EnumUboType::MVP => seq![
                    GlUboWrite { m_offset: 0, m_size: C_MAT4_SIZE, m_source: EnumUboSource::Matrix(0) },
                    GlUboWrite {
                        m_offset: C_MAT4_SIZE,
                        m_size: C_MAT4_SIZE,
                        m_source: EnumUboSource::Matrix(1),
                    },
                    GlUboWrite {
                        m_offset: (C_MAT4_SIZE * 2) as usize,
                        m_size: C_MAT4_SIZE,
                        m_source: EnumUboSource::Matrix(2),
                    },
                ],
                EnumUboType::Wireframe(enabled, i) => seq![
                    GlUboWrite {
                        m_offset: (16 * i) as usize,
                        m_size: 4,
                        m_source: EnumUboSource::Integer(
                            if enabled {
                                1
                            } else {
                                0
                            },
                        ),
                    },
                ],
            },
    {
        self.m_state = EnumBufferState::Bound;
        let mut writes: Vec<GlUboWrite> = Vec::new();
        match ubo_type {
            EnumUboType::Transform(instance) => {
                if instance > self.m_count {
                    return Err(
                        EnumOpenGLError::InvalidBufferOperation(EnumGlBufferError::InvalidBufferOffset),
                    );
                }
                writes.push(
                    GlUboWrite {
                        m_offset: C_MAT4_SIZE * instance,
                        m_size: C_MAT4_SIZE,
                        m_source: EnumUboSource::Matrix(0),
                    },
                );
            },
            EnumUboType::ViewProjection => {
                writes.push(GlUboWrite { m_offset: 0, m_size: C_MAT4_SIZE, m_source: EnumUboSource::Matrix(1) });
                writes.push(
                    GlUboWrite { m_offset: C_MAT4_SIZE, m_size: C_MAT4_SIZE, m_source: EnumUboSource::Matrix(2) },
                );
            },
            EnumUboType::MVP => {
                writes.push(GlUboWrite { m_offset: 0, m_size: C_MAT4_SIZE, m_source: EnumUboSource::Matrix(0) });
                writes.push(
                    GlUboWrite { m_offset: C_MAT4_SIZE, m_size: C_MAT4_SIZE, m_source: EnumUboSource::Matrix(1) },
                );
                writes.push(
                    GlUboWrite {
                        m_offset: C_MAT4_SIZE * 2,
                        m_size: C_MAT4_SIZE,
                        m_source: EnumUboSource::Matrix(2),
                    },
                );
            },
            EnumUboType::Wireframe(enabled, instance) => {
                if instance > self.m_count {
                    return Err(
                        EnumOpenGLError::InvalidBufferOperation(EnumGlBufferError::InvalidBufferOffset),
                    );
                }
                let flag: u32 = if enabled {
                    1
                } else {
                    0
                };
                writes.push(
                    GlUboWrite { m_offset: 16 * instance, m_size: 4, m_source: EnumUboSource::Integer(flag) },
                );
            },
        }
        Ok(writes)
    }

    /// Marks the buffer unbound; returns whether the unbind call is due.
    /// Empties the buffer (bound first); its capacity is kept. Returns how
    /// many bytes the API is to clear from the start.
    pub fn clear(&mut self) -> (r: usize)
        ensures
            r == old(self).m_length,
            *final(self) == (GlUbo { m_length: 0, m_state: EnumBufferState::Bound, ..*old(self) }),
    {
        self.m_state = EnumBufferState::Bound;
        let cleared = self.m_length;
        self.m_length = 0;
        cleared
    }

    pub fn unbind(&mut self) -> (r: bool)
        ensures
            r == (old(self).m_state == EnumBufferState::Bound),
            *final(self) == (GlUbo { m_state: EnumBufferState::Unbound, ..*old(self) }),
    {
        let due = self.m_state == EnumBufferState::Bound;
        self.m_state = EnumBufferState::Unbound;
        due
    }

    /// Frees the buffer: unbound first, then deleted.
    pub fn free(&mut self)
        ensures
            *final(self) == (GlUbo { m_state: EnumBufferState::Deleted, ..*old(self) }),
    {
        self.unbind();
        self.m_state = EnumBufferState::Deleted;
    }
}

} // verus!
