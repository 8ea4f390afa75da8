//! Typed counterparts of the OpenGL enumerants the library works with, and
//! their mapping to the numeric values OpenGL expects.
use vstd::prelude::*;
use crate::gl_enums;
use crate::gl_vertex_attribute::VertexAttribute;
use vstd::std_specs::convert::FromSpecImpl;

verus! {

// ---------------------------------------------------------------------------
// BufferType
// ---------------------------------------------------------------------------

/// Binding targets of OpenGL buffer objects.
#[derive(Clone, Copy, Debug, PartialEq, Eq, Structural)]
pub enum BufferType {
    /// Stores vertex attributes like vertex coordinates, normals, texture coordinates, etc.
    ArrayBuffer,
    /// Used for indexing vertices.
    ElementArrayBuffer,
    /// Stores uniform data for shaders.
    UniformBuffer,
    /// Stores data for a buffer texture.
    TextureBuffer,
    /// Target that contains attachments like color, depth, and stencil buffers.
    Framebuffer,
    /// Used as a rendering destination, typically for offscreen rendering.
    Renderbuffer,
    /// Source of buffer-to-buffer copies.
    CopyReadBuffer,
    /// Destination of buffer-to-buffer copies.
    CopyWriteBuffer,
    /// Pixel transfer destination (reading pixels back).
    PixelPackBuffer,
    /// Pixel transfer source (uploading pixels).
    PixelUnpackBuffer,
    /// Captures output from the vertex or geometry shader.
    TransformFeedbackBuffer,
    /// Stores atomic counters.
    AtomicCounterBuffer,
    /// Stores indirect drawing commands.
    DrawIndirectBuffer,
    /// Stores indirect compute dispatch commands.
    DispatchIndirectBuffer,
    /// Read-write storage for shaders.
    ShaderStorageBuffer,
}

impl BufferType {
    pub open spec fn spec_gl_enum(self) -> u32 {
        match self {
            BufferType::ArrayBuffer => gl_enums::ARRAY_BUFFER,
            BufferType::ElementArrayBuffer => gl_enums::ELEMENT_ARRAY_BUFFER,
            BufferType::UniformBuffer => gl_enums::UNIFORM_BUFFER,
            BufferType::TextureBuffer => gl_enums::TEXTURE_BUFFER,
            BufferType::Framebuffer => gl_enums::FRAMEBUFFER,
            BufferType::Renderbuffer => gl_enums::RENDERBUFFER,
            BufferType::CopyReadBuffer => gl_enums::COPY_READ_BUFFER,
            BufferType::CopyWriteBuffer => gl_enums::COPY_WRITE_BUFFER,
            BufferType::PixelPackBuffer => gl_enums::PIXEL_PACK_BUFFER,
            BufferType::PixelUnpackBuffer => gl_enums::PIXEL_UNPACK_BUFFER,
            BufferType::TransformFeedbackBuffer => gl_enums::TRANSFORM_FEEDBACK_BUFFER,
            BufferType::AtomicCounterBuffer => gl_enums::ATOMIC_COUNTER_BUFFER,
            BufferType::DrawIndirectBuffer => gl_enums::DRAW_INDIRECT_BUFFER,
            BufferType::DispatchIndirectBuffer => gl_enums::DISPATCH_INDIRECT_BUFFER,
            BufferType::ShaderStorageBuffer => gl_enums::SHADER_STORAGE_BUFFER,
        }
    }

    pub fn to_gl_enum(&self) -> (r: u32)
        ensures
            r == self.spec_gl_enum(),
    {
        match self {
            BufferType::ArrayBuffer => gl_enums::ARRAY_BUFFER,
            BufferType::ElementArrayBuffer => gl_enums::ELEMENT_ARRAY_BUFFER,
            BufferType::UniformBuffer => gl_enums::UNIFORM_BUFFER,
            BufferType::TextureBuffer => gl_enums::TEXTURE_BUFFER,
            BufferType::Framebuffer => gl_enums::FRAMEBUFFER,
            BufferType::Renderbuffer => gl_enums::RENDERBUFFER,
            BufferType::CopyReadBuffer => gl_enums::COPY_READ_BUFFER,
            BufferType::CopyWriteBuffer => gl_enums::COPY_WRITE_BUFFER,
            BufferType::PixelPackBuffer => gl_enums::PIXEL_PACK_BUFFER,
            BufferType::PixelUnpackBuffer => gl_enums::PIXEL_UNPACK_BUFFER,
            BufferType::TransformFeedbackBuffer => gl_enums::TRANSFORM_FEEDBACK_BUFFER,
            BufferType::AtomicCounterBuffer => gl_enums::ATOMIC_COUNTER_BUFFER,
            BufferType::DrawIndirectBuffer => gl_enums::DRAW_INDIRECT_BUFFER,
            BufferType::DispatchIndirectBuffer => gl_enums::DISPATCH_INDIRECT_BUFFER,
            BufferType::ShaderStorageBuffer => gl_enums::SHADER_STORAGE_BUFFER,
        }
    }

    /// Every buffer type, each once, in declaration order.
    pub open spec fn spec_all_types() -> Seq<BufferType> {
        seq![
            BufferType::ArrayBuffer,
            BufferType::ElementArrayBuffer,
            BufferType::UniformBuffer,
            BufferType::TextureBuffer,
            BufferType::Framebuffer,
            BufferType::Renderbuffer,
            BufferType::CopyReadBuffer,
            BufferType::CopyWriteBuffer,
            BufferType::PixelPackBuffer,
            BufferType::PixelUnpackBuffer,
            BufferType::TransformFeedbackBuffer,
            BufferType::AtomicCounterBuffer,
            BufferType::DrawIndirectBuffer,
            BufferType::DispatchIndirectBuffer,
            BufferType::ShaderStorageBuffer,
        ]
    }

    pub fn all_types() -> (r: Vec<BufferType>)
        ensures
            r@ == Self::spec_all_types(),
    {
        let r = vec![
            BufferType::ArrayBuffer,
            BufferType::ElementArrayBuffer,
            BufferType::UniformBuffer,
            BufferType::TextureBuffer,
            BufferType::Framebuffer,
            BufferType::Renderbuffer,
            BufferType::CopyReadBuffer,
            BufferType::CopyWriteBuffer,
            BufferType::PixelPackBuffer,
            BufferType::PixelUnpackBuffer,
            BufferType::TransformFeedbackBuffer,
            BufferType::AtomicCounterBuffer,
            BufferType::DrawIndirectBuffer,
            BufferType::DispatchIndirectBuffer,
            BufferType::ShaderStorageBuffer,
        ];
        assert(r@ =~= Self::spec_all_types());
        r
    }
}

// ---------------------------------------------------------------------------
// BufferUsage
// ---------------------------------------------------------------------------

/// Usage hints given to OpenGL when buffer data is stored.
#[derive(Clone, Copy, Debug, PartialEq, Eq, Structural)]
pub enum BufferUsage {
    StaticDraw,
    DynamicDraw,
    StreamDraw,
    StaticRead,
    DynamicRead,
    StreamRead,
    StaticCopy,
    DynamicCopy,
    StreamCopy,
}

impl BufferUsage {
    pub open spec fn spec_gl_enum(self) -> u32 {
        match self {
            BufferUsage::StaticDraw => gl_enums::STATIC_DRAW,
            BufferUsage::DynamicDraw => gl_enums::DYNAMIC_DRAW,
            BufferUsage::StreamDraw => gl_enums::STREAM_DRAW,
            BufferUsage::StaticRead => gl_enums::STATIC_READ,
            BufferUsage::DynamicRead => gl_enums::DYNAMIC_READ,
            BufferUsage::StreamRead => gl_enums::STREAM_READ,
            BufferUsage::StaticCopy => gl_enums::STATIC_COPY,
            BufferUsage::DynamicCopy => gl_enums::DYNAMIC_COPY,
            BufferUsage::StreamCopy => gl_enums::STREAM_COPY,
        }
    }

    pub fn to_gl_enum(&self) -> (r: u32)
        ensures
            r == self.spec_gl_enum(),
    {
        match self {
            BufferUsage::StaticDraw => gl_enums::STATIC_DRAW,
            BufferUsage::DynamicDraw => gl_enums::DYNAMIC_DRAW,
            BufferUsage::StreamDraw => gl_enums::STREAM_DRAW,
            BufferUsage::StaticRead => gl_enums::STATIC_READ,
            BufferUsage::DynamicRead => gl_enums::DYNAMIC_READ,
            BufferUsage::StreamRead => gl_enums::STREAM_READ,
            BufferUsage::StaticCopy => gl_enums::STATIC_COPY,
            BufferUsage::DynamicCopy => gl_enums::DYNAMIC_COPY,
            BufferUsage::StreamCopy => gl_enums::STREAM_COPY,
        }
    }
}

// ---------------------------------------------------------------------------
// VertexDataType
// ---------------------------------------------------------------------------

/// Component data types of vertex attributes.
#[derive(Clone, Copy, Debug, PartialEq, Eq, Structural)]
#[allow(non_camel_case_types)]
pub enum VertexDataType {
    Byte,
    UnsignedByte,
    Short,
    UnsignedShort,
    Int,
    UnsignedInt,
    HalfFloat,
    Float,
    Double,
    Fixed,
    Int_2_10_10_10_Rev,
    UnsignedInt_2_10_10_10_Rev,
    UnsignedInt_10F_11F_11F_Rev,
}

impl VertexDataType {
    pub open spec fn spec_gl_enum(self) -> u32 {
        match self {
            VertexDataType::Byte => gl_enums::BYTE,
            VertexDataType::UnsignedByte => gl_enums::UNSIGNED_BYTE,
            VertexDataType::Short => gl_enums::SHORT,
            VertexDataType::UnsignedShort => gl_enums::UNSIGNED_SHORT,
            VertexDataType::Int => gl_enums::INT,
            VertexDataType::UnsignedInt => gl_enums::UNSIGNED_INT,
            VertexDataType::HalfFloat => gl_enums::HALF_FLOAT,
            VertexDataType::Float => gl_enums::FLOAT,
            VertexDataType::Double => gl_enums::DOUBLE,
            VertexDataType::Fixed => gl_enums::FIXED,
            VertexDataType::Int_2_10_10_10_Rev => gl_enums::INT_2_10_10_10_REV,
            VertexDataType::UnsignedInt_2_10_10_10_Rev => gl_enums::UNSIGNED_INT_2_10_10_10_REV,
            VertexDataType::UnsignedInt_10F_11F_11F_Rev => gl_enums::UNSIGNED_INT_10F_11F_11F_REV,
        }
    }

    /// The data type whose OpenGL enumerant is `value`, if there is one.
    pub open spec fn spec_from_gl_enum(value: u32) -> Option<VertexDataType> {
        if value == gl_enums::BYTE {
            Some(VertexDataType::Byte)
        } else if value == gl_enums::UNSIGNED_BYTE {
            Some(VertexDataType::UnsignedByte)
        } else if value == gl_enums::SHORT {
            Some(VertexDataType::Short)
        } else if value == gl_enums::UNSIGNED_SHORT {
            Some(VertexDataType::UnsignedShort)
        } else if value == gl_enums::INT {
            Some(VertexDataType::Int)
        } else if value == gl_enums::UNSIGNED_INT {
            Some(VertexDataType::UnsignedInt)
        } else if value == gl_enums::HALF_FLOAT {
            Some(VertexDataType::HalfFloat)
        } else if value == gl_enums::FLOAT {
            Some(VertexDataType::Float)
        } else if value == gl_enums::DOUBLE {
            Some(VertexDataType::Double)
        } else if value == gl_enums::FIXED {
            Some(VertexDataType::Fixed)
        } else if value == gl_enums::INT_2_10_10_10_REV {
            Some(VertexDataType::Int_2_10_10_10_Rev)
        } else if value == gl_enums::UNSIGNED_INT_2_10_10_10_REV {
            Some(VertexDataType::UnsignedInt_2_10_10_10_Rev)
        } else if value == gl_enums::UNSIGNED_INT_10F_11F_11F_REV {
            Some(VertexDataType::UnsignedInt_10F_11F_11F_Rev)
        } else {
            None
        }
    }

    pub fn from_gl_enum(gl_enum: u32) -> (r: Option<VertexDataType>)
        ensures
            r == Self::spec_from_gl_enum(gl_enum),
    {
        if gl_enum == gl_enums::BYTE {
            Some(VertexDataType::Byte)
        } else if gl_enum == gl_enums::UNSIGNED_BYTE {
            Some(VertexDataType::UnsignedByte)
        } else if gl_enum == gl_enums::SHORT {
            Some(VertexDataType::Short)
        } else if gl_enum == gl_enums::UNSIGNED_SHORT {
            Some(VertexDataType::UnsignedShort)
        } else if gl_enum == gl_enums::INT {
            Some(VertexDataType::Int)
        } else if gl_enum == gl_enums::UNSIGNED_INT {
            Some(VertexDataType::UnsignedInt)
        } else if gl_enum == gl_enums::HALF_FLOAT {
            Some(VertexDataType::HalfFloat)
        } else if gl_enum == gl_enums::FLOAT {
            Some(VertexDataType::Float)
        } else if gl_enum == gl_enums::DOUBLE {
            Some(VertexDataType::Double)
        } else if gl_enum == gl_enums::FIXED {
            Some(VertexDataType::Fixed)
        } else if gl_enum == gl_enums::INT_2_10_10_10_REV {
            Some(VertexDataType::Int_2_10_10_10_Rev)
        } else if gl_enum == gl_enums::UNSIGNED_INT_2_10_10_10_REV {
            Some(VertexDataType::UnsignedInt_2_10_10_10_Rev)
        } else if gl_enum == gl_enums::UNSIGNED_INT_10F_11F_11F_REV {
            Some(VertexDataType::UnsignedInt_10F_11F_11F_Rev)
        } else {
            None
        }
    }

    pub fn to_gl_enum(&self) -> (r: u32)
        ensures
            r == self.spec_gl_enum(),
    {
        match self {
            VertexDataType::Byte => gl_enums::BYTE,
            VertexDataType::UnsignedByte => gl_enums::UNSIGNED_BYTE,
            VertexDataType::Short => gl_enums::SHORT,
            VertexDataType::UnsignedShort => gl_enums::UNSIGNED_SHORT,
            VertexDataType::Int => gl_enums::INT,
            VertexDataType::UnsignedInt => gl_enums::UNSIGNED_INT,
            VertexDataType::HalfFloat => gl_enums::HALF_FLOAT,
            VertexDataType::Float => gl_enums::FLOAT,
            VertexDataType::Double => gl_enums::DOUBLE,
            VertexDataType::Fixed => gl_enums::FIXED,
            VertexDataType::Int_2_10_10_10_Rev => gl_enums::INT_2_10_10_10_REV,
            VertexDataType::UnsignedInt_2_10_10_10_Rev => gl_enums::UNSIGNED_INT_2_10_10_10_REV,
            VertexDataType::UnsignedInt_10F_11F_11F_Rev => gl_enums::UNSIGNED_INT_10F_11F_11F_REV,
        }
    }

    /// Size in bytes of one component of this type: 1 for the byte types,
    /// 2 for the short types and half floats, 8 for doubles and 4 for all others
    /// (the packed types occupy one 32-bit word).
    pub open spec fn spec_size(self) -> nat {
        match self {
            VertexDataType::Byte | VertexDataType::UnsignedByte => 1,
            VertexDataType::Short | VertexDataType::UnsignedShort | VertexDataType::HalfFloat => 2,
            VertexDataType::Double => 8,
            _ => 4,
        }
    }

    pub fn size(&self) -> (r: usize)
        ensures
            r == self.spec_size(),
    {
        match self {
            VertexDataType::Byte => 1,
            VertexDataType::UnsignedByte => 1,
            VertexDataType::Short => 2,
            VertexDataType::UnsignedShort => 2,
            VertexDataType::Int => 4,
            VertexDataType::UnsignedInt => 4,
            VertexDataType::HalfFloat => 2,
            VertexDataType::Float => 4,
            VertexDataType::Double => 8,
            VertexDataType::Fixed => 4,
            VertexDataType::Int_2_10_10_10_Rev => 4,
            VertexDataType::UnsignedInt_2_10_10_10_Rev => 4,
            VertexDataType::UnsignedInt_10F_11F_11F_Rev => 4,
        }
    }

    /// The variant's name as text.
    pub open spec fn spec_name(self) -> Seq<char> {
        match self {
            VertexDataType::Byte => "Byte"@,
            VertexDataType::UnsignedByte => "UnsignedByte"@,
            VertexDataType::Short => "Short"@,
            VertexDataType::UnsignedShort => "UnsignedShort"@,
            VertexDataType::Int => "Int"@,
            VertexDataType::UnsignedInt => "UnsignedInt"@,
            VertexDataType::HalfFloat => "HalfFloat"@,
            VertexDataType::Float => "Float"@,
            VertexDataType::Double => "Double"@,
            VertexDataType::Fixed => "Fixed"@,
            VertexDataType::Int_2_10_10_10_Rev => "Int_2_10_10_10_Rev"@,
            VertexDataType::UnsignedInt_2_10_10_10_Rev => "UnsignedInt_2_10_10_10_Rev"@,
            VertexDataType::UnsignedInt_10F_11F_11F_Rev => "UnsignedInt_10F_11F_11F_Rev"@,
        }
    }

    /// The variant's name as text, as it is displayed.
    pub fn to_string(&self) -> (r: String)
        ensures
            r@ == self.spec_name(),
    {
        let s = match self {
            VertexDataType::Byte => "Byte",
            VertexDataType::UnsignedByte => "UnsignedByte",
            VertexDataType::Short => "Short",
            VertexDataType::UnsignedShort => "UnsignedShort",
            VertexDataType::Int => "Int",
            VertexDataType::UnsignedInt => "UnsignedInt",
            VertexDataType::HalfFloat => "HalfFloat",
            VertexDataType::Float => "Float",
            VertexDataType::Double => "Double",
            VertexDataType::Fixed => "Fixed",
            VertexDataType::Int_2_10_10_10_Rev => "Int_2_10_10_10_Rev",
            VertexDataType::UnsignedInt_2_10_10_10_Rev => "UnsignedInt_2_10_10_10_Rev",
            VertexDataType::UnsignedInt_10F_11F_11F_Rev => "UnsignedInt_10F_11F_11F_Rev",
        };
        s.to_owned()
    }
}


// ---------------------------------------------------------------------------
// VertexAttributeType
// ---------------------------------------------------------------------------

/// Common kinds of vertex attributes with a fixed layout.
#[derive(Clone, Copy, Debug, PartialEq, Eq, Structural)]
pub enum VertexAttributeType {
    /// 3 components per position, float, not normalized
    Position,
    /// 2 components per position, float, not normalized
    Position2D,
    /// 4 components per color, float, not normalized
    Color,
    /// 2 components per texture coordinate, float, not normalized
    TexCoord,
    /// 3 components per normal, float, not normalized
    Normal,
}

impl VertexAttributeType {
    /// Number of components of the attribute kind.
    pub open spec fn spec_components(self) -> u8 {
        match self {
            VertexAttributeType::Position => 3,
            VertexAttributeType::Position2D => 2,
            VertexAttributeType::Color => 4,
            VertexAttributeType::TexCoord => 2,
            VertexAttributeType::Normal => 3,
        }
    }

    /// Name under which shaders conventionally declare the attribute.
    pub open spec fn spec_name(self) -> Seq<char> {
        match self {
            VertexAttributeType::Position => "position"@,
            VertexAttributeType::Position2D => "position"@,
            VertexAttributeType::Color => "color"@,
            VertexAttributeType::TexCoord => "tex_coord"@,
            VertexAttributeType::Normal => "normal"@,
        }
    }

    /// The arguments `glVertexAttribPointer` takes for this kind: component
    /// count, component type (always `FLOAT`) and normalization (always `FALSE`).
    pub fn to_gl_data(&self) -> (r: (i32, u32, u8))
        ensures
            r.0 == self.spec_components() as i32,
            r.1 == gl_enums::FLOAT,
            r.2 == gl_enums::GL_FALSE,
    {
        match self {
            VertexAttributeType::Position => (3, gl_enums::FLOAT, gl_enums::GL_FALSE),
            VertexAttributeType::Position2D => (2, gl_enums::FLOAT, gl_enums::GL_FALSE),
            VertexAttributeType::Color => (4, gl_enums::FLOAT, gl_enums::GL_FALSE),
            VertexAttributeType::TexCoord => (2, gl_enums::FLOAT, gl_enums::GL_FALSE),
            VertexAttributeType::Normal => (3, gl_enums::FLOAT, gl_enums::GL_FALSE),
        }
    }

    /// A named float attribute with this kind's component count; the other
    /// settings keep their defaults.
    pub fn to_vertex_attribute(&self) -> (r: VertexAttribute)
        ensures
            r.name matches Some(n) && n@ == self.spec_name(),
            r.components == self.spec_components(),
            r.data_type == VertexDataType::Float,
            r.normalized is None,
            r.stride is None,
            r.offset is None,
    {
        match self {
            VertexAttributeType::Position => VertexAttribute::new(3, VertexDataType::Float).name(
                Some("position".to_owned()),
            ),
            VertexAttributeType::Position2D => VertexAttribute::new(2, VertexDataType::Float).name(
                Some("position".to_owned()),
            ),
            VertexAttributeType::Color => VertexAttribute::new(4, VertexDataType::Float).name(
                Some("color".to_owned()),
            ),
            VertexAttributeType::TexCoord => VertexAttribute::new(2, VertexDataType::Float).name(
                Some("tex_coord".to_owned()),
            ),
            VertexAttributeType::Normal => VertexAttribute::new(3, VertexDataType::Float).name(
                Some("normal".to_owned()),
            ),
        }
    }
}

// ---------------------------------------------------------------------------
// ShaderType
// ---------------------------------------------------------------------------

/// Shader stages.
#[derive(Clone, Copy, Debug, PartialEq, Eq, Structural)]
pub enum ShaderType {
    Vertex,
    Fragment,
    Geometry,
    Compute,
}

impl ShaderType {
    pub open spec fn spec_gl_enum(self) -> u32 {
        match self {
            ShaderType::Vertex => gl_enums::VERTEX_SHADER,
            ShaderType::Fragment => gl_enums::FRAGMENT_SHADER,
            ShaderType::Geometry => gl_enums::GEOMETRY_SHADER,
            ShaderType::Compute => gl_enums::COMPUTE_SHADER,
        }
    }

    pub fn to_gl_enum(&self) -> (r: u32)
        ensures
            r == self.spec_gl_enum(),
    {
        match self {
            ShaderType::Vertex => gl_enums::VERTEX_SHADER,
            ShaderType::Fragment => gl_enums::FRAGMENT_SHADER,
            ShaderType::Geometry => gl_enums::GEOMETRY_SHADER,
            ShaderType::Compute => gl_enums::COMPUTE_SHADER,
        }
    }

    /// The variant's name as text.
    pub open spec fn spec_name(self) -> Seq<char> {
        match self {
            ShaderType::Vertex => "Vertex"@,
            ShaderType::Fragment => "Fragment"@,
            ShaderType::Geometry => "Geometry"@,
            ShaderType::Compute => "Compute"@,
        }
    }

    /// The variant's name as text, as it is displayed.
    pub fn to_string(&self) -> (r: String)
        ensures
            r@ == self.spec_name(),
    {
        let s = match self {
            ShaderType::Vertex => "Vertex",
            ShaderType::Fragment => "Fragment",
            ShaderType::Geometry => "Geometry",
            ShaderType::Compute => "Compute",
        };
        s.to_owned()
    }
}

// ---------------------------------------------------------------------------
// PrimitiveType
// ---------------------------------------------------------------------------

/// Primitive modes of draw calls.
#[derive(Clone, Copy, Debug, PartialEq, Eq, Structural)]
pub enum PrimitiveType {
    Points,
    LineStrip,
    LineLoop,
    Lines,
    LineStripAdjacency,
    LinesAdjacency,
    TriangleStrip,
    TriangleFan,
    Triangles,
    TriangleStripAdjacency,
    TrianglesAdjacency,
    Patches,
}

impl PrimitiveType {
    pub open spec fn spec_gl_enum(self) -> u32 {
        match self {
            PrimitiveType::Points => gl_enums::POINTS,
            PrimitiveType::LineStrip => gl_enums::LINE_STRIP,
            PrimitiveType::LineLoop => gl_enums::LINE_LOOP,
            PrimitiveType::Lines => gl_enums::LINES,
            PrimitiveType::LineStripAdjacency => gl_enums::LINE_STRIP_ADJACENCY,
            PrimitiveType::LinesAdjacency => gl_enums::LINES_ADJACENCY,
            PrimitiveType::TriangleStrip => gl_enums::TRIANGLE_STRIP,
            PrimitiveType::TriangleFan => gl_enums::TRIANGLE_FAN,
            PrimitiveType::Triangles => gl_enums::TRIANGLES,
            PrimitiveType::TriangleStripAdjacency => gl_enums::TRIANGLE_STRIP_ADJACENCY,
            PrimitiveType::TrianglesAdjacency => gl_enums::TRIANGLES_ADJACENCY,
            PrimitiveType::Patches => gl_enums::PATCHES,
        }
    }

    pub fn to_gl_enum(&self) -> (r: u32)
        ensures
            r == self.spec_gl_enum(),
    {
        match self {
            PrimitiveType::Points => gl_enums::POINTS,
            PrimitiveType::LineStrip => gl_enums::LINE_STRIP,
            PrimitiveType::LineLoop => gl_enums::LINE_LOOP,
            PrimitiveType::Lines => gl_enums::LINES,
            PrimitiveType::LineStripAdjacency => gl_enums::LINE_STRIP_ADJACENCY,
            PrimitiveType::LinesAdjacency => gl_enums::LINES_ADJACENCY,
            PrimitiveType::TriangleStrip => gl_enums::TRIANGLE_STRIP,
            PrimitiveType::TriangleFan => gl_enums::TRIANGLE_FAN,
            PrimitiveType::Triangles => gl_enums::TRIANGLES,
            PrimitiveType::TriangleStripAdjacency => gl_enums::TRIANGLE_STRIP_ADJACENCY,
            PrimitiveType::TrianglesAdjacency => gl_enums::TRIANGLES_ADJACENCY,
            PrimitiveType::Patches => gl_enums::PATCHES,
        }
    }
}

// ---------------------------------------------------------------------------
// IndicesValueType
// ---------------------------------------------------------------------------

/// Type of the values in an index buffer, as accepted by `glDrawElements`.
#[derive(Clone, Copy, Debug, PartialEq, Eq, Structural)]
pub enum IndicesValueType {
    Byte,
    Short,
    Int,
}

impl IndicesValueType {
    pub open spec fn spec_gl_enum(self) -> u32 {
        match self {
            IndicesValueType::Byte => gl_enums::UNSIGNED_BYTE,
            IndicesValueType::Short => gl_enums::UNSIGNED_SHORT,
            IndicesValueType::Int => gl_enums::UNSIGNED_INT,
        }
    }

    /// Converts `IndicesValueType` to its corresponding OpenGL constant.
    pub fn to_gl_enum(&self) -> (r: u32)
        ensures
            r == self.spec_gl_enum(),
    {
        match self {
            IndicesValueType::Byte => gl_enums::UNSIGNED_BYTE,
            IndicesValueType::Short => gl_enums::UNSIGNED_SHORT,
            IndicesValueType::Int => gl_enums::UNSIGNED_INT,
        }
    }
}

// ---------------------------------------------------------------------------
// TextureTarget
// ---------------------------------------------------------------------------

/// Texture binding targets.
#[derive(Clone, Copy, Debug, PartialEq, Eq, Structural)]
pub enum TextureTarget {
    Texture1D,
    Texture2D,
    Texture3D,
    Texture1DArray,
    Texture2DArray,
    TextureRectangle,
    TextureCubeMap,
    TextureCubeMapArray,
    TextureBuffer,
    Texture2DMultisample,
    Texture2DMultisampleArray,
}

impl TextureTarget {
    pub open spec fn spec_gl_enum(self) -> u32 {
        match self {
            TextureTarget::Texture1D => gl_enums::TEXTURE_1D,
            TextureTarget::Texture2D => gl_enums::TEXTURE_2D,
            TextureTarget::Texture3D => gl_enums::TEXTURE_3D,
            TextureTarget::Texture1DArray => gl_enums::TEXTURE_1D_ARRAY,
            TextureTarget::Texture2DArray => gl_enums::TEXTURE_2D_ARRAY,
            TextureTarget::TextureRectangle => gl_enums::TEXTURE_RECTANGLE,
            TextureTarget::TextureCubeMap => gl_enums::TEXTURE_CUBE_MAP,
            TextureTarget::TextureCubeMapArray => gl_enums::TEXTURE_CUBE_MAP_ARRAY,
            TextureTarget::TextureBuffer => gl_enums::TEXTURE_BUFFER,
            TextureTarget::Texture2DMultisample => gl_enums::TEXTURE_2D_MULTISAMPLE,
            TextureTarget::Texture2DMultisampleArray => gl_enums::TEXTURE_2D_MULTISAMPLE_ARRAY,
        }
    }

    pub fn to_gl_enum(&self) -> (r: u32)
        ensures
            r == self.spec_gl_enum(),
    {
        match self {
            TextureTarget::Texture1D => gl_enums::TEXTURE_1D,
            TextureTarget::Texture2D => gl_enums::TEXTURE_2D,
            TextureTarget::Texture3D => gl_enums::TEXTURE_3D,
            TextureTarget::Texture1DArray => gl_enums::TEXTURE_1D_ARRAY,
            TextureTarget::Texture2DArray => gl_enums::TEXTURE_2D_ARRAY,
            TextureTarget::TextureRectangle => gl_enums::TEXTURE_RECTANGLE,
            TextureTarget::TextureCubeMap => gl_enums::TEXTURE_CUBE_MAP,
            TextureTarget::TextureCubeMapArray => gl_enums::TEXTURE_CUBE_MAP_ARRAY,
            TextureTarget::TextureBuffer => gl_enums::TEXTURE_BUFFER,
            TextureTarget::Texture2DMultisample => gl_enums::TEXTURE_2D_MULTISAMPLE,
            TextureTarget::Texture2DMultisampleArray => gl_enums::TEXTURE_2D_MULTISAMPLE_ARRAY,
        }
    }
}

// ---------------------------------------------------------------------------
// Capability
// ---------------------------------------------------------------------------

/// OpenGL capabilities that can be enabled or disabled.
#[derive(Clone, Copy, Debug, PartialEq, Eq, Structural)]
pub enum Capability {
    /// Capability to blend pixels.
    Blend,
    /// Capability to perform depth comparisons and update the depth buffer.
    DepthTest,
    /// Capability to cull polygons based on their winding in window coordinates.
    CullFace,
    /// Capability to discard fragments that are outside of the scissor rectangle.
    ScissorTest,
    /// Capability to use dithering when merging fragment colors and depth values.
    Dither,
    /// Capability for line smoothing.
    LineSmooth,
    /// Capability for polygon smoothing.
    PolygonSmooth,
    /// Capability to update stencil buffer.
    StencilTest,
}

impl Capability {
    pub open spec fn spec_gl_enum(self) -> u32 {
        match self {
            Capability::Blend => gl_enums::BLEND,
            Capability::DepthTest => gl_enums::DEPTH_TEST,
            Capability::CullFace => gl_enums::CULL_FACE,
            Capability::ScissorTest => gl_enums::SCISSOR_TEST,
            Capability::Dither => gl_enums::DITHER,
            Capability::LineSmooth => gl_enums::LINE_SMOOTH,
            Capability::PolygonSmooth => gl_enums::POLYGON_SMOOTH,
            Capability::StencilTest => gl_enums::STENCIL_TEST,
        }
    }

    /// Converts the capability to its corresponding OpenGL enum value.
    pub fn to_gl_enum(self) -> (r: u32)
        ensures
            r == self.spec_gl_enum(),
    {
        match self {
            Capability::Blend => gl_enums::BLEND,
            Capability::DepthTest => gl_enums::DEPTH_TEST,
            Capability::CullFace => gl_enums::CULL_FACE,
            Capability::ScissorTest => gl_enums::SCISSOR_TEST,
            Capability::Dither => gl_enums::DITHER,
            Capability::LineSmooth => gl_enums::LINE_SMOOTH,
            Capability::PolygonSmooth => gl_enums::POLYGON_SMOOTH,
            Capability::StencilTest => gl_enums::STENCIL_TEST,
        }
    }
}

// ---------------------------------------------------------------------------
// RenderMask
// ---------------------------------------------------------------------------

/// Which framebuffer planes a clear operation touches.
#[derive(Clone, Copy, Debug, PartialEq, Eq, Structural)]
pub struct RenderMask {
    pub color: bool,
    pub depth: bool,
    pub stencil: bool,
}

impl Default for RenderMask {
    fn default() -> (r: Self)
        ensures
            r == (RenderMask { color: false, depth: false, stencil: false }),
    {
        RenderMask { color: false, depth: false, stencil: false }
    }
}

impl RenderMask {
    /// A mask with no plane selected.
    pub fn new() -> (r: Self)
        ensures
            r == (RenderMask { color: false, depth: false, stencil: false }),
    {
        Self::default()
    }

    pub fn color(self) -> (r: Self)
        ensures
            r == (RenderMask { color: true, ..self }),
    {
        let mut s = self;
        s.color = true;
        s
    }

    pub fn depth(self) -> (r: Self)
        ensures
            r == (RenderMask { depth: true, ..self }),
    {
        let mut s = self;
        s.depth = true;
        s
    }

    pub fn stencil(self) -> (r: Self)
        ensures
            r == (RenderMask { stencil: true, ..self }),
    {
        let mut s = self;
        s.stencil = true;
        s
    }

    pub fn color_and_depth(self) -> (r: Self)
        ensures
            r == (RenderMask { color: true, depth: true, ..self }),
    {
        let mut s = self;
        s.color = true;
        s.depth = true;
        s
    }

    /// Selects the color and the depth plane; the stencil plane is left as it is.
    pub fn color_and_stencil(self) -> (r: Self)
        ensures
            r == (RenderMask { color: true, depth: true, ..self }),
    {
        let mut s = self;
        s.color = true;
        s.depth = true;
        s
    }

    pub fn depth_and_stencil(self) -> (r: Self)
        ensures
            r == (RenderMask { depth: true, stencil: true, ..self }),
    {
        let mut s = self;
        s.depth = true;
        s.stencil = true;
        s
    }

    pub fn all(self) -> (r: Self)
        ensures
            r == (RenderMask { color: true, depth: true, stencil: true }),
    {
        let mut s = self;
        s.color = true;
        s.depth = true;
        s.stencil = true;
        s
    }

    /// The bitmask `glClear` takes: the sum of the bits of the selected planes.
    pub open spec fn spec_bits(self) -> u32 {
        ((if self.color { gl_enums::COLOR_BUFFER_BIT } else { 0 }) + (if self.depth {
            gl_enums::DEPTH_BUFFER_BIT
        } else {
            0
        }) + (if self.stencil { gl_enums::STENCIL_BUFFER_BIT } else { 0 })) as u32
    }

    pub fn to_opengl(&self) -> (r: u32)
        ensures
            r == self.spec_bits(),
    {
        let mut mask: u32 = 0;
        if self.color {
            mask = mask | gl_enums::COLOR_BUFFER_BIT;
            assert(0u32 | 0x4000u32 == 0x4000u32) by (bit_vector);
        }
        if self.depth {
            let m0 = mask;
            mask = mask | gl_enums::DEPTH_BUFFER_BIT;
            assert(0u32 | 0x100u32 == 0x100u32) by (bit_vector);
            assert(0x4000u32 | 0x100u32 == 0x4100u32) by (bit_vector);
        }
        if self.stencil {
            mask = mask | gl_enums::STENCIL_BUFFER_BIT;
            assert(0u32 | 0x400u32 == 0x400u32) by (bit_vector);
            assert(0x4000u32 | 0x400u32 == 0x4400u32) by (bit_vector);
            assert(0x100u32 | 0x400u32 == 0x500u32) by (bit_vector);
            assert(0x4100u32 | 0x400u32 == 0x4500u32) by (bit_vector);
        }
        mask
    }
}

impl From<(bool, bool, bool)> for RenderMask {
    fn from(value: (bool, bool, bool)) -> (r: Self) {
        RenderMask { color: value.0, depth: value.1, stencil: value.2 }
    }
}

impl FromSpecImpl<(bool, bool, bool)> for RenderMask {
    open spec fn obeys_from_spec() -> bool {
        true
    }

    open spec fn from_spec(v: (bool, bool, bool)) -> RenderMask {
        RenderMask { color: v.0, depth: v.1, stencil: v.2 }
    }
}

// ---------------------------------------------------------------------------
// Laws
// ---------------------------------------------------------------------------

/// Converting a data type to its OpenGL enumerant and back gives the data
/// type again.
pub proof fn lemma_data_type_round_trip(t: VertexDataType)
    ensures
        VertexDataType::spec_from_gl_enum(t.spec_gl_enum()) == Some(t),
{
}

/// A mask with every plane selected clears the color, depth and stencil
/// buffers: its bits are those three bits together.
pub proof fn lemma_render_mask_all_bits(m: RenderMask)
    requires
        m.color && m.depth && m.stencil,
    ensures
        m.spec_bits() == gl_enums::COLOR_BUFFER_BIT + gl_enums::DEPTH_BUFFER_BIT + gl_enums::STENCIL_BUFFER_BIT,
{
}

} // verus!
