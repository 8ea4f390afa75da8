//! Numeric values of the OpenGL enumerants used by this library, as fixed by
//! the OpenGL registry (`gl.xml`). The `gl` crate exposes the same values
//! as `gl::*` constants; the test suite checks each of them against it.
use vstd::prelude::*;

verus! {

pub const GL_FALSE: u8 = 0;
pub const GL_TRUE: u8 = 1;

// Error codes
pub const NO_ERROR: u32 = 0;
pub const INVALID_ENUM: u32 = 0x0500;
pub const INVALID_VALUE: u32 = 0x0501;
pub const INVALID_OPERATION: u32 = 0x0502;
pub const STACK_OVERFLOW: u32 = 0x0503;
pub const STACK_UNDERFLOW: u32 = 0x0504;
pub const OUT_OF_MEMORY: u32 = 0x0505;
pub const INVALID_FRAMEBUFFER_OPERATION: u32 = 0x0506;

// Blend factors
pub const ZERO: u32 = 0;
pub const ONE: u32 = 1;
pub const SRC_ALPHA: u32 = 0x0302;
pub const ONE_MINUS_SRC_ALPHA: u32 = 0x0303;

// Buffer binding targets.
pub const ARRAY_BUFFER: u32 = 0x8892;
pub const ELEMENT_ARRAY_BUFFER: u32 = 0x8893;
pub const UNIFORM_BUFFER: u32 = 0x8A11;
pub const TEXTURE_BUFFER: u32 = 0x8C2A;
pub const FRAMEBUFFER: u32 = 0x8D40;
pub const RENDERBUFFER: u32 = 0x8D41;
pub const COPY_READ_BUFFER: u32 = 0x8F36;
pub const COPY_WRITE_BUFFER: u32 = 0x8F37;
pub const PIXEL_PACK_BUFFER: u32 = 0x88EB;
pub const PIXEL_UNPACK_BUFFER: u32 = 0x88EC;
pub const TRANSFORM_FEEDBACK_BUFFER: u32 = 0x8C8E;
pub const ATOMIC_COUNTER_BUFFER: u32 = 0x92C0;
pub const DRAW_INDIRECT_BUFFER: u32 = 0x8F3F;
pub const DISPATCH_INDIRECT_BUFFER: u32 = 0x90EE;
pub const SHADER_STORAGE_BUFFER: u32 = 0x90D2;

// Buffer usage hints.
pub const STATIC_DRAW: u32 = 0x88E4;
pub const DYNAMIC_DRAW: u32 = 0x88E8;
pub const STREAM_DRAW: u32 = 0x88E0;
pub const STATIC_READ: u32 = 0x88E5;
pub const DYNAMIC_READ: u32 = 0x88E9;
pub const STREAM_READ: u32 = 0x88E1;
pub const STATIC_COPY: u32 = 0x88E6;
pub const DYNAMIC_COPY: u32 = 0x88EA;
pub const STREAM_COPY: u32 = 0x88E2;

// Component data types.
pub const BYTE: u32 = 0x1400;
pub const UNSIGNED_BYTE: u32 = 0x1401;
pub const SHORT: u32 = 0x1402;
pub const UNSIGNED_SHORT: u32 = 0x1403;
pub const INT: u32 = 0x1404;
pub const UNSIGNED_INT: u32 = 0x1405;
pub const FLOAT: u32 = 0x1406;
pub const DOUBLE: u32 = 0x140A;
pub const HALF_FLOAT: u32 = 0x140B;
pub const FIXED: u32 = 0x140C;
pub const INT_2_10_10_10_REV: u32 = 0x8D9F;
pub const UNSIGNED_INT_2_10_10_10_REV: u32 = 0x8368;
pub const UNSIGNED_INT_10F_11F_11F_REV: u32 = 0x8C3B;

// Shader stages.
pub const VERTEX_SHADER: u32 = 0x8B31;
pub const FRAGMENT_SHADER: u32 = 0x8B30;
pub const GEOMETRY_SHADER: u32 = 0x8DD9;
pub const COMPUTE_SHADER: u32 = 0x91B9;

// Primitive modes.
pub const POINTS: u32 = 0x0000;
pub const LINES: u32 = 0x0001;
pub const LINE_LOOP: u32 = 0x0002;
pub const LINE_STRIP: u32 = 0x0003;
pub const TRIANGLES: u32 = 0x0004;
pub const TRIANGLE_STRIP: u32 = 0x0005;
pub const TRIANGLE_FAN: u32 = 0x0006;
pub const LINES_ADJACENCY: u32 = 0x000A;
pub const LINE_STRIP_ADJACENCY: u32 = 0x000B;
pub const TRIANGLES_ADJACENCY: u32 = 0x000C;
pub const TRIANGLE_STRIP_ADJACENCY: u32 = 0x000D;
pub const PATCHES: u32 = 0x000E;

// Clear mask bits.
pub const DEPTH_BUFFER_BIT: u32 = 0x0000_0100;
pub const STENCIL_BUFFER_BIT: u32 = 0x0000_0400;
pub const COLOR_BUFFER_BIT: u32 = 0x0000_4000;

// Texture targets.
pub const TEXTURE_1D: u32 = 0x0DE0;
pub const TEXTURE_2D: u32 = 0x0DE1;
pub const TEXTURE_3D: u32 = 0x806F;
pub const TEXTURE_1D_ARRAY: u32 = 0x8C18;
pub const TEXTURE_2D_ARRAY: u32 = 0x8C1A;
pub const TEXTURE_RECTANGLE: u32 = 0x84F5;
pub const TEXTURE_CUBE_MAP: u32 = 0x8513;
pub const TEXTURE_CUBE_MAP_ARRAY: u32 = 0x9009;
pub const TEXTURE_2D_MULTISAMPLE: u32 = 0x9100;
pub const TEXTURE_2D_MULTISAMPLE_ARRAY: u32 = 0x9102;

// Texture units and pixel formats.
pub const TEXTURE0: u32 = 0x84C0;
pub const TEXTURE31: u32 = 0x84DF;
pub const RGB: u32 = 0x1907;
pub const RGBA: u32 = 0x1908;

// Server-side capabilities.
pub const BLEND: u32 = 0x0BE2;
pub const DEPTH_TEST: u32 = 0x0B71;
pub const CULL_FACE: u32 = 0x0B44;
pub const SCISSOR_TEST: u32 = 0x0C11;
pub const DITHER: u32 = 0x0BD0;
pub const LINE_SMOOTH: u32 = 0x0B20;
pub const POLYGON_SMOOTH: u32 = 0x0B41;
pub const STENCIL_TEST: u32 = 0x0B90;

} // verus!
