use shared_lib::gl_enums;
use shared_lib::gl_types::{
    BufferType, BufferUsage, Capability, IndicesValueType, PrimitiveType, RenderMask, ShaderType,
    TextureTarget, VertexAttributeType, VertexDataType,
};

#[test]
fn enum_values_match_gl_crate() {
    assert_eq!(gl_enums::ARRAY_BUFFER, gl::ARRAY_BUFFER);
    assert_eq!(gl_enums::ELEMENT_ARRAY_BUFFER, gl::ELEMENT_ARRAY_BUFFER);
    assert_eq!(gl_enums::UNIFORM_BUFFER, gl::UNIFORM_BUFFER);
    assert_eq!(gl_enums::TEXTURE_BUFFER, gl::TEXTURE_BUFFER);
    assert_eq!(gl_enums::FRAMEBUFFER, gl::FRAMEBUFFER);
    assert_eq!(gl_enums::RENDERBUFFER, gl::RENDERBUFFER);
    assert_eq!(gl_enums::COPY_READ_BUFFER, gl::COPY_READ_BUFFER);
    assert_eq!(gl_enums::COPY_WRITE_BUFFER, gl::COPY_WRITE_BUFFER);
    assert_eq!(gl_enums::PIXEL_PACK_BUFFER, gl::PIXEL_PACK_BUFFER);
    assert_eq!(gl_enums::PIXEL_UNPACK_BUFFER, gl::PIXEL_UNPACK_BUFFER);
    assert_eq!(gl_enums::TRANSFORM_FEEDBACK_BUFFER, gl::TRANSFORM_FEEDBACK_BUFFER);
    assert_eq!(gl_enums::ATOMIC_COUNTER_BUFFER, gl::ATOMIC_COUNTER_BUFFER);
    assert_eq!(gl_enums::DRAW_INDIRECT_BUFFER, gl::DRAW_INDIRECT_BUFFER);
    assert_eq!(gl_enums::DISPATCH_INDIRECT_BUFFER, gl::DISPATCH_INDIRECT_BUFFER);
    assert_eq!(gl_enums::SHADER_STORAGE_BUFFER, gl::SHADER_STORAGE_BUFFER);
    assert_eq!(gl_enums::STATIC_DRAW, gl::STATIC_DRAW);
    assert_eq!(gl_enums::DYNAMIC_DRAW, gl::DYNAMIC_DRAW);
    assert_eq!(gl_enums::STREAM_DRAW, gl::STREAM_DRAW);
    assert_eq!(gl_enums::STATIC_READ, gl::STATIC_READ);
    assert_eq!(gl_enums::DYNAMIC_READ, gl::DYNAMIC_READ);
    assert_eq!(gl_enums::STREAM_READ, gl::STREAM_READ);
    assert_eq!(gl_enums::STATIC_COPY, gl::STATIC_COPY);
    assert_eq!(gl_enums::DYNAMIC_COPY, gl::DYNAMIC_COPY);
    assert_eq!(gl_enums::STREAM_COPY, gl::STREAM_COPY);
    assert_eq!(gl_enums::BYTE, gl::BYTE);
    assert_eq!(gl_enums::UNSIGNED_BYTE, gl::UNSIGNED_BYTE);
    assert_eq!(gl_enums::SHORT, gl::SHORT);
    assert_eq!(gl_enums::UNSIGNED_SHORT, gl::UNSIGNED_SHORT);
    assert_eq!(gl_enums::INT, gl::INT);
    assert_eq!(gl_enums::UNSIGNED_INT, gl::UNSIGNED_INT);
    assert_eq!(gl_enums::FLOAT, gl::FLOAT);
    assert_eq!(gl_enums::DOUBLE, gl::DOUBLE);
    assert_eq!(gl_enums::HALF_FLOAT, gl::HALF_FLOAT);
    assert_eq!(gl_enums::FIXED, gl::FIXED);
    assert_eq!(gl_enums::INT_2_10_10_10_REV, gl::INT_2_10_10_10_REV);
    assert_eq!(gl_enums::UNSIGNED_INT_2_10_10_10_REV, gl::UNSIGNED_INT_2_10_10_10_REV);
    assert_eq!(gl_enums::UNSIGNED_INT_10F_11F_11F_REV, gl::UNSIGNED_INT_10F_11F_11F_REV);
    assert_eq!(gl_enums::VERTEX_SHADER, gl::VERTEX_SHADER);
    assert_eq!(gl_enums::FRAGMENT_SHADER, gl::FRAGMENT_SHADER);
    assert_eq!(gl_enums::GEOMETRY_SHADER, gl::GEOMETRY_SHADER);
    assert_eq!(gl_enums::COMPUTE_SHADER, gl::COMPUTE_SHADER);
    assert_eq!(gl_enums::POINTS, gl::POINTS);
    assert_eq!(gl_enums::LINES, gl::LINES);
    assert_eq!(gl_enums::LINE_LOOP, gl::LINE_LOOP);
    assert_eq!(gl_enums::LINE_STRIP, gl::LINE_STRIP);
    assert_eq!(gl_enums::TRIANGLES, gl::TRIANGLES);
    assert_eq!(gl_enums::TRIANGLE_STRIP, gl::TRIANGLE_STRIP);
    assert_eq!(gl_enums::TRIANGLE_FAN, gl::TRIANGLE_FAN);
    assert_eq!(gl_enums::LINES_ADJACENCY, gl::LINES_ADJACENCY);
    assert_eq!(gl_enums::LINE_STRIP_ADJACENCY, gl::LINE_STRIP_ADJACENCY);
    assert_eq!(gl_enums::TRIANGLES_ADJACENCY, gl::TRIANGLES_ADJACENCY);
    assert_eq!(gl_enums::TRIANGLE_STRIP_ADJACENCY, gl::TRIANGLE_STRIP_ADJACENCY);
    assert_eq!(gl_enums::PATCHES, gl::PATCHES);
    assert_eq!(gl_enums::DEPTH_BUFFER_BIT, gl::DEPTH_BUFFER_BIT);
    assert_eq!(gl_enums::STENCIL_BUFFER_BIT, gl::STENCIL_BUFFER_BIT);
    assert_eq!(gl_enums::COLOR_BUFFER_BIT, gl::COLOR_BUFFER_BIT);
    assert_eq!(gl_enums::TEXTURE_1D, gl::TEXTURE_1D);
    assert_eq!(gl_enums::TEXTURE_2D, gl::TEXTURE_2D);
    assert_eq!(gl_enums::TEXTURE_3D, gl::TEXTURE_3D);
    assert_eq!(gl_enums::TEXTURE_1D_ARRAY, gl::TEXTURE_1D_ARRAY);
    assert_eq!(gl_enums::TEXTURE_2D_ARRAY, gl::TEXTURE_2D_ARRAY);
    assert_eq!(gl_enums::TEXTURE_RECTANGLE, gl::TEXTURE_RECTANGLE);
    assert_eq!(gl_enums::TEXTURE_CUBE_MAP, gl::TEXTURE_CUBE_MAP);
    assert_eq!(gl_enums::TEXTURE_CUBE_MAP_ARRAY, gl::TEXTURE_CUBE_MAP_ARRAY);
    assert_eq!(gl_enums::TEXTURE_2D_MULTISAMPLE, gl::TEXTURE_2D_MULTISAMPLE);
    assert_eq!(gl_enums::TEXTURE_2D_MULTISAMPLE_ARRAY, gl::TEXTURE_2D_MULTISAMPLE_ARRAY);
    assert_eq!(gl_enums::TEXTURE0, gl::TEXTURE0);
    assert_eq!(gl_enums::TEXTURE31, gl::TEXTURE31);
    assert_eq!(gl_enums::RGB, gl::RGB);
    assert_eq!(gl_enums::RGBA, gl::RGBA);
    assert_eq!(gl_enums::BLEND, gl::BLEND);
    assert_eq!(gl_enums::DEPTH_TEST, gl::DEPTH_TEST);
    assert_eq!(gl_enums::CULL_FACE, gl::CULL_FACE);
    assert_eq!(gl_enums::SCISSOR_TEST, gl::SCISSOR_TEST);
    assert_eq!(gl_enums::DITHER, gl::DITHER);
    assert_eq!(gl_enums::LINE_SMOOTH, gl::LINE_SMOOTH);
    assert_eq!(gl_enums::POLYGON_SMOOTH, gl::POLYGON_SMOOTH);
    assert_eq!(gl_enums::STENCIL_TEST, gl::STENCIL_TEST);
    assert_eq!(gl_enums::GL_FALSE, gl::FALSE);
    assert_eq!(gl_enums::GL_TRUE, gl::TRUE);
    assert_eq!(gl_enums::NO_ERROR, gl::NO_ERROR);
    assert_eq!(gl_enums::INVALID_ENUM, gl::INVALID_ENUM);
    assert_eq!(gl_enums::INVALID_VALUE, gl::INVALID_VALUE);
    assert_eq!(gl_enums::INVALID_OPERATION, gl::INVALID_OPERATION);
    assert_eq!(gl_enums::STACK_OVERFLOW, gl::STACK_OVERFLOW);
    assert_eq!(gl_enums::STACK_UNDERFLOW, gl::STACK_UNDERFLOW);
    assert_eq!(gl_enums::OUT_OF_MEMORY, gl::OUT_OF_MEMORY);
    assert_eq!(gl_enums::INVALID_FRAMEBUFFER_OPERATION, gl::INVALID_FRAMEBUFFER_OPERATION);
    assert_eq!(gl_enums::ZERO, gl::ZERO);
    assert_eq!(gl_enums::ONE, gl::ONE);
    assert_eq!(gl_enums::SRC_ALPHA, gl::SRC_ALPHA);
    assert_eq!(gl_enums::ONE_MINUS_SRC_ALPHA, gl::ONE_MINUS_SRC_ALPHA);
}

#[test]
fn buffer_types_map_to_gl_targets() {
    let expected = [
        gl::ARRAY_BUFFER,
        gl::ELEMENT_ARRAY_BUFFER,
        gl::UNIFORM_BUFFER,
        gl::TEXTURE_BUFFER,
        gl::FRAMEBUFFER,
        gl::RENDERBUFFER,
        gl::COPY_READ_BUFFER,
        gl::COPY_WRITE_BUFFER,
        gl::PIXEL_PACK_BUFFER,
        gl::PIXEL_UNPACK_BUFFER,
        gl::TRANSFORM_FEEDBACK_BUFFER,
        gl::ATOMIC_COUNTER_BUFFER,
        gl::DRAW_INDIRECT_BUFFER,
        gl::DISPATCH_INDIRECT_BUFFER,
        gl::SHADER_STORAGE_BUFFER,
    ];
    let all = BufferType::all_types();
    assert_eq!(all.len(), 15);
    for (t, e) in all.iter().zip(expected.iter()) {
        assert_eq!(t.to_gl_enum(), *e);
    }
    assert_eq!(all[0], BufferType::ArrayBuffer);
    assert_eq!(all[14], BufferType::ShaderStorageBuffer);
}

#[test]
fn buffer_usages_map_to_gl_hints() {
    assert_eq!(BufferUsage::StaticDraw.to_gl_enum(), gl::STATIC_DRAW);
    assert_eq!(BufferUsage::DynamicDraw.to_gl_enum(), gl::DYNAMIC_DRAW);
    assert_eq!(BufferUsage::StreamDraw.to_gl_enum(), gl::STREAM_DRAW);
    assert_eq!(BufferUsage::StaticRead.to_gl_enum(), gl::STATIC_READ);
    assert_eq!(BufferUsage::DynamicRead.to_gl_enum(), gl::DYNAMIC_READ);
    assert_eq!(BufferUsage::StreamRead.to_gl_enum(), gl::STREAM_READ);
    assert_eq!(BufferUsage::StaticCopy.to_gl_enum(), gl::STATIC_COPY);
    assert_eq!(BufferUsage::DynamicCopy.to_gl_enum(), gl::DYNAMIC_COPY);
    assert_eq!(BufferUsage::StreamCopy.to_gl_enum(), gl::STREAM_COPY);
}

fn all_data_types() -> Vec<VertexDataType> {
    vec![
        VertexDataType::Byte,
        VertexDataType::UnsignedByte,
        VertexDataType::Short,
        VertexDataType::UnsignedShort,
        VertexDataType::Int,
        VertexDataType::UnsignedInt,
        VertexDataType::HalfFloat,
        VertexDataType::Float,
        VertexDataType::Double,
        VertexDataType::Fixed,
        VertexDataType::Int_2_10_10_10_Rev,
        VertexDataType::UnsignedInt_2_10_10_10_Rev,
        VertexDataType::UnsignedInt_10F_11F_11F_Rev,
    ]
}

#[test]
fn data_types_round_trip_through_gl_enums() {
    for t in all_data_types() {
        assert_eq!(VertexDataType::from_gl_enum(t.to_gl_enum()), Some(t));
    }
    assert_eq!(VertexDataType::from_gl_enum(gl::FLOAT), Some(VertexDataType::Float));
    assert_eq!(VertexDataType::from_gl_enum(gl::TRIANGLES), None);
    assert_eq!(VertexDataType::from_gl_enum(0xFFFF_FFFF), None);
}

#[test]
fn data_type_sizes_match_rust_types() {
    assert_eq!(VertexDataType::Byte.size(), std::mem::size_of::<i8>());
    assert_eq!(VertexDataType::UnsignedByte.size(), std::mem::size_of::<u8>());
    assert_eq!(VertexDataType::Short.size(), std::mem::size_of::<i16>());
    assert_eq!(VertexDataType::UnsignedShort.size(), std::mem::size_of::<u16>());
    assert_eq!(VertexDataType::Int.size(), std::mem::size_of::<i32>());
    assert_eq!(VertexDataType::UnsignedInt.size(), std::mem::size_of::<u32>());
    assert_eq!(VertexDataType::HalfFloat.size(), 2);
    assert_eq!(VertexDataType::Float.size(), std::mem::size_of::<f32>());
    assert_eq!(VertexDataType::Double.size(), std::mem::size_of::<f64>());
    assert_eq!(VertexDataType::Fixed.size(), 4);
    assert_eq!(VertexDataType::Int_2_10_10_10_Rev.size(), 4);
    assert_eq!(VertexDataType::UnsignedInt_2_10_10_10_Rev.size(), 4);
    assert_eq!(VertexDataType::UnsignedInt_10F_11F_11F_Rev.size(), 4);
}

#[test]
fn data_type_names() {
    let names = [
        "Byte",
        "UnsignedByte",
        "Short",
        "UnsignedShort",
        "Int",
        "UnsignedInt",
        "HalfFloat",
        "Float",
        "Double",
        "Fixed",
        "Int_2_10_10_10_Rev",
        "UnsignedInt_2_10_10_10_Rev",
        "UnsignedInt_10F_11F_11F_Rev",
    ];
    for (t, n) in all_data_types().iter().zip(names.iter()) {
        assert_eq!(t.to_string(), *n);
    }
}

#[test]
fn attribute_type_gl_data_and_attributes() {
    assert_eq!(VertexAttributeType::Position.to_gl_data(), (3, gl::FLOAT, gl::FALSE));
    assert_eq!(VertexAttributeType::Position2D.to_gl_data(), (2, gl::FLOAT, gl::FALSE));
    assert_eq!(VertexAttributeType::Color.to_gl_data(), (4, gl::FLOAT, gl::FALSE));
    assert_eq!(VertexAttributeType::TexCoord.to_gl_data(), (2, gl::FLOAT, gl::FALSE));
    assert_eq!(VertexAttributeType::Normal.to_gl_data(), (3, gl::FLOAT, gl::FALSE));
    let a = VertexAttributeType::TexCoord.to_vertex_attribute();
    assert_eq!(a.name.as_deref(), Some("tex_coord"));
    assert_eq!(a.components, 2);
    assert_eq!(a.data_type, VertexDataType::Float);
    assert_eq!(a.normalized, None);
    assert_eq!(a.stride, None);
    assert_eq!(a.offset, None);
    assert_eq!(VertexAttributeType::Position2D.to_vertex_attribute().name.as_deref(), Some("position"));
    assert_eq!(VertexAttributeType::Color.to_vertex_attribute().name.as_deref(), Some("color"));
    assert_eq!(VertexAttributeType::Normal.to_vertex_attribute().name.as_deref(), Some("normal"));
}

#[test]
fn shader_primitive_index_texture_capability_enums() {
    assert_eq!(ShaderType::Vertex.to_gl_enum(), gl::VERTEX_SHADER);
    assert_eq!(ShaderType::Fragment.to_gl_enum(), gl::FRAGMENT_SHADER);
    assert_eq!(ShaderType::Geometry.to_gl_enum(), gl::GEOMETRY_SHADER);
    assert_eq!(ShaderType::Compute.to_gl_enum(), gl::COMPUTE_SHADER);
    assert_eq!(ShaderType::Compute.to_string(), "Compute");
    assert_eq!(PrimitiveType::Points.to_gl_enum(), gl::POINTS);
    assert_eq!(PrimitiveType::LineStrip.to_gl_enum(), gl::LINE_STRIP);
    assert_eq!(PrimitiveType::LineLoop.to_gl_enum(), gl::LINE_LOOP);
    assert_eq!(PrimitiveType::Lines.to_gl_enum(), gl::LINES);
    assert_eq!(PrimitiveType::LineStripAdjacency.to_gl_enum(), gl::LINE_STRIP_ADJACENCY);
    assert_eq!(PrimitiveType::LinesAdjacency.to_gl_enum(), gl::LINES_ADJACENCY);
    assert_eq!(PrimitiveType::TriangleStrip.to_gl_enum(), gl::TRIANGLE_STRIP);
    assert_eq!(PrimitiveType::TriangleFan.to_gl_enum(), gl::TRIANGLE_FAN);
    assert_eq!(PrimitiveType::Triangles.to_gl_enum(), gl::TRIANGLES);
    assert_eq!(PrimitiveType::TriangleStripAdjacency.to_gl_enum(), gl::TRIANGLE_STRIP_ADJACENCY);
    assert_eq!(PrimitiveType::TrianglesAdjacency.to_gl_enum(), gl::TRIANGLES_ADJACENCY);
    assert_eq!(PrimitiveType::Patches.to_gl_enum(), gl::PATCHES);
    assert_eq!(IndicesValueType::Byte.to_gl_enum(), gl::UNSIGNED_BYTE);
    assert_eq!(IndicesValueType::Short.to_gl_enum(), gl::UNSIGNED_SHORT);
    assert_eq!(IndicesValueType::Int.to_gl_enum(), gl::UNSIGNED_INT);
    assert_eq!(TextureTarget::Texture1D.to_gl_enum(), gl::TEXTURE_1D);
    assert_eq!(TextureTarget::Texture2D.to_gl_enum(), gl::TEXTURE_2D);
    assert_eq!(TextureTarget::Texture3D.to_gl_enum(), gl::TEXTURE_3D);
    assert_eq!(TextureTarget::Texture1DArray.to_gl_enum(), gl::TEXTURE_1D_ARRAY);
    assert_eq!(TextureTarget::Texture2DArray.to_gl_enum(), gl::TEXTURE_2D_ARRAY);
    assert_eq!(TextureTarget::TextureRectangle.to_gl_enum(), gl::TEXTURE_RECTANGLE);
    assert_eq!(TextureTarget::TextureCubeMap.to_gl_enum(), gl::TEXTURE_CUBE_MAP);
    assert_eq!(TextureTarget::TextureCubeMapArray.to_gl_enum(), gl::TEXTURE_CUBE_MAP_ARRAY);
    assert_eq!(TextureTarget::TextureBuffer.to_gl_enum(), gl::TEXTURE_BUFFER);
    assert_eq!(TextureTarget::Texture2DMultisample.to_gl_enum(), gl::TEXTURE_2D_MULTISAMPLE);
    assert_eq!(TextureTarget::Texture2DMultisampleArray.to_gl_enum(), gl::TEXTURE_2D_MULTISAMPLE_ARRAY);
    assert_eq!(Capability::Blend.to_gl_enum(), gl::BLEND);
    assert_eq!(Capability::DepthTest.to_gl_enum(), gl::DEPTH_TEST);
    assert_eq!(Capability::CullFace.to_gl_enum(), gl::CULL_FACE);
    assert_eq!(Capability::ScissorTest.to_gl_enum(), gl::SCISSOR_TEST);
    assert_eq!(Capability::Dither.to_gl_enum(), gl::DITHER);
    assert_eq!(Capability::LineSmooth.to_gl_enum(), gl::LINE_SMOOTH);
    assert_eq!(Capability::PolygonSmooth.to_gl_enum(), gl::POLYGON_SMOOTH);
    assert_eq!(Capability::StencilTest.to_gl_enum(), gl::STENCIL_TEST);
}

#[test]
fn render_mask_builders_and_bits() {
    let none = RenderMask::new();
    assert_eq!(none, RenderMask { color: false, depth: false, stencil: false });
    assert_eq!(none.to_opengl(), 0);
    assert_eq!(RenderMask::new().color().to_opengl(), gl::COLOR_BUFFER_BIT);
    assert_eq!(RenderMask::new().depth().to_opengl(), gl::DEPTH_BUFFER_BIT);
    assert_eq!(RenderMask::new().stencil().to_opengl(), gl::STENCIL_BUFFER_BIT);
    assert_eq!(
        RenderMask::new().color_and_depth().to_opengl(),
        gl::COLOR_BUFFER_BIT | gl::DEPTH_BUFFER_BIT
    );
    // Selects color and depth, as the builder always did.
    assert_eq!(
        RenderMask::new().color_and_stencil(),
        RenderMask { color: true, depth: true, stencil: false }
    );
    assert_eq!(
        RenderMask::new().depth_and_stencil().to_opengl(),
        gl::DEPTH_BUFFER_BIT | gl::STENCIL_BUFFER_BIT
    );
    let all = RenderMask::new().all();
    assert_eq!(all.to_opengl(), gl::COLOR_BUFFER_BIT | gl::DEPTH_BUFFER_BIT | gl::STENCIL_BUFFER_BIT);
    assert_eq!(all.to_opengl(), 0x4500);
    let from: RenderMask = (true, false, true).into();
    assert_eq!(from, RenderMask { color: true, depth: false, stencil: true });
    assert_eq!(from.to_opengl(), gl::COLOR_BUFFER_BIT | gl::STENCIL_BUFFER_BIT);
}
