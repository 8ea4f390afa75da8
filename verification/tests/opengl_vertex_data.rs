use shared_lib::gl_buffer;
use shared_lib::gl_types::{BufferType, BufferUsage, VertexAttributeType, VertexDataType};
use shared_lib::gl_vertex::VertexLayout as BoundLayout;
use shared_lib::gl_vertex_array;
use shared_lib::gl_vertex_attribute::VertexLayoutError as LayoutError;
use shared_lib::opengl::buffer_object::BufferObject;
use shared_lib::opengl::vertex_array_object::{RenderDataState, VertexArrayObject};
use shared_lib::opengl::vertex_attribute::VertexAttribute;
use shared_lib::opengl::vertex_layout::VertexLayout;

#[test]
fn plain_vertex_attribute_builders() {
    let a = VertexAttribute::default();
    assert_eq!(a.components, 0);
    assert!(!a.normalized);
    assert_eq!((a.stride, a.offset), (0, 0));
    let b = VertexAttribute::new(3, VertexDataType::Float)
        .name(Some("p".to_string()))
        .normalized(true)
        .stride(32)
        .offset(4)
        .components(2)
        .data_type(VertexDataType::Short);
    assert_eq!(b.name.as_deref(), Some("p"));
    assert!(b.normalized);
    assert_eq!((b.stride, b.offset, b.components), (32, 4, 2));
    assert_eq!(b.calculate_size(), 4);
    let c: VertexAttribute = VertexAttributeType::TexCoord.into();
    assert_eq!((c.components, c.data_type, c.normalized), (2, VertexDataType::Float, false));
}

#[test]
fn vao_layout_state_machine() {
    let mut vao = VertexArrayObject::new(9);
    assert_eq!(vao.array_id(), 9);
    assert!(!vao.has_layout());
    assert_eq!(vao.get_layout_state(), RenderDataState::Absent);
    assert!(vao.prepare_render().is_none());
    vao.set_layout(&[VertexAttribute::new(3, VertexDataType::Float)]);
    assert_eq!(vao.get_layout_state(), RenderDataState::Provided);
    vao.set_layout(&[VertexAttribute::new(2, VertexDataType::Float)]);
    assert_eq!(vao.get_layout_state(), RenderDataState::Provided);
    let ptrs = vao.prepare_render().expect("upload");
    assert_eq!(ptrs.len(), 1);
    assert_eq!(vao.get_layout_state(), RenderDataState::Uploaded);
    // uploaded once: nothing more until the layout changes
    assert!(vao.prepare_render().is_none());
    vao.set_layout(&[VertexAttribute::new(4, VertexDataType::Float)]);
    assert_eq!(vao.get_layout_state(), RenderDataState::NeedsUpdate);
    assert!(vao.prepare_render().is_some());
    vao.clear_layout();
    assert!(!vao.has_layout());
    assert_eq!(vao.get_layout_state(), RenderDataState::Absent);
}

#[test]
fn vao_upload_pointers() {
    let mut vao = VertexArrayObject::new_with_attributes(
        1,
        &[
            VertexAttribute::new(3, VertexDataType::Float),
            VertexAttribute::new(4, VertexDataType::UnsignedByte).normalized(true).offset(40),
            VertexAttribute::new(2, VertexDataType::Float).stride(64),
        ],
    );
    let p = vao.prepare_render().unwrap();
    assert_eq!((p[0].index, p[0].components, p[0].data_type, p[0].stride, p[0].offset), (0, 3, gl::FLOAT, 24, 0));
    assert_eq!((p[1].stride, p[1].offset, p[1].normalized), (24, 40, true));
    assert_eq!((p[2].stride, p[2].offset), (64, 16));
}

#[test]
fn vao_from_attribute_types() {
    let mut vao = VertexArrayObject::new_with_attribute_types(
        2,
        &[VertexAttributeType::Position, VertexAttributeType::Color],
    );
    assert!(vao.has_layout());
    let p = vao.prepare_render().unwrap();
    assert_eq!(p.len(), 2);
    assert_eq!((p[1].components, p[1].offset, p[1].stride), (4, 12, 28));
}

struct Colored;

impl VertexLayout for Colored {
    fn attributes() -> Vec<VertexAttribute> {
        vec![VertexAttribute::new(3, VertexDataType::Float), VertexAttribute::new(4, VertexDataType::UnsignedByte)]
    }
}

#[test]
fn layout_size_sums_attribute_sizes() {
    assert_eq!(Colored::layout_size(), 16);
}

#[test]
fn buffer_objects() {
    let mut b = BufferObject::new(3, BufferType::ArrayBuffer, BufferUsage::StaticDraw, vec![1.0f32, 2.0, 3.0]);
    assert_eq!(b.buffer_id(), 3);
    assert_eq!(b.buffer_type(), BufferType::ArrayBuffer);
    assert_eq!(b.buffer_usage(), BufferUsage::StaticDraw);
    assert_eq!(b.data_len(), 3);
    assert_eq!(b.data_size(), 3 + 4);
    b.update_data(vec![4.0, 5.0], Some(BufferUsage::DynamicDraw));
    assert_eq!(b.data(), &vec![4.0, 5.0]);
    assert_eq!(b.buffer_usage(), BufferUsage::DynamicDraw);
    b.update_data(vec![], None);
    assert_eq!(b.buffer_usage(), BufferUsage::DynamicDraw);
    b.clear_data();
    assert_eq!(b.data_len(), 0);
    assert_eq!(b.delete(), Some(3));
    assert_eq!(b.delete(), None);
    assert_eq!(b.buffer_id(), 0);
    let vao = VertexArrayObject::new(5);
    let e: BufferObject<u32> = BufferObject::new_with_vao(&vao, 8, BufferType::ElementArrayBuffer, BufferUsage::StaticDraw, vec![0, 1, 2]);
    assert_eq!(e.data_size(), 3 + 4);
    let empty: BufferObject<u64> = BufferObject::empty(4, BufferType::UniformBuffer, BufferUsage::StreamRead);
    assert_eq!(empty.data_len(), 0);
    assert_eq!(empty.data_size(), 8);
}

#[test]
fn gl_buffer_objects() {
    let mut b = gl_buffer::BufferObject::new(6, BufferType::ArrayBuffer, BufferUsage::StaticDraw, vec![1u8, 2, 3, 4]);
    assert_eq!(b.data_size(), 5);
    b.update_data(vec![9]);
    assert_eq!(b.data(), &vec![9]);
    assert_eq!(b.buffer_usage(), BufferUsage::StaticDraw);
    b.clear_data();
    assert_eq!(b.data_len(), 0);
    let e: gl_buffer::BufferObject<u16> = gl_buffer::BufferObject::empty(0, BufferType::ElementArrayBuffer, BufferUsage::StaticDraw);
    let mut e = e;
    assert_eq!(e.delete(), None);
}

#[test]
fn vertex_array_ids() {
    assert_eq!(
        gl_vertex_array::VertexArrayObject::new_without_bind(0).err().unwrap(),
        "Failed to generate a vertex array object"
    );
    let mut v = gl_vertex_array::VertexArrayObject::new_without_bind(4).unwrap();
    assert_eq!(v.array_id(), 4);
    assert_eq!(v.delete(), Some(4));
    assert_eq!(v.array_id(), 0);
    assert!(matches!(BoundLayout::new_with_vao_id(0), Err(LayoutError::InvalidVAOId)));
    assert_eq!(BoundLayout::new_with_vao_id(12).ok().unwrap().vao_id(), 12);
}

#[test]
fn vao_delete_hands_back_the_name_once() {
    let mut vao = VertexArrayObject::new_with_attribute_types(7, &[VertexAttributeType::Position]);
    assert_eq!(vao.delete(), Some(7));
    assert_eq!(vao.array_id(), 0);
    assert!(vao.has_layout());
    assert_eq!(vao.delete(), None);
}
