use std::cell::RefCell;

use shared_lib::gl_types::{VertexAttributeType, VertexDataType};
use shared_lib::gl_vertex::Vertex;
use shared_lib::gl_vertex_attribute::{AttributePointer, VertexAttribute, VertexLayoutError, VertexLayoutManager};

fn attr(components: u8, data_type: VertexDataType, name: &str) -> VertexAttribute {
    VertexAttribute::new(components, data_type).name(Some(name.to_string()))
}

fn recorded_setup(manager: &mut VertexLayoutManager) -> (Result<(), VertexLayoutError>, Vec<AttributePointer>) {
    let calls = RefCell::new(Vec::new());
    let r = manager.setup_attributes(|p| {
        calls.borrow_mut().push(p);
        Ok(())
    });
    (r, calls.into_inner())
}

#[test]
fn vertex_attribute_defaults_and_builders() {
    let a = VertexAttribute::default();
    assert_eq!(a.components, 3);
    assert_eq!(a.data_type, VertexDataType::Float);
    assert!(a.name.is_none() && a.normalized.is_none() && a.stride.is_none() && a.offset.is_none());
    let b = VertexAttribute::new(2, VertexDataType::Short)
        .name(Some("uv".to_string()))
        .components(4)
        .data_type(VertexDataType::Double)
        .normalized(Some(true))
        .stride(Some(40))
        .offset(Some(8));
    assert_eq!(b.name.as_deref(), Some("uv"));
    assert_eq!(b.components, 4);
    assert_eq!(b.data_type, VertexDataType::Double);
    assert_eq!(b.normalized, Some(true));
    assert_eq!(b.stride, Some(40));
    assert_eq!(b.offset, Some(8));
    assert_eq!(b.calculate_size(), 32);
    assert_eq!(VertexAttribute::new(3, VertexDataType::UnsignedByte).calculate_size(), 3);
}

#[test]
fn vertex_attribute_from_attribute_type() {
    let a: VertexAttribute = VertexAttributeType::Color.into();
    assert_eq!(a.components, 4);
    assert_eq!(a.data_type, VertexDataType::Float);
    assert_eq!(a.normalized, Some(false));
    assert!(a.name.is_none());
    let n: VertexAttribute = VertexAttributeType::Normal.into();
    assert_eq!(n.components, 3);
}

#[test]
fn layout_is_tightly_packed() {
    let mut m = VertexLayoutManager::empty();
    m.add_attribute(attr(3, VertexDataType::Float, "position"))
        .add_attribute(attr(4, VertexDataType::UnsignedByte, "color"))
        .add_attribute(attr(2, VertexDataType::Float, "uv"));
    assert_eq!(m.attribute_count(), 3);
    let (r, calls) = recorded_setup(&mut m);
    assert!(r.is_ok());
    assert_eq!(calls.len(), 3);
    // stride is the size of the whole vertex: 12 + 4 + 8
    assert!(calls.iter().all(|p| p.stride == 24));
    assert_eq!(calls.iter().map(|p| p.offset).collect::<Vec<_>>(), vec![0, 12, 16]);
    assert_eq!(calls.iter().map(|p| p.index).collect::<Vec<_>>(), vec![0, 1, 2]);
    assert_eq!(calls[1].components, 4);
    assert_eq!(calls[1].data_type, gl::UNSIGNED_BYTE);
    assert!(!calls[1].normalized);
}

#[test]
fn explicit_stride_and_offset_are_used() {
    let mut m = VertexLayoutManager::from_attributes(vec![
        attr(3, VertexDataType::Float, "position").stride(Some(64)).offset(Some(32)),
        attr(2, VertexDataType::Float, "uv").stride(Some(64)),
        attr(1, VertexDataType::Int, "id").normalized(Some(true)),
    ]);
    let (r, calls) = recorded_setup(&mut m);
    assert!(r.is_ok());
    assert_eq!((calls[0].stride, calls[0].offset), (64, 32));
    // only a stride given: both come from the packed layout
    assert_eq!((calls[1].stride, calls[1].offset), (24, 12));
    assert_eq!((calls[2].stride, calls[2].offset), (24, 20));
    assert!(calls[2].normalized);
}

#[test]
fn remove_by_name_and_index_repack() {
    let mut m = VertexLayoutManager::from_attribute_types(vec![
        VertexAttributeType::Position,
        VertexAttributeType::Color,
        VertexAttributeType::TexCoord,
    ]);
    assert_eq!(m.attribute_count(), 3);
    m.remove_attribute_by_name("color");
    assert_eq!(m.attribute_count(), 2);
    assert!(m.get_attribute_by_name("color").is_none());
    let (_, calls) = recorded_setup(&mut m);
    assert_eq!(calls.iter().map(|p| (p.stride, p.offset)).collect::<Vec<_>>(), vec![(20, 0), (20, 12)]);
    m.remove_attribute_by_index(7);
    assert_eq!(m.attribute_count(), 2);
    m.remove_attribute_by_index(0);
    assert_eq!(m.attribute_count(), 1);
    assert_eq!(m.get_attribute_by_index(0).unwrap().name.as_deref(), Some("tex_coord"));
    assert!(m.get_attribute_by_index(1).is_none());
    let (_, calls) = recorded_setup(&mut m);
    assert_eq!((calls[0].stride, calls[0].offset), (8, 0));
}

#[test]
fn remove_by_name_removes_every_match() {
    let mut m = VertexLayoutManager::from_attributes(vec![
        attr(1, VertexDataType::Float, "a"),
        attr(2, VertexDataType::Float, "b"),
        attr(3, VertexDataType::Float, "a"),
        VertexAttribute::new(1, VertexDataType::Byte),
    ]);
    m.remove_attribute_by_name("a");
    assert_eq!(m.attribute_count(), 2);
    assert_eq!(m.get_attribute_by_index(0).unwrap().name.as_deref(), Some("b"));
    assert!(m.get_attribute_by_index(1).unwrap().name.is_none());
}

#[test]
fn add_or_replace_matches_names() {
    let mut m = VertexLayoutManager::empty();
    m.add_or_replace(attr(3, VertexDataType::Float, "position"));
    m.add_or_replace(attr(2, VertexDataType::Float, "uv"));
    m.add_or_replace(attr(2, VertexDataType::Float, "position"));
    assert_eq!(m.attribute_count(), 2);
    assert_eq!(m.get_attribute_by_name("position").unwrap().components, 2);
    m.add_or_replace(VertexAttribute::new(1, VertexDataType::Int));
    m.add_or_replace(VertexAttribute::new(4, VertexDataType::Int));
    assert_eq!(m.attribute_count(), 3);
    assert_eq!(m.get_attribute_by_index(2).unwrap().components, 4);
}

#[test]
fn clear_attributes_and_mutable_access() {
    let mut m = VertexLayoutManager::from_attributes(vec![attr(3, VertexDataType::Float, "position")]);
    if let Some(a) = m.get_attribute_by_name_mut("position") {
        a.components = 2;
    }
    assert_eq!(m.get_attribute_by_name("position").unwrap().components, 2);
    if let Some(a) = m.get_attribute_by_index_mut(0) {
        a.normalized = Some(true);
    }
    assert_eq!(m.get_attribute_by_index(0).unwrap().normalized, Some(true));
    assert!(m.get_attribute_by_index_mut(3).is_none());
    assert!(m.get_attribute_by_name_mut("missing").is_none());
    m.clear_attributes();
    assert_eq!(m.attribute_count(), 0);
    assert_eq!(m.attributes_len(), 0);
}

#[test]
fn finalize_refuses_bad_component_counts() {
    let mut ok = VertexLayoutManager::from_attributes(vec![attr(4, VertexDataType::Float, "c")]);
    assert!(ok.finalize_layout().is_ok());
    let mut zero = VertexLayoutManager::from_attributes(vec![attr(0, VertexDataType::Float, "c")]);
    assert!(matches!(zero.finalize_layout(), Err(VertexLayoutError::InvalidNumberOfComponents)));
    let mut five = VertexLayoutManager::from_attributes(vec![
        attr(1, VertexDataType::Float, "a"),
        attr(5, VertexDataType::Float, "b"),
    ]);
    assert!(matches!(five.finalize_layout(), Err(VertexLayoutError::InvalidNumberOfComponents)));
    let (r, calls) = recorded_setup(&mut five);
    assert!(matches!(r, Err(VertexLayoutError::InvalidNumberOfComponents)));
    assert!(calls.is_empty());
}

#[test]
fn setup_stops_at_the_first_gl_error() {
    let mut m = VertexLayoutManager::from_attributes(vec![
        attr(3, VertexDataType::Float, "a"),
        attr(3, VertexDataType::Float, "b"),
        attr(3, VertexDataType::Float, "c"),
    ]);
    let calls = RefCell::new(0);
    let r = m.setup_attributes(|p| {
        *calls.borrow_mut() += 1;
        if p.index == 1 { Err("GL_INVALID_VALUE".to_string()) } else { Ok(()) }
    });
    assert!(matches!(r, Err(VertexLayoutError::OpenGL(ref m)) if m == "GL_INVALID_VALUE"));
    assert_eq!(*calls.borrow(), 2);
}

#[test]
fn setup_for_shader_uses_attribute_locations() {
    let mut m = VertexLayoutManager::from_attributes(vec![
        attr(3, VertexDataType::Float, "position"),
        VertexAttribute::new(2, VertexDataType::Float),
    ]);
    let calls = RefCell::new(Vec::new());
    let r = m.setup_attributes_for_shader(
        7,
        |program, name| {
            assert_eq!(program, 7);
            if name == "position" { 5 } else { -1 }
        },
        |p| {
            calls.borrow_mut().push(p);
            Ok(())
        },
    );
    assert!(r.is_ok());
    let calls = calls.into_inner();
    assert_eq!(calls[0].index, 5);
    assert_eq!(calls[1].index, 1);
    assert_eq!(calls[1].offset, 12);
}

#[test]
fn setup_for_shader_errors() {
    let mut m = VertexLayoutManager::from_attributes(vec![attr(3, VertexDataType::Float, "normal")]);
    let r = m.setup_attributes_for_shader(0, |_, _| 0, |_| Ok(()));
    assert!(matches!(r, Err(VertexLayoutError::InvalidShaderId)));
    let r = m.setup_attributes_for_shader(3, |_, _| -1, |_| Ok(()));
    assert!(matches!(r, Err(VertexLayoutError::InvalidAttributeName(ref n)) if n == "normal"));
    let mut unnamed = VertexLayoutManager::from_attributes(vec![VertexAttribute::new(3, VertexDataType::Float)]);
    let r = unnamed.setup_attributes_for_shader(3, |_, _| 0, |_| Err("boom".to_string()));
    assert!(matches!(r, Err(VertexLayoutError::OpenGL(ref e)) if e == "boom"));
}

#[test]
fn named_layouts_create_update_delete() {
    let mut m = VertexLayoutManager::empty();
    assert!(!m.has_layouts());
    assert!(m.create_layout("basic", vec![attr(3, VertexDataType::Float, "p")]).is_ok());
    assert_eq!(
        m.create_layout("basic", vec![]).unwrap_err(),
        "A layout with the key 'basic' already exists."
    );
    assert!(m.has_layouts());
    assert_eq!(m.layout_count(), 1);
    assert!(m.create_or_update_layout("basic", vec![]));
    assert!(!m.create_or_update_layout("other", vec![]));
    assert_eq!(m.layout_count(), 2);
    assert!(m.delete_layout("basic").is_ok());
    assert_eq!(m.delete_layout("basic").unwrap_err(), "No layout found with the key 'basic'");
    m.clear_all_layouts();
    assert_eq!(m.layout_count(), 0);
}

#[test]
fn create_then_delete_restores_layouts() {
    let mut m = VertexLayoutManager::empty();
    m.create_layout("a", vec![]).unwrap();
    let before = m.layout_count();
    m.create_layout("b", vec![attr(2, VertexDataType::Float, "uv")]).unwrap();
    m.delete_layout("b").unwrap();
    assert_eq!(m.layout_count(), before);
    assert!(m.delete_layout("a").is_ok());
}

#[test]
fn activate_layouts() {
    let mut m = VertexLayoutManager::empty();
    m.create_layout("mesh", vec![attr(3, VertexDataType::Float, "p"), attr(2, VertexDataType::Float, "uv")])
        .unwrap();
    let calls = RefCell::new(Vec::new());
    assert!(m
        .activate_layout("mesh", |p| {
            calls.borrow_mut().push(p);
            Ok(())
        })
        .is_ok());
    assert_eq!(calls.borrow().iter().map(|p| (p.stride, p.offset)).collect::<Vec<_>>(), vec![(20, 0), (20, 12)]);
    assert!(matches!(
        m.activate_layout("missing", |_| Ok(())),
        Err(VertexLayoutError::InvalidLayoutName(ref n)) if n == "missing"
    ));
    assert!(m.force_activate_layout("mesh", |_| Ok(())).is_ok());
    assert!(matches!(
        m.force_activate_layout("nope", |_| Ok(())),
        Err(VertexLayoutError::InvalidLayoutName(_))
    ));
    m.reset_setup();
    assert_eq!(m.layout_count(), 1);
}

struct Textured;

impl Vertex for Textured {
    fn attributes() -> Vec<VertexAttribute> {
        vec![
            VertexAttribute::new(3, VertexDataType::Float).name(Some("position".to_string())),
            VertexAttribute::new(2, VertexDataType::Float).name(Some("uv".to_string())),
        ]
    }
}

#[test]
fn manager_from_vertex_type() {
    assert_eq!(Textured::layout_size(), 20);
    let mut m = VertexLayoutManager::new::<Textured>();
    assert_eq!(m.attribute_count(), 2);
    let (r, calls) = recorded_setup(&mut m);
    assert!(r.is_ok());
    assert_eq!(calls[1].offset, 12);
}

#[test]
fn adding_attributes_at_once_matches_adding_them_one_by_one() {
    let attrs = vec![
        attr(3, VertexDataType::Float, "position"),
        attr(4, VertexDataType::UnsignedByte, "color"),
        attr(2, VertexDataType::Float, "uv"),
    ];
    let mut at_once = VertexLayoutManager::empty();
    at_once.add_attribute(attr(1, VertexDataType::Int, "id"));
    at_once.add_attributes(&attrs);
    let mut one_by_one = VertexLayoutManager::empty();
    one_by_one.add_attribute(attr(1, VertexDataType::Int, "id"));
    for a in attrs.iter() {
        one_by_one.add_attribute(a.clone());
    }
    assert_eq!(at_once.attribute_count(), 4);
    let (_, calls_at_once) = recorded_setup(&mut at_once);
    let (_, calls_one_by_one) = recorded_setup(&mut one_by_one);
    assert_eq!(calls_at_once, calls_one_by_one);
    // stride 4 + 12 + 4 + 8, offsets are the sizes before each attribute
    assert_eq!(
        calls_at_once.iter().map(|p| (p.stride, p.offset)).collect::<Vec<_>>(),
        vec![(28, 0), (28, 4), (28, 16), (28, 20)]
    );
}

#[test]
fn calculate_layout_info_packs_tightly() {
    let mut m = VertexLayoutManager::from_attributes(vec![
        attr(2, VertexDataType::Float, "uv"),
        attr(1, VertexDataType::Double, "w"),
        attr(3, VertexDataType::Short, "n"),
    ]);
    m.calculate_layout_info();
    assert_eq!(m.attribute_count(), 3);
    let (_, calls) = recorded_setup(&mut m);
    // sizes 8, 8 and 6: stride 22, offsets 0, 8, 16
    assert_eq!(calls.iter().map(|p| (p.stride, p.offset)).collect::<Vec<_>>(), vec![(22, 0), (22, 8), (22, 16)]);
}
