use std::cell::RefCell;
use std::rc::Rc;

use shared_lib::camera::{zoom_change, CameraError};
use shared_lib::component::Material;
use shared_lib::geometry::buffer_geometry::BufferGeometry;
use shared_lib::gl_vertex_attribute::VertexLayoutManager;
use shared_lib::input::mouse_adapter::MouseButton;
use shared_lib::mesh::{check_vertex_count, MeshError};
use shared_lib::meshes::basic_mesh::{BasicMesh, DrawCall};
use shared_lib::opengl::vertex_attribute::VertexAttribute;
use shared_lib::opengl::vertex_layout::VertexLayout;
use shared_lib::operation_status::OperationStatus;
use shared_lib::projection::ProjectionType;
use shared_lib::serialization::vertex_attribute::write_vertex_layout;
use shared_lib::str_map::StrMap;
use shared_lib::sys_event::{EventHandler, EventManager, SystemEvent};

#[test]
fn operation_status_constructors() {
    let ok: OperationStatus<String> = OperationStatus::new_success();
    assert!(ok.success() && ok.error().is_none());
    let err = OperationStatus::new_error("bad".to_string());
    assert!(!err.success());
    assert_eq!(err.error().map(|e| e.as_str()), Some("bad"));
    let custom = OperationStatus::new(true, Some(3));
    assert!(custom.success() && custom.error() == Some(&3));
}

#[test]
fn str_map_insert_get_remove() {
    let mut m: StrMap<i32> = StrMap::new();
    assert!(m.is_empty());
    assert_eq!(m.insert("a".to_string(), 1), None);
    assert_eq!(m.insert("b".to_string(), 2), None);
    assert_eq!(m.insert("a".to_string(), 3), Some(1));
    assert_eq!(m.len(), 2);
    assert_eq!(m.get("a"), Some(&3));
    assert!(m.contains_key("b"));
    if let Some(v) = m.get_mut("b") {
        *v = 20;
    }
    assert_eq!(m.get("b"), Some(&20));
    assert_eq!(m.remove("b"), Some(20));
    assert_eq!(m.remove("b"), None);
    assert_eq!(m.keys(), vec!["a".to_string()]);
    m.clear();
    assert_eq!(m.len(), 0);
}

#[test]
fn mouse_button_variants() {
    assert_eq!(MouseButton::variants(), vec![MouseButton::Left, MouseButton::Middle, MouseButton::Right]);
}

struct Recorder {
    id: String,
    seen: Rc<RefCell<Vec<String>>>,
}

impl EventHandler for Recorder {
    fn handle_event(&self, event: &SystemEvent) {
        let what = match event {
            SystemEvent::KeyPressed { key_code } => format!("{}:key{}", self.id, key_code),
            SystemEvent::AppQuit => format!("{}:quit", self.id),
        };
        self.seen.borrow_mut().push(what);
    }

    fn get_id(&self) -> String {
        self.id.clone()
    }
}

#[test]
fn events_reach_every_handler() {
    let seen = Rc::new(RefCell::new(Vec::new()));
    let mut m = EventManager::new();
    m.add_handler(Box::new(Recorder { id: "a".to_string(), seen: seen.clone() }));
    m.add_handler(Box::new(Recorder { id: "b".to_string(), seen: seen.clone() }));
    m.add_handler(Box::new(Recorder { id: "a".to_string(), seen: seen.clone() }));
    assert_eq!(m.handler_count(), 2);
    m.broadcast(&SystemEvent::KeyPressed { key_code: 4 });
    let mut got = seen.borrow().clone();
    got.sort();
    assert_eq!(got, vec!["a:key4".to_string(), "b:key4".to_string()]);
    m.remove_handler("a");
    m.remove_handler("zzz");
    assert_eq!(m.handler_count(), 1);
    m.broadcast(&SystemEvent::AppQuit);
    assert_eq!(seen.borrow().last().unwrap(), "b:quit");
}

#[test]
fn basic_mesh_draw_calls() {
    let mut mesh = BasicMesh::new(1, 2, 6);
    assert!(!mesh.has_indices());
    assert_eq!(mesh.draw_call(), DrawCall::Arrays { count: 6 });
    assert_eq!(mesh.index_buffer(), 0);
    assert_eq!(mesh.vertex_array(), 1);
    assert_eq!(mesh.vertex_buffer(), 2);
    mesh.add_indices(3, vec![0, 1, 2, 2, 3, 0, 4, 5, 1]);
    assert!(mesh.has_indices());
    assert_eq!(mesh.index_buffer(), 3);
    assert_eq!(mesh.draw_call(), DrawCall::Elements { count: 9 });
    mesh.clear_indices();
    assert_eq!(mesh.draw_call(), DrawCall::Arrays { count: 6 });
}

struct P;

impl VertexLayout for P {
    fn attributes() -> Vec<VertexAttribute> {
        vec![]
    }
}

#[test]
fn small_types() {
    let g: BufferGeometry<P> = BufferGeometry::new(vec![P, P], Some(vec![0, 1]));
    g.render();
    assert_eq!(CameraError::NotPerspectiveCamera.to_string(), "Source is not a PerspectiveCamera");
    assert_eq!(CameraError::NotOrthographicCamera.to_string(), "Source is not a OrthographicCamera");
    assert_eq!(CameraError::UnknownCameraType.to_string(), "Unknown camera type");
    assert_eq!(
        MeshError::InvalidVertexCount.to_string(),
        "Invalid number of mesh vertices; must be divisible by three."
    );
    let m = Material { shader_name: "s".to_string(), texture_name: "t".to_string() };
    assert_eq!((m.shader_name.as_str(), m.texture_name.as_str()), ("s", "t"));
    assert_ne!(ProjectionType::Perspective, ProjectionType::Orthographic);
    assert!(write_vertex_layout(&VertexLayoutManager::empty(), "layout.xml").is_ok());
}

#[test]
fn zoom_changes() {
    assert_eq!(zoom_change(1, 1), None);
    assert_eq!(zoom_change(1, 3), Some(3));
    assert_eq!(zoom_change(2, 0), Some(1));
    assert_eq!(zoom_change(2, -5), Some(1));
    assert_eq!(zoom_change(1, 0), None);
    assert_eq!(zoom_change(1, -3), None);
    assert_eq!(zoom_change(-5, -5), Some(1));
    assert_eq!(zoom_change(3, 3), None);
}

#[test]
fn mesh_vertex_counts() {
    assert!(check_vertex_count(0).is_ok());
    assert!(check_vertex_count(9).is_ok());
    assert_eq!(check_vertex_count(4), Err(MeshError::InvalidVertexCount));
}
