use std::cell::Cell;

use shared_lib::gl_shader::{
    build_program, check_compile_errors, compile_status_query, shader_type_of_file, ProgramCalls, Shader,
    ShaderFactory, ShaderProgram, ShaderSource, StatusQuery, UniformMatrix,
    UniformValue,
};
use shared_lib::gl_shader_manager::ShaderManager;
use shared_lib::gl_types::ShaderType;
use shared_lib::opengl;
use shared_lib::research::shader_program as research;

struct Recorded<'a>(&'a Cell<i32>);

impl UniformValue for Recorded<'_> {
    fn set_uniform(&self, location: i32) {
        self.0.set(location);
    }
}

impl UniformMatrix for Recorded<'_> {
    fn set_uniform_matrix(&self, location: i32, transpose: bool) {
        self.0.set(if transpose { -location } else { location });
    }
}

#[test]
fn shader_accessors_and_delete() {
    let mut s = Shader::new(4, Some("a.vert".to_string()));
    assert_eq!(s.get_shader_id(), 4);
    assert_eq!(s.get_shader_file().map(|f| f.as_str()), Some("a.vert"));
    assert_eq!(s.delete(), Some(4));
    assert_eq!(s.delete(), None);
    assert!(Shader::new(1, None).get_shader_file().is_none());
}

#[test]
fn load_shaders_add_context() {
    let ok = Shader::load_vertex_shader("void main() {}", |_, t| {
        assert_eq!(t, ShaderType::Vertex);
        Ok(Shader::new(3, None))
    });
    assert_eq!(ok.unwrap().get_shader_id(), 3);
    let err = Shader::load_fragment_shader("bad", |_, t| {
        assert_eq!(t, ShaderType::Fragment);
        Err("syntax error".to_string())
    });
    assert_eq!(err.err().unwrap(), "Failed to load fragment shader: syntax error");
    let err = Shader::load_vertex_shader("bad", |_, _| Err("e".to_string()));
    assert_eq!(err.err().unwrap(), "Failed to load vertex shader: e");
    let o = opengl::shader::Shader::new(2, ShaderType::Geometry, None);
    assert_eq!(o.get_shader_id(), 2);
}

#[test]
fn program_shader_types_are_defined_once() {
    let mut p = ShaderProgram::new();
    assert_eq!(p.program_id(), 0);
    assert!(!p.is_type_defined(&ShaderType::Vertex));
    assert!(p.add_file(ShaderType::Vertex, "shader.vert").is_ok());
    assert!(p.is_type_defined(&ShaderType::Vertex));
    assert_eq!(p.add_file(ShaderType::Vertex, "other.vert").unwrap_err(), "ShaderType already defined: Vertex");
    assert_eq!(
        p.add_source(ShaderType::Vertex, b"void main() {}").unwrap_err(),
        "ShaderType already defined: Vertex"
    );
    assert!(p.add_source(ShaderType::Fragment, "void main() { /* ä */ }".as_bytes()).is_ok());
    assert_eq!(p.shader_sources()[0].1, "void main() { /* ä */ }");
    let err = p.add_source(ShaderType::Geometry, &[0xff, 0xfe]).unwrap_err();
    assert!(err.starts_with("Invalid UTF-8 sequence: "));
    assert_eq!(err, format!("Invalid UTF-8 sequence: {}", std::str::from_utf8(&[0xffu8, 0xfe]).unwrap_err()));
    assert!(!p.is_type_defined(&ShaderType::Geometry));
    assert_eq!(p.shader_files().len(), 1);
    p.set_program_id(11);
    assert_eq!(p.delete(), Some(11));
    assert_eq!(p.delete(), None);
}

#[test]
fn uniform_locations_are_cached() {
    let mut p = ShaderProgram::new();
    p.set_program_id(5);
    let queries = Cell::new(0);
    let lookup = |id: u32, name: &str| {
        assert_eq!(id, 5);
        queries.set(queries.get() + 1);
        if name == "model" { 3 } else { -1 }
    };
    assert_eq!(p.get_uniform_location("model", &lookup), Ok(3));
    assert_eq!(p.get_uniform_location("model", &lookup), Ok(3));
    assert_eq!(queries.get(), 1);
    assert_eq!(
        p.get_uniform_location("view", &lookup).unwrap_err(),
        "Uniform 'view' not found in shader program"
    );
    assert_eq!(queries.get(), 2);
    let target = Cell::new(0);
    assert!(p.set_uniform("model", Recorded(&target), &lookup).is_ok());
    assert_eq!(target.get(), 3);
    assert_eq!(queries.get(), 2);
    assert!(p.set_uniform("missing", Recorded(&target), &lookup).is_err());
    assert!(p.set_uniform_matrix("model", true, &Recorded(&target), &lookup).is_ok());
    assert_eq!(target.get(), -3);
    p.clear_uniform_locations();
    assert_eq!(p.get_uniform_location("model", &lookup), Ok(3));
    assert_eq!(queries.get(), 4);
}

#[test]
fn uniform_value_at_location() {
    let p = ShaderProgram::new();
    let target = Cell::new(0);
    assert_eq!(p.set_uniform_value(-1, Recorded(&target)).unwrap_err(), "Uniform location is invalid: -1");
    assert!(p.set_uniform_value(6, Recorded(&target)).is_ok());
    assert_eq!(target.get(), 6);
}

#[test]
fn shader_source_validity() {
    assert!(ShaderSource::from_source(ShaderType::Vertex, "void main() {}").is_valid().is_ok());
    assert_eq!(
        ShaderSource::from_source(ShaderType::Vertex, " \t\n\r ").is_valid().unwrap_err(),
        "Empty shader source is invalid"
    );
    assert!(ShaderSource::from_source(ShaderType::Vertex, "").is_valid().is_err());
    assert!(ShaderSource::from_source(ShaderType::Vertex, "\u{3000}\u{2028}\u{85}").is_valid().is_err());
    let f = ShaderSource::from_file(ShaderType::Fragment, "x.frag");
    assert!(f.is_file);
    assert_eq!(f.source, "x.frag");
    assert!(!ShaderSource::from_source(ShaderType::Fragment, "x").is_file);
}

#[test]
fn whitespace_matches_char_is_whitespace() {
    for v in 0u32..0x3100 {
        if let Some(c) = char::from_u32(v) {
            let s = c.to_string();
            assert_eq!(
                ShaderSource::from_source(ShaderType::Vertex, &s).is_valid().is_err(),
                c.is_whitespace(),
                "{:x}",
                v
            );
        }
    }
}

#[test]
fn compile_error_messages() {
    assert_eq!(compile_status_query("PROGRAM"), StatusQuery::ShaderCompileStatus);
    assert_eq!(compile_status_query("Vertex"), StatusQuery::ProgramLinkStatus);
    assert!(check_compile_errors("Vertex", 1, b"ignored").is_ok());
    assert_eq!(
        check_compile_errors("PROGRAM", 0, b"bad link").unwrap_err(),
        "ERROR::SHADER_COMPILATION_ERROR of type: PROGRAM\nbad link\n"
    );
    assert_eq!(
        check_compile_errors("Fragment", 0, &[0xff]).unwrap_err(),
        "ERROR::PROGRAM_LINKING_ERROR of type: Fragment\nFailed to read log\n"
    );
}

#[test]
fn shader_manager_compiles_once() {
    let mut m = ShaderManager::new();
    m.add_shader("basic".to_string(), "basic.vert".to_string());
    m.add_shader("basic".to_string(), "basic.frag".to_string());
    m.add_shader("text".to_string(), "text.vert".to_string());
    assert_eq!(m.shader_count(), 3);
    let mut keys = m.get_shader_keys();
    keys.sort();
    assert_eq!(keys, vec!["basic".to_string(), "text".to_string()]);
    assert!(m.get_shader_program_keys().is_empty());
    let compiles = Cell::new(0);
    let compile = |paths: &Vec<String>| {
        compiles.set(compiles.get() + 1);
        if paths.len() == 2 {
            let mut p = ShaderProgram::new();
            p.set_program_id(42);
            Ok(p)
        } else {
            Err("link failed".to_string())
        }
    };
    assert_eq!(m.get_shader("basic", &compile).unwrap().program_id(), 42);
    assert_eq!(m.get_shader("basic", &compile).unwrap().program_id(), 42);
    assert_eq!(compiles.get(), 1);
    assert_eq!(m.get_shader_program_keys(), vec!["basic".to_string()]);
    assert_eq!(m.get_shader("text", &compile).err().unwrap(), "link failed");
    assert_eq!(m.get_shader("none", &compile).err().unwrap(), "No shader found for key: none");
    m.get_shader_mut("basic", &compile).unwrap().set_program_id(43);
    assert_eq!(m.get_shader("basic", &compile).unwrap().program_id(), 43);
    assert_eq!(m.compile_shader("none", &compile).err().unwrap(), "No shader found for key: none");
    assert!(m.get_shader_mut("none", &compile).is_err());
}

#[test]
fn research_shader_program() {
    let mut p = research::ShaderProgram::new();
    assert_eq!(p.id, 0);
    assert!(p.with_file(research::ShaderType::Vertex, "a.vert").is_ok());
    assert_eq!(
        p.with_source(research::ShaderType::Vertex, "x").err().unwrap(),
        "ShaderType already defined: Vertex"
    );
    assert!(p.with_source(research::ShaderType::Fragment, "void main() {}").is_ok());
    assert!(p.is_type_defined(&research::ShaderType::Fragment));
    assert_eq!(p.shader_sources().len(), 1);
    assert_eq!(research::ShaderType::Fragment.to_string(), "Fragment");
    assert_eq!(research::ShaderType::Vertex.to_gl_enum(), gl::VERTEX_SHADER);
}

#[test]
fn shader_factory_builds_in_order() {
    let log = std::cell::RefCell::new(Vec::new());
    let compile = |src: &str, t: ShaderType| {
        log.borrow_mut().push(format!("compile {}", t.to_string()));
        if src.contains("error") { Err(format!("{} failed", t.to_string())) } else { Ok(Shader::new(if t == ShaderType::Vertex { 1 } else { 2 }, None)) }
    };
    let gl = recording_calls(&log, 0, true);
    let p = ShaderFactory::from_source("v", "f", &compile, &gl).ok().unwrap();
    // the program holds the program object that was created and linked
    assert_eq!(p.program_id(), 100);
    assert_eq!(
        log.borrow().clone(),
        vec![
            "compile Vertex",
            "compile Fragment",
            "create",
            "attach 100 1",
            "attach 100 2",
            "link 100",
            "detach 100 1",
            "detach 100 2",
            "delete 1",
            "delete 2"
        ]
    );
    log.borrow_mut().clear();
    assert_eq!(ShaderFactory::from_source("error", "f", &compile, &gl).err().unwrap(), "Vertex failed");
    assert_eq!(log.borrow().clone(), vec!["compile Vertex"]);
    log.borrow_mut().clear();
    assert_eq!(ShaderFactory::from_files("v", "error", &compile, &gl).err().unwrap(), "Fragment failed");
    assert_eq!(log.borrow().clone(), vec!["compile Vertex", "compile Fragment", "delete 1"]);
    log.borrow_mut().clear();
    let failing_link = recording_calls(&log, 0, false);
    assert_eq!(ShaderFactory::from_files("v", "f", &compile, &failing_link).err().unwrap(), "link failed");
    assert_eq!(log.borrow().last().unwrap(), "delete 2");
}

#[test]
fn shader_types_from_file_extensions() {
    assert_eq!(shader_type_of_file("basic.vert"), Some(ShaderType::Vertex));
    assert_eq!(shader_type_of_file("dir.v1/basic.frag"), Some(ShaderType::Fragment));
    assert_eq!(shader_type_of_file("a.b.geom"), Some(ShaderType::Geometry));
    assert_eq!(shader_type_of_file("x.comp"), Some(ShaderType::Compute));
    assert_eq!(shader_type_of_file("basic.glsl"), None);
    assert_eq!(shader_type_of_file("vert"), None);
    assert_eq!(shader_type_of_file("basic.vert.bak"), None);
    assert_eq!(shader_type_of_file("basic.verts"), None);
}

fn recording_calls(
    log: &std::cell::RefCell<Vec<String>>,
    fail_attach: u32,
    link_ok: bool,
) -> ProgramCalls<
    impl Fn() -> u32 + '_,
    impl Fn(u32, u32) -> Result<(), String> + '_,
    impl Fn(u32) -> Result<(), String> + '_,
    impl Fn(u32, u32) + '_,
    impl Fn(u32) + '_,
> {
    ProgramCalls {
        create: move || {
            log.borrow_mut().push("create".to_string());
            100
        },
        attach: move |p: u32, s: u32| {
            log.borrow_mut().push(format!("attach {} {}", p, s));
            if s == fail_attach { Err(format!("attach {} failed", s)) } else { Ok(()) }
        },
        link: move |p: u32| {
            log.borrow_mut().push(format!("link {}", p));
            if link_ok { Ok(()) } else { Err("link failed".to_string()) }
        },
        detach: move |p: u32, s: u32| log.borrow_mut().push(format!("detach {} {}", p, s)),
        delete: move |s: u32| log.borrow_mut().push(format!("delete {}", s)),
    }
}

#[test]
fn program_from_files_attaches_links_and_releases() {
    let log = std::cell::RefCell::new(Vec::new());
    let gl = recording_calls(&log, 0, true);
    let load = |f: &str, t: ShaderType| {
        if f.starts_with("missing") {
            Err("no such file".to_string())
        } else {
            Ok(Shader::new(if t == ShaderType::Vertex { 1 } else { 2 }, Some(f.to_string())))
        }
    };
    let p = ShaderProgram::from_files(&["a.vert", "b.frag"], &gl, &load).ok().unwrap();
    assert_eq!(p.program_id(), 0);
    assert_eq!(
        log.borrow().clone(),
        vec!["create", "attach 100 1", "attach 100 2", "link 100", "detach 100 1", "delete 1", "detach 100 2", "delete 2"]
    );
    assert_eq!(
        ShaderProgram::from_files(&["a.vert", "b.txt"], &gl, &load).err().unwrap(),
        "Unknown shader type: b.txt"
    );
    assert_eq!(
        ShaderProgram::from_files(&["missing.vert"], &gl, &load).err().unwrap(),
        "Failed loading shader: missing.vert"
    );
    let failing = recording_calls(&log, 2, true);
    assert_eq!(ShaderProgram::from_files(&["a.vert", "b.frag"], &failing, &load).err().unwrap(), "attach 2 failed");
    let no_link = recording_calls(&log, 0, false);
    assert_eq!(ShaderProgram::from_files(&["a.vert"], &no_link, &load).err().unwrap(), "link failed");
}

#[test]
fn new_dumb_links_two_shaders() {
    let log = std::cell::RefCell::new(Vec::new());
    let gl = recording_calls(&log, 0, true);
    let mut v = Shader::new(5, None);
    let mut f = Shader::new(6, None);
    let p = ShaderProgram::new_dumb(&mut v, &mut f, &gl).ok().unwrap();
    assert_eq!(p.program_id(), 100);
    assert_eq!(v.get_shader_id(), 0);
    assert_eq!(f.get_shader_id(), 0);
    assert_eq!(
        log.borrow().clone(),
        vec!["create", "attach 100 5", "attach 100 6", "link 100", "detach 100 5", "detach 100 6", "delete 5", "delete 6"]
    );
    let no_link = recording_calls(&log, 0, false);
    let mut v = Shader::new(5, None);
    let mut f = Shader::new(6, None);
    assert_eq!(ShaderProgram::new_dumb(&mut v, &mut f, &no_link).err().unwrap(), "link failed");
    assert_eq!(v.get_shader_id(), 5);
    assert_eq!(f.get_shader_id(), 6);
}

#[test]
fn program_compile_reads_compiles_and_links() {
    let log = std::cell::RefCell::new(Vec::new());
    let gl = recording_calls(&log, 0, true);
    let read = |f: &String| if f == "missing.frag" { Err("io error".to_string()) } else { Ok(format!("text of {}", f)) };
    let compile = |text: &String, t: ShaderType| {
        log.borrow_mut().push(format!("compile {} {}", t.to_string(), text));
        if text.contains("bad") { Err("bad shader".to_string()) } else { Ok(if t == ShaderType::Vertex { 7 } else { 8 }) }
    };
    let mut p = ShaderProgram::new();
    p.add_file(ShaderType::Fragment, "main.frag").unwrap();
    p.add_source(ShaderType::Vertex, b"void main() {}").unwrap();
    assert!(p.compile(&read, &compile, &gl).is_ok());
    assert_eq!(p.program_id(), 100);
    assert_eq!(
        log.borrow().clone(),
        vec![
            "create",
            "compile Fragment text of main.frag",
            "attach 100 8",
            "compile Vertex void main() {}",
            "attach 100 7",
            "link 100",
            "delete 8",
            "delete 7"
        ]
    );

    let mut q = ShaderProgram::new();
    q.add_file(ShaderType::Fragment, "missing.frag").unwrap();
    assert_eq!(q.compile(&read, &compile, &gl).err().unwrap(), "io error");
    assert_eq!(q.program_id(), 0);

    let mut r = ShaderProgram::new();
    r.add_source(ShaderType::Vertex, b"bad").unwrap();
    assert_eq!(r.compile(&read, &compile, &gl).err().unwrap(), "bad shader");
    assert_eq!(r.program_id(), 0);

    let no_link = recording_calls(&log, 0, false);
    let mut t = ShaderProgram::new();
    t.add_source(ShaderType::Vertex, b"ok").unwrap();
    assert_eq!(t.compile(&read, &compile, &no_link).err().unwrap(), "link failed");
    assert_eq!(t.program_id(), 0);
}

#[test]
fn build_program_answers_the_linked_program() {
    let log = std::cell::RefCell::new(Vec::new());
    let gl = recording_calls(&log, 0, true);
    let read = |f: &String| Ok(f.clone());
    let compile = |_: &String, t: ShaderType| Ok(if t == ShaderType::Vertex { 1 } else { 2 });
    let files = vec![(ShaderType::Vertex, "v".to_string())];
    let sources = vec![(ShaderType::Fragment, "f".to_string())];
    assert_eq!(build_program(&files, &sources, &read, &compile, &gl).ok().unwrap(), 100);
}

#[test]
fn research_program_compiles() {
    let log = std::cell::RefCell::new(Vec::new());
    let gl = recording_calls(&log, 0, true);
    let read = |f: &String| Ok(f.clone());
    let compile = |_: &String, t: research::ShaderType| Ok(if t == research::ShaderType::Vertex { 1 } else { 2 });
    let mut p = research::ShaderProgram::new();
    p.with_source(research::ShaderType::Vertex, "v").unwrap();
    p.with_file(research::ShaderType::Fragment, "f.frag").unwrap();
    let id = p.compile(&read, &compile, &gl).ok().unwrap().id;
    assert_eq!(id, 100);
    assert_eq!(p.id, 100);
    let failing = |_: &String, _: research::ShaderType| Err::<u32, String>("broken".to_string());
    let mut q = research::ShaderProgram::new();
    q.with_source(research::ShaderType::Vertex, "v").unwrap();
    assert_eq!(q.compile(&read, &failing, &gl).err().unwrap(), "broken");
    assert_eq!(q.id, 0);
}

#[test]
fn uniform_names_in_index_order() {
    let mut p = ShaderProgram::new();
    p.set_program_id(9);
    let count = |id: u32| if id == 9 { 3 } else { 0 };
    let names = |_: u32, i: u32| match i {
        0 => b"projection".to_vec(),
        1 => vec![b'c', 0xff],
        _ => b"model".to_vec(),
    };
    assert_eq!(
        p.get_all_uniform_names(&count, &names).ok().unwrap(),
        vec!["projection".to_string(), "c\u{FFFD}".to_string(), "model".to_string()]
    );
    let missing = |_: u32, i: u32| if i == 1 { Vec::new() } else { b"x".to_vec() };
    assert_eq!(
        p.get_all_uniform_names(&count, &missing).err().unwrap(),
        "Failed to retrieve the name for uniform at index 1"
    );
    let none = |_: u32| -2;
    assert!(p.get_all_uniform_names(&none, &names).ok().unwrap().is_empty());
}
