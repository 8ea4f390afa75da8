use std::cell::{Cell, RefCell};

use shared_lib::gl_texture::{texture_format, texture_pixels, MultiTexture, Texture, TextureBuilder, TextureRequest};
use shared_lib::gl_types::TextureTarget;
use shared_lib::opengl::texture::{Texture as OwnedTexture, ERR_CLONE_NON_CLONEABLE, ERR_DELETE_NON_OWNER};
use shared_lib::opengl::texture_builder::TextureBuilder as OwnedTextureBuilder;
use shared_lib::opengl::texture_manager::{TextureDescriptor, TextureError, TextureFlags, TextureManager};

fn texture(id: u32, uniform: &str) -> Texture {
    Texture::new(id, "img.png", true, false, true, 64, 32, uniform, TextureTarget::Texture2D)
}

fn created(q: &TextureRequest) -> Result<OwnedTexture, String> {
    if q.path.ends_with(".png") {
        Ok(OwnedTexture::new(
            7,
            &q.path,
            q.has_alpha,
            q.flip_horizontal,
            q.flip_vertical,
            16,
            16,
            &q.uniform_name,
            q.texture_target,
        ))
    } else {
        Err("unsupported image".to_string())
    }
}

#[test]
fn texture_accessors() {
    let mut t = texture(3, "diffuse");
    assert_eq!(t.get_texture_id(), 3);
    assert_eq!(t.path(), "img.png");
    assert!(t.has_alpha());
    assert!(!t.flipped_horizontal());
    assert!(t.flipped_vertical());
    assert_eq!((t.width(), t.height()), (64, 32));
    assert_eq!(t.uniform_name().as_deref(), Some("diffuse"));
    assert!(texture(1, "").uniform_name().is_none());
    assert_eq!(t.delete(), Some(3));
    assert_eq!(t.delete(), None);
    assert_eq!(texture_format(true), gl::RGBA);
    assert_eq!(texture_format(false), gl::RGB);
}

#[test]
fn texture_builder_requests() {
    let none = TextureBuilder::default().has_alpha(true);
    assert!(none.request().is_none());
    assert_eq!(none.build(|_| Ok(texture(1, ""))).err().unwrap(), "No path specified");
    let b = TextureBuilder::default()
        .path("wall.png".to_string())
        .flip_horizontal(true)
        .flip_vertical(true)
        .with_uniform_name("wall")
        .with_texture_target(TextureTarget::Texture3D);
    let q = b.request().unwrap();
    assert_eq!(q.path, "wall.png");
    assert!(!q.has_alpha && q.flip_horizontal && q.flip_vertical);
    assert_eq!(q.uniform_name, "wall");
    assert_eq!(q.texture_target, TextureTarget::Texture3D);
    let d = TextureBuilder::default().path("p".to_string()).request().unwrap();
    assert_eq!(d.uniform_name, "");
    assert_eq!(d.texture_target, TextureTarget::Texture2D);
    let built = b.build(|q| Ok(Texture::new(2, &q.path, q.has_alpha, q.flip_horizontal, q.flip_vertical, 1, 1, &q.uniform_name, q.texture_target)));
    assert_eq!(built.unwrap().uniform_name().as_deref(), Some("wall"));
}

#[test]
fn multi_texture_binds_named_textures_to_their_units() {
    let mut m = MultiTexture::new();
    m.add_texture(texture(10, "first"));
    m.add_texture(texture(11, ""));
    m.add_texture(texture(12, "third"));
    let bound = RefCell::new(Vec::new());
    let r = m.bind_textures(|t: &Texture, unit: i32, name: &String| {
        bound.borrow_mut().push((t.get_texture_id(), unit, name.clone()));
        Ok(())
    });
    assert!(r.is_ok());
    assert_eq!(bound.into_inner(), vec![(10, 0, "first".to_string()), (12, 2, "third".to_string())]);
    let r = m.bind_textures(|_: &Texture, unit: i32, _: &String| if unit == 0 { Err("no uniform".to_string()) } else { Ok(()) });
    assert_eq!(r.unwrap_err(), "no uniform");
    m.clear();
    assert!(m.bind_textures(|_: &Texture, _: i32, _: &String| Err("x".to_string())).is_ok());
}

#[test]
fn owned_texture_clone_and_delete() {
    let mut t = OwnedTexture::new(5, "a.png", false, false, false, 2, 2, "u", TextureTarget::TextureCubeMap);
    assert_eq!(t.texture_type(), TextureTarget::TextureCubeMap);
    let mut c = t.clone_as_non_owner().unwrap();
    assert_eq!(c.get_texture_id(), 5);
    assert_eq!(c.uniform_name().as_deref(), Some("u"));
    assert_eq!(c.clone_as_non_owner().err().unwrap(), ERR_CLONE_NON_CLONEABLE);
    assert_eq!(c.delete().unwrap_err(), ERR_DELETE_NON_OWNER);
    assert_eq!(c.get_texture_id(), 5);
    assert_eq!(t.delete(), Ok(Some(5)));
    assert_eq!(t.delete(), Ok(None));
    let b = OwnedTextureBuilder::default().path("b.png".to_string()).has_alpha(true);
    assert!(b.build(created).unwrap().has_alpha());
}

#[test]
fn texture_manager_paths_and_errors() {
    let mut m = TextureManager::new();
    let s = m.add_path("missing", "/definitely/not/here.png");
    assert!(!s.success());
    assert!(matches!(s.error(), Some(TextureError::FileNotFound)));
    assert!(m.has_error("missing"));
    assert_eq!(m.texture_error("missing").unwrap().to_string(), "File has not been found");
    m.clear_error("missing");
    assert!(!m.has_error("missing"));
    assert!(m.add_path("root", "/").success());
    assert!(m.add_or_update_path("root", "/").success());
    assert!(!m.add_or_update_path("root", "/definitely/not/here.png").success());
    assert!(m.has_error("root"));
    let s = m.register_path("wall", "wall.png", true, true);
    assert!(s.success() && s.error().is_none());
    let s = m.register_path("gone", "gone.png", false, false);
    assert!(matches!(s.error(), Some(TextureError::FileNotFound)));
}

#[test]
fn texture_manager_flags() {
    let mut m = TextureManager::new();
    assert!(m.get_texture_flags("a").is_none());
    m.add_texture_flags("a", TextureFlags { has_alpha: true, flip_vertically: true });
    assert_eq!(m.get_texture_flags("a"), Some(&TextureFlags { has_alpha: true, flip_vertically: true }));
    m.clear_texture_flags("a");
    assert!(m.get_texture_flags("a").is_none());
    assert_eq!(TextureFlags::default(), TextureFlags { has_alpha: false, flip_vertically: false });
    let d = TextureDescriptor::default();
    assert!(d.path.is_empty() && !d.flip_vertically && !d.flip_horizontally);
}

#[test]
fn texture_manager_creates_textures_once() {
    let mut m = TextureManager::new();
    m.register_path("wall", "wall.png", true, true);
    m.add_texture_flags("wall", TextureFlags { has_alpha: true, flip_vertically: true });
    let creations = Cell::new(0);
    let create = |q: &TextureRequest| {
        creations.set(creations.get() + 1);
        assert_eq!(q.has_alpha && q.flip_vertical, q.path == "wall.png");
        assert!(!q.flip_horizontal);
        assert_eq!(q.uniform_name, "");
        assert_eq!(q.texture_target, TextureTarget::Texture2D);
        created(q)
    };
    let t = m.get_texture("wall", &create).ok().unwrap();
    assert_eq!(t.get_texture_id(), 7);
    assert_eq!(t.path(), "wall.png");
    let t2 = m.get_texture("wall", &create).ok().unwrap();
    assert_eq!(t2.get_texture_id(), 7);
    assert_eq!(creations.get(), 1);
    assert!(matches!(
        m.get_texture("nothing", &create),
        Err(TextureError::KeyNotExisting { ref key_name }) if key_name == "nothing"
    ));
    let s = m.add_path("wall", "/");
    assert!(matches!(s.error(), Some(TextureError::KeyExists { key_name }) if key_name == "wall"));
    m.register_path("doc", "doc.txt", true, true);
    let e = m.get_texture("doc", &create).err().unwrap();
    assert_eq!(e.to_string(), "Failed to create texture: unsupported image");
}

#[test]
fn texture_manager_get_textures_reports_every_name() {
    let mut m = TextureManager::new();
    m.register_path("wall", "wall.png", true, true);
    let results = m.get_textures(&["wall", "floor"], created).ok().unwrap();
    assert_eq!(results.len(), 2);
    assert_eq!(results[0].name(), "wall");
    assert!(results[0].is_success() && !results[0].is_failure());
    assert!(results[0].error().is_none());
    let t = results[0].texture().as_ref().unwrap();
    assert_eq!(t.get_texture_id(), 7);
    assert_eq!(t.path(), "wall.png");
    assert_eq!(results[1].name(), "floor");
    assert!(results[1].is_failure() && results[1].texture().is_none());
    assert!(matches!(results[1].error(), Some(TextureError::KeyNotExisting { .. })));
}

#[test]
fn texture_error_messages() {
    assert_eq!(
        TextureError::KeyExists { key_name: "k".to_string() }.to_string(),
        "A texture with that key exists already: k"
    );
    assert_eq!(TextureError::KeyNotExisting { key_name: "k".to_string() }.to_string(), "No key with the name found: k");
    assert_eq!(TextureError::FindFailed.to_string(), "Failed to find a previously created texture");
    assert_eq!(
        TextureError::CloneFailure { message: "m".to_string() }.clone().to_string(),
        "Failed to clone a texture: m"
    );
}

#[test]
fn texture_manager_refuses_a_registered_name() {
    let mut m = TextureManager::new();
    assert!(m.add_path("root", "/").success());
    let s = m.add_path("root", "/");
    assert!(!s.success());
    assert!(matches!(s.error(), Some(TextureError::KeyExists { key_name }) if key_name == "root"));
    assert!(m.register_path("wall", "wall.png", true, true).success());
    let s = m.register_path("wall", "other.png", true, true);
    assert!(matches!(s.error(), Some(TextureError::KeyExists { key_name }) if key_name == "wall"));
    let t = m.get_texture("wall", &created).ok().unwrap();
    assert_eq!(t.path(), "wall.png");
}

#[test]
fn texture_manager_get_textures_on_empty_manager() {
    let mut m = TextureManager::new();
    let results = m.get_textures(&["texture1", "texture2"], created).ok().unwrap();
    assert_eq!(results.len(), 2);
    assert_eq!(results[0].name(), "texture1");
    assert_eq!(results[1].name(), "texture2");
    for (r, name) in results.iter().zip(["texture1", "texture2"]) {
        assert!(r.is_failure());
        assert!(r.texture().is_none());
        assert!(matches!(r.error(), Some(TextureError::KeyNotExisting { key_name }) if key_name == name));
    }
}

#[test]
fn texture_pixels_flip() {
    // a 2x2 RGB image: pixel values 1..4 in row order
    let img: Vec<u8> = vec![1, 1, 1, 2, 2, 2, 3, 3, 3, 4, 4, 4];
    assert_eq!(texture_pixels(img.clone(), 2, 2, false, false, false), img);
    assert_eq!(texture_pixels(img.clone(), 2, 2, false, true, false), vec![2, 2, 2, 1, 1, 1, 4, 4, 4, 3, 3, 3]);
    assert_eq!(texture_pixels(img.clone(), 2, 2, false, false, true), vec![3, 3, 3, 4, 4, 4, 1, 1, 1, 2, 2, 2]);
    assert_eq!(texture_pixels(img, 2, 2, false, true, true), vec![4, 4, 4, 3, 3, 3, 2, 2, 2, 1, 1, 1]);
    // RGBA, one row of three pixels, mirrored left to right
    let row: Vec<u8> = vec![1, 2, 3, 4, 5, 6, 7, 8, 9, 10, 11, 12];
    assert_eq!(texture_pixels(row, 3, 1, true, true, true), vec![9, 10, 11, 12, 5, 6, 7, 8, 1, 2, 3, 4]);
    assert!(texture_pixels(Vec::new(), 0, 5, true, true, false).is_empty());
}
