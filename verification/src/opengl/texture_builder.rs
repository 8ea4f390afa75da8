//! A builder collecting the settings of a texture to load.
use vstd::prelude::*;
use crate::gl_types::TextureTarget;
use crate::gl_texture::{opt_view, TextureRequest};
use crate::opengl::texture::Texture;

verus! {

/// Collects the settings of a texture to load.
pub struct TextureBuilder {
    path: Option<String>,
    has_alpha: bool,
    flip_horizontal: bool,
    flip_vertical: bool,
    uniform_name: Option<String>,
    texture_target: Option<TextureTarget>,
}

impl Default for TextureBuilder {
    fn default() -> (r: Self)
        ensures
            r.spec_path() is None,
            !r.spec_has_alpha(),
            !r.spec_flip_horizontal(),
            !r.spec_flip_vertical(),
            r.spec_uniform_name() is None,
            r.spec_texture_target() is None,
    {
        TextureBuilder {
            path: None,
            has_alpha: false,
            flip_horizontal: false,
            flip_vertical: false,
            uniform_name: None,
            texture_target: None,
        }
    }
}

impl TextureBuilder {
    pub closed spec fn spec_path(&self) -> Option<Seq<char>> {
        opt_view(self.path)
    }

    pub closed spec fn spec_has_alpha(&self) -> bool {
        self.has_alpha
    }

    pub closed spec fn spec_flip_horizontal(&self) -> bool {
        self.flip_horizontal
    }

    pub closed spec fn spec_flip_vertical(&self) -> bool {
        self.flip_vertical
    }

    pub closed spec fn spec_uniform_name(&self) -> Option<Seq<char>> {
        opt_view(self.uniform_name)
    }

    pub closed spec fn spec_texture_target(&self) -> Option<TextureTarget> {
        self.texture_target
    }

    /// The other settings are the same in `a` and `b`.
    pub open spec fn same_but_path(a: Self, b: Self) -> bool {
        &&& a.spec_has_alpha() == b.spec_has_alpha()
        &&& a.spec_flip_horizontal() == b.spec_flip_horizontal()
        &&& a.spec_flip_vertical() == b.spec_flip_vertical()
        &&& a.spec_uniform_name() == b.spec_uniform_name()
        &&& a.spec_texture_target() == b.spec_texture_target()
    }

    pub fn path(self, path: String) -> (r: Self)
        ensures
            r.spec_path() == Some(path@),
            Self::same_but_path(r, self),
    {
        TextureBuilder { path: Some(path), ..self }
    }

    pub fn has_alpha(self, value: bool) -> (r: Self)
        ensures
            r.spec_has_alpha() == value,
            r.spec_path() == self.spec_path(),
            r.spec_flip_horizontal() == self.spec_flip_horizontal(),
            r.spec_flip_vertical() == self.spec_flip_vertical(),
            r.spec_uniform_name() == self.spec_uniform_name(),
            r.spec_texture_target() == self.spec_texture_target(),
    {
        TextureBuilder { has_alpha: value, ..self }
    }

    pub fn flip_horizontal(self, value: bool) -> (r: Self)
        ensures
            r.spec_flip_horizontal() == value,
            r.spec_path() == self.spec_path(),
            r.spec_has_alpha() == self.spec_has_alpha(),
            r.spec_flip_vertical() == self.spec_flip_vertical(),
            r.spec_uniform_name() == self.spec_uniform_name(),
            r.spec_texture_target() == self.spec_texture_target(),
    {
        TextureBuilder { flip_horizontal: value, ..self }
    }

    pub fn flip_vertical(self, value: bool) -> (r: Self)
        ensures
            r.spec_flip_vertical() == value,
            r.spec_path() == self.spec_path(),
            r.spec_has_alpha() == self.spec_has_alpha(),
            r.spec_flip_horizontal() == self.spec_flip_horizontal(),
            r.spec_uniform_name() == self.spec_uniform_name(),
            r.spec_texture_target() == self.spec_texture_target(),
    {
        TextureBuilder { flip_vertical: value, ..self }
    }

    pub fn with_uniform_name(self, uniform_name: &str) -> (r: Self)
        ensures
            r.spec_uniform_name() == Some(uniform_name@),
            r.spec_path() == self.spec_path(),
            r.spec_has_alpha() == self.spec_has_alpha(),
            r.spec_flip_horizontal() == self.spec_flip_horizontal(),
            r.spec_flip_vertical() == self.spec_flip_vertical(),
            r.spec_texture_target() == self.spec_texture_target(),
    {
        TextureBuilder { uniform_name: Some(uniform_name.to_owned()), ..self }
    }

    pub fn with_texture_target(self, texture_target: TextureTarget) -> (r: Self)
        ensures
            r.spec_texture_target() == Some(texture_target),
            r.spec_path() == self.spec_path(),
            r.spec_has_alpha() == self.spec_has_alpha(),
            r.spec_flip_horizontal() == self.spec_flip_horizontal(),
            r.spec_flip_vertical() == self.spec_flip_vertical(),
            r.spec_uniform_name() == self.spec_uniform_name(),
    {
        TextureBuilder { texture_target: Some(texture_target), ..self }
    }

    /// The request the settings make, when a path was given: the uniform
    /// name defaults to the empty text and the target to `Texture2D`.
    pub open spec fn request_matches(&self, q: TextureRequest) -> bool {
        &&& self.spec_path() == Some(q.path@)
        &&& q.has_alpha == self.spec_has_alpha()
        &&& q.flip_horizontal == self.spec_flip_horizontal()
        &&& q.flip_vertical == self.spec_flip_vertical()
        &&& q.uniform_name@ == match self.spec_uniform_name() {
            Some(n) => n,
            None => Seq::<char>::empty(),
        }
        &&& q.texture_target == match self.spec_texture_target() {
            Some(t) => t,
            None => TextureTarget::Texture2D,
        }
    }

    /// The request the settings make; `None` without a path.
    pub fn request(&self) -> (r: Option<TextureRequest>)
        ensures
            self.spec_path() is None <==> r is None,
            r matches Some(q) ==> self.request_matches(q),
    {
        let path = match &self.path {
            Some(p) => p.clone(),
            None => {
                return None;
            },
        };
        let uniform_name = match &self.uniform_name {
            Some(n) => n.clone(),
            None => String::new(),
        };
        let texture_target = match self.texture_target {
            Some(t) => t,
            None => TextureTarget::Texture2D,
        };
        Some(
            TextureRequest {
                path,
                has_alpha: self.has_alpha,
                flip_horizontal: self.flip_horizontal,
                flip_vertical: self.flip_vertical,
                uniform_name,
                texture_target,
            },
        )
    }

    /// Creates the texture with `create` from the request the settings make;
    /// refused without a path.
    pub fn build<F: Fn(&TextureRequest) -> Result<Texture, String>>(&self, create: F) -> (r: Result<Texture, String>)
        requires
            forall|q: &TextureRequest| create.requires((q,)),
        ensures
            self.spec_path() is None ==> (r matches Err(m) && m@ == "No path specified"@),
            self.spec_path() is Some ==> exists|q: TextureRequest|
                self.request_matches(q) && #[trigger] create.ensures((&q,), r),
    {
        match self.request() {
            Some(q) => create(&q),
            None => Err("No path specified".to_owned()),
        }
    }
}

} // verus!
