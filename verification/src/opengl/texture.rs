//! Textures uploaded to OpenGL, with ownership of the OpenGL texture kept
//! by the instance that created it.
use vstd::prelude::*;
use crate::gl_types::TextureTarget;
use crate::gl_texture::{opt_view, uniform_name_of};

verus! {

pub const ERR_DELETE_NON_OWNER: &'static str = "Attempted to delete a Texture that is not owned.
Only the owner should attempt to delete the texture to avoid
multiple deletion attempts of the same GPU resource.";

pub const ERR_CLONE_NON_CLONEABLE: &'static str = "Attempted to clone a Texture instance that is not clonable.
Only the original owner-created instances should be cloned to prevent
multiple instances attempting to manage the same GPU resource lifecycle.";

/// The message a refused deletion reports.
pub open spec fn delete_non_owner_message() -> Seq<char> {
    ERR_DELETE_NON_OWNER@
}

/// The message a refused clone reports.
pub open spec fn clone_non_cloneable_message() -> Seq<char> {
    ERR_CLONE_NON_CLONEABLE@
}

/// A texture object and how its image was loaded.
pub struct Texture {
    id: u32,
    path: String,
    alpha: bool,
    flip: [bool; 2],
    dimension: [u32; 2],
    uniform_name: Option<String>,
    texture_type: TextureTarget,
    cloneable: bool,
}

impl Texture {
    pub closed spec fn spec_id(&self) -> u32 {
        self.id
    }

    pub closed spec fn spec_path(&self) -> Seq<char> {
        self.path@
    }

    pub closed spec fn spec_alpha(&self) -> bool {
        self.alpha
    }

    pub closed spec fn spec_flip(&self) -> (bool, bool) {
        (self.flip[0], self.flip[1])
    }

    pub closed spec fn spec_size(&self) -> (u32, u32) {
        (self.dimension[0], self.dimension[1])
    }

    pub closed spec fn spec_uniform_name(&self) -> Option<Seq<char>> {
        opt_view(self.uniform_name)
    }

    pub closed spec fn spec_texture_type(&self) -> TextureTarget {
        self.texture_type
    }

    /// Only the instance that owns the OpenGL texture may be cloned or delete it.
    pub closed spec fn spec_cloneable(&self) -> bool {
        self.cloneable
    }

    /// The texture object `id` (as created by OpenGL) holding the image
    /// loaded from `path`; an empty `uniform_name` stands for none.
    pub fn new(
        id: u32,
        path: &str,
        has_alpha: bool,
        flip_horizontal: bool,
        flip_vertical: bool,
        width: u32,
        height: u32,
        uniform_name: &str,
        texture_type: TextureTarget,
    ) -> (r: Self)
        ensures
            r.spec_id() == id,
            r.spec_path() == path@,
            r.spec_alpha() == has_alpha,
            r.spec_flip() == (flip_horizontal, flip_vertical),
            r.spec_size() == (width, height),
            r.spec_uniform_name() == uniform_name_of(uniform_name@),
            r.spec_texture_type() == texture_type,
            r.spec_cloneable(),
    {
        let uniform_name = if uniform_name.is_empty() {
            None
        } else {
            Some(uniform_name.to_owned())
        };
        Texture {
            id,
            path: path.to_owned(),
            alpha: has_alpha,
            flip: [flip_horizontal, flip_vertical],
            dimension: [width, height],
            uniform_name,
            texture_type,
            cloneable: true,
        }
    }

    /// The same texture, as an instance that does not own it; refused for an
    /// instance that does not own it itself.
    pub fn clone_as_non_owner(&self) -> (r: Result<Self, String>)
        ensures
            self.spec_cloneable() ==> (r matches Ok(t) && t.same_texture(*self) && !t.spec_cloneable()),
            !self.spec_cloneable() ==> (r matches Err(m) && m@ == clone_non_cloneable_message()),
    {
        if !self.cloneable {
            Err(ERR_CLONE_NON_CLONEABLE.to_owned())
        } else {
            let uniform_name = match &self.uniform_name {
                Some(n) => Some(n.clone()),
                None => None,
            };
            Ok(
                Texture {
                    id: self.id,
                    path: self.path.clone(),
                    alpha: self.alpha,
                    flip: self.flip,
                    dimension: self.dimension,
                    uniform_name,
                    texture_type: self.texture_type,
                    cloneable: false,
                },
            )
        }
    }

    /// `self` and `other` describe the same OpenGL texture.
    pub open spec fn same_texture(&self, other: Self) -> bool {
        &&& self.spec_id() == other.spec_id()
        &&& self.spec_path() == other.spec_path()
        &&& self.spec_alpha() == other.spec_alpha()
        &&& self.spec_flip() == other.spec_flip()
        &&& self.spec_size() == other.spec_size()
        &&& self.spec_uniform_name() == other.spec_uniform_name()
        &&& self.spec_texture_type() == other.spec_texture_type()
    }

    pub fn texture_type(&self) -> (r: TextureTarget)
        ensures
            r == self.spec_texture_type(),
    {
        self.texture_type
    }

    pub fn get_texture_id(&self) -> (r: u32)
        ensures
            r == self.spec_id(),
    {
        self.id
    }

    /// The name of the sampler uniform the texture is bound to, if any.
    pub fn uniform_name(&self) -> (r: &Option<String>)
        ensures
            opt_view(*r) == self.spec_uniform_name(),
    {
        &self.uniform_name
    }

    pub fn has_alpha(&self) -> (r: bool)
        ensures
            r == self.spec_alpha(),
    {
        self.alpha
    }

    pub fn path(&self) -> (r: &str)
        ensures
            r@ == self.spec_path(),
    {
        self.path.as_str()
    }

    pub fn flipped_horizontal(&self) -> (r: bool)
        ensures
            r == self.spec_flip().0,
    {
        self.flip[0]
    }

    pub fn flipped_vertical(&self) -> (r: bool)
        ensures
            r == self.spec_flip().1,
    {
        self.flip[1]
    }

    pub fn width(&self) -> (r: u32)
        ensures
            r == self.spec_size().0,
    {
        self.dimension[0]
    }

    pub fn height(&self) -> (r: u32)
        ensures
            r == self.spec_size().1,
    {
        self.dimension[1]
    }

    /// Forgets the texture's name, handing it back when there is one to
    /// delete; refused for an instance that does not own the texture.
    pub fn delete(&mut self) -> (r: Result<Option<u32>, String>)
        ensures
            !old(self).spec_cloneable() ==> (r matches Err(m) && m@ == delete_non_owner_message()) && *final(self) == *old(self),
            old(self).spec_cloneable() ==> {
                &&& final(self).spec_id() == 0
                &&& r == Ok::<Option<u32>, String>(if old(self).spec_id() != 0 { Some(old(self).spec_id()) } else { None })
                &&& final(self).spec_path() == old(self).spec_path()
                &&& final(self).spec_uniform_name() == old(self).spec_uniform_name()
                &&& final(self).spec_cloneable()
            },
    {
        if !self.cloneable {
            return Err(ERR_DELETE_NON_OWNER.to_owned());
        }
        if self.id != 0 {
            let id = self.id;
            self.id = 0;
            Ok(Some(id))
        } else {
            Ok(None)
        }
    }
}

} // verus!
