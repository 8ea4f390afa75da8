//! Textures by name: the image paths registered for them, the textures
//! loaded from those paths, the load settings and the errors met.
use vstd::prelude::*;
use crate::gl_texture::TextureRequest;
use crate::gl_types::TextureTarget;
use crate::opengl::texture::{Texture, clone_non_cloneable_message};
use crate::opengl::texture_builder::TextureBuilder;
use crate::operation_status::OperationStatus;
use crate::str_map::StrMap;
use crate::text::concat2;

verus! {

// ---------------------------------------------------------------------------
// TextureError
// ---------------------------------------------------------------------------

/// Why a texture could not be registered or obtained.
#[derive(Debug)]
pub enum TextureError {
    KeyExists { key_name: String },
    KeyNotExisting { key_name: String },
    FileNotFound,
    CreateTextureFailure { message: String },
    FindFailed,
    CloneFailure { message: String },
}

impl Clone for TextureError {
    fn clone(&self) -> (r: Self)
        ensures
            r == *self,
    {
        match self {
            TextureError::KeyExists { key_name } => TextureError::KeyExists { key_name: key_name.clone() },
            TextureError::KeyNotExisting { key_name } => TextureError::KeyNotExisting {
                key_name: key_name.clone(),
            },
            TextureError::FileNotFound => TextureError::FileNotFound,
            TextureError::CreateTextureFailure { message } => TextureError::CreateTextureFailure {
                message: message.clone(),
            },
            TextureError::FindFailed => TextureError::FindFailed,
            TextureError::CloneFailure { message } => TextureError::CloneFailure { message: message.clone() },
        }
    }
}

impl TextureError {
    pub open spec fn spec_message(self) -> Seq<char> {
        match self {
            TextureError::KeyExists { key_name } => "A texture with that key exists already: "@ + key_name@,
            TextureError::KeyNotExisting { key_name } => "No key with the name found: "@ + key_name@,
            TextureError::FileNotFound => "File has not been found"@,
            TextureError::CreateTextureFailure { message } => "Failed to create texture: "@ + message@,
            TextureError::FindFailed => "Failed to find a previously created texture"@,
            TextureError::CloneFailure { message } => "Failed to clone a texture: "@ + message@,
        }
    }

    /// The error's message, as it is displayed.
    pub fn to_string(&self) -> (r: String)
        ensures
            r@ == self.spec_message(),
    {
        match self {
            TextureError::KeyExists { key_name } => concat2(
                "A texture with that key exists already: ",
                key_name.as_str(),
            ),
            TextureError::KeyNotExisting { key_name } => concat2("No key with the name found: ", key_name.as_str()),
            TextureError::FileNotFound => "File has not been found".to_owned(),
            TextureError::CreateTextureFailure { message } => concat2("Failed to create texture: ", message.as_str()),
            TextureError::FindFailed => "Failed to find a previously created texture".to_owned(),
            TextureError::CloneFailure { message } => concat2("Failed to clone a texture: ", message.as_str()),
        }
    }
}

// ---------------------------------------------------------------------------
// TextureFlags, TextureDescriptor, TextureData
// ---------------------------------------------------------------------------

/// How the image of a texture is loaded.
#[derive(Clone, Copy, Debug, PartialEq, Eq, Structural)]
pub struct TextureFlags {
    pub has_alpha: bool,
    pub flip_vertically: bool,
}

impl Default for TextureFlags {
    fn default() -> (r: Self)
        ensures
            r == (TextureFlags { has_alpha: false, flip_vertically: false }),
    {
        TextureFlags { has_alpha: false, flip_vertically: false }
    }
}

/// Where a texture's image comes from and how it is flipped.
#[derive(Debug)]
pub struct TextureDescriptor {
    pub path: String,
    pub flip_vertically: bool,
    pub flip_horizontally: bool,
}

impl Default for TextureDescriptor {
    fn default() -> (r: Self)
        ensures
            r.path@ == Seq::<char>::empty(),
            !r.flip_vertically,
            !r.flip_horizontally,
    {
        TextureDescriptor { path: String::new(), flip_vertically: false, flip_horizontally: false }
    }
}

/// A loaded texture.
pub struct TextureData {
    pub(crate) texture: Texture,
    pub(crate) description: Option<TextureDescriptor>,
}

impl TextureData {
    pub closed spec fn spec_texture(&self) -> Texture {
        self.texture
    }

    pub closed spec fn has_description(&self) -> bool {
        self.description is Some
    }

    pub fn new(texture: Texture) -> (r: Self)
        ensures
            r.spec_texture() == texture,
            !r.has_description(),
    {
        TextureData { texture, description: None }
    }
}

// ---------------------------------------------------------------------------
// TextureResult
// ---------------------------------------------------------------------------

/// The outcome of obtaining one texture by name.
pub struct TextureResult {
    name: String,
    success: bool,
    texture: Option<Texture>,
    error: Option<TextureError>,
}

impl TextureResult {
    pub closed spec fn spec_name(&self) -> Seq<char> {
        self.name@
    }

    pub closed spec fn spec_success(&self) -> bool {
        self.success
    }

    pub closed spec fn spec_texture(&self) -> Option<Texture> {
        self.texture
    }

    pub closed spec fn spec_error(&self) -> Option<TextureError> {
        self.error
    }

    pub(crate) fn success(name: String, texture: Texture) -> (r: Self)
        ensures
            r.spec_name() == name@,
            r.spec_success(),
            r.spec_texture() == Some(texture),
            r.spec_error() is None,
    {
        TextureResult { name, success: true, texture: Some(texture), error: None }
    }

    pub(crate) fn failure(name: String, error: TextureError) -> (r: Self)
        ensures
            r.spec_name() == name@,
            !r.spec_success(),
            r.spec_texture() is None,
            r.spec_error() == Some(error),
    {
        TextureResult { name, success: false, texture: None, error: Some(error) }
    }

    pub fn name(&self) -> (r: &str)
        ensures
            r@ == self.spec_name(),
    {
        self.name.as_str()
    }

    pub fn texture(&self) -> (r: &Option<Texture>)
        ensures
            *r == self.spec_texture(),
    {
        &self.texture
    }

    pub fn error(&self) -> (r: &Option<TextureError>)
        ensures
            *r == self.spec_error(),
    {
        &self.error
    }

    pub fn is_success(&self) -> (r: bool)
        ensures
            r == self.spec_success(),
    {
        self.success
    }

    pub fn is_failure(&self) -> (r: bool)
        ensures
            r == !self.spec_success(),
    {
        !self.success
    }
}

// ---------------------------------------------------------------------------
// TextureManager
// ---------------------------------------------------------------------------

/// Whether a file exists at `path`.
///
/// Calls `std::path::Path::exists`. The answer depends on the file system at
/// the time of the call, so nothing is stated of it.
#[verifier::external_body]
fn path_exists(path: &str) -> bool {
    std::path::Path::new(path).exists()
}

/// What cloning the texture `t` as a non-owner gives, as reported by the manager.
pub open spec fn clone_outcome(t: Texture, r: Result<Texture, TextureError>) -> bool {
    if t.spec_cloneable() {
        r matches Ok(c) && c.same_texture(t) && !c.spec_cloneable()
    } else {
        r matches Err(TextureError::CloneFailure { message }) && message@ == clone_non_cloneable_message()
    }
}

fn clone_texture(data: &TextureData) -> (r: Result<Texture, TextureError>)
    ensures
        clone_outcome(data.spec_texture(), r),
{
    match data.texture.clone_as_non_owner() {
        Ok(t) => Ok(t),
        Err(e) => Err(TextureError::CloneFailure { message: e }),
    }
}

/// Textures by name: registered image paths, loaded textures, load settings
/// and the errors met while registering.
pub struct TextureManager {
    textures: StrMap<TextureData>,
    texture_paths: StrMap<String>,
    texture_error: StrMap<TextureError>,
    texture_flags: StrMap<TextureFlags>,
}

impl TextureManager {
    /// The loaded textures by name.
    pub closed spec fn textures(&self) -> Map<Seq<char>, Texture> {
        self.textures.view().map_values(|d: TextureData| d.texture)
    }

    /// The registered image paths by name.
    pub closed spec fn paths(&self) -> Map<Seq<char>, Seq<char>> {
        self.texture_paths.view().map_values(|p: String| p@)
    }

    /// The errors met while registering, by name.
    pub closed spec fn errors(&self) -> Map<Seq<char>, TextureError> {
        self.texture_error.view()
    }

    /// The load settings by name.
    pub closed spec fn flags(&self) -> Map<Seq<char>, TextureFlags> {
        self.texture_flags.view()
    }

    pub closed spec fn wf(&self) -> bool {
        &&& self.textures.wf()
        &&& self.texture_paths.wf()
        &&& self.texture_error.wf()
        &&& self.texture_flags.wf()
    }

    pub fn new() -> (r: Self)
        ensures
            r.wf(),
            r.textures() == Map::<Seq<char>, Texture>::empty(),
            r.paths() == Map::<Seq<char>, Seq<char>>::empty(),
            r.errors() == Map::<Seq<char>, TextureError>::empty(),
            r.flags() == Map::<Seq<char>, TextureFlags>::empty(),
    {
        let r = TextureManager {
            textures: StrMap::new(),
            texture_paths: StrMap::new(),
            texture_error: StrMap::new(),
            texture_flags: StrMap::new(),
        };
        assert(r.textures() =~= Map::<Seq<char>, Texture>::empty());
        assert(r.paths() =~= Map::<Seq<char>, Seq<char>>::empty());
        r
    }

    /// What registering `path` for `name` leads to when the file exists as
    /// `file_exists` says (`add_new` refuses names that already have a
    /// registered path or a loaded texture).
    pub open spec fn register_outcome(
        pre: TextureManager,
        post: TextureManager,
        name: Seq<char>,
        path: Seq<char>,
        file_exists: bool,
        add_new: bool,
        r: OperationStatus<TextureError>,
    ) -> bool {
        &&& post.textures() == pre.textures()
        &&& post.flags() == pre.flags()
        &&& if add_new && (pre.textures().contains_key(name) || pre.paths().contains_key(name)) {
            &&& !r.spec_success()
            &&& r.spec_error() matches Some(TextureError::KeyExists { key_name }) && key_name@ == name
            &&& post.paths() == pre.paths()
            &&& post.errors() == pre.errors()
        } else if !file_exists {
            &&& !r.spec_success()
            &&& r.spec_error() matches Some(TextureError::FileNotFound)
            &&& post.paths() == pre.paths()
            &&& post.errors() == pre.errors().insert(name, TextureError::FileNotFound)
        } else {
            &&& r.spec_success()
            &&& r.spec_error() is None
            &&& post.paths() == pre.paths().insert(name, path)
            &&& post.errors() == pre.errors()
        }
    }

    /// Registers the image `texture_path` for `name`, given whether the file
    /// exists; `add_new` refuses names that already have a registered path or
    /// a loaded texture.
    pub fn register_path(
        &mut self,
        name: &str,
        texture_path: &str,
        file_exists: bool,
        add_new: bool,
    ) -> (r: OperationStatus<TextureError>)
        requires
            old(self).wf(),
        ensures
            final(self).wf(),
            Self::register_outcome(*old(self), *final(self), name@, texture_path@, file_exists, add_new, r),
    {
        if add_new && (self.textures.contains_key(name) || self.texture_paths.contains_key(name)) {
            return OperationStatus::new_error(TextureError::KeyExists { key_name: name.to_owned() });
        }
        if !file_exists {
            self.texture_error.insert(name.to_owned(), TextureError::FileNotFound);
            return OperationStatus::new_error(TextureError::FileNotFound);
        }
        let ghost pre_paths = self.texture_paths.view();
        self.texture_paths.insert(name.to_owned(), texture_path.to_owned());
        proof {
            assert(self.paths() =~= old(self).paths().insert(name@, texture_path@));
        }
        OperationStatus::new_success()
    }

    /// Registers the image `texture_path` for `name`; refused when `name`
    /// already has a registered path or a loaded texture, or when the file
    /// does not exist (an error that is recorded for `name`).
    pub fn add_path(&mut self, name: &str, texture_path: &str) -> (r: OperationStatus<TextureError>)
        requires
            old(self).wf(),
        ensures
            final(self).wf(),
            exists|file_exists: bool|
                #[trigger] Self::register_outcome(*old(self), *final(self), name@, texture_path@, file_exists, true, r),
    {
        if self.textures.contains_key(name) || self.texture_paths.contains_key(name) {
            let r = self.register_path(name, texture_path, true, true);
            assert(Self::register_outcome(*old(self), *self, name@, texture_path@, true, true, r));
            return r;
        }
        let file_exists = path_exists(texture_path);
        self.register_path(name, texture_path, file_exists, true)
    }

    /// Registers the image `texture_path` for `name`, replacing a registered
    /// one; refused when the file does not exist (an error that is recorded
    /// for `name`).
    pub fn add_or_update_path(&mut self, name: &str, texture_path: &str) -> (r: OperationStatus<TextureError>)
        requires
            old(self).wf(),
        ensures
            final(self).wf(),
            exists|file_exists: bool|
                #[trigger] Self::register_outcome(*old(self), *final(self), name@, texture_path@, file_exists, false, r),
    {
        let file_exists = path_exists(texture_path);
        self.register_path(name, texture_path, file_exists, false)
    }

    /// The error recorded for `name`, if any.
    pub fn texture_error(&self, name: &str) -> (r: Option<&TextureError>)
        requires
            self.wf(),
        ensures
            r == (if self.errors().contains_key(name@) { Some(&self.errors()[name@]) } else { None }),
    {
        self.texture_error.get(name)
    }

    pub fn has_error(&self, name: &str) -> (r: bool)
        requires
            self.wf(),
        ensures
            r == self.errors().contains_key(name@),
    {
        self.texture_error.contains_key(name)
    }

    pub fn clear_error(&mut self, name: &str)
        requires
            old(self).wf(),
        ensures
            final(self).wf(),
            final(self).errors() == old(self).errors().remove(name@),
            final(self).textures() == old(self).textures(),
            final(self).paths() == old(self).paths(),
            final(self).flags() == old(self).flags(),
    {
        self.texture_error.remove(name);
    }

    /// Sets the load settings of `name`.
    pub fn add_texture_flags(&mut self, name: &str, flags: TextureFlags)
        requires
            old(self).wf(),
        ensures
            final(self).wf(),
            final(self).flags() == old(self).flags().insert(name@, flags),
            final(self).textures() == old(self).textures(),
            final(self).paths() == old(self).paths(),
            final(self).errors() == old(self).errors(),
    {
        self.texture_flags.insert(name.to_owned(), flags);
    }

    pub fn get_texture_flags(&self, name: &str) -> (r: Option<&TextureFlags>)
        requires
            self.wf(),
        ensures
            r == (if self.flags().contains_key(name@) { Some(&self.flags()[name@]) } else { None }),
    {
        self.texture_flags.get(name)
    }

    pub fn clear_texture_flags(&mut self, name: &str)
        requires
            old(self).wf(),
        ensures
            final(self).wf(),
            final(self).flags() == old(self).flags().remove(name@),
            final(self).textures() == old(self).textures(),
            final(self).paths() == old(self).paths(),
            final(self).errors() == old(self).errors(),
    {
        self.texture_flags.remove(name);
    }

    /// `q` is the request made for `name`: its registered path, its load
    /// settings (or the defaults), not flipped horizontally, no uniform name
    /// and the 2D target.
    pub open spec fn request_for(&self, name: Seq<char>, q: TextureRequest) -> bool {
        let flags = if self.flags().contains_key(name) {
            self.flags()[name]
        } else {
            TextureFlags { has_alpha: false, flip_vertically: false }
        };
        &&& self.paths().contains_key(name)
        &&& q.path@ == self.paths()[name]
        &&& q.has_alpha == flags.has_alpha
        &&& q.flip_vertical == flags.flip_vertically
        &&& !q.flip_horizontal
        &&& q.uniform_name@ == Seq::<char>::empty()
        &&& q.texture_target == TextureTarget::Texture2D
    }

    /// Creates the texture of `name` with `create` from its registered path
    /// and load settings.
    fn create_texture<F: Fn(&TextureRequest) -> Result<Texture, String>>(
        &self,
        name: &str,
        create: F,
    ) -> (r: Result<Texture, TextureError>)
        requires
            self.wf(),
            forall|q: &TextureRequest| create.requires((q,)),
        ensures
            !self.paths().contains_key(name@) ==> (r matches Err(TextureError::KeyNotExisting { key_name })
                && key_name@ == name@),
            self.paths().contains_key(name@) ==> exists|q: TextureRequest, res: Result<Texture, String>|
                {
                    &&& self.request_for(name@, q)
                    &&& #[trigger] create.ensures((&q,), res)
                    &&& match res {
                        Ok(t) => r == Ok::<Texture, TextureError>(t),
                        Err(e) => r matches Err(TextureError::CreateTextureFailure { message }) && message@ == e@,
                    }
                },
    {
        match self.texture_paths.get(name) {
            Some(path) => {
                let flags = match self.texture_flags.get(name) {
                    Some(f) => *f,
                    None => TextureFlags::default(),
                };
                let builder = TextureBuilder::default().path(path.clone()).has_alpha(flags.has_alpha).flip_vertical(
                    flags.flip_vertically,
                );
                match builder.request() {
                    Some(q) => {
                        let res = create(&q);
                        let ghost gres = res;
                        match res {
                            Ok(t) => Ok(t),
                            Err(e) => Err(TextureError::CreateTextureFailure { message: e }),
                        }
                    },
                    None => Err(TextureError::FindFailed),
                }
            },
            None => Err(TextureError::KeyNotExisting { key_name: name.to_owned() }),
        }
    }

    /// What obtaining the texture `name` leads to: a loaded texture is
    /// cloned; otherwise, when a path is registered, the texture is created
    /// with `create`, stored, and cloned.
    pub open spec fn get_outcome<F: Fn(&TextureRequest) -> Result<Texture, String>>(
        pre: TextureManager,
        post: TextureManager,
        name: Seq<char>,
        create: F,
        r: Result<Texture, TextureError>,
    ) -> bool {
        &&& post.paths() == pre.paths()
        &&& post.errors() == pre.errors()
        &&& post.flags() == pre.flags()
        &&& if pre.textures().contains_key(name) {
            &&& post.textures() == pre.textures()
            &&& clone_outcome(pre.textures()[name], r)
        } else if !pre.paths().contains_key(name) {
            &&& post.textures() == pre.textures()
            &&& r matches Err(TextureError::KeyNotExisting { key_name }) && key_name@ == name
        } else {
            exists|q: TextureRequest, res: Result<Texture, String>|
                {
                    &&& pre.request_for(name, q)
                    &&& #[trigger] create.ensures((&q,), res)
                    &&& match res {
                        Ok(t) => post.textures() == pre.textures().insert(name, t) && clone_outcome(t, r),
                        Err(e) => {
                            &&& post.textures() == pre.textures()
                            &&& r matches Err(TextureError::CreateTextureFailure { message }) && message@ == e@
                        },
                    }
                }
        }
    }

    /// The texture `name`, as an instance that does not own it; when it is
    /// not loaded but its path is registered, it is created with `create`
    /// and stored first.
    pub fn get_texture<F: Fn(&TextureRequest) -> Result<Texture, String>>(
        &mut self,
        name: &str,
        create: F,
    ) -> (r: Result<Texture, TextureError>)
        requires
            old(self).wf(),
            forall|q: &TextureRequest| create.requires((q,)),
        ensures
            final(self).wf(),
            Self::get_outcome(*old(self), *final(self), name@, create, r),
    {
        match self.textures.get(name) {
            Some(data) => {
                return clone_texture(data);
            },
            None => {},
        }
        if !self.texture_paths.contains_key(name) {
            return Err(TextureError::KeyNotExisting { key_name: name.to_owned() });
        }
        let texture = match self.create_texture(name, create) {
            Ok(t) => t,
            Err(e) => {
                return Err(e);
            },
        };
        let ghost t = texture;
        self.textures.insert(name.to_owned(), TextureData::new(texture));
        proof {
            assert(self.textures() =~= old(self).textures().insert(name@, t));
        }
        match self.textures.get(name) {
            Some(data) => clone_texture(data),
            None => Err(TextureError::FindFailed),
        }
    }

    /// `res` reports, for `name`, what obtaining it gave (`g`): a texture
    /// obtained (a non-owning instance of the stored one) is a success that
    /// holds it; an error is a failure that reports it and holds no texture.
    pub open spec fn result_reports(g: Result<Texture, TextureError>, name: Seq<char>, res: TextureResult) -> bool {
        &&& res.spec_name() == name
        &&& match g {
            Ok(t) => res.spec_success() && res.spec_texture() == Some(t) && res.spec_error() is None,
            Err(e) => !res.spec_success() && res.spec_texture() is None && res.spec_error() == Some(e),
        }
    }

    /// What obtaining the textures `names` in order leads to: one
    /// `get_texture` after another, from `pre` to `post`, each reported in
    /// `results` as `result_reports` says.
    pub open spec fn textures_outcome<F: Fn(&TextureRequest) -> Result<Texture, String>>(
        pre: TextureManager,
        post: TextureManager,
        names: Seq<Seq<char>>,
        create: F,
        results: Seq<TextureResult>,
    ) -> bool {
        &&& results.len() == names.len()
        &&& exists|states: Seq<TextureManager>, gets: Seq<Result<Texture, TextureError>>|
            {
                &&& states.len() == names.len() + 1
                &&& gets.len() == names.len()
                &&& states[0] == pre
                &&& states[names.len() as int] == post
                &&& forall|i: int|
                    0 <= i < names.len() ==> {
                        &&& Self::get_outcome(states[i], states[i + 1], names[i], create, #[trigger] gets[i])
                        &&& Self::result_reports(gets[i], names[i], results[i])
                    }
            }
    }

    /// Obtains the textures `texture_names` in order, as `get_texture` does,
    /// and reports each as a result of its own: a success holding the
    /// non-owning instance obtained, or a failure with the error that
    /// obtaining it (finding, creating or cloning it) gave.
    pub fn get_textures<F: Fn(&TextureRequest) -> Result<Texture, String>>(
        &mut self,
        texture_names: &[&str],
        create: F,
    ) -> (r: Result<Vec<TextureResult>, String>)
        requires
            old(self).wf(),
            forall|q: &TextureRequest| create.requires((q,)),
        ensures
            final(self).wf(),
            final(self).paths() == old(self).paths(),
            final(self).errors() == old(self).errors(),
            final(self).flags() == old(self).flags(),
            forall|k: Seq<char>| #[trigger] old(self).textures().contains_key(k) ==> final(self).textures().contains_key(k)
                && final(self).textures()[k] == old(self).textures()[k],
            r matches Ok(v) && Self::textures_outcome(
                *old(self),
                *final(self),
                texture_names@.map_values(|n: &str| n@),
                create,
                v@,
            ),
    {
        let ghost names = texture_names@.map_values(|n: &str| n@);
        let ghost mut states: Seq<TextureManager> = seq![*self];
        let ghost mut gets: Seq<Result<Texture, TextureError>> = Seq::empty();
        let mut results: Vec<TextureResult> = Vec::new();
        let mut i: usize = 0;
        while i < texture_names.len()
            invariant
                i <= texture_names@.len(),
                names == texture_names@.map_values(|n: &str| n@),
                self.wf(),
                forall|q: &TextureRequest| create.requires((q,)),
                self.paths() == old(self).paths(),
                self.errors() == old(self).errors(),
                self.flags() == old(self).flags(),
                forall|k: Seq<char>| #[trigger] old(self).textures().contains_key(k) ==> self.textures().contains_key(k)
                    && self.textures()[k] == old(self).textures()[k],
                results@.len() == i,
                states.len() == i + 1,
                gets.len() == i,
                states[0] == *old(self),
                states[i as int] == *self,
                forall|j: int|
                    0 <= j < i ==> {
                        &&& Self::get_outcome(states[j], states[j + 1], names[j], create, #[trigger] gets[j])
                        &&& Self::result_reports(gets[j], names[j], results@[j])
                    },
            decreases texture_names@.len() - i,
        {
            let name = texture_names[i];
            let ghost pre = *self;
            let res = self.get_texture(name, &create);
            proof {
                assert forall|k: Seq<char>| #[trigger] old(self).textures().contains_key(k) implies self.textures().contains_key(k)
                    && self.textures()[k] == old(self).textures()[k] by {
                    assert(pre.textures().contains_key(k));
                }
            }
            let ghost g = res;
            let result = match res {
                Ok(texture) => TextureResult::success(name.to_owned(), texture),
                Err(e) => TextureResult::failure(name.to_owned(), e),
            };
            proof {
                assert(names[i as int] == name@);
                assert(Self::get_outcome(pre, *self, names[i as int], create, g));
                assert(Self::result_reports(g, names[i as int], result));
                states = states.push(*self);
                gets = gets.push(g);
            }
            results.push(result);
            i = i + 1;
        }
        assert(Self::textures_outcome(*old(self), *self, names, create, results@));
        Ok(results)
    }
}

} // verus!
