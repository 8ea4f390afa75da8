//! Shaders, shader programs with their uniform location cache, and shader
//! sources.
use vstd::prelude::*;
use crate::gl_types::ShaderType;
use crate::str_map::StrMap;
use crate::string_utils::{dec, push_decimal};
use crate::text::{concat2, concat3};
use crate::unicode::{all_whitespace, str_is_blank};
use vstd::string::StringExecFns;

verus! {

// ---------------------------------------------------------------------------
// Shader
// ---------------------------------------------------------------------------

/// A compiled shader object.
pub struct Shader {
    id: u32,
    shader_file: Option<String>,
}

impl Shader {
    pub closed spec fn spec_id(&self) -> u32 {
        self.id
    }

    pub closed spec fn spec_file(&self) -> Option<String> {
        self.shader_file
    }

    /// The shader object `id` (as created by OpenGL), loaded from `shader_file` if given.
    pub fn new(id: u32, shader_file: Option<String>) -> (r: Shader)
        ensures
            r.spec_id() == id,
            r.spec_file() == shader_file,
    {
        Shader { id, shader_file }
    }

    pub fn get_shader_id(&self) -> (r: u32)
        ensures
            r == self.spec_id(),
    {
        self.id
    }

    /// The path of the file the shader was loaded from, if any.
    pub fn get_shader_file(&self) -> (r: Option<&String>)
        ensures
            r == match self.spec_file() {
                Some(f) => Some(&f),
                None => None,
            },
    {
        self.shader_file.as_ref()
    }

    /// Compiles `source` as a vertex shader with `compile`; a failure is
    /// reported as a failure to load the vertex shader.
    pub fn load_vertex_shader<F: Fn(&str, ShaderType) -> Result<Shader, String>>(
        source: &str,
        compile: F,
    ) -> (r: Result<Shader, String>)
        requires
            compile.requires((source, ShaderType::Vertex)),
        ensures
            Self::load_outcome(source, ShaderType::Vertex, "Failed to load vertex shader: "@, compile, r),
    {
        match compile(source, ShaderType::Vertex) {
            Ok(s) => Ok(s),
            Err(e) => Err(concat2("Failed to load vertex shader: ", e.as_str())),
        }
    }

    /// Compiles `source` as a fragment shader with `compile`; a failure is
    /// reported as a failure to load the fragment shader.
    pub fn load_fragment_shader<F: Fn(&str, ShaderType) -> Result<Shader, String>>(
        source: &str,
        compile: F,
    ) -> (r: Result<Shader, String>)
        requires
            compile.requires((source, ShaderType::Fragment)),
        ensures
            Self::load_outcome(source, ShaderType::Fragment, "Failed to load fragment shader: "@, compile, r),
    {
        match compile(source, ShaderType::Fragment) {
            Ok(s) => Ok(s),
            Err(e) => Err(concat2("Failed to load fragment shader: ", e.as_str())),
        }
    }

    /// `r` is what `compile` gave for `source` as a shader of type `t`, its
    /// error message prefixed with `context`.
    pub open spec fn load_outcome<F: Fn(&str, ShaderType) -> Result<Shader, String>>(
        source: &str,
        t: ShaderType,
        context: Seq<char>,
        compile: F,
        r: Result<Shader, String>,
    ) -> bool {
        match r {
            Ok(s) => compile.ensures((source, t), Ok(s)),
            Err(m) => exists|e: String| #[trigger] compile.ensures((source, t), Err(e)) && m@ == context + e@,
        }
    }

    /// Forgets the shader's name, handing it back when there is one to delete.
    pub fn delete(&mut self) -> (r: Option<u32>)
        ensures
            final(self).spec_id() == 0,
            final(self).spec_file() == old(self).spec_file(),
            r == (if old(self).spec_id() != 0 { Some(old(self).spec_id()) } else { None }),
    {
        if self.id != 0 {
            let id = self.id;
            self.id = 0;
            Some(id)
        } else {
            None
        }
    }
}

// ---------------------------------------------------------------------------
// Uniform values
// ---------------------------------------------------------------------------

/// A value that can be stored into a uniform variable of a shader program.
pub trait UniformValue {
    fn set_uniform(&self, location: i32);
}

/// A matrix that can be stored into a uniform variable of a shader program.
pub trait UniformMatrix {
    fn set_uniform_matrix(&self, location: i32, transpose: bool);
}

/// `value` has been handed to its `set_uniform` for the uniform at `location`.
pub open spec fn value_stored<T: UniformValue>(value: &T, location: i32) -> bool {
    call_ensures(T::set_uniform, (value, location), ())
}

/// `matrix` has been handed to its `set_uniform_matrix` for the uniform at
/// `location`, to be transposed exactly when `transpose` is.
pub open spec fn matrix_stored<T: UniformMatrix>(matrix: &T, location: i32, transpose: bool) -> bool {
    call_ensures(T::set_uniform_matrix, (matrix, location, transpose), ())
}

fn store_value<T: UniformValue>(value: &T, location: i32)
    ensures
        value_stored(value, location),
{
    let store = T::set_uniform;
    store(value, location)
}

fn store_matrix<T: UniformMatrix>(matrix: &T, location: i32, transpose: bool)
    ensures
        matrix_stored(matrix, location, transpose),
{
    let store = T::set_uniform_matrix;
    store(matrix, location, transpose)
}

// ---------------------------------------------------------------------------
// ShaderProgram
// ---------------------------------------------------------------------------

/// Some entry of `entries` is for shader type `t`.
pub open spec fn has_type(entries: Seq<(ShaderType, String)>, t: ShaderType) -> bool {
    exists|i: int| 0 <= i < entries.len() && (#[trigger] entries[i]).0 == t
}

fn find_type(entries: &Vec<(ShaderType, String)>, t: ShaderType) -> (r: bool)
    ensures
        r == has_type(entries@, t),
{
    let mut i: usize = 0;
    while i < entries.len()
        invariant
            i <= entries@.len(),
            forall|j: int| 0 <= j < i ==> (#[trigger] entries@[j]).0 != t,
        decreases entries@.len() - i,
    {
        if entries[i].0 == t {
            return true;
        }
        i = i + 1;
    }
    false
}

/// Converts `bytes` to text when they are valid UTF-8.
///
/// Calls `std::str::from_utf8`. Trusted: its documentation says it succeeds
/// exactly on valid UTF-8, which `vstd::utf8::valid_utf8` states; the text is
/// the decoded characters. The error's message is not described.
#[verifier::external_body]
fn str_from_utf8(bytes: &[u8]) -> (r: Result<String, String>)
    ensures
        r is Ok <==> vstd::utf8::valid_utf8(bytes@),
        r matches Ok(s) ==> s@ == vstd::utf8::decode_utf8(bytes@),
{
    match std::str::from_utf8(bytes) {
        Ok(s) => Ok(s.to_string()),
        Err(e) => Err(e.to_string()),
    }
}

/// The text of `bytes` read as UTF-8, each invalid sequence replaced by
/// the replacement character U+FFFD.
pub uninterp spec fn utf8_lossy(bytes: Seq<u8>) -> Seq<char>;

/// Converts `bytes` to text, replacing invalid UTF-8.
///
/// Calls `String::from_utf8_lossy`. Trusted: the text is named
/// `utf8_lossy` of the bytes; its documentation says that valid UTF-8 comes
/// back as it is, which is stated too. How invalid sequences are replaced
/// is not described.
#[verifier::external_body]
fn string_from_utf8_lossy(bytes: &[u8]) -> (r: String)
    ensures
        r@ == utf8_lossy(bytes@),
        vstd::utf8::valid_utf8(bytes@) ==> r@ == vstd::utf8::decode_utf8(bytes@),
{
    String::from_utf8_lossy(bytes).to_string()
}

/// A shader program: its OpenGL name, the uniform locations looked up so
/// far, and the shader sources and files it is built from.
pub struct ShaderProgram {
    id: u32,
    uniform_ids: StrMap<i32>,
    shader_sources: Vec<(ShaderType, String)>,
    shader_files: Vec<(ShaderType, String)>,
}

impl ShaderProgram {
    pub closed spec fn spec_id(&self) -> u32 {
        self.id
    }

    /// The uniform locations looked up so far, by name.
    pub closed spec fn uniforms(&self) -> Map<Seq<char>, i32> {
        self.uniform_ids.view()
    }

    /// The shader sources given, in order.
    pub closed spec fn sources(&self) -> Seq<(ShaderType, String)> {
        self.shader_sources@
    }

    /// The shader files given, in order.
    pub closed spec fn files(&self) -> Seq<(ShaderType, String)> {
        self.shader_files@
    }

    /// The cache holds found locations only (OpenGL answers -1 for a name
    /// it does not know).
    pub closed spec fn wf(&self) -> bool {
        &&& self.uniform_ids.wf()
        &&& forall|k: Seq<char>| #[trigger] self.uniform_ids.view().contains_key(k) ==> self.uniform_ids.view()[k] != -1
    }

    /// A shader of type `t` was given, as source or as file.
    pub open spec fn type_defined(&self, t: ShaderType) -> bool {
        has_type(self.sources(), t) || has_type(self.files(), t)
    }

    pub fn new() -> (r: Self)
        ensures
            r.wf(),
            r.spec_id() == 0,
            r.uniforms() == Map::<Seq<char>, i32>::empty(),
            r.sources() == Seq::<(ShaderType, String)>::empty(),
            r.files() == Seq::<(ShaderType, String)>::empty(),
    {
        ShaderProgram {
            id: 0,
            uniform_ids: StrMap::new(),
            shader_sources: Vec::new(),
            shader_files: Vec::new(),
        }
    }

    pub fn program_id(&self) -> (r: u32)
        ensures
            r == self.spec_id(),
    {
        self.id
    }

    /// Records the OpenGL name of the linked program.
    pub fn set_program_id(&mut self, id: u32)
        ensures
            final(self).spec_id() == id,
            final(self).uniforms() == old(self).uniforms(),
            final(self).sources() == old(self).sources(),
            final(self).files() == old(self).files(),
            old(self).wf() ==> final(self).wf(),
    {
        self.id = id;
    }

    /// The shader sources given, in order.
    pub fn shader_sources(&self) -> (r: &Vec<(ShaderType, String)>)
        ensures
            r@ == self.sources(),
    {
        &self.shader_sources
    }

    /// The shader files given, in order.
    pub fn shader_files(&self) -> (r: &Vec<(ShaderType, String)>)
        ensures
            r@ == self.files(),
    {
        &self.shader_files
    }

    /// Forgets every uniform location looked up so far.
    pub fn clear_uniform_locations(&mut self)
        requires
            old(self).wf(),
        ensures
            final(self).wf(),
            final(self).uniforms() == Map::<Seq<char>, i32>::empty(),
            final(self).spec_id() == old(self).spec_id(),
            final(self).sources() == old(self).sources(),
            final(self).files() == old(self).files(),
    {
        self.uniform_ids.clear();
    }

    /// What looking up the uniform `name` leads to: a cached location is
    /// answered without asking `lookup`; otherwise `lookup` is asked, a found
    /// location is cached and answered, and -1 is reported as not found.
    pub open spec fn lookup_outcome<L: Fn(u32, &str) -> i32>(
        pre: ShaderProgram,
        post: ShaderProgram,
        name: &str,
        lookup: L,
        r: Result<i32, String>,
    ) -> bool {
        &&& post.spec_id() == pre.spec_id()
        &&& post.sources() == pre.sources()
        &&& post.files() == pre.files()
        &&& if pre.uniforms().contains_key(name@) {
            r == Ok::<i32, String>(pre.uniforms()[name@]) && post.uniforms() == pre.uniforms()
        } else {
            exists|loc: i32|
                {
                    &&& #[trigger] lookup.ensures((pre.spec_id(), name), loc)
                    &&& loc != -1 ==> r == Ok::<i32, String>(loc) && post.uniforms() == pre.uniforms().insert(name@, loc)
                    &&& loc == -1 ==> post.uniforms() == pre.uniforms() && (r matches Err(m)
                        && m@ == "Uniform '"@ + name@ + "' not found in shader program"@)
                }
        }
    }

    /// The location of the uniform `name`, from the cache or else from
    /// `lookup` (which asks OpenGL for it in the program).
    pub fn get_uniform_location<L: Fn(u32, &str) -> i32>(&mut self, name: &str, lookup: L) -> (r: Result<i32, String>)
        requires
            old(self).wf(),
            forall|id: u32, n: &str| lookup.requires((id, n)),
        ensures
            final(self).wf(),
            Self::lookup_outcome(*old(self), *final(self), name, lookup, r),
    {
        match self.uniform_ids.get(name) {
            Some(loc) => {
                return Ok(*loc);
            },
            None => {},
        }
        let location = lookup(self.id, name);
        if location != -1 {
            self.uniform_ids.insert(name.to_owned(), location);
            Ok(location)
        } else {
            Err(concat3("Uniform '", name, "' not found in shader program"))
        }
    }

    /// Stores `value` into the uniform `name`, whose location is looked up as
    /// by `get_uniform_location`.
    pub fn set_uniform<T: UniformValue, L: Fn(u32, &str) -> i32>(
        &mut self,
        name: &str,
        value: T,
        lookup: L,
    ) -> (r: Result<(), String>)
        requires
            old(self).wf(),
            forall|id: u32, n: &str| lookup.requires((id, n)),
        ensures
            final(self).wf(),
            exists|l: Result<i32, String>|
                {
                    &&& #[trigger] Self::lookup_outcome(*old(self), *final(self), name, lookup, l)
                    &&& l is Ok ==> r is Ok
                    &&& l matches Err(m) ==> r == Err::<(), String>(m)
                    &&& l matches Ok(location) ==> value_stored(&value, location)
                },
    {
        let location = match self.get_uniform_location(name, lookup) {
            Ok(l) => l,
            Err(m) => {
                return Err(m);
            },
        };
        if location == -1 {
            return Err(concat3("Uniform '", name, "' not found in shader"));
        }
        store_value(&value, location);
        Ok(())
    }

    /// Stores `value` into the uniform at `location`; -1 is refused.
    pub fn set_uniform_value<T: UniformValue>(&self, location: i32, value: T) -> (r: Result<(), String>)
        ensures
            r is Ok <==> location != -1,
            r matches Err(m) ==> m@ == "Uniform location is invalid: -1"@,
            r is Ok ==> value_stored(&value, location),
    {
        if location == -1 {
            return Err("Uniform location is invalid: -1".to_owned());
        }
        store_value(&value, location);
        Ok(())
    }

    /// Stores `matrix` into the uniform `name`, whose location is looked up
    /// as by `get_uniform_location`.
    pub fn set_uniform_matrix<T: UniformMatrix, L: Fn(u32, &str) -> i32>(
        &mut self,
        name: &str,
        transpose: bool,
        matrix: &T,
        lookup: L,
    ) -> (r: Result<(), String>)
        requires
            old(self).wf(),
            forall|id: u32, n: &str| lookup.requires((id, n)),
        ensures
            final(self).wf(),
            exists|l: Result<i32, String>|
                {
                    &&& #[trigger] Self::lookup_outcome(*old(self), *final(self), name, lookup, l)
                    &&& l is Ok ==> r is Ok
                    &&& l matches Err(m) ==> r == Err::<(), String>(m)
                    &&& l matches Ok(location) ==> matrix_stored(matrix, location, transpose)
                },
    {
        let location = match self.get_uniform_location(name, lookup) {
            Ok(l) => l,
            Err(m) => {
                return Err(m);
            },
        };
        if location == -1 {
            return Err(concat3("Uniform '", name, "' not found in shader"));
        }
        store_matrix(matrix, location, transpose);
        Ok(())
    }

    /// What listing the names of the active uniforms `i..count` of the
    /// program object `program` leads to, with `names` those found so far:
    /// each name is asked of `uniform_name`; an empty answer is reported as
    /// a failure for that index, the others are read as UTF-8.
    pub open spec fn names_outcome<U: Fn(u32, u32) -> Vec<u8>>(
        program: u32,
        i: int,
        count: int,
        names: Seq<Seq<char>>,
        uniform_name: U,
        r: Result<Vec<String>, String>,
    ) -> bool
        decreases count - i,
    {
        if i >= count {
            r matches Ok(v) && v@.len() == names.len() && forall|k: int| 0 <= k < names.len() ==> #[trigger] v@[k]@ == names[k]
        } else {
            exists|b: Vec<u8>|
                {
                    &&& #[trigger] uniform_name.ensures((program, i as u32), b)
                    &&& if b@.len() > 0 {
                        Self::names_outcome(program, i + 1, count, names.push(utf8_lossy(b@)), uniform_name, r)
                    } else {
                        r matches Err(m) && m@ == "Failed to retrieve the name for uniform at index "@ + dec(i as nat)
                    }
                }
        }
    }

    /// The names of the program's active uniforms, in index order:
    /// `active_uniforms` tells how many there are and `uniform_name` the
    /// bytes of the name at an index (none when OpenGL gives none).
    pub fn get_all_uniform_names<N: Fn(u32) -> i32, U: Fn(u32, u32) -> Vec<u8>>(
        &self,
        active_uniforms: N,
        uniform_name: U,
    ) -> (r: Result<Vec<String>, String>)
        requires
            active_uniforms.requires((self.spec_id(),)),
            forall|p: u32, i: u32| uniform_name.requires((p, i)),
        ensures
            exists|count: i32|
                #[trigger] active_uniforms.ensures((self.spec_id(),), count) && Self::names_outcome(
                    self.spec_id(),
                    0,
                    count as int,
                    Seq::empty(),
                    uniform_name,
                    r,
                ),
    {
        let count = active_uniforms(self.id);
        let mut names: Vec<String> = Vec::new();
        let ghost mut found: Seq<Seq<char>> = Seq::empty();
        let mut i: i32 = 0;
        if count <= 0 {
            let r = Ok(names);
            assert(Self::names_outcome(self.spec_id(), 0, count as int, Seq::empty(), uniform_name, r));
            return r;
        }
        while i < count
            invariant
                0 <= i <= count,
                active_uniforms.ensures((self.spec_id(),), count),
                forall|p: u32, k: u32| uniform_name.requires((p, k)),
                names@.len() == found.len(),
                forall|k: int| 0 <= k < found.len() ==> #[trigger] names@[k]@ == found[k],
                forall|res: Result<Vec<String>, String>|
                    Self::names_outcome(self.spec_id(), i as int, count as int, found, uniform_name, res)
                        ==> #[trigger] Self::names_outcome(self.spec_id(), 0, count as int, Seq::empty(), uniform_name, res),
            decreases count - i,
        {
            let b = uniform_name(self.id, i as u32);
            if b.len() == 0 {
                let mut m = "Failed to retrieve the name for uniform at index ".to_owned();
                let n = i as u128;
                push_decimal(&mut m, n);
                let r = Err(m);
                assert(Self::names_outcome(self.spec_id(), i as int, count as int, found, uniform_name, r));
                return r;
            }
            let name = string_from_utf8_lossy(b.as_slice());
            let ghost before = found;
            names.push(name);
            proof {
                found = found.push(utf8_lossy(b@));
                assert forall|res: Result<Vec<String>, String>|
                    Self::names_outcome(self.spec_id(), i + 1, count as int, found, uniform_name, res)
                        implies #[trigger] Self::names_outcome(self.spec_id(), 0, count as int, Seq::empty(), uniform_name, res) by {
                    assert(uniform_name.ensures((self.spec_id(), i as u32), b));
                    assert(Self::names_outcome(self.spec_id(), i as int, count as int, before, uniform_name, res));
                }
            }
            i = i + 1;
        }
        let r = Ok(names);
        assert(Self::names_outcome(self.spec_id(), i as int, count as int, found, uniform_name, r));
        r
    }

    /// Whether a shader of type `shader_type` was given, as source or as file.
    pub fn is_type_defined(&self, shader_type: &ShaderType) -> (r: bool)
        ensures
            r == self.type_defined(*shader_type),
    {
        find_type(&self.shader_sources, *shader_type) || find_type(&self.shader_files, *shader_type)
    }

    /// Adds the shader file `file` for `shader_type`; refused when a shader
    /// of that type was given already.
    pub fn add_file(&mut self, shader_type: ShaderType, file: &str) -> (r: Result<(), String>)
        requires
            old(self).wf(),
        ensures
            final(self).wf(),
            final(self).spec_id() == old(self).spec_id(),
            final(self).uniforms() == old(self).uniforms(),
            final(self).sources() == old(self).sources(),
            old(self).type_defined(shader_type) ==> {
                &&& r matches Err(m) && m@ == "ShaderType already defined: "@ + shader_type.spec_name()
                &&& final(self).files() == old(self).files()
            },
            !old(self).type_defined(shader_type) ==> {
                &&& r is Ok
                &&& final(self).files().len() == old(self).files().len() + 1
                &&& final(self).files().drop_last() == old(self).files()
                &&& final(self).files().last().0 == shader_type
                &&& final(self).files().last().1@ == file@
            },
    {
        if self.is_type_defined(&shader_type) {
            return Err(concat2("ShaderType already defined: ", shader_type.to_string().as_str()));
        }
        self.shader_files.push((shader_type, file.to_owned()));
        assert(self.shader_files@.drop_last() =~= old(self).shader_files@);
        Ok(())
    }

    /// Adds the shader source `source` for `shader_type`; refused when a
    /// shader of that type was given already or when `source` is not UTF-8.
    pub fn add_source(&mut self, shader_type: ShaderType, source: &[u8]) -> (r: Result<(), String>)
        requires
            old(self).wf(),
        ensures
            final(self).wf(),
            final(self).spec_id() == old(self).spec_id(),
            final(self).uniforms() == old(self).uniforms(),
            final(self).files() == old(self).files(),
            old(self).type_defined(shader_type) ==> {
                &&& r matches Err(m) && m@ == "ShaderType already defined: "@ + shader_type.spec_name()
                &&& final(self).sources() == old(self).sources()
            },
            !old(self).type_defined(shader_type) && !vstd::utf8::valid_utf8(source@) ==> {
                &&& r matches Err(m) && m@.len() >= "Invalid UTF-8 sequence: "@.len()
                    && m@.take("Invalid UTF-8 sequence: "@.len() as int) == "Invalid UTF-8 sequence: "@
                &&& final(self).sources() == old(self).sources()
            },
            !old(self).type_defined(shader_type) && vstd::utf8::valid_utf8(source@) ==> {
                &&& r is Ok
                &&& final(self).sources().len() == old(self).sources().len() + 1
                &&& final(self).sources().drop_last() == old(self).sources()
                &&& final(self).sources().last().0 == shader_type
                &&& final(self).sources().last().1@ == vstd::utf8::decode_utf8(source@)
            },
    {
        if self.is_type_defined(&shader_type) {
            return Err(concat2("ShaderType already defined: ", shader_type.to_string().as_str()));
        }
        match str_from_utf8(source) {
            Ok(text) => {
                self.shader_sources.push((shader_type, text));
                assert(self.shader_sources@.drop_last() =~= old(self).shader_sources@);
                Ok(())
            },
            Err(e) => {
                let m = concat2("Invalid UTF-8 sequence: ", e.as_str());
                assert(m@.take("Invalid UTF-8 sequence: "@.len() as int) =~= "Invalid UTF-8 sequence: "@);
                Err(m)
            },
        }
    }

    /// Forgets the program's name, handing it back when there is one to delete.
    pub fn delete(&mut self) -> (r: Option<u32>)
        requires
            old(self).wf(),
        ensures
            final(self).wf(),
            final(self).spec_id() == 0,
            final(self).uniforms() == old(self).uniforms(),
            final(self).sources() == old(self).sources(),
            final(self).files() == old(self).files(),
            r == (if old(self).spec_id() != 0 { Some(old(self).spec_id()) } else { None }),
    {
        if self.id != 0 {
            let id = self.id;
            self.id = 0;
            Some(id)
        } else {
            None
        }
    }
}

// ---------------------------------------------------------------------------
// Building programs
// ---------------------------------------------------------------------------

/// The OpenGL calls that put a program together: create a program object,
/// attach a shader to it, link it (reporting a failure with its log),
/// detach a shader from it, and delete a shader.
pub struct ProgramCalls<C, A, K, D, E> {
    pub create: C,
    pub attach: A,
    pub link: K,
    pub detach: D,
    pub delete: E,
}

/// Each of the calls may be made with any arguments.
pub open spec fn calls_ready<
    C: Fn() -> u32,
    A: Fn(u32, u32) -> Result<(), String>,
    K: Fn(u32) -> Result<(), String>,
    D: Fn(u32, u32),
    E: Fn(u32),
>(gl: ProgramCalls<C, A, K, D, E>) -> bool {
    &&& gl.create.requires(())
    &&& forall|p: u32, s: u32| gl.attach.requires((p, s))
    &&& forall|p: u32| gl.link.requires((p,))
    &&& forall|p: u32, s: u32| gl.detach.requires((p, s))
    &&& forall|s: u32| gl.delete.requires((s,))
}

/// The position of the last `.` in `name`, or -1 when it has none.
pub open spec fn last_dot(name: Seq<char>) -> int
    decreases name.len(),
{
    if name.len() == 0 {
        -1
    } else if name.last() == '.' {
        name.len() - 1
    } else {
        last_dot(name.drop_last())
    }
}

/// The shader type that the extension of the file name `name` (what
/// follows its last `.`) stands for: `vert`, `frag`, `geom`, `comp`.
pub open spec fn file_shader_type(name: Seq<char>) -> Option<ShaderType> {
    let d = last_dot(name);
    if d < 0 {
        None
    } else {
        let ext = name.subrange(d + 1, name.len() as int);
        if ext == seq!['v', 'e', 'r', 't'] {
            Some(ShaderType::Vertex)
        } else if ext == seq!['f', 'r', 'a', 'g'] {
            Some(ShaderType::Fragment)
        } else if ext == seq!['g', 'e', 'o', 'm'] {
            Some(ShaderType::Geometry)
        } else if ext == seq!['c', 'o', 'm', 'p'] {
            Some(ShaderType::Compute)
        } else {
            None
        }
    }
}

proof fn lemma_last_dot(name: Seq<char>)
    ensures
        -1 <= last_dot(name) < name.len(),
        last_dot(name) >= 0 ==> name[last_dot(name)] == '.',
        forall|j: int| last_dot(name) < j < name.len() ==> name[j] != '.',
    decreases name.len(),
{
    if name.len() > 0 && name.last() != '.' {
        lemma_last_dot(name.drop_last());
        assert forall|j: int| last_dot(name) < j < name.len() implies name[j] != '.' by {
            if j < name.len() - 1 {
                assert(name.drop_last()[j] == name[j]);
            }
        }
    }
}

/// The four characters of `name` from `start` on are `c`.
fn chars_at(name: &str, start: usize, c: [char; 4]) -> (r: bool)
    requires
        start + 4 == name@.len(),
        name@.len() <= usize::MAX,
    ensures
        r == (name@.subrange(start as int, name@.len() as int) == seq![c[0], c[1], c[2], c[3]]),
{
    let ext = Ghost(name@.subrange(start as int, name@.len() as int));
    let r = name.get_char(start) == c[0] && name.get_char(start + 1) == c[1] && name.get_char(start + 2) == c[2]
        && name.get_char(start + 3) == c[3];
    if r {
        assert(ext@ =~= seq![c[0], c[1], c[2], c[3]]);
    } else {
        assert(ext@ != seq![c[0], c[1], c[2], c[3]]) by {
            if ext@ == seq![c[0], c[1], c[2], c[3]] {
                assert(ext@[0] == c[0] && ext@[1] == c[1] && ext@[2] == c[2] && ext@[3] == c[3]);
            }
        }
    }
    r
}

/// The shader type that the extension of `filename` stands for.
pub fn shader_type_of_file(filename: &str) -> (r: Option<ShaderType>)
    ensures
        r == file_shader_type(filename@),
{
    let n = filename.unicode_len();
    let mut found = false;
    let mut dot: usize = 0;
    let mut j: usize = 0;
    while j < n
        invariant
            j <= n,
            n == filename@.len(),
            found == (last_dot(filename@.subrange(0, j as int)) >= 0),
            found ==> dot == last_dot(filename@.subrange(0, j as int)),
        decreases n - j,
    {
        assert(filename@.subrange(0, j + 1).drop_last() =~= filename@.subrange(0, j as int));
        if filename.get_char(j) == '.' {
            found = true;
            dot = j;
        }
        j = j + 1;
    }
    assert(filename@.subrange(0, n as int) =~= filename@);
    proof {
        lemma_last_dot(filename@);
    }
    if !found || n - dot != 5 {
        proof {
            if found {
                let ext = filename@.subrange(dot + 1, n as int);
                assert(ext.len() != seq!['v', 'e', 'r', 't'].len());
                assert(ext != seq!['v', 'e', 'r', 't'] && ext != seq!['f', 'r', 'a', 'g'] && ext != seq!['g', 'e', 'o', 'm']
                    && ext != seq!['c', 'o', 'm', 'p']);
            }
        }
        return None;
    }
    if chars_at(filename, dot + 1, ['v', 'e', 'r', 't']) {
        Some(ShaderType::Vertex)
    } else if chars_at(filename, dot + 1, ['f', 'r', 'a', 'g']) {
        Some(ShaderType::Fragment)
    } else if chars_at(filename, dot + 1, ['g', 'e', 'o', 'm']) {
        Some(ShaderType::Geometry)
    } else if chars_at(filename, dot + 1, ['c', 'o', 'm', 'p']) {
        Some(ShaderType::Compute)
    } else {
        None
    }
}

/// What building a program from shader `files` (read with `read`) and
/// `sources` leads to, from the `i`-th file on, with `texts` the shader
/// texts read so far: each file is read; then a program object is created,
/// and the texts read followed by the sources are compiled with
/// `compile_shader`, in that order, and attached; then the program is
/// linked and the shaders deleted. The first failure is reported; a
/// success answers the program object.
pub open spec fn read_stage<
    T,
    R: Fn(&String) -> Result<String, String>,
    S: Fn(&String, T) -> Result<u32, String>,
    C: Fn() -> u32,
    A: Fn(u32, u32) -> Result<(), String>,
    K: Fn(u32) -> Result<(), String>,
    D: Fn(u32, u32),
    E: Fn(u32),
>(
    files: Seq<(T, String)>,
    sources: Seq<(T, String)>,
    i: int,
    texts: Seq<(T, String)>,
    read: R,
    compile_shader: S,
    gl: ProgramCalls<C, A, K, D, E>,
    r: Result<u32, String>,
) -> bool
    decreases files.len() - i,
{
    if i >= files.len() {
        exists|program: u32|
            #[trigger] gl.create.ensures((), program) && compile_stage(texts + sources, 0, Seq::empty(), program, compile_shader, gl, r)
    } else {
        exists|rr: Result<String, String>|
            {
                &&& #[trigger] read.ensures((&files[i].1,), rr)
                &&& match rr {
                    Err(e) => r == Err::<u32, String>(e),
                    Ok(text) => read_stage(files, sources, i + 1, texts.push((files[i].0, text)), read, compile_shader, gl, r),
                }
            }
    }
}

/// What compiling `texts[j..]` into shaders of the program object `program`
/// leads to, `ids` being the shaders compiled so far: each text is compiled
/// with `compile_shader` and the shader is attached to `program` (whatever
/// attaching answers); then the program is linked. The first failure is
/// reported; a success answers `program`, after every shader compiled has
/// been deleted.
pub open spec fn compile_stage<
    T,
    S: Fn(&String, T) -> Result<u32, String>,
    C: Fn() -> u32,
    A: Fn(u32, u32) -> Result<(), String>,
    K: Fn(u32) -> Result<(), String>,
    D: Fn(u32, u32),
    E: Fn(u32),
>(
    texts: Seq<(T, String)>,
    j: int,
    ids: Seq<u32>,
    program: u32,
    compile_shader: S,
    gl: ProgramCalls<C, A, K, D, E>,
    r: Result<u32, String>,
) -> bool
    decreases texts.len() - j,
{
    if j >= texts.len() {
        exists|lr: Result<(), String>|
            {
                &&& #[trigger] gl.link.ensures((program,), lr)
                &&& match lr {
                    Err(e) => r == Err::<u32, String>(e),
                    Ok(_) => {
                        &&& r == Ok::<u32, String>(program)
                        &&& forall|k: int| 0 <= k < ids.len() ==> #[trigger] gl.delete.ensures((ids[k],), ())
                    },
                }
            }
    } else {
        exists|cr: Result<u32, String>|
            {
                &&& #[trigger] compile_shader.ensures((&texts[j].1, texts[j].0), cr)
                &&& match cr {
                    Err(e) => r == Err::<u32, String>(e),
                    Ok(id) => exists|ar: Result<(), String>|
                        {
                            &&& #[trigger] gl.attach.ensures((program, id), ar)
                            &&& compile_stage(texts, j + 1, ids.push(id), program, compile_shader, gl, r)
                        },
                }
            }
    }
}

/// Builds a program object out of shader `files` (read with `read`) and
/// `sources`: each file is read; a program object is created; each shader
/// text (those read, then the sources) is compiled with `compile_shader`
/// and attached; the program is linked and the shaders are deleted.
pub fn build_program<
    T: Copy,
    R: Fn(&String) -> Result<String, String>,
    S: Fn(&String, T) -> Result<u32, String>,
    C: Fn() -> u32,
    A: Fn(u32, u32) -> Result<(), String>,
    K: Fn(u32) -> Result<(), String>,
    D: Fn(u32, u32),
    E: Fn(u32),
>(
    files: &Vec<(T, String)>,
    sources: &Vec<(T, String)>,
    read: R,
    compile_shader: S,
    gl: &ProgramCalls<C, A, K, D, E>,
) -> (r: Result<u32, String>)
    requires
        calls_ready(*gl),
        forall|f: &String| read.requires((f,)),
        forall|t: &String, st: T| compile_shader.requires((t, st)),
    ensures
        read_stage(files@, sources@, 0, Seq::empty(), read, compile_shader, *gl, r),
{
    let mut texts: Vec<(T, String)> = Vec::new();
    let mut i: usize = 0;
    while i < files.len()
        invariant
            i <= files@.len(),
            forall|f: &String| read.requires((f,)),
            forall|res: Result<u32, String>|
                read_stage(files@, sources@, i as int, texts@, read, compile_shader, *gl, res)
                    ==> #[trigger] read_stage(files@, sources@, 0, Seq::empty(), read, compile_shader, *gl, res),
        decreases files@.len() - i,
    {
        let rr = read(&files[i].1);
        match rr {
            Err(e) => {
                let r = Err(e);
                assert(read_stage(files@, sources@, i as int, texts@, read, compile_shader, *gl, r));
                return r;
            },
            Ok(text) => {
                let ghost before = texts@;
                texts.push((files[i].0, text));
                proof {
                    assert forall|res: Result<u32, String>|
                        read_stage(files@, sources@, i + 1, texts@, read, compile_shader, *gl, res)
                            implies #[trigger] read_stage(files@, sources@, 0, Seq::empty(), read, compile_shader, *gl, res) by {
                        assert(read.ensures((&files@[i as int].1,), rr));
                        assert(texts@ == before.push((files@[i as int].0, text)));
                        assert(read_stage(files@, sources@, i as int, before, read, compile_shader, *gl, res));
                    }
                }
            },
        }
        i = i + 1;
    }
    let ghost read_texts = texts@;
    let mut k: usize = 0;
    while k < sources.len()
        invariant
            k <= sources@.len(),
            texts@ == read_texts + sources@.take(k as int),
        decreases sources@.len() - k,
    {
        texts.push((sources[k].0, sources[k].1.clone()));
        assert(sources@.take(k + 1) =~= sources@.take(k as int).push(sources@[k as int]));
        k = k + 1;
    }
    assert(sources@.take(k as int) =~= sources@);
    let program = (gl.create)();
    proof {
        assert forall|res: Result<u32, String>|
            compile_stage(texts@, 0, Seq::empty(), program, compile_shader, *gl, res)
                implies #[trigger] read_stage(files@, sources@, 0, Seq::empty(), read, compile_shader, *gl, res) by {
            assert(read_stage(files@, sources@, i as int, read_texts, read, compile_shader, *gl, res));
        }
    }
    let mut ids: Vec<u32> = Vec::new();
    let mut j: usize = 0;
    while j < texts.len()
        invariant
            j <= texts@.len(),
            calls_ready(*gl),
            forall|t: &String, st: T| compile_shader.requires((t, st)),
            forall|res: Result<u32, String>|
                compile_stage(texts@, j as int, ids@, program, compile_shader, *gl, res)
                    ==> #[trigger] read_stage(files@, sources@, 0, Seq::empty(), read, compile_shader, *gl, res),
        decreases texts@.len() - j,
    {
        let ghost before = ids@;
        let cr = compile_shader(&texts[j].1, texts[j].0);
        match cr {
            Err(e) => {
                let r = Err(e);
                assert(compile_stage(texts@, j as int, ids@, program, compile_shader, *gl, r));
                return r;
            },
            Ok(id) => {
                let ar = (gl.attach)(program, id);
                ids.push(id);
                proof {
                    assert forall|res: Result<u32, String>|
                        compile_stage(texts@, j + 1, ids@, program, compile_shader, *gl, res)
                            implies #[trigger] read_stage(files@, sources@, 0, Seq::empty(), read, compile_shader, *gl, res) by {
                        assert(compile_shader.ensures((&texts@[j as int].1, texts@[j as int].0), cr));
                        assert(gl.attach.ensures((program, id), ar));
                        assert(ids@ == before.push(id));
                        assert(compile_stage(texts@, j as int, before, program, compile_shader, *gl, res));
                    }
                }
            },
        }
        j = j + 1;
    }
    let lr = (gl.link)(program);
    if let Err(e) = lr {
        let r = Err(e);
        assert(compile_stage(texts@, j as int, ids@, program, compile_shader, *gl, r));
        return r;
    }
    let mut m: usize = 0;
    while m < ids.len()
        invariant
            m <= ids@.len(),
            calls_ready(*gl),
            forall|k: int| 0 <= k < m ==> #[trigger] gl.delete.ensures((ids@[k],), ()),
        decreases ids@.len() - m,
    {
        (gl.delete)(ids[m]);
        m = m + 1;
    }
    let r = Ok(program);
    assert(compile_stage(texts@, j as int, ids@, program, compile_shader, *gl, r));
    r
}

/// The names of `shaders`, in order.
pub open spec fn shader_ids(shaders: Seq<Shader>) -> Seq<u32> {
    shaders.map_values(|s: Shader| s.spec_id())
}

impl ShaderProgram {
    /// A program as `new` gives it: no name, no uniforms, no shaders.
    pub open spec fn is_fresh(&self) -> bool {
        &&& self.wf()
        &&& self.spec_id() == 0
        &&& self.uniforms() == Map::<Seq<char>, i32>::empty()
        &&& self.sources() == Seq::<(ShaderType, String)>::empty()
        &&& self.files() == Seq::<(ShaderType, String)>::empty()
    }

    /// A program holding the program object `program`, with no uniforms and
    /// no shaders recorded.
    pub open spec fn is_linked_as(&self, program: u32) -> bool {
        &&& self.wf()
        &&& self.spec_id() == program
        &&& self.uniforms() == Map::<Seq<char>, i32>::empty()
        &&& self.sources() == Seq::<(ShaderType, String)>::empty()
        &&& self.files() == Seq::<(ShaderType, String)>::empty()
    }

    /// What building the program object `program` from the shader files
    /// `files[i..]` leads to, `ids` being the shaders attached so far: each
    /// file's extension names its type, the file is loaded with `load` and
    /// attached; then the program is linked. The first failure is reported;
    /// a success gives a fresh program, after every shader attached has been
    /// detached and (when it has a name) deleted.
    pub open spec fn files_outcome<
        C: Fn() -> u32,
        A: Fn(u32, u32) -> Result<(), String>,
        K: Fn(u32) -> Result<(), String>,
        D: Fn(u32, u32),
        E: Fn(u32),
        L: Fn(&str, ShaderType) -> Result<Shader, String>,
    >(
        files: Seq<&str>,
        i: int,
        ids: Seq<u32>,
        program: u32,
        gl: ProgramCalls<C, A, K, D, E>,
        load: L,
        r: Result<ShaderProgram, String>,
    ) -> bool
        decreases files.len() - i,
    {
        if i >= files.len() {
            exists|lr: Result<(), String>|
                {
                    &&& #[trigger] gl.link.ensures((program,), lr)
                    &&& match lr {
                        Err(e) => r == Err::<ShaderProgram, String>(e),
                        Ok(_) => {
                            &&& r matches Ok(p) && p.is_fresh()
                            &&& forall|k: int|
                                0 <= k < ids.len() ==> {
                                    &&& #[trigger] gl.detach.ensures((program, ids[k]), ())
                                    &&& ids[k] != 0 ==> gl.delete.ensures((ids[k],), ())
                                }
                        },
                    }
                }
        } else {
            match file_shader_type(files[i]@) {
                None => r matches Err(m) && m@ == "Unknown shader type: "@ + files[i]@,
                Some(t) => exists|ls: Result<Shader, String>|
                    {
                        &&& #[trigger] load.ensures((files[i], t), ls)
                        &&& match ls {
                            Err(_) => r matches Err(m) && m@ == "Failed loading shader: "@ + files[i]@,
                            Ok(s) => exists|ar: Result<(), String>|
                                {
                                    &&& #[trigger] gl.attach.ensures((program, s.spec_id()), ar)
                                    &&& match ar {
                                        Err(e) => r == Err::<ShaderProgram, String>(e),
                                        Ok(_) => Self::files_outcome(files, i + 1, ids.push(s.spec_id()), program, gl, load, r),
                                    }
                                }
                        }
                    },
            }
        }
    }

    /// A program from shader files whose types their extensions give
    /// (`.vert`, `.frag`, `.geom`, `.comp`): a program object is created,
    /// each file is loaded with `load` and attached to it, the program is
    /// linked, and the shaders are detached and deleted. Success gives a
    /// fresh program, as `new` does.
    pub fn from_files<
        C: Fn() -> u32,
        A: Fn(u32, u32) -> Result<(), String>,
        K: Fn(u32) -> Result<(), String>,
        D: Fn(u32, u32),
        E: Fn(u32),
        L: Fn(&str, ShaderType) -> Result<Shader, String>,
    >(shader_files: &[&str], gl: &ProgramCalls<C, A, K, D, E>, load: L) -> (r: Result<ShaderProgram, String>)
        requires
            calls_ready(*gl),
            forall|f: &str, t: ShaderType| load.requires((f, t)),
        ensures
            exists|program: u32|
                #[trigger] gl.create.ensures((), program) && Self::files_outcome(shader_files@, 0, Seq::empty(), program, *gl, load, r),
    {
        let program = (gl.create)();
        let mut shaders: Vec<Shader> = Vec::new();
        assert(shader_ids(shaders@) =~= Seq::<u32>::empty());
        let mut i: usize = 0;
        while i < shader_files.len()
            invariant
                i <= shader_files@.len(),
                calls_ready(*gl),
                forall|f: &str, t: ShaderType| load.requires((f, t)),
                gl.create.ensures((), program),
                shaders@.len() == i,
                forall|res: Result<ShaderProgram, String>|
                    Self::files_outcome(shader_files@, i as int, shader_ids(shaders@), program, *gl, load, res)
                        ==> #[trigger] Self::files_outcome(shader_files@, 0, Seq::empty(), program, *gl, load, res),
            decreases shader_files@.len() - i,
        {
            let filename = shader_files[i];
            let t = match shader_type_of_file(filename) {
                Some(t) => t,
                None => {
                    let r = Err(concat2("Unknown shader type: ", filename));
                    assert(Self::files_outcome(shader_files@, i as int, shader_ids(shaders@), program, *gl, load, r));
                    return r;
                },
            };
            let ls = load(filename, t);
            let shader = match ls {
                Ok(s) => s,
                Err(_) => {
                    let r = Err(concat2("Failed loading shader: ", filename));
                    assert(Self::files_outcome(shader_files@, i as int, shader_ids(shaders@), program, *gl, load, r));
                    return r;
                },
            };
            let ar = (gl.attach)(program, shader.get_shader_id());
            match ar {
                Err(e) => {
                    let r = Err(e);
                    assert(Self::files_outcome(shader_files@, i as int, shader_ids(shaders@), program, *gl, load, r));
                    return r;
                },
                Ok(()) => {},
            }
            let ghost before = shaders@;
            let ghost sid = shader.spec_id();
            shaders.push(shader);
            proof {
                assert(shader_ids(shaders@) =~= shader_ids(before).push(sid));
                assert forall|res: Result<ShaderProgram, String>|
                    Self::files_outcome(shader_files@, i + 1, shader_ids(shaders@), program, *gl, load, res)
                        implies #[trigger] Self::files_outcome(shader_files@, 0, Seq::empty(), program, *gl, load, res) by {
                    assert(load.ensures((shader_files@[i as int], t), ls));
                    assert(gl.attach.ensures((program, sid), ar));
                    assert(Self::files_outcome(shader_files@, i as int, shader_ids(before), program, *gl, load, res));
                }
            }
            i = i + 1;
        }
        let lr = (gl.link)(program);
        match lr {
            Err(e) => {
                let r = Err(e);
                assert(Self::files_outcome(shader_files@, i as int, shader_ids(shaders@), program, *gl, load, r));
                return r;
            },
            Ok(()) => {},
        }
        let mut k: usize = 0;
        while k < shaders.len()
            invariant
                k <= shaders@.len(),
                calls_ready(*gl),
                forall|n: int|
                    0 <= n < k ==> {
                        &&& #[trigger] gl.detach.ensures((program, shader_ids(shaders@)[n]), ())
                        &&& shader_ids(shaders@)[n] != 0 ==> gl.delete.ensures((shader_ids(shaders@)[n],), ())
                    },
            decreases shaders@.len() - k,
        {
            let id = shaders[k].get_shader_id();
            assert(shader_ids(shaders@)[k as int] == id);
            (gl.detach)(program, id);
            if id != 0 {
                (gl.delete)(id);
            }
            assert forall|n: int| 0 <= n < k + 1 implies {
                &&& #[trigger] gl.detach.ensures((program, shader_ids(shaders@)[n]), ())
                &&& shader_ids(shaders@)[n] != 0 ==> gl.delete.ensures((shader_ids(shaders@)[n],), ())
            } by {
                if n < k {
                    assert(gl.detach.ensures((program, shader_ids(shaders@)[n]), ()));
                }
            }
            k = k + 1;
        }
        let r = Ok(ShaderProgram::new());
        assert(Self::files_outcome(shader_files@, i as int, shader_ids(shaders@), program, *gl, load, r));
        r
    }

    /// Builds the program out of its shader files (read with `read`) and
    /// sources, as `build_program` does, and on success takes the linked
    /// program object as its name; a failure leaves the program as it was.
    pub fn compile<
        R: Fn(&String) -> Result<String, String>,
        S: Fn(&String, ShaderType) -> Result<u32, String>,
        C: Fn() -> u32,
        A: Fn(u32, u32) -> Result<(), String>,
        K: Fn(u32) -> Result<(), String>,
        D: Fn(u32, u32),
        E: Fn(u32),
    >(&mut self, read: R, compile_shader: S, gl: &ProgramCalls<C, A, K, D, E>) -> (r: Result<(), String>)
        requires
            old(self).wf(),
            calls_ready(*gl),
            forall|f: &String| read.requires((f,)),
            forall|t: &String, st: ShaderType| compile_shader.requires((t, st)),
        ensures
            final(self).wf(),
            exists|b: Result<u32, String>|
                {
                    &&& #[trigger] read_stage(old(self).files(), old(self).sources(), 0, Seq::empty(), read, compile_shader, *gl, b)
                    &&& match b {
                        Ok(program) => {
                            &&& r is Ok
                            &&& final(self).spec_id() == program
                            &&& final(self).uniforms() == old(self).uniforms()
                            &&& final(self).sources() == old(self).sources()
                            &&& final(self).files() == old(self).files()
                        },
                        Err(e) => r == Err::<(), String>(e) && *final(self) == *old(self),
                    }
                },
    {
        let b = build_program(&self.shader_files, &self.shader_sources, read, compile_shader, gl);
        assert(read_stage(self.files(), self.sources(), 0, Seq::empty(), read, compile_shader, *gl, b));
        match b {
            Ok(program) => {
                self.id = program;
                Ok(())
            },
            Err(e) => Err(e),
        }
    }

    /// What linking `vertex` and `fragment` into the program object
    /// `program` leads to: both are attached, in that order, and the program
    /// is linked; the first failure is reported. A success gives a program
    /// holding `program`, after both shaders have been detached and (when
    /// they have a name) deleted.
    pub open spec fn link_outcome<
        C: Fn() -> u32,
        A: Fn(u32, u32) -> Result<(), String>,
        K: Fn(u32) -> Result<(), String>,
        D: Fn(u32, u32),
        E: Fn(u32),
    >(program: u32, vertex: u32, fragment: u32, gl: ProgramCalls<C, A, K, D, E>, r: Result<ShaderProgram, String>) -> bool {
        exists|a1: Result<(), String>|
            {
                &&& #[trigger] gl.attach.ensures((program, vertex), a1)
                &&& match a1 {
                    Err(e) => r == Err::<ShaderProgram, String>(e),
                    Ok(_) => exists|a2: Result<(), String>|
                        {
                            &&& #[trigger] gl.attach.ensures((program, fragment), a2)
                            &&& match a2 {
                                Err(e) => r == Err::<ShaderProgram, String>(e),
                                Ok(_) => exists|lr: Result<(), String>|
                                    {
                                        &&& #[trigger] gl.link.ensures((program,), lr)
                                        &&& match lr {
                                            Err(e) => r == Err::<ShaderProgram, String>(e),
                                            Ok(_) => {
                                                &&& r matches Ok(p) && p.is_linked_as(program)
                                                &&& gl.detach.ensures((program, vertex), ())
                                                &&& gl.detach.ensures((program, fragment), ())
                                                &&& vertex != 0 ==> gl.delete.ensures((vertex,), ())
                                                &&& fragment != 0 ==> gl.delete.ensures((fragment,), ())
                                            },
                                        }
                                    },
                            }
                        },
                }
            }
    }

    /// Links a vertex and a fragment shader into a new program object;
    /// once linked, both are detached and deleted (their names are
    /// forgotten). Success gives a program that holds the new program object.
    pub fn new_dumb<
        C: Fn() -> u32,
        A: Fn(u32, u32) -> Result<(), String>,
        K: Fn(u32) -> Result<(), String>,
        D: Fn(u32, u32),
        E: Fn(u32),
    >(vertex_shader: &mut Shader, fragment_shader: &mut Shader, gl: &ProgramCalls<C, A, K, D, E>) -> (r: Result<ShaderProgram, String>)
        requires
            calls_ready(*gl),
        ensures
            exists|program: u32|
                #[trigger] gl.create.ensures((), program) && Self::link_outcome(
                    program,
                    old(vertex_shader).spec_id(),
                    old(fragment_shader).spec_id(),
                    *gl,
                    r,
                ),
            r is Ok ==> final(vertex_shader).spec_id() == 0 && final(fragment_shader).spec_id() == 0,
            r is Err ==> *final(vertex_shader) == *old(vertex_shader) && *final(fragment_shader) == *old(fragment_shader),
            final(vertex_shader).spec_file() == old(vertex_shader).spec_file(),
            final(fragment_shader).spec_file() == old(fragment_shader).spec_file(),
    {
        let program = (gl.create)();
        let vid = vertex_shader.get_shader_id();
        let fid = fragment_shader.get_shader_id();
        let a1 = (gl.attach)(program, vid);
        if let Err(e) = a1 {
            return Err(e);
        }
        let a2 = (gl.attach)(program, fid);
        if let Err(e) = a2 {
            return Err(e);
        }
        let lr = (gl.link)(program);
        if let Err(e) = lr {
            return Err(e);
        }
        (gl.detach)(program, vid);
        (gl.detach)(program, fid);
        if let Some(d) = vertex_shader.delete() {
            (gl.delete)(d);
        }
        if let Some(d) = fragment_shader.delete() {
            (gl.delete)(d);
        }
        let linked = ShaderProgram {
            id: program,
            uniform_ids: StrMap::new(),
            shader_sources: Vec::new(),
            shader_files: Vec::new(),
        };
        let r = Ok(linked);
        assert(Self::link_outcome(program, vid, fid, *gl, r));
        r
    }
}

// ---------------------------------------------------------------------------
// ShaderFactory
// ---------------------------------------------------------------------------

/// Builds shader programs out of a vertex and a fragment shader.
pub struct ShaderFactory;

impl ShaderFactory {
    /// What building a program from `vertex` and `fragment` with `make`
    /// (which compiles one shader) and the program calls `gl` leads to: the
    /// vertex shader is made first, then the fragment shader; then a program
    /// object is created and both are linked into it, as `new_dumb` does.
    /// The first failure is reported; a success gives a program holding the
    /// program object created, after both shaders have been detached from it
    /// and deleted.
    pub open spec fn build_outcome<
        M: Fn(&str, ShaderType) -> Result<Shader, String>,
        C: Fn() -> u32,
        A: Fn(u32, u32) -> Result<(), String>,
        K: Fn(u32) -> Result<(), String>,
        D: Fn(u32, u32),
        E: Fn(u32),
    >(
        vertex: &str,
        fragment: &str,
        make: M,
        gl: ProgramCalls<C, A, K, D, E>,
        r: Result<ShaderProgram, String>,
    ) -> bool {
        exists|rv: Result<Shader, String>|
            {
                &&& #[trigger] make.ensures((vertex, ShaderType::Vertex), rv)
                &&& match rv {
                    Err(e) => r == Err::<ShaderProgram, String>(e),
                    Ok(vs) => exists|rf: Result<Shader, String>|
                        {
                            &&& #[trigger] make.ensures((fragment, ShaderType::Fragment), rf)
                            &&& match rf {
                                Err(e) => r == Err::<ShaderProgram, String>(e),
                                Ok(fs) => exists|program: u32|
                                    #[trigger] gl.create.ensures((), program) && ShaderProgram::link_outcome(
                                        program,
                                        vs.spec_id(),
                                        fs.spec_id(),
                                        gl,
                                        r,
                                    ),
                            }
                        },
                }
            }
    }

    fn build<
        M: Fn(&str, ShaderType) -> Result<Shader, String>,
        C: Fn() -> u32,
        A: Fn(u32, u32) -> Result<(), String>,
        K: Fn(u32) -> Result<(), String>,
        D: Fn(u32, u32),
        E: Fn(u32),
    >(
        vertex: &str,
        fragment: &str,
        make: M,
        gl: &ProgramCalls<C, A, K, D, E>,
    ) -> (r: Result<ShaderProgram, String>)
        requires
            forall|s: &str, t: ShaderType| make.requires((s, t)),
            calls_ready(*gl),
        ensures
            Self::build_outcome(vertex, fragment, make, *gl, r),
    {
        let rv = make(vertex, ShaderType::Vertex);
        let mut vertex_shader = match rv {
            Ok(s) => s,
            Err(e) => {
                return Err(e);
            },
        };
        let rf = make(fragment, ShaderType::Fragment);
        let mut fragment_shader = match rf {
            Ok(s) => s,
            Err(e) => {
                if let Some(d) = vertex_shader.delete() {
                    (gl.delete)(d);
                }
                return Err(e);
            },
        };
        let r = ShaderProgram::new_dumb(&mut vertex_shader, &mut fragment_shader, gl);
        if let Some(d) = vertex_shader.delete() {
            (gl.delete)(d);
        }
        if let Some(d) = fragment_shader.delete() {
            (gl.delete)(d);
        }
        r
    }

    /// A program from the vertex and fragment shader sources, compiled with
    /// `compile` and linked into a new program object with the calls `gl`.
    pub fn from_source<
        M: Fn(&str, ShaderType) -> Result<Shader, String>,
        C: Fn() -> u32,
        A: Fn(u32, u32) -> Result<(), String>,
        K: Fn(u32) -> Result<(), String>,
        D: Fn(u32, u32),
        E: Fn(u32),
    >(
        vertex_shader: &str,
        fragment_shader: &str,
        compile: M,
        gl: &ProgramCalls<C, A, K, D, E>,
    ) -> (r: Result<ShaderProgram, String>)
        requires
            forall|s: &str, t: ShaderType| compile.requires((s, t)),
            calls_ready(*gl),
        ensures
            Self::build_outcome(vertex_shader, fragment_shader, compile, *gl, r),
    {
        Self::build(vertex_shader, fragment_shader, compile, gl)
    }

    /// A program from the vertex and fragment shader files, loaded with
    /// `load` and linked into a new program object with the calls `gl`.
    pub fn from_files<
        M: Fn(&str, ShaderType) -> Result<Shader, String>,
        C: Fn() -> u32,
        A: Fn(u32, u32) -> Result<(), String>,
        K: Fn(u32) -> Result<(), String>,
        D: Fn(u32, u32),
        E: Fn(u32),
    >(
        vertex_shader: &str,
        fragment_shader: &str,
        load: M,
        gl: &ProgramCalls<C, A, K, D, E>,
    ) -> (r: Result<ShaderProgram, String>)
        requires
            forall|s: &str, t: ShaderType| load.requires((s, t)),
            calls_ready(*gl),
        ensures
            Self::build_outcome(vertex_shader, fragment_shader, load, *gl, r),
    {
        Self::build(vertex_shader, fragment_shader, load, gl)
    }
}

// ---------------------------------------------------------------------------
// ShaderSource
// ---------------------------------------------------------------------------

/// Shader text, or the path of a file holding it, for one shader stage.
pub struct ShaderSource {
    pub shader_type: ShaderType,
    pub source: String,
    pub is_file: bool,
}

impl ShaderSource {
    /// A source is valid unless it is empty or whitespace only.
    pub fn is_valid(&self) -> (r: Result<(), String>)
        ensures
            r is Ok <==> !all_whitespace(self.source@),
            r matches Err(m) ==> m@ == "Empty shader source is invalid"@,
    {
        if str_is_blank(self.source.as_str()) {
            Err("Empty shader source is invalid".to_owned())
        } else {
            Ok(())
        }
    }

    pub fn from_file(shader_type: ShaderType, source: &str) -> (r: Self)
        ensures
            r.shader_type == shader_type,
            r.source@ == source@,
            r.is_file,
    {
        ShaderSource { shader_type, source: source.to_owned(), is_file: true }
    }

    pub fn from_source(shader_type: ShaderType, source: &str) -> (r: Self)
        ensures
            r.shader_type == shader_type,
            r.source@ == source@,
            !r.is_file,
    {
        ShaderSource { shader_type, source: source.to_owned(), is_file: false }
    }
}

// ---------------------------------------------------------------------------
// Compile and link errors
// ---------------------------------------------------------------------------

/// Which status OpenGL is asked for when checking an object for errors.
#[derive(Clone, Copy, Debug, PartialEq, Eq, Structural)]
pub enum StatusQuery {
    /// `glGetShaderiv` with `COMPILE_STATUS`, and the shader info log.
    ShaderCompileStatus,
    /// `glGetProgramiv` with `LINK_STATUS`, and the program info log.
    ProgramLinkStatus,
}

/// The status query made for an object checked as `shader_type`: the
/// compile status for "PROGRAM", the link status for anything else.
pub fn compile_status_query(shader_type: &str) -> (r: StatusQuery)
    ensures
        r == if shader_type@ == "PROGRAM"@ {
            StatusQuery::ShaderCompileStatus
        } else {
            StatusQuery::ProgramLinkStatus
        },
{
    if shader_type.to_owned() == "PROGRAM".to_owned() {
        StatusQuery::ShaderCompileStatus
    } else {
        StatusQuery::ProgramLinkStatus
    }
}

/// The text of an info log: the decoded log when it is UTF-8, a notice otherwise.
pub open spec fn log_text(info_log: Seq<u8>) -> Seq<char> {
    if vstd::utf8::valid_utf8(info_log) {
        vstd::utf8::decode_utf8(info_log)
    } else {
        "Failed to read log"@
    }
}

/// The error reported for a failed check of an object checked as `shader_type`.
pub open spec fn compile_error_message(shader_type: Seq<char>, info_log: Seq<u8>) -> Seq<char> {
    (if shader_type == "PROGRAM"@ {
        "ERROR::SHADER_COMPILATION_ERROR of type: "@
    } else {
        "ERROR::PROGRAM_LINKING_ERROR of type: "@
    }) + shader_type + "\n"@ + log_text(info_log) + "\n"@
}

/// Reports a failed compile or link: `success` is the status OpenGL gave
/// for the query `compile_status_query(shader_type)` and `info_log` the log
/// it wrote; a status of 0 is a failure.
pub fn check_compile_errors(shader_type: &str, success: i32, info_log: &[u8]) -> (r: Result<(), String>)
    ensures
        success != 0 ==> r is Ok,
        success == 0 ==> (r matches Err(m) && m@ == compile_error_message(shader_type@, info_log@)),
{
    if success != 0 {
        return Ok(());
    }
    let header = match compile_status_query(shader_type) {
        StatusQuery::ShaderCompileStatus => "ERROR::SHADER_COMPILATION_ERROR of type: ",
        StatusQuery::ProgramLinkStatus => "ERROR::PROGRAM_LINKING_ERROR of type: ",
    };
    let log = match str_from_utf8(info_log) {
        Ok(text) => text,
        Err(_) => "Failed to read log".to_owned(),
    };
    let mut m = concat3(header, shader_type, "\n");
    m.append(log.as_str());
    m.append("\n");
    Err(m)
}

/// After a file of type `t` was added, a shader of type `t` is defined, so
/// a further file or source of that type is refused.
pub proof fn lemma_type_defined_after_add(pre: ShaderProgram, post: ShaderProgram, t: ShaderType)
    requires
        post.files().len() == pre.files().len() + 1,
        post.files().drop_last() == pre.files(),
        post.files().last().0 == t,
    ensures
        post.type_defined(t),
{
    let i = post.files().len() - 1;
    assert(post.files()[i].0 == t);
}

/// A uniform location once found is kept: looking the same name up again
/// answers the same location, from the cache, and leaves the cache as it
/// is.
pub proof fn lemma_uniform_lookup_cached<L: Fn(u32, &str) -> i32>(
    p0: ShaderProgram,
    p1: ShaderProgram,
    p2: ShaderProgram,
    name: &str,
    lookup: L,
    r1: Result<i32, String>,
    r2: Result<i32, String>,
)
    requires
        ShaderProgram::lookup_outcome(p0, p1, name, lookup, r1),
        ShaderProgram::lookup_outcome(p1, p2, name, lookup, r2),
        r1 is Ok,
    ensures
        r2 == r1,
        p2.uniforms() == p1.uniforms(),
        p1.uniforms().contains_key(name@),
{
    if !p0.uniforms().contains_key(name@) {
        let loc = choose|loc: i32|
            {
                &&& #[trigger] lookup.ensures((p0.spec_id(), name), loc)
                &&& loc != -1 ==> r1 == Ok::<i32, String>(loc) && p1.uniforms() == p0.uniforms().insert(name@, loc)
                &&& loc == -1 ==> p1.uniforms() == p0.uniforms() && (r1 matches Err(m)
                    && m@ == "Uniform '"@ + name@ + "' not found in shader program"@)
            };
        assert(p1.uniforms().contains_key(name@));
    }
}

} // verus!
