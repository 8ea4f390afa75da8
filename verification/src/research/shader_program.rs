//! A minimal shader program description: the shader sources and files of a
//! vertex and a fragment stage.
use vstd::prelude::*;
use crate::gl_enums;
use crate::gl_shader::{build_program, calls_ready, read_stage, ProgramCalls};
use crate::text::concat2;

verus! {

/// The two shader stages this program knows.
#[derive(Clone, Copy, Debug, PartialEq, Eq, Structural, Hash)]
pub enum ShaderType {
    Vertex,
    Fragment,
}

impl ShaderType {
    pub open spec fn spec_name(self) -> Seq<char> {
        match self {
            ShaderType::Vertex => "Vertex"@,
            ShaderType::Fragment => "Fragment"@,
        }
    }

    /// The variant's name as text, as it is displayed.
    pub fn to_string(&self) -> (r: String)
        ensures
            r@ == self.spec_name(),
    {
        match self {
            ShaderType::Vertex => "Vertex".to_owned(),
            ShaderType::Fragment => "Fragment".to_owned(),
        }
    }

    /// The OpenGL enumerant of the stage.
    pub fn to_gl_enum(&self) -> (r: u32)
        ensures
            r == match self {
                ShaderType::Vertex => gl_enums::VERTEX_SHADER,
                ShaderType::Fragment => gl_enums::FRAGMENT_SHADER,
            },
    {
        match self {
            ShaderType::Vertex => gl_enums::VERTEX_SHADER,
            ShaderType::Fragment => gl_enums::FRAGMENT_SHADER,
        }
    }
}

/// Some entry of `entries` is for stage `t`.
pub open spec fn has_stage(entries: Seq<(ShaderType, String)>, t: ShaderType) -> bool {
    exists|i: int| 0 <= i < entries.len() && (#[trigger] entries[i]).0 == t
}

fn find_stage(entries: &Vec<(ShaderType, String)>, t: ShaderType) -> (r: bool)
    ensures
        r == has_stage(entries@, t),
{
    let mut i: usize = 0;
    while i < entries.len()
        invariant
            i <= entries@.len(),
            forall|j: int| 0 <= j < i ==> (#[trigger] entries@[j]).0 != t,
        decreases entries@.len() - i,
    {
        if entries[i].0 == t {
            return true;
        }
        i = i + 1;
    }
    false
}

/// A shader program: its OpenGL name and the stages it is built from.
pub struct ShaderProgram {
    pub id: i32,
    shader_sources: Vec<(ShaderType, String)>,
    shader_files: Vec<(ShaderType, String)>,
}

impl ShaderProgram {
    /// The shader sources given, in order.
    pub closed spec fn sources(&self) -> Seq<(ShaderType, String)> {
        self.shader_sources@
    }

    /// The shader files given, in order.
    pub closed spec fn files(&self) -> Seq<(ShaderType, String)> {
        self.shader_files@
    }

    pub closed spec fn spec_id(&self) -> i32 {
        self.id
    }

    pub open spec fn type_defined(&self, t: ShaderType) -> bool {
        has_stage(self.sources(), t) || has_stage(self.files(), t)
    }

    pub fn new() -> (r: Self)
        ensures
            r.spec_id() == 0,
            r.sources() == Seq::<(ShaderType, String)>::empty(),
            r.files() == Seq::<(ShaderType, String)>::empty(),
    {
        ShaderProgram { id: 0, shader_sources: Vec::new(), shader_files: Vec::new() }
    }

    /// Adds the shader file `file` for `shader_type`; refused when the stage
    /// was given already.
    pub fn with_file(&mut self, shader_type: ShaderType, file: &str) -> (r: Result<&mut Self, String>)
        ensures
            old(self).type_defined(shader_type) ==> {
                &&& r matches Err(m) && m@ == "ShaderType already defined: "@ + shader_type.spec_name()
                &&& *final(self) == *old(self)
            },
            !old(self).type_defined(shader_type) ==> {
                &&& r matches Ok(s) && *final(self) == *final(s) && s.spec_id() == old(self).spec_id()
                    && s.sources() == old(self).sources() && s.files() == old(self).files().push(
                    (shader_type, s.files().last().1),
                ) && s.files().last().1@ == file@
            },
    {
        if self.is_type_defined(&shader_type) {
            return Err(concat2("ShaderType already defined: ", shader_type.to_string().as_str()));
        }
        let f = file.to_owned();
        let ghost fv = f;
        self.shader_files.push((shader_type, f));
        assert(self.files() =~= old(self).files().push((shader_type, fv)));
        Ok(self)
    }

    /// Adds the shader source `source` for `shader_type`; refused when the
    /// stage was given already.
    pub fn with_source(&mut self, shader_type: ShaderType, source: &str) -> (r: Result<&mut Self, String>)
        ensures
            old(self).type_defined(shader_type) ==> {
                &&& r matches Err(m) && m@ == "ShaderType already defined: "@ + shader_type.spec_name()
                &&& *final(self) == *old(self)
            },
            !old(self).type_defined(shader_type) ==> {
                &&& r matches Ok(s) && *final(self) == *final(s) && s.spec_id() == old(self).spec_id()
                    && s.files() == old(self).files() && s.sources() == old(self).sources().push(
                    (shader_type, s.sources().last().1),
                ) && s.sources().last().1@ == source@
            },
    {
        if self.is_type_defined(&shader_type) {
            return Err(concat2("ShaderType already defined: ", shader_type.to_string().as_str()));
        }
        let f = source.to_owned();
        let ghost fv = f;
        self.shader_sources.push((shader_type, f));
        assert(self.sources() =~= old(self).sources().push((shader_type, fv)));
        Ok(self)
    }

    /// Builds the program out of its shader files (read with `read`) and
    /// sources, as `build_program` does, and on success takes the linked
    /// program object as its name; a failure leaves the program as it was.
    pub fn compile<
        R: Fn(&String) -> Result<String, String>,
        S: Fn(&String, ShaderType) -> Result<u32, String>,
        C: Fn() -> u32,
        A: Fn(u32, u32) -> Result<(), String>,
        K: Fn(u32) -> Result<(), String>,
        D: Fn(u32, u32),
        E: Fn(u32),
    >(&mut self, read: R, compile_shader: S, gl: &ProgramCalls<C, A, K, D, E>) -> (r: Result<&mut Self, String>)
        requires
            calls_ready(*gl),
            forall|f: &String| read.requires((f,)),
            forall|t: &String, st: ShaderType| compile_shader.requires((t, st)),
        ensures
            exists|b: Result<u32, String>|
                {
                    &&& #[trigger] read_stage(old(self).files(), old(self).sources(), 0, Seq::empty(), read, compile_shader, *gl, b)
                    &&& match b {
                        Ok(program) => r matches Ok(s) && *final(self) == *final(s) && s.spec_id() == program as i32
                            && s.sources() == old(self).sources() && s.files() == old(self).files(),
                        Err(e) => r matches Err(m) && m == e && *final(self) == *old(self),
                    }
                },
    {
        let b = build_program(&self.shader_files, &self.shader_sources, read, compile_shader, gl);
        assert(read_stage(self.files(), self.sources(), 0, Seq::empty(), read, compile_shader, *gl, b));
        match b {
            Ok(program) => {
                self.id = program as i32;
                Ok(self)
            },
            Err(e) => Err(e),
        }
    }

    /// Whether the stage `shader_type` was given, as source or as file.
    pub fn is_type_defined(&self, shader_type: &ShaderType) -> (r: bool)
        ensures
            r == self.type_defined(*shader_type),
    {
        find_stage(&self.shader_sources, *shader_type) || find_stage(&self.shader_files, *shader_type)
    }

    /// The shader sources given, in order.
    pub fn shader_sources(&self) -> (r: &Vec<(ShaderType, String)>)
        ensures
            r@ == self.sources(),
    {
        &self.shader_sources
    }

    /// The shader files given, in order.
    pub fn shader_files(&self) -> (r: &Vec<(ShaderType, String)>)
        ensures
            r@ == self.files(),
    {
        &self.shader_files
    }
}

} // verus!
