//! Compiled shader objects.
use vstd::prelude::*;
use crate::gl_types::ShaderType;
use crate::text::concat2;

verus! {

/// A compiled shader object.
pub struct Shader {
    id: u32,
    shader_type: ShaderType,
    shader_file: Option<String>,
}

impl Shader {
    pub closed spec fn spec_id(&self) -> u32 {
        self.id
    }

    pub closed spec fn spec_file(&self) -> Option<String> {
        self.shader_file
    }

    pub closed spec fn spec_type(&self) -> ShaderType {
        self.shader_type
    }

    /// The shader object `id` (as created by OpenGL) of type `shader_type`,
    /// loaded from `shader_file` if given.
    pub fn new(id: u32, shader_type: ShaderType, shader_file: Option<String>) -> (r: Shader)
        ensures
            r.spec_id() == id,
            r.spec_type() == shader_type,
            r.spec_file() == shader_file,
    {
        Shader { id, shader_type, shader_file }
    }

    pub fn get_shader_id(&self) -> (r: u32)
        ensures
            r == self.spec_id(),
    {
        self.id
    }

    /// The path of the file the shader was loaded from, if any.
    pub fn get_shader_file(&self) -> (r: Option<&String>)
        ensures
            r == match self.spec_file() {
                Some(f) => Some(&f),
                None => None,
            },
    {
        self.shader_file.as_ref()
    }

    /// Compiles `source` as a vertex shader with `compile`; a failure is
    /// reported as a failure to load the vertex shader.
    pub fn load_vertex_shader<F: Fn(&str, ShaderType) -> Result<Shader, String>>(
        source: &str,
        compile: F,
    ) -> (r: Result<Shader, String>)
        requires
            compile.requires((source, ShaderType::Vertex)),
        ensures
            Self::load_outcome(source, ShaderType::Vertex, "Failed to load vertex shader: "@, compile, r),
    {
        match compile(source, ShaderType::Vertex) {
            Ok(s) => Ok(s),
            Err(e) => Err(concat2("Failed to load vertex shader: ", e.as_str())),
        }
    }

    /// Compiles `source` as a fragment shader with `compile`; a failure is
    /// reported as a failure to load the fragment shader.
    pub fn load_fragment_shader<F: Fn(&str, ShaderType) -> Result<Shader, String>>(
        source: &str,
        compile: F,
    ) -> (r: Result<Shader, String>)
        requires
            compile.requires((source, ShaderType::Fragment)),
        ensures
            Self::load_outcome(source, ShaderType::Fragment, "Failed to load fragment shader: "@, compile, r),
    {
        match compile(source, ShaderType::Fragment) {
            Ok(s) => Ok(s),
            Err(e) => Err(concat2("Failed to load fragment shader: ", e.as_str())),
        }
    }

    /// `r` is what `compile` gave for `source` as a shader of type `t`, its
    /// error message prefixed with `context`.
    pub open spec fn load_outcome<F: Fn(&str, ShaderType) -> Result<Shader, String>>(
        source: &str,
        t: ShaderType,
        context: Seq<char>,
        compile: F,
        r: Result<Shader, String>,
    ) -> bool {
        match r {
            Ok(s) => compile.ensures((source, t), Ok(s)),
            Err(m) => exists|e: String| #[trigger] compile.ensures((source, t), Err(e)) && m@ == context + e@,
        }
    }

    /// Forgets the shader's name, handing it back when there is one to delete.
    pub fn delete(&mut self) -> (r: Option<u32>)
        ensures
            final(self).spec_id() == 0,
            final(self).spec_file() == old(self).spec_file(),
            r == (if old(self).spec_id() != 0 { Some(old(self).spec_id()) } else { None }),
    {
        if self.id != 0 {
            let id = self.id;
            self.id = 0;
            Some(id)
        } else {
            None
        }
    }
}

} // verus!
