//! Shader programs by name: the shader files registered under each name and
//! the programs compiled from them.
use vstd::prelude::*;
use crate::gl_shader::ShaderProgram;
use crate::str_map::StrMap;
use crate::text::concat2;

verus! {

/// Total number of files over the entries `e[0..n]`.
pub open spec fn file_count(e: Seq<(String, Vec<String>)>, n: int) -> nat
    decreases n,
{
    if n <= 0 {
        0
    } else {
        file_count(e, n - 1) + e[n - 1].1@.len()
    }
}

proof fn lemma_file_count_prefix(e: Seq<(String, Vec<String>)>, f: Seq<(String, Vec<String>)>, n: int)
    requires
        n <= e.len(),
        n <= f.len(),
        forall|j: int| 0 <= j < n ==> #[trigger] e[j] == f[j],
    ensures
        file_count(e, n) == file_count(f, n),
    decreases n,
{
    if n > 0 {
        lemma_file_count_prefix(e, f, n - 1);
        assert(e[n - 1] == f[n - 1]);
    }
}

proof fn lemma_file_count_push(e: Seq<(String, Vec<String>)>, x: (String, Vec<String>))
    ensures
        file_count(e.push(x), (e.len() + 1) as int) == file_count(e, e.len() as int) + x.1@.len(),
{
    lemma_file_count_prefix(e.push(x), e, e.len() as int);
}

/// Removing entry `i` takes its files out of the count of the first `n`
/// entries (`n` past `i`).
proof fn lemma_file_count_remove(e: Seq<(String, Vec<String>)>, i: int, n: int)
    requires
        0 <= i < n <= e.len(),
    ensures
        file_count(e.remove(i), n - 1) + e[i].1@.len() == file_count(e, n),
    decreases n - i,
{
    if n == i + 1 {
        lemma_file_count_prefix(e.remove(i), e, i);
    } else {
        lemma_file_count_remove(e, i, n - 1);
        assert(e.remove(i)[n - 2] == e[n - 1]);
    }
}

/// The message of an error; empty for a success.
pub open spec fn err_text<T>(r: Result<T, String>) -> Seq<char> {
    match r {
        Err(m) => m@,
        Ok(_) => Seq::empty(),
    }
}

/// Shader files registered under names, and the programs compiled from them.
pub struct ShaderManager {
    shaders: StrMap<Vec<String>>,
    shader_programs: StrMap<ShaderProgram>,
}

impl ShaderManager {
    /// The shader files registered under each name.
    pub closed spec fn shaders(&self) -> Map<Seq<char>, Vec<String>> {
        self.shaders.view()
    }

    /// The compiled programs by name.
    pub closed spec fn programs(&self) -> Map<Seq<char>, ShaderProgram> {
        self.shader_programs.view()
    }

    /// The number of registered shader files, over all names.
    pub closed spec fn spec_shader_count(&self) -> nat {
        file_count(self.shaders.entries(), self.shaders.entries().len() as int)
    }

    /// With no name registered, no shader file is counted.
    pub proof fn lemma_shader_count_empty(&self)
        requires
            self.wf(),
            self.shaders().dom().len() == 0,
        ensures
            self.spec_shader_count() == 0,
    {
        self.shaders.lemma_dom_len();
    }

    pub closed spec fn wf(&self) -> bool {
        &&& self.shaders.wf()
        &&& self.shader_programs.wf()
        &&& forall|k: Seq<char>| #[trigger] self.shader_programs.view().contains_key(k) ==> self.shader_programs.view()[k].wf()
    }

    pub fn new() -> (r: Self)
        ensures
            r.wf(),
            r.shaders() == Map::<Seq<char>, Vec<String>>::empty(),
            r.programs() == Map::<Seq<char>, ShaderProgram>::empty(),
            r.spec_shader_count() == 0,
    {
        ShaderManager { shaders: StrMap::new(), shader_programs: StrMap::new() }
    }

    /// Registers the shader file `file_path` under `key`, after the files
    /// registered under it so far.
    pub fn add_shader(&mut self, key: String, file_path: String)
        requires
            old(self).wf(),
        ensures
            final(self).wf(),
            final(self).programs() == old(self).programs(),
            final(self).shaders().dom() == old(self).shaders().dom().insert(key@),
            final(self).shaders().remove(key@) == old(self).shaders().remove(key@),
            final(self).shaders()[key@]@ == (if old(self).shaders().contains_key(key@) {
                old(self).shaders()[key@]@
            } else {
                Seq::<String>::empty()
            }).push(file_path),
            final(self).spec_shader_count() == old(self).spec_shader_count() + 1,
    {
        let mut files = match self.shaders.remove(key.as_str()) {
            Some(v) => v,
            None => Vec::new(),
        };
        let ghost before = files@;
        files.push(file_path);
        let ghost after = files;
        let ghost mid = self.shaders.view();
        let ghost mid_entries = self.shaders.entries();
        self.shaders.insert(key, files);
        proof {
            assert(self.shaders.view().remove(key@) =~= old(self).shaders.view().remove(key@));
            assert(self.shaders.view().dom() =~= old(self).shaders.view().dom().insert(key@));
            let e0 = old(self).shaders.entries();
            let e2 = self.shaders.entries();
            if old(self).shaders.view().contains_key(key@) {
                let i = choose|i: int|
                    #![trigger e0[i]]
                    {
                        &&& 0 <= i < e0.len()
                        &&& e0[i].0@ == key@
                        &&& e0[i].1 == old(self).shaders.view()[key@]
                        &&& mid_entries == e0.remove(i)
                    };
                lemma_file_count_remove(e0, i, e0.len() as int);
                lemma_file_count_push(mid_entries, (key, after));
            } else {
                lemma_file_count_push(e0, (key, after));
            }
        }
    }

    /// The number of registered shader files, over all names.
    pub fn shader_count(&self) -> (r: usize)
        requires
            self.wf(),
            self.spec_shader_count() <= usize::MAX,
        ensures
            r == self.spec_shader_count(),
    {
        let n = self.shaders.len();
        let ghost e = self.shaders.entries();
        let mut total: usize = 0;
        let mut i: usize = 0;
        while i < n
            invariant
                self.wf(),
                e == self.shaders.entries(),
                n == e.len(),
                i <= n,
                total == file_count(e, i as int),
                file_count(e, n as int) <= usize::MAX,
            decreases n - i,
        {
            let (_, files) = self.shaders.entry_at(i);
            proof { Self::lemma_file_count_monotone(e, i as int + 1, n as int); }
            total = total + files.len();
            i = i + 1;
        }
        total
    }

    proof fn lemma_file_count_monotone(e: Seq<(String, Vec<String>)>, i: int, j: int)
        requires
            0 <= i <= j,
        ensures
            file_count(e, i) <= file_count(e, j),
        decreases j - i,
    {
        if i < j {
            Self::lemma_file_count_monotone(e, i, j - 1);
        }
    }

    /// The names shader files are registered under, each once.
    pub fn get_shader_keys(&self) -> (r: Vec<String>)
        requires
            self.wf(),
        ensures
            r@.len() == self.shaders().len(),
            forall|i: int| 0 <= i < r@.len() ==> self.shaders().contains_key(#[trigger] r@[i]@),
            forall|k: Seq<char>| self.shaders().contains_key(k) ==> exists|i: int| 0 <= i < r@.len() && #[trigger] r@[i]@ == k,
    {
        self.shaders.keys()
    }

    /// The names of the compiled programs, each once.
    pub fn get_shader_program_keys(&self) -> (r: Vec<String>)
        requires
            self.wf(),
        ensures
            r@.len() == self.programs().len(),
            forall|i: int| 0 <= i < r@.len() ==> self.programs().contains_key(#[trigger] r@[i]@),
            forall|k: Seq<char>| self.programs().contains_key(k) ==> exists|i: int| 0 <= i < r@.len() && #[trigger] r@[i]@ == k,
    {
        self.shader_programs.keys()
    }

    /// What compiling the files of `key` leads to: `compile` is given them;
    /// its program is stored under `key`, its error is reported.
    pub open spec fn compile_outcome<C: Fn(&Vec<String>) -> Result<ShaderProgram, String>>(
        pre: ShaderManager,
        post: ShaderManager,
        key: Seq<char>,
        compile: C,
        ok: bool,
        err: Seq<char>,
    ) -> bool {
        &&& post.shaders() == pre.shaders()
        &&& post.spec_shader_count() == pre.spec_shader_count()
        &&& pre.shaders().contains_key(key)
        &&& exists|res: Result<ShaderProgram, String>|
            {
                &&& #[trigger] compile.ensures((&pre.shaders()[key],), res)
                &&& match res {
                    Ok(p) => ok && post.programs() == pre.programs().insert(key, p),
                    Err(e) => !ok && e@ == err && post.programs() == pre.programs(),
                }
            }
    }

    /// Compiles the files registered under `key` with `compile` and stores
    /// the program under `key`.
    pub fn compile_shader<C: Fn(&Vec<String>) -> Result<ShaderProgram, String>>(
        &mut self,
        key: &str,
        compile: C,
    ) -> (r: Result<&ShaderProgram, String>)
        requires
            old(self).wf(),
            forall|paths: &Vec<String>| compile.requires((paths,)),
            forall|paths: &Vec<String>, p: ShaderProgram| compile.ensures((paths,), Ok(p)) ==> p.wf(),
        ensures
            final(self).wf(),
            !old(self).shaders().contains_key(key@) ==> {
                &&& r matches Err(m) && m@ == "No shader found for key: "@ + key@
                &&& *final(self) == *old(self)
            },
            old(self).shaders().contains_key(key@) ==> Self::compile_outcome(
                *old(self),
                *final(self),
                key@,
                compile,
                r is Ok,
                match r {
                    Err(m) => m@,
                    Ok(_) => Seq::empty(),
                },
            ),
            r matches Ok(p) ==> *p == final(self).programs()[key@],
    {
        let program = match self.shaders.get(key) {
            Some(paths) => compile(paths),
            None => {
                return Err(concat2("No shader found for key: ", key));
            },
        };
        let ghost res = program;
        match program {
            Ok(p) => {
                self.shader_programs.insert(key.to_owned(), p);
                match self.shader_programs.get(key) {
                    Some(p) => Ok(p),
                    None => Err(concat2("Failed to retrieve newly compiled shader program: ", key)),
                }
            },
            Err(e) => Err(e),
        }
    }

    /// The program stored under `key`; when there is none but files are
    /// registered under `key`, they are compiled with `compile` first.
    pub fn get_shader<C: Fn(&Vec<String>) -> Result<ShaderProgram, String>>(
        &mut self,
        key: &str,
        compile: C,
    ) -> (r: Result<&ShaderProgram, String>)
        requires
            old(self).wf(),
            forall|paths: &Vec<String>| compile.requires((paths,)),
            forall|paths: &Vec<String>, p: ShaderProgram| compile.ensures((paths,), Ok(p)) ==> p.wf(),
        ensures
            final(self).wf(),
            old(self).programs().contains_key(key@) ==> {
                &&& *final(self) == *old(self)
                &&& r matches Ok(p) && *p == old(self).programs()[key@]
            },
            !old(self).programs().contains_key(key@) && !old(self).shaders().contains_key(key@) ==> {
                &&& r matches Err(m) && m@ == "No shader found for key: "@ + key@
                &&& *final(self) == *old(self)
            },
            !old(self).programs().contains_key(key@) && old(self).shaders().contains_key(key@)
                ==> Self::compile_outcome(
                *old(self),
                *final(self),
                key@,
                compile,
                r is Ok,
                match r {
                    Err(m) => m@,
                    Ok(_) => Seq::empty(),
                },
            ),
            r matches Ok(p) ==> *p == final(self).programs()[key@],
    {
        if self.shader_programs.contains_key(key) {
            return match self.shader_programs.get(key) {
                Some(p) => Ok(p),
                None => Err(concat2("No shader found for key: ", key)),
            };
        }
        if !self.shaders.contains_key(key) {
            return Err(concat2("No shader found for key: ", key));
        }
        self.compile_shader(key, compile)
    }

    /// Mutable access to the program stored under `key`; when there is none
    /// but files are registered under `key`, they are compiled with
    /// `compile` first.
    pub fn get_shader_mut<C: Fn(&Vec<String>) -> Result<ShaderProgram, String>>(
        &mut self,
        key: &str,
        compile: C,
    ) -> (r: Result<&mut ShaderProgram, String>)
        requires
            old(self).wf(),
            forall|paths: &Vec<String>| compile.requires((paths,)),
            forall|paths: &Vec<String>, p: ShaderProgram| compile.ensures((paths,), Ok(p)) ==> p.wf(),
        ensures
            !old(self).programs().contains_key(key@) && !old(self).shaders().contains_key(key@) ==> {
                &&& r matches Err(m) && m@ == "No shader found for key: "@ + key@
                &&& *final(self) == *old(self)
            },
            old(self).programs().contains_key(key@) || old(self).shaders().contains_key(key@) ==> exists|mid: ShaderManager|
                {
                    &&& #[trigger] mid.wf()
                    &&& old(self).programs().contains_key(key@) ==> mid == *old(self)
                    &&& !old(self).programs().contains_key(key@) ==> Self::compile_outcome(
                        *old(self),
                        mid,
                        key@,
                        compile,
                        r is Ok,
                        err_text(r),
                    )
                    &&& r is Err ==> *final(self) == mid
                    &&& r matches Ok(p) ==> {
                        &&& *p == mid.programs()[key@]
                        &&& final(self).shaders() == mid.shaders()
                        &&& final(self).spec_shader_count() == mid.spec_shader_count()
                        &&& final(self).programs() == mid.programs().insert(key@, *final(p))
                    }
                },
    {
        if !self.shader_programs.contains_key(key) {
            if !self.shaders.contains_key(key) {
                return Err(concat2("No shader found for key: ", key));
            }
            match self.compile_shader(key, compile) {
                Ok(_) => {},
                Err(e) => {
                    return Err(e);
                },
            }
        }
        let ghost mid = *self;
        assert(mid.wf());
        match self.shader_programs.get_mut(key) {
            Some(p) => Ok(p),
            None => Err(concat2("No shader found for key: ", key)),
        }
    }
}

} // verus!
