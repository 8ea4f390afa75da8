//! Vertex array objects identified by their OpenGL name.
use vstd::prelude::*;

verus! {

/// A vertex array object.
pub struct VertexArrayObject {
    id: u32,
}

impl VertexArrayObject {
    pub closed spec fn spec_id(&self) -> u32 {
        self.id
    }

    /// The vertex array object OpenGL generated as `generated_id`; 0 means
    /// that none was generated.
    pub fn new_without_bind(generated_id: u32) -> (r: Result<VertexArrayObject, String>)
        ensures
            generated_id == 0 ==> (r matches Err(m) && m@ == "Failed to generate a vertex array object"@),
            generated_id != 0 ==> (r matches Ok(v) && v.spec_id() == generated_id),
    {
        if generated_id == 0 {
            return Err("Failed to generate a vertex array object".to_owned());
        }
        Ok(VertexArrayObject { id: generated_id })
    }

    /// Returns the identifier of the vertex array.
    pub fn array_id(&self) -> (r: u32)
        ensures
            r == self.spec_id(),
    {
        self.id
    }

    /// Forgets the array's name, handing it back when there is one to delete.
    pub fn delete(&mut self) -> (r: Option<u32>)
        ensures
            final(self).spec_id() == 0,
            r == (if old(self).spec_id() != 0 { Some(old(self).spec_id()) } else { None }),
    {
        if self.id != 0 {
            let id = self.id;
            self.id = 0;
            Some(id)
        } else {
            None
        }
    }
}

} // verus!
