//! Buffer objects: the data kept on the CPU side of an OpenGL buffer, with
//! the buffer's name, binding target and usage hint.
use vstd::prelude::*;
use crate::gl_types::{BufferType, BufferUsage};

verus! {

/// An OpenGL buffer object and the data last stored into it.
pub struct BufferObject<T> {
    id: u32,
    buffer_type: BufferType,
    buffer_usage: BufferUsage,
    data: Vec<T>,
}

impl<T> BufferObject<T> {
    pub closed spec fn spec_id(&self) -> u32 {
        self.id
    }

    pub closed spec fn spec_type(&self) -> BufferType {
        self.buffer_type
    }

    pub closed spec fn spec_usage(&self) -> BufferUsage {
        self.buffer_usage
    }

    pub closed spec fn spec_data(&self) -> Seq<T> {
        self.data@
    }

    /// The buffer `id` (as generated by OpenGL) holding `data`.
    pub fn new(id: u32, buffer_type: BufferType, usage: BufferUsage, data: Vec<T>) -> (r: BufferObject<T>)
        ensures
            r.spec_id() == id,
            r.spec_type() == buffer_type,
            r.spec_usage() == usage,
            r.spec_data() == data@,
    {
        BufferObject { id, buffer_type, buffer_usage: usage, data }
    }

    /// The buffer `id` holding no data.
    pub fn empty(id: u32, buffer_type: BufferType, usage: BufferUsage) -> (r: BufferObject<T>)
        ensures
            r.spec_id() == id,
            r.spec_type() == buffer_type,
            r.spec_usage() == usage,
            r.spec_data() == Seq::<T>::empty(),
    {
        Self::new(id, buffer_type, usage, Vec::new())
    }

    pub fn buffer_id(&self) -> (r: u32)
        ensures
            r == self.spec_id(),
    {
        self.id
    }

    pub fn buffer_type(&self) -> (r: BufferType)
        ensures
            r == self.spec_type(),
    {
        self.buffer_type
    }

    pub fn buffer_usage(&self) -> (r: BufferUsage)
        ensures
            r == self.spec_usage(),
    {
        self.buffer_usage
    }

    pub fn data(&self) -> (r: &Vec<T>)
        ensures
            r@ == self.spec_data(),
    {
        &self.data
    }

    pub fn data_len(&self) -> (r: usize)
        ensures
            r == self.spec_data().len(),
    {
        self.data.len()
    }

    /// The number of elements plus the size of one element.
    pub fn data_size(&self) -> (r: usize)
        requires
            self.spec_data().len() + vstd::layout::size_of::<T>() <= usize::MAX,
        ensures
            r == self.spec_data().len() + vstd::layout::size_of::<T>(),
    {
        self.data.len() + core::mem::size_of::<T>()
    }

    /// Replaces the data held by the buffer.
    pub fn update_data(&mut self, new_data: Vec<T>)
        ensures
            final(self).spec_data() == new_data@,
            final(self).spec_id() == old(self).spec_id(),
            final(self).spec_type() == old(self).spec_type(),
            final(self).spec_usage() == old(self).spec_usage(),
    {
        self.data = new_data;
    }

    /// Empties the data held by the buffer.
    pub fn clear_data(&mut self)
        ensures
            final(self).spec_data() == Seq::<T>::empty(),
            final(self).spec_id() == old(self).spec_id(),
            final(self).spec_type() == old(self).spec_type(),
            final(self).spec_usage() == old(self).spec_usage(),
    {
        self.data = Vec::new();
    }

    /// Forgets the buffer's name, handing it back when there is one to delete
    /// (a name of 0 denotes no buffer).
    pub fn delete(&mut self) -> (r: Option<u32>)
        ensures
            final(self).spec_id() == 0,
            r == (if old(self).spec_id() != 0 { Some(old(self).spec_id()) } else { None }),
            final(self).spec_data() == old(self).spec_data(),
            final(self).spec_type() == old(self).spec_type(),
            final(self).spec_usage() == old(self).spec_usage(),
    {
        if self.id != 0 {
            let id = self.id;
            self.id = 0;
            Some(id)
        } else {
            None
        }
    }
}

} // verus!
