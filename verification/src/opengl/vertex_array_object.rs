//! A vertex array object together with the layout of the data it draws and
//! the state of that layout on the GPU.
use vstd::prelude::*;
use crate::gl_types::{VertexAttributeType, VertexDataType};
use crate::opengl::vertex_attribute::VertexAttribute;
use crate::opengl::vertex_layout::layout_bytes;

verus! {

/// Where the layout data of a vertex array object stands.
#[derive(Clone, Copy, Debug, PartialEq, Eq, Structural)]
pub enum RenderDataState {
    /// There is no layout.
    Absent,
    /// A layout was given and has not been uploaded yet.
    Provided,
    /// The layout has been uploaded.
    Uploaded,
    /// The layout was replaced after an upload and must be uploaded again.
    NeedsUpdate,
}

/// The arguments of one `glVertexAttribPointer` call made when a layout is
/// uploaded (the array at `index` is enabled right after).
#[derive(Clone, Copy, Debug, PartialEq, Eq, Structural)]
pub struct UploadPointer {
    pub index: u32,
    pub components: i32,
    pub data_type: u32,
    pub normalized: bool,
    pub stride: i32,
    pub offset: usize,
}

/// The layout can be uploaded: no attribute has a negative stride and the
/// size of a whole vertex fits an `i32`.
pub open spec fn uploadable(attrs: Seq<VertexAttribute>) -> bool {
    &&& forall|i: int| 0 <= i < attrs.len() ==> #[trigger] attrs[i].stride >= 0
    &&& layout_bytes(attrs, attrs.len() as int) <= i32::MAX
}

/// The pointer uploaded for attribute `i`: a stride of 0 stands for the size
/// of a whole vertex and an offset of 0 for the size of the attributes before it.
pub open spec fn upload_pointer(attrs: Seq<VertexAttribute>, i: int) -> UploadPointer {
    let a = attrs[i];
    UploadPointer {
        index: i as u32,
        components: a.components as i32,
        data_type: a.data_type.spec_gl_enum(),
        normalized: a.normalized,
        stride: if a.stride > 0 { a.stride } else { layout_bytes(attrs, attrs.len() as int) as i32 },
        offset: if a.offset != 0 { a.offset as usize } else { layout_bytes(attrs, i) as usize },
    }
}

/// The pointer uploaded for attribute `i` is for attribute array `i`; its
/// component count, type and normalization are the attribute's own; its
/// stride is the attribute's when positive, else the size of a whole vertex.
pub proof fn lemma_upload_pointer_fields(attrs: Seq<VertexAttribute>, i: int)
    requires
        0 <= i < attrs.len(),
        i <= u32::MAX,
    ensures
        upload_pointer(attrs, i).index == i,
        upload_pointer(attrs, i).components == attrs[i].components,
        upload_pointer(attrs, i).normalized == attrs[i].normalized,
        attrs[i].stride > 0 ==> upload_pointer(attrs, i).stride == attrs[i].stride,
        attrs[i].offset != 0 ==> upload_pointer(attrs, i).offset == attrs[i].offset,
{
}

/// Two attributes that set no offset of their own are uploaded as far apart
/// as the sizes of the attributes between them add up to.
pub proof fn lemma_upload_offsets_apart(attrs: Seq<VertexAttribute>, i: int, j: int)
    requires
        0 <= i <= j < attrs.len(),
        attrs[i].offset == 0,
        attrs[j].offset == 0,
        layout_bytes(attrs, attrs.len() as int) <= usize::MAX,
    ensures
        upload_pointer(attrs, j).offset - upload_pointer(attrs, i).offset == layout_bytes(attrs, j) - layout_bytes(attrs, i),
{
    lemma_layout_bytes_monotone(attrs, i, j);
    lemma_layout_bytes_monotone(attrs, j, attrs.len() as int);
}

proof fn lemma_layout_bytes_monotone(attrs: Seq<VertexAttribute>, i: int, j: int)
    requires
        0 <= i <= j,
    ensures
        layout_bytes(attrs, i) <= layout_bytes(attrs, j),
    decreases j - i,
{
    if i < j {
        lemma_layout_bytes_monotone(attrs, i, j - 1);
    }
}

struct LayoutData {
    layout: Vec<VertexAttribute>,
    layout_data_state: RenderDataState,
}

/// A vertex array object and the layout of the vertex data it draws.
pub struct VertexArrayObject {
    id: u32,
    layout: Option<LayoutData>,
}

impl VertexArrayObject {
    pub closed spec fn spec_id(&self) -> u32 {
        self.id
    }

    /// The attributes of the layout, if there is one.
    pub closed spec fn spec_layout(&self) -> Option<Seq<VertexAttribute>> {
        match self.layout {
            Some(d) => Some(d.layout@),
            None => None,
        }
    }

    /// The state of the layout; `None` without a layout.
    pub closed spec fn spec_state(&self) -> RenderDataState {
        match self.layout {
            Some(d) => d.layout_data_state,
            None => RenderDataState::Absent,
        }
    }

    pub closed spec fn wf(&self) -> bool {
        self.layout matches Some(d) ==> d.layout_data_state != RenderDataState::Absent
    }

    /// The state after a new layout is given in state `s`.
    pub open spec fn state_after_set(s: RenderDataState) -> RenderDataState {
        match s {
            RenderDataState::Absent | RenderDataState::Provided => RenderDataState::Provided,
            RenderDataState::Uploaded | RenderDataState::NeedsUpdate => RenderDataState::NeedsUpdate,
        }
    }

    /// The layout must be uploaded before rendering.
    pub open spec fn needs_upload(&self) -> bool {
        self.spec_state() == RenderDataState::Provided || self.spec_state() == RenderDataState::NeedsUpdate
    }

    /// The vertex array object `id` (as generated by OpenGL) without a layout.
    pub fn new(id: u32) -> (r: Self)
        ensures
            r.wf(),
            r.spec_id() == id,
            r.spec_layout() is None,
            r.spec_state() == RenderDataState::Absent,
    {
        VertexArrayObject { id, layout: None }
    }

    /// The vertex array object `id` with a layout of clones of `attributes`.
    pub fn new_with_attributes(id: u32, attributes: &[VertexAttribute]) -> (r: Self)
        ensures
            r.wf(),
            r.spec_id() == id,
            r.spec_layout() == Some(attributes@),
            r.spec_state() == RenderDataState::Provided,
    {
        let mut vao = VertexArrayObject::new(id);
        vao.set_layout(attributes);
        vao
    }

    /// The vertex array object `id` with a layout of named float attributes
    /// of the given kinds.
    pub fn new_with_attribute_types(id: u32, attribute_types: &[VertexAttributeType]) -> (r: Self)
        ensures
            r.wf(),
            r.spec_id() == id,
            r.spec_state() == RenderDataState::Provided,
            r.spec_layout() matches Some(attrs) && attrs.len() == attribute_types@.len() && forall|i: int|
                0 <= i < attrs.len() ==> {
                    let a = #[trigger] attrs[i];
                    let t = attribute_types@[i];
                    &&& a.name matches Some(n) && n@ == t.spec_name()
                    &&& a.components == t.spec_components()
                    &&& a.data_type == VertexDataType::Float
                    &&& !a.normalized && a.stride == 0 && a.offset == 0
                },
    {
        let mut attributes: Vec<VertexAttribute> = Vec::new();
        let mut i: usize = 0;
        while i < attribute_types.len()
            invariant
                i <= attribute_types@.len(),
                attributes@.len() == i,
                forall|j: int| 0 <= j < i ==> {
                    let a = #[trigger] attributes@[j];
                    let t = attribute_types@[j];
                    &&& a.name matches Some(n) && n@ == t.spec_name()
                    &&& a.components == t.spec_components()
                    &&& a.data_type == VertexDataType::Float
                    &&& !a.normalized && a.stride == 0 && a.offset == 0
                },
            decreases attribute_types@.len() - i,
        {
            let t = attribute_types[i];
            let name = match t {
                VertexAttributeType::Position => "position",
                VertexAttributeType::Position2D => "position",
                VertexAttributeType::Color => "color",
                VertexAttributeType::TexCoord => "tex_coord",
                VertexAttributeType::Normal => "normal",
            };
            let (components, _, _) = t.to_gl_data();
            let a = VertexAttribute::new(components as u8, VertexDataType::Float).name(Some(name.to_owned()));
            attributes.push(a);
            i = i + 1;
        }
        Self::new_with_attributes(id, attributes.as_slice())
    }

    /// Returns the identifier of the vertex array.
    pub fn array_id(&self) -> (r: u32)
        ensures
            r == self.spec_id(),
    {
        self.id
    }

    /// Forgets the array's name, handing it back when there is one to
    /// delete; the layout stays.
    pub fn delete(&mut self) -> (r: Option<u32>)
        requires
            old(self).wf(),
        ensures
            final(self).wf(),
            final(self).spec_id() == 0,
            final(self).spec_layout() == old(self).spec_layout(),
            final(self).spec_state() == old(self).spec_state(),
            r == (if old(self).spec_id() != 0 { Some(old(self).spec_id()) } else { None }),
    {
        if self.id != 0 {
            let id = self.id;
            self.id = 0;
            Some(id)
        } else {
            None
        }
    }

    /// The current state of the layout data.
    pub fn get_layout_state(&self) -> (r: RenderDataState)
        ensures
            r == self.spec_state(),
    {
        match &self.layout {
            Some(d) => d.layout_data_state,
            None => RenderDataState::Absent,
        }
    }

    /// Replaces the layout by clones of `attributes`; a layout that had been
    /// uploaded now needs an update.
    pub fn set_layout(&mut self, attributes: &[VertexAttribute])
        requires
            old(self).wf(),
        ensures
            final(self).wf(),
            final(self).spec_id() == old(self).spec_id(),
            final(self).spec_layout() == Some(attributes@),
            final(self).spec_state() == Self::state_after_set(old(self).spec_state()),
    {
        let new_state = match self.get_layout_state() {
            RenderDataState::Absent | RenderDataState::Provided => RenderDataState::Provided,
            RenderDataState::Uploaded | RenderDataState::NeedsUpdate => RenderDataState::NeedsUpdate,
        };
        let mut layout: Vec<VertexAttribute> = Vec::new();
        let mut i: usize = 0;
        while i < attributes.len()
            invariant
                i <= attributes@.len(),
                layout@ == attributes@.take(i as int),
            decreases attributes@.len() - i,
        {
            layout.push(attributes[i].clone());
            proof {
                assert(attributes@.take(i as int + 1) =~= attributes@.take(i as int).push(attributes@[i as int]));
            }
            i = i + 1;
        }
        assert(attributes@.take(attributes@.len() as int) =~= attributes@);
        self.layout = Some(LayoutData { layout, layout_data_state: new_state });
    }

    /// Removes the layout.
    pub fn clear_layout(&mut self)
        ensures
            final(self).wf(),
            final(self).spec_id() == old(self).spec_id(),
            final(self).spec_layout() is None,
            final(self).spec_state() == RenderDataState::Absent,
    {
        self.layout = None;
    }

    /// Whether the vertex array object has a layout.
    pub fn has_layout(&self) -> (r: bool)
        ensures
            r == self.spec_layout() is Some,
    {
        self.layout.is_some()
    }

    /// The pointers that upload the layout `attrs`, in attribute order.
    fn upload_pointers(attrs: &Vec<VertexAttribute>) -> (r: Vec<UploadPointer>)
        requires
            uploadable(attrs@),
        ensures
            r@.len() == attrs@.len(),
            forall|i: int| 0 <= i < attrs@.len() ==> #[trigger] r@[i] == upload_pointer(attrs@, i),
            forall|i: int| 0 <= i < attrs@.len() && i <= u32::MAX ==> #[trigger] r@[i].index == i,
    {
        let n = attrs.len();
        let mut total: i32 = 0;
        let mut i: usize = 0;
        while i < n
            invariant
                n == attrs@.len(),
                i <= n,
                uploadable(attrs@),
                total == layout_bytes(attrs@, i as int),
            decreases n - i,
        {
            proof { lemma_layout_bytes_monotone(attrs@, i as int + 1, n as int); }
            let size = attrs[i].calculate_size();
            total = total + size as i32;
            i = i + 1;
        }
        let mut r: Vec<UploadPointer> = Vec::new();
        let mut offset: u32 = 0;
        i = 0;
        while i < n
            invariant
                n == attrs@.len(),
                i <= n,
                uploadable(attrs@),
                total == layout_bytes(attrs@, n as int),
                offset == layout_bytes(attrs@, i as int),
                r@.len() == i,
                forall|j: int| 0 <= j < i ==> #[trigger] r@[j] == upload_pointer(attrs@, j),
            decreases n - i,
        {
            proof { lemma_layout_bytes_monotone(attrs@, i as int + 1, n as int); }
            let a = &attrs[i];
            let stride = if a.stride > 0 { a.stride } else { total };
            let off: usize = if a.offset != 0 { a.offset as usize } else { offset as usize };
            r.push(UploadPointer {
                index: #[verifier::truncate] (i as u32),
                components: a.components as i32,
                data_type: a.data_type.to_gl_enum(),
                normalized: a.normalized,
                stride,
                offset: off,
            });
            let size = a.calculate_size();
            offset = offset + size as u32;
            i = i + 1;
        }
        r
    }

    /// Whether `attrs` can be uploaded: no negative stride, and the size of a
    /// whole vertex fits an `i32`.
    fn layout_uploadable(attrs: &Vec<VertexAttribute>) -> (r: bool)
        ensures
            r == uploadable(attrs@),
    {
        let n = attrs.len();
        let mut total: u64 = 0;
        let mut i: usize = 0;
        while i < n
            invariant
                n == attrs@.len(),
                i <= n,
                total == layout_bytes(attrs@, i as int),
                total <= i32::MAX,
                forall|j: int| 0 <= j < i ==> #[trigger] attrs@[j].stride >= 0,
            decreases n - i,
        {
            if attrs[i].stride < 0 {
                return false;
            }
            let size = attrs[i].calculate_size();
            assert(attrs@[i as int].data_type.spec_size() * attrs@[i as int].components as nat <= 8 * 255)
                by (nonlinear_arith)
                requires
                    attrs@[i as int].data_type.spec_size() <= 8,
                    attrs@[i as int].components <= 255,
            ;
            total = total + size as u64;
            if total > 0x7fff_ffff {
                proof { lemma_layout_bytes_monotone(attrs@, i as int + 1, n as int); }
                return false;
            }
            i = i + 1;
        }
        true
    }

    /// Whether `prepare_render` can be called now: a layout due for upload
    /// must have no negative stride and a vertex size that fits an `i32`.
    pub fn can_prepare_render(&self) -> (r: bool)
        ensures
            r == (self.needs_upload() ==> uploadable(self.spec_layout().unwrap())),
    {
        match &self.layout {
            Some(d) => {
                if d.layout_data_state == RenderDataState::Provided || d.layout_data_state
                    == RenderDataState::NeedsUpdate {
                    Self::layout_uploadable(&d.layout)
                } else {
                    true
                }
            },
            None => true,
        }
    }

    /// Prepares rendering: a layout that was given or replaced since the last
    /// upload is marked as uploaded, and the pointers to upload for it are
    /// handed back; otherwise nothing is to be uploaded.
    pub fn prepare_render(&mut self) -> (r: Option<Vec<UploadPointer>>)
        requires
            old(self).wf(),
            old(self).needs_upload() ==> uploadable(old(self).spec_layout().unwrap()),
        ensures
            final(self).wf(),
            final(self).spec_id() == old(self).spec_id(),
            final(self).spec_layout() == old(self).spec_layout(),
            old(self).needs_upload() ==> {
                &&& final(self).spec_state() == RenderDataState::Uploaded
                &&& r matches Some(ptrs) && ptrs@.len() == old(self).spec_layout().unwrap().len()
                    && (forall|i: int| 0 <= i < ptrs@.len() ==> #[trigger] ptrs@[i] == upload_pointer(
                        old(self).spec_layout().unwrap(),
                        i,
                    ))
                    && (forall|i: int| 0 <= i < ptrs@.len() && i <= u32::MAX ==> #[trigger] ptrs@[i].index == i)
            },
            !old(self).needs_upload() ==> r is None && final(self).spec_state() == old(self).spec_state(),
    {
        match &mut self.layout {
            Some(d) => {
                if d.layout_data_state == RenderDataState::Provided || d.layout_data_state
                    == RenderDataState::NeedsUpdate {
                    let ptrs = Self::upload_pointers(&d.layout);
                    d.layout_data_state = RenderDataState::Uploaded;
                    Some(ptrs)
                } else {
                    None
                }
            },
            None => None,
        }
    }
}

/// A layout is uploaded once: after `prepare_render` nothing needs an
/// upload, and only a new layout makes an upload needed again.
pub proof fn lemma_upload_once(s: RenderDataState)
    ensures
        s == RenderDataState::Uploaded ==> !(s == RenderDataState::Provided || s == RenderDataState::NeedsUpdate),
        VertexArrayObject::state_after_set(s) == RenderDataState::Provided
            || VertexArrayObject::state_after_set(s) == RenderDataState::NeedsUpdate,
        s == RenderDataState::Uploaded ==> VertexArrayObject::state_after_set(s) == RenderDataState::NeedsUpdate,
{
}

} // verus!
