//! Vertex attributes and the manager that lays them out in an interleaved
//! vertex buffer.
use vstd::prelude::*;
use crate::gl_types::{VertexAttributeType, VertexDataType};
use crate::str_map::StrMap;
use crate::gl_vertex::Vertex;
use vstd::std_specs::convert::FromSpecImpl;

verus! {

// ---------------------------------------------------------------------------
// VertexAttribute
// ---------------------------------------------------------------------------

/// Description of one attribute of a vertex. Unset stride and offset are taken
/// from the layout that packs all attributes of a vertex tightly.
#[derive(Debug)]
pub struct VertexAttribute {
    /// Optional name of the attribute, useful when querying by name in shader programs.
    pub name: Option<String>,
    pub components: u8,
    pub data_type: VertexDataType,
    pub normalized: Option<bool>,
    pub stride: Option<u32>,
    pub offset: Option<u32>,
}

impl Clone for VertexAttribute {
    fn clone(&self) -> (r: Self)
        ensures
            r == *self,
    {
        let name = match &self.name {
            Some(n) => Some(n.clone()),
            None => None,
        };
        VertexAttribute {
            name,
            components: self.components,
            data_type: self.data_type,
            normalized: self.normalized,
            stride: self.stride,
            offset: self.offset,
        }
    }
}

impl Default for VertexAttribute {
    fn default() -> (r: Self)
        ensures
            r == VertexAttribute::spec_default(),
    {
        VertexAttribute {
            name: None,
            components: 3,
            data_type: VertexDataType::Float,
            normalized: None,
            stride: None,
            offset: None,
        }
    }
}

/// Size in bytes of an attribute: its component size times its component count.
pub open spec fn attribute_size(a: VertexAttribute) -> nat {
    a.data_type.spec_size() * a.components as nat
}

impl VertexAttribute {
    /// Three unnamed float components, with everything else unset.
    pub open spec fn spec_default() -> VertexAttribute {
        VertexAttribute {
            name: None,
            components: 3,
            data_type: VertexDataType::Float,
            normalized: None,
            stride: None,
            offset: None,
        }
    }

    pub fn new(components: u8, data_type: VertexDataType) -> (r: Self)
        ensures
            r == (VertexAttribute { components, data_type, ..VertexAttribute::spec_default() }),
    {
        VertexAttribute { components, data_type, ..Self::default() }
    }

    /// Sets the name field of the instance, consuming and returning self for method chaining.
    pub fn name(self, name: Option<String>) -> (r: Self)
        ensures
            r == (VertexAttribute { name, ..self }),
    {
        VertexAttribute { name, ..self }
    }

    /// Sets the number of components (1 to 4 are valid values).
    pub fn components(self, components: u8) -> (r: Self)
        ensures
            r == (VertexAttribute { components, ..self }),
    {
        VertexAttribute { components, ..self }
    }

    pub fn data_type(self, data_type: VertexDataType) -> (r: Self)
        ensures
            r == (VertexAttribute { data_type, ..self }),
    {
        VertexAttribute { data_type, ..self }
    }

    pub fn normalized(self, normalized: Option<bool>) -> (r: Self)
        ensures
            r == (VertexAttribute { normalized, ..self }),
    {
        VertexAttribute { normalized, ..self }
    }

    pub fn stride(self, stride: Option<u32>) -> (r: Self)
        ensures
            r == (VertexAttribute { stride, ..self }),
    {
        VertexAttribute { stride, ..self }
    }

    pub fn offset(self, offset: Option<u32>) -> (r: Self)
        ensures
            r == (VertexAttribute { offset, ..self }),
    {
        VertexAttribute { offset, ..self }
    }

    /// Calculates the byte size of the attribute from its type and component count.
    pub fn calculate_size(&self) -> (r: usize)
        ensures
            r == attribute_size(*self),
    {
        self.data_type.size() * self.components as usize
    }
}

impl From<VertexAttributeType> for VertexAttribute {
    /// An unnamed, explicitly not normalized float attribute with the kind's
    /// component count.
    fn from(value: VertexAttributeType) -> (r: Self) {
        let components: u8 = match value {
            VertexAttributeType::Position => 3,
            VertexAttributeType::Position2D => 2,
            VertexAttributeType::Color => 4,
            VertexAttributeType::TexCoord => 2,
            VertexAttributeType::Normal => 3,
        };
        VertexAttribute {
            components,
            data_type: VertexDataType::Float,
            normalized: Some(false),
            ..Self::default()
        }
    }
}

impl FromSpecImpl<VertexAttributeType> for VertexAttribute {
    open spec fn obeys_from_spec() -> bool {
        true
    }

    open spec fn from_spec(v: VertexAttributeType) -> VertexAttribute {
        VertexAttribute {
            components: v.spec_components(),
            data_type: VertexDataType::Float,
            normalized: Some(false),
            ..VertexAttribute::spec_default()
        }
    }
}

// ---------------------------------------------------------------------------
// Packed layout
// ---------------------------------------------------------------------------

/// `x` reduced to 32 bits, as a `u32` cast of it keeps it.
pub open spec fn wrap_u32(x: nat) -> u32 {
    (x % 0x1_0000_0000) as u32
}

/// Total size of the first `n` attributes of `attrs`.
pub open spec fn packed_size(attrs: Seq<VertexAttribute>, n: int) -> nat
    decreases n,
{
    if n <= 0 {
        0
    } else {
        packed_size(attrs, n - 1) + attribute_size(attrs[n - 1])
    }
}

/// The (stride, offset) table after `attrs` is laid out tightly over `info`:
/// entry `i` of each attribute is the total size and the size of the
/// attributes before it; entries beyond the attributes keep their values.
pub open spec fn packed_layout(attrs: Seq<VertexAttribute>, info: Seq<(u32, u32)>) -> Seq<(u32, u32)> {
    let n = attrs.len() as int;
    let len = if n < info.len() { info.len() as int } else { n };
    Seq::new(
        len as nat,
        |i: int|
            if i < n {
                (wrap_u32(packed_size(attrs, n)), wrap_u32(packed_size(attrs, i)))
            } else {
                info[i]
            },
    )
}

/// Every attribute has between 1 and 4 components.
pub open spec fn components_valid(attrs: Seq<VertexAttribute>) -> bool {
    forall|i: int| 0 <= i < attrs.len() ==> 1 <= #[trigger] attrs[i].components <= 4
}

/// Laying out `b` over a table already laid out for `a` (no longer than `b`)
/// gives the same table as laying out `b` over the table it started from.
proof fn lemma_packed_layout_twice(a: Seq<VertexAttribute>, b: Seq<VertexAttribute>, info: Seq<(u32, u32)>)
    requires
        a.len() <= b.len(),
    ensures
        packed_layout(b, packed_layout(a, info)) == packed_layout(b, info),
{
    assert(packed_layout(b, packed_layout(a, info)) =~= packed_layout(b, info));
}

/// The attributes and the (stride, offset) table after `added` is added one
/// attribute at a time, in order, each addition laying the table out anew.
pub open spec fn add_each(
    attrs: Seq<VertexAttribute>,
    info: Seq<(u32, u32)>,
    added: Seq<VertexAttribute>,
) -> (Seq<VertexAttribute>, Seq<(u32, u32)>)
    decreases added.len(),
{
    if added.len() == 0 {
        (attrs, info)
    } else {
        let next = attrs.push(added[0]);
        add_each(next, packed_layout(next, info), added.drop_first())
    }
}

proof fn lemma_add_each(attrs: Seq<VertexAttribute>, info: Seq<(u32, u32)>, added: Seq<VertexAttribute>)
    requires
        added.len() > 0,
    ensures
        add_each(attrs, info, added) == (attrs + added, packed_layout(attrs + added, info)),
    decreases added.len(),
{
    let next = attrs.push(added[0]);
    let rest = added.drop_first();
    assert(next + rest =~= attrs + added);
    assert(add_each(attrs, info, added) == add_each(next, packed_layout(next, info), rest));
    if rest.len() == 0 {
        assert(attrs + added =~= next);
        assert(add_each(next, packed_layout(next, info), rest) == (next, packed_layout(next, info)));
    } else {
        lemma_add_each(next, packed_layout(next, info), rest);
        lemma_packed_layout_twice(next, next + rest, info);
    }
}

proof fn lemma_attribute_size_bound(a: VertexAttribute)
    ensures
        attribute_size(a) <= 2040,
{
    assert(a.data_type.spec_size() <= 8);
    assert(a.data_type.spec_size() * a.components as nat <= 8 * 255) by (nonlinear_arith)
        requires
            a.data_type.spec_size() <= 8,
            a.components <= 255,
    ;
}

proof fn lemma_wrap_add(a: nat, y: nat)
    requires
        y < 0x1_0000_0000,
    ensures
        ((wrap_u32(a) as int + y) % 0x1_0000_0000) as u32 == wrap_u32(a + y),
{
    let m: int = 0x1_0000_0000;
    vstd::arithmetic::div_mod::lemma_add_mod_noop(a as int, y as int, m);
    vstd::arithmetic::div_mod::lemma_small_mod(y, m as nat);
    vstd::arithmetic::div_mod::lemma_mod_bound(a as int, m);
    assert((a as int) % m == wrap_u32(a) as int);
}

proof fn lemma_packed_size_step(attrs: Seq<VertexAttribute>, i: int)
    requires
        0 <= i,
    ensures
        packed_size(attrs, i + 1) == packed_size(attrs, i) + attribute_size(attrs[i]),
{
}

// ---------------------------------------------------------------------------
// AttributePointer
// ---------------------------------------------------------------------------

/// The arguments of one `glVertexAttribPointer` call (the array at `index` is
/// enabled with it).
#[derive(Clone, Copy, Debug, PartialEq, Eq, Structural)]
pub struct AttributePointer {
    pub index: u32,
    pub components: u8,
    pub data_type: u32,
    pub normalized: bool,
    pub stride: u32,
    pub offset: u32,
}

// ---------------------------------------------------------------------------
// VertexLayoutError
// ---------------------------------------------------------------------------

/// Reasons a vertex layout cannot be set up.
#[derive(Debug)]
pub enum VertexLayoutError {
    InvalidVAOId,
    InvalidShaderId,
    InvalidNumberOfComponents,
    InvalidAttributeName(String),
    InvalidAttributeLocation(usize),
    InvalidLayoutName(String),
    DataTypeNotPresent,
    OpenGL(String),
}

// ---------------------------------------------------------------------------
// AttributeLayout
// ---------------------------------------------------------------------------

/// A list of attributes with its (stride, offset) table and whether it has
/// been set up (and for which shader program).
pub struct AttributeLayout {
    attributes: Vec<VertexAttribute>,
    /// Maps attribute index to stride and offset.
    layout_info: Vec<(u32, u32)>,
    is_setup: bool,
    shader_id: Option<u32>,
}

impl AttributeLayout {
    pub closed spec fn attrs(&self) -> Seq<VertexAttribute> {
        self.attributes@
    }

    /// The (stride, offset) table, indexed by attribute position.
    pub closed spec fn info(&self) -> Seq<(u32, u32)> {
        self.layout_info@
    }

    pub closed spec fn setup(&self) -> bool {
        self.is_setup
    }

    pub closed spec fn shader(&self) -> Option<u32> {
        self.shader_id
    }

    /// Each attribute has an entry in the (stride, offset) table.
    pub open spec fn wf(&self) -> bool {
        self.attrs().len() <= self.info().len()
    }

    /// The table describes the current attributes packed tightly.
    pub open spec fn is_packed(&self) -> bool {
        forall|i: int| 0 <= i < self.attrs().len() ==> #[trigger] self.info()[i] == (
            wrap_u32(packed_size(self.attrs(), self.attrs().len() as int)),
            wrap_u32(packed_size(self.attrs(), i)),
        )
    }

    pub open spec fn is_empty_layout(&self) -> bool {
        &&& self.attrs().len() == 0
        &&& self.info().len() == 0
        &&& !self.setup()
        &&& self.shader() is None
    }

    pub fn empty() -> (r: Self)
        ensures
            r.wf(),
            r.is_empty_layout(),
    {
        AttributeLayout {
            attributes: Vec::new(),
            layout_info: Vec::new(),
            is_setup: false,
            shader_id: None,
        }
    }

    /// Recomputes the (stride, offset) table for the current attributes.
    fn calculate_layout_info(&mut self)
        ensures
            final(self).wf(),
            final(self).attrs() == old(self).attrs(),
            final(self).info() == packed_layout(old(self).attrs(), old(self).info()),
            final(self).setup() == old(self).setup(),
            final(self).shader() == old(self).shader(),
    {
        let n = self.attributes.len();
        let ghost attrs = self.attributes@;
        let ghost old_info = self.layout_info@;
        let ghost setup0 = self.is_setup;
        let ghost shader0 = self.shader_id;
        let mut total: u32 = 0;
        let mut i: usize = 0;
        while i < n
            invariant
                n == attrs.len(),
                self.attributes@ == attrs,
                i <= n,
                total == wrap_u32(packed_size(attrs, i as int)),
            decreases n - i,
        {
            let size = self.attributes[i].calculate_size();
            proof {
                lemma_attribute_size_bound(attrs[i as int]);
                lemma_wrap_add(packed_size(attrs, i as int), size as nat);
                lemma_packed_size_step(attrs, i as int);
            }
            total = ((total as u64 + size as u64) % 0x1_0000_0000) as u32;
            i = i + 1;
        }
        let mut offset: u32 = 0;
        i = 0;
        while i < n
            invariant
                n == attrs.len(),
                self.attributes@ == attrs,
                self.is_setup == setup0,
                self.shader_id == shader0,
                i <= n,
                total == wrap_u32(packed_size(attrs, n as int)),
                offset == wrap_u32(packed_size(attrs, i as int)),
                self.layout_info@.len() == if i <= old_info.len() { old_info.len() as int } else { i as int },
                forall|j: int| 0 <= j < i ==> #[trigger] self.layout_info@[j] == (total, wrap_u32(packed_size(attrs, j))),
                forall|j: int| i <= j < self.layout_info@.len() ==> #[trigger] self.layout_info@[j] == old_info[j],
                old_info.len() >= i || self.layout_info@.len() == i,
            decreases n - i,
        {
            let size = self.attributes[i].calculate_size();
            if i < self.layout_info.len() {
                self.layout_info.set(i, (total, offset));
            } else {
                self.layout_info.push((total, offset));
            }
            proof {
                lemma_attribute_size_bound(attrs[i as int]);
                lemma_wrap_add(packed_size(attrs, i as int), size as nat);
                lemma_packed_size_step(attrs, i as int);
            }
            offset = ((offset as u64 + size as u64) % 0x1_0000_0000) as u32;
            i = i + 1;
        }
        assert(self.layout_info@ =~= packed_layout(attrs, old_info));
    }

    /// A recomputed table gives every attribute the total size of the
    /// attributes as its stride and the total size of the attributes before
    /// it as its offset, both reduced to 32 bits; entries past the attributes
    /// are kept.
    pub proof fn lemma_packed_layout(attrs: Seq<VertexAttribute>, info: Seq<(u32, u32)>)
        ensures
            packed_layout(attrs, info).len() == if attrs.len() < info.len() { info.len() } else { attrs.len() },
            forall|i: int| attrs.len() <= i < info.len() ==> #[trigger] packed_layout(attrs, info)[i] == info[i],
            attrs.len() <= packed_layout(attrs, info).len(),
            info.len() <= packed_layout(attrs, info).len(),
            forall|i: int| 0 <= i < attrs.len() ==> #[trigger] packed_layout(attrs, info)[i] == (
                wrap_u32(packed_size(attrs, attrs.len() as int)),
                wrap_u32(packed_size(attrs, i)),
            ),
    {
    }

    /// The attribute at `index` gets its stride and offset from the table
    /// unless it sets both itself.
    pub open spec fn stride_offset_at(&self, i: int) -> (u32, u32) {
        let a = self.attrs()[i];
        match (a.stride, a.offset) {
            (Some(stride), Some(offset)) => (stride, offset),
            _ => self.info()[i],
        }
    }

    /// The pointer set up for attribute `i` at shader location `location`.
    pub open spec fn pointer_at(&self, i: int, location: u32) -> AttributePointer {
        let a = self.attrs()[i];
        AttributePointer {
            index: location,
            components: a.components,
            data_type: a.data_type.spec_gl_enum(),
            normalized: match a.normalized {
                Some(b) => b,
                None => false,
            },
            stride: self.stride_offset_at(i).0,
            offset: self.stride_offset_at(i).1,
        }
    }

    /// A pointer set up at shader location `location` is for attribute array
    /// `location`, and the one set up by index is for the attribute's own
    /// position. An attribute that does not set both its stride and offset
    /// takes them from the table, which, packed, gives the size of a whole
    /// vertex as stride and the size of the attributes before it as offset.
    pub proof fn lemma_pointer_fields(&self, i: int, location: u32)
        requires
            0 <= i < self.attrs().len(),
            i <= u32::MAX,
        ensures
            self.pointer_at(i, location).index == location,
            self.index_pointer(i).index == i,
            self.pointer_at(i, location).components == self.attrs()[i].components,
            (self.is_packed() && !(self.attrs()[i].stride is Some && self.attrs()[i].offset is Some)) ==> {
                &&& self.pointer_at(i, location).stride == wrap_u32(packed_size(self.attrs(), self.attrs().len() as int))
                &&& self.pointer_at(i, location).offset == wrap_u32(packed_size(self.attrs(), i))
            },
    {
    }

    /// The pointer set up for attribute `i` at the location equal to its index.
    pub open spec fn index_pointer(&self, i: int) -> AttributePointer {
        self.pointer_at(i, i as u32)
    }

    fn stride_and_offset(&self, index: usize) -> (r: (u32, u32))
        requires
            self.wf(),
            index < self.attrs().len(),
        ensures
            r == self.stride_offset_at(index as int),
    {
        let a = &self.attributes[index];
        match (a.stride, a.offset) {
            (Some(stride), Some(offset)) => (stride, offset),
            _ => self.layout_info[index],
        }
    }

    fn pointer(&self, index: usize, location: u32) -> (r: AttributePointer)
        requires
            self.wf(),
            index < self.attrs().len(),
        ensures
            r == self.pointer_at(index as int, location),
    {
        let a = &self.attributes[index];
        let (stride, offset) = self.stride_and_offset(index);
        AttributePointer {
            index: location,
            components: a.components,
            data_type: a.data_type.to_gl_enum(),
            normalized: match a.normalized {
                Some(b) => b,
                None => false,
            },
            stride,
            offset,
        }
    }

    fn push_attribute(&mut self, attribute: VertexAttribute)
        requires
            old(self).wf(),
        ensures
            final(self).wf(),
            final(self).attrs() == old(self).attrs().push(attribute),
            final(self).info() == packed_layout(final(self).attrs(), old(self).info()),
            final(self).setup() == old(self).setup(),
            final(self).shader() == old(self).shader(),
    {
        self.attributes.push(attribute);
        self.calculate_layout_info();
    }

    /// Whether every attribute has between 1 and 4 components.
    fn check_components(&self) -> (r: bool)
        ensures
            r == components_valid(self.attrs()),
    {
        let mut i: usize = 0;
        while i < self.attributes.len()
            invariant
                i <= self.attrs().len(),
                forall|j: int| 0 <= j < i ==> 1 <= #[trigger] self.attrs()[j].components <= 4,
            decreases self.attrs().len() - i,
        {
            let c = self.attributes[i].components;
            if c < 1 || c > 4 {
                assert(!(1 <= self.attrs()[i as int].components <= 4));
                return false;
            }
            i = i + 1;
        }
        true
    }

    /// What setting up the layout with `apply` (which enables the array and
    /// sets the pointer of one attribute, reporting an OpenGL error) leads to:
    /// attributes with an invalid component count are refused before any
    /// call; otherwise the attributes are applied in order at the locations of
    /// their indices and the first failure is reported; the layout counts as
    /// set up only when every call succeeded.
    pub open spec fn setup_outcome<F: Fn(AttributePointer) -> Result<(), String>>(
        pre: AttributeLayout,
        post: AttributeLayout,
        apply: F,
        r: Result<(), VertexLayoutError>,
    ) -> bool {
        let n = pre.attrs().len() as int;
        &&& post.attrs() == pre.attrs()
        &&& post.info() == pre.info()
        &&& post.shader() == pre.shader()
        &&& if !components_valid(pre.attrs()) {
            &&& r matches Err(VertexLayoutError::InvalidNumberOfComponents)
            &&& post.setup() == pre.setup()
        } else {
            match r {
                Ok(_) => {
                    &&& post.setup()
                    &&& forall|i: int|
                        0 <= i < n ==> apply.ensures((#[trigger] pre.index_pointer(i),), Ok(()))
                },
                Err(e) => {
                    &&& post.setup() == pre.setup()
                    &&& e matches VertexLayoutError::OpenGL(msg) && exists|k: int|
                        {
                            &&& 0 <= k < n
                            &&& forall|i: int|
                                0 <= i < k ==> apply.ensures((#[trigger] pre.index_pointer(i),), Ok(()))
                            &&& #[trigger] apply.ensures((pre.index_pointer(k),), Err(msg))
                        }
                },
            }
        }
    }

    /// Sets up the attribute pointers at the locations of the attribute indices.
    pub fn setup_attributes<F: Fn(AttributePointer) -> Result<(), String>>(
        &mut self,
        apply: F,
    ) -> (r: Result<(), VertexLayoutError>)
        requires
            old(self).wf(),
            forall|p: AttributePointer| apply.requires((p,)),
        ensures
            final(self).wf(),
            Self::setup_outcome(*old(self), *final(self), apply, r),
    {
        if !self.check_components() {
            return Err(VertexLayoutError::InvalidNumberOfComponents);
        }
        let n = self.attributes.len();
        let mut i: usize = 0;
        while i < n
            invariant
                self.wf(),
                *self == *old(self),
                components_valid(self.attrs()),
                n == self.attrs().len(),
                i <= n,
                forall|p: AttributePointer| apply.requires((p,)),
                forall|j: int| 0 <= j < i ==> apply.ensures((#[trigger] self.index_pointer(j),), Ok(())),
            decreases n - i,
        {
            let p = self.pointer(i, #[verifier::truncate] (i as u32));
            assert(p == self.index_pointer(i as int));
            let res = apply(p);
            match res {
                Ok(u) => {
                    assert(res == Ok::<(), String>(u));
                    assert(apply.ensures((self.index_pointer(i as int),), Ok(())));
                },
                Err(msg) => {
                    assert(res == Err::<(), String>(msg));
                    let ghost pre = *old(self);
                    assert(exists|k: int|
                        {
                            &&& 0 <= k < n
                            &&& forall|j: int|
                                0 <= j < k ==> apply.ensures((#[trigger] pre.index_pointer(j),), Ok(()))
                            &&& #[trigger] apply.ensures((pre.index_pointer(k),), Err(msg))
                        }) by {
                        assert(apply.ensures((pre.index_pointer(i as int),), Err(msg)));
                    }
                    let e = VertexLayoutError::OpenGL(msg);
                    assert(e matches VertexLayoutError::OpenGL(m) && m == msg);
                    assert(!!components_valid(pre.attrs()));
                    assert(self.setup() == pre.setup());
                    assert(Self::setup_outcome(pre, *self, apply, Err(e)));
                    return Err(e);
                },
            }
            i = i + 1;
        }
        self.is_setup = true;
        Ok(())
    }

    /// `location` is where attribute `i` is found in `program`: the location
    /// `lookup` reports for its name, or its index when it has no name.
    pub open spec fn location_matches<L: Fn(u32, &String) -> i32>(
        &self,
        program: u32,
        lookup: L,
        i: int,
        location: i32,
    ) -> bool {
        match self.attrs()[i].name {
            Some(n) => lookup.ensures((program, &n), location),
            None => location == i as i32,
        }
    }

    /// Attribute `i` was found in `program` and its pointer was set up.
    pub open spec fn shader_step_ok<L: Fn(u32, &String) -> i32, F: Fn(AttributePointer) -> Result<(), String>>(
        &self,
        program: u32,
        lookup: L,
        apply: F,
        i: int,
    ) -> bool {
        exists|loc: i32|
            {
                &&& #[trigger] self.location_matches(program, lookup, i, loc)
                &&& loc >= 0
                &&& apply.ensures((self.pointer_at(i, loc as u32),), Ok(()))
            }
    }

    /// Setting up attribute `i` for `program` failed with `e`: its location is
    /// negative (an unknown name, or an index that does not fit a location),
    /// or OpenGL reported an error for its pointer.
    pub open spec fn shader_step_error<L: Fn(u32, &String) -> i32, F: Fn(AttributePointer) -> Result<(), String>>(
        &self,
        program: u32,
        lookup: L,
        apply: F,
        i: int,
        e: VertexLayoutError,
    ) -> bool {
        exists|loc: i32|
            {
                &&& #[trigger] self.location_matches(program, lookup, i, loc)
                &&& if loc < 0 {
                    match self.attrs()[i].name {
                        Some(n) => e == VertexLayoutError::InvalidAttributeName(n),
                        None => e == VertexLayoutError::InvalidAttributeLocation(i as usize),
                    }
                } else {
                    e matches VertexLayoutError::OpenGL(msg) && apply.ensures(
                        (self.pointer_at(i, loc as u32),),
                        Err(msg),
                    )
                }
            }
    }

    /// What setting up the layout for `program` leads to: program 0 and
    /// invalid component counts are refused before any call; otherwise each
    /// attribute in order is looked up and applied, the first failure is
    /// reported, and only full success marks the layout as set up for `program`.
    pub open spec fn shader_setup_outcome<L: Fn(u32, &String) -> i32, F: Fn(AttributePointer) -> Result<(), String>>(
        pre: AttributeLayout,
        post: AttributeLayout,
        program: u32,
        lookup: L,
        apply: F,
        r: Result<(), VertexLayoutError>,
    ) -> bool {
        let n = pre.attrs().len() as int;
        &&& post.attrs() == pre.attrs()
        &&& post.info() == pre.info()
        &&& if program == 0 {
            &&& r matches Err(VertexLayoutError::InvalidShaderId)
            &&& post.setup() == pre.setup()
            &&& post.shader() == pre.shader()
        } else if !components_valid(pre.attrs()) {
            &&& r matches Err(VertexLayoutError::InvalidNumberOfComponents)
            &&& post.setup() == pre.setup()
            &&& post.shader() == pre.shader()
        } else {
            match r {
                Ok(_) => {
                    &&& post.setup()
                    &&& post.shader() == Some(program)
                    &&& forall|i: int| 0 <= i < n ==> #[trigger] pre.shader_step_ok(program, lookup, apply, i)
                },
                Err(e) => {
                    &&& post.setup() == pre.setup()
                    &&& post.shader() == pre.shader()
                    &&& exists|k: int|
                        {
                            &&& 0 <= k < n
                            &&& forall|i: int| 0 <= i < k ==> #[trigger] pre.shader_step_ok(program, lookup, apply, i)
                            &&& #[trigger] pre.shader_step_error(program, lookup, apply, k, e)
                        }
                },
            }
        }
    }

    /// Sets up the attribute pointers at the locations the attributes have in
    /// the shader program `shader_program_id`.
    pub fn setup_attributes_for_shader<L: Fn(u32, &String) -> i32, F: Fn(AttributePointer) -> Result<(), String>>(
        &mut self,
        shader_program_id: u32,
        lookup: L,
        apply: F,
    ) -> (r: Result<(), VertexLayoutError>)
        requires
            old(self).wf(),
            forall|program: u32, name: &String| lookup.requires((program, name)),
            forall|p: AttributePointer| apply.requires((p,)),
        ensures
            final(self).wf(),
            Self::shader_setup_outcome(*old(self), *final(self), shader_program_id, lookup, apply, r),
    {
        if shader_program_id == 0 {
            return Err(VertexLayoutError::InvalidShaderId);
        }
        if !self.check_components() {
            return Err(VertexLayoutError::InvalidNumberOfComponents);
        }
        let n = self.attributes.len();
        let mut i: usize = 0;
        while i < n
            invariant
                self.wf(),
                *self == *old(self),
                components_valid(self.attrs()),
                shader_program_id != 0,
                n == self.attrs().len(),
                i <= n,
                forall|program: u32, name: &String| lookup.requires((program, name)),
                forall|p: AttributePointer| apply.requires((p,)),
                forall|j: int| 0 <= j < i ==> #[trigger] self.shader_step_ok(shader_program_id, lookup, apply, j),
            decreases n - i,
        {
            let location: i32 = match &self.attributes[i].name {
                Some(name) => lookup(shader_program_id, name),
                None => #[verifier::truncate] (i as i32),
            };
            assert(self.location_matches(shader_program_id, lookup, i as int, location));
            if location < 0 {
                let e = match &self.attributes[i].name {
                    Some(name) => VertexLayoutError::InvalidAttributeName(name.clone()),
                    None => VertexLayoutError::InvalidAttributeLocation(i),
                };
                assert(self.shader_step_error(shader_program_id, lookup, apply, i as int, e));
                return Err(e);
            }
            let p = self.pointer(i, location as u32);
            let res = apply(p);
            match res {
                Ok(u) => {
                    assert(res == Ok::<(), String>(u));
                    assert(self.shader_step_ok(shader_program_id, lookup, apply, i as int));
                },
                Err(msg) => {
                    assert(res == Err::<(), String>(msg));
                    let e = VertexLayoutError::OpenGL(msg);
                    assert(self.shader_step_error(shader_program_id, lookup, apply, i as int, e));
                    return Err(e);
                },
            }
            i = i + 1;
        }
        self.is_setup = true;
        self.shader_id = Some(shader_program_id);
        Ok(())
    }

    /// A layout that holds exactly `attrs`, tightly packed, and is not set up.
    pub open spec fn is_fresh_for(&self, attrs: Seq<VertexAttribute>) -> bool {
        &&& self.attrs() == attrs
        &&& self.info() == packed_layout(attrs, Seq::<(u32, u32)>::empty())
        &&& !self.setup()
        &&& self.shader() is None
    }

    proof fn lemma_repack(attrs: Seq<VertexAttribute>, info: Seq<(u32, u32)>)
        requires
            info.len() <= attrs.len(),
        ensures
            packed_layout(attrs, info) == packed_layout(attrs, Seq::<(u32, u32)>::empty()),
    {
        assert(packed_layout(attrs, info) =~= packed_layout(attrs, Seq::<(u32, u32)>::empty()));
    }

    /// A fresh layout of clones of `attributes`, laid out as each is added.
    fn from_slice(attributes: &[VertexAttribute]) -> (r: Self)
        ensures
            r.wf(),
            r.is_fresh_for(attributes@),
    {
        let mut layout = AttributeLayout::empty();
        proof {
            assert(attributes@.take(0) =~= Seq::<VertexAttribute>::empty());
            assert(layout.attrs() =~= Seq::<VertexAttribute>::empty());
            assert(packed_layout(Seq::<VertexAttribute>::empty(), Seq::<(u32, u32)>::empty()) =~= layout.info());
        }
        let mut i: usize = 0;
        while i < attributes.len()
            invariant
                i <= attributes@.len(),
                layout.wf(),
                layout.is_fresh_for(attributes@.take(i as int)),
            decreases attributes@.len() - i,
        {
            let ghost before = layout.info();
            layout.push_attribute(attributes[i].clone());
            proof {
                assert(attributes@.take(i as int).push(attributes@[i as int]) =~= attributes@.take(i as int + 1));
                Self::lemma_repack(attributes@.take(i as int + 1), before);
            }
            i = i + 1;
        }
        assert(attributes@.take(attributes@.len() as int) =~= attributes@);
        layout
    }

    fn index_of_name(&self, name: &String) -> (r: Option<usize>)
        ensures
            match r {
                Some(i) => {
                    &&& i < self.attrs().len()
                    &&& has_name(self.attrs()[i as int], name@)
                    &&& forall|j: int| 0 <= j < i ==> !has_name(#[trigger] self.attrs()[j], name@)
                },
                None => forall|j: int| 0 <= j < self.attrs().len() ==> !has_name(#[trigger] self.attrs()[j], name@),
            },
    {
        let mut i: usize = 0;
        while i < self.attributes.len()
            invariant
                i <= self.attrs().len(),
                forall|j: int| 0 <= j < i ==> !has_name(#[trigger] self.attrs()[j], name@),
            decreases self.attrs().len() - i,
        {
            let found = match &self.attributes[i].name {
                Some(n) => *n == *name,
                None => false,
            };
            if found {
                return Some(i);
            }
            i = i + 1;
        }
        None
    }

    fn index_of_same_name(&self, name: &Option<String>) -> (r: Option<usize>)
        ensures
            match r {
                Some(i) => {
                    &&& i < self.attrs().len()
                    &&& same_name(self.attrs()[i as int].name, *name)
                    &&& forall|j: int| 0 <= j < i ==> !same_name(#[trigger] self.attrs()[j].name, *name)
                },
                None => forall|j: int|
                    0 <= j < self.attrs().len() ==> !same_name(#[trigger] self.attrs()[j].name, *name),
            },
    {
        let mut i: usize = 0;
        while i < self.attributes.len()
            invariant
                i <= self.attrs().len(),
                forall|j: int| 0 <= j < i ==> !same_name(#[trigger] self.attrs()[j].name, *name),
            decreases self.attrs().len() - i,
        {
            let found = match (&self.attributes[i].name, name) {
                (None, None) => true,
                (Some(a), Some(b)) => *a == *b,
                _ => false,
            };
            if found {
                return Some(i);
            }
            i = i + 1;
        }
        None
    }

    /// Clears the setup state and the associated shader program.
    pub fn reset_setup(&mut self)
        ensures
            final(self).attrs() == old(self).attrs(),
            final(self).info() == old(self).info(),
            !final(self).setup(),
            final(self).shader() is None,
    {
        self.is_setup = false;
        self.shader_id = None;
    }
}

// ---------------------------------------------------------------------------
// VertexLayoutManager
// ---------------------------------------------------------------------------

/// The attribute carries the name `name`.
pub open spec fn has_name(a: VertexAttribute, name: Seq<char>) -> bool {
    a.name matches Some(n) && n@ == name
}

/// Two optional names are equal: both absent, or both present with the same text.
pub open spec fn same_name(a: Option<String>, b: Option<String>) -> bool {
    match (a, b) {
        (None, None) => true,
        (Some(x), Some(y)) => x@ == y@,
        _ => false,
    }
}

/// Attributes laid out tightly in a vertex, plus named layouts that can be
/// created, deleted and activated.
pub struct VertexLayoutManager {
    layout: AttributeLayout,
    layouts: StrMap<AttributeLayout>,
}

impl VertexLayoutManager {
    /// The manager's own attribute layout.
    pub closed spec fn current(&self) -> AttributeLayout {
        self.layout
    }

    pub open spec fn attrs(&self) -> Seq<VertexAttribute> {
        self.current().attrs()
    }

    pub open spec fn info(&self) -> Seq<(u32, u32)> {
        self.current().info()
    }

    /// The named layouts.
    pub closed spec fn layouts(&self) -> Map<Seq<char>, AttributeLayout> {
        self.layouts.view()
    }

    pub closed spec fn wf(&self) -> bool {
        &&& self.layout.wf()
        &&& self.layouts.wf()
        &&& forall|k: Seq<char>| #[trigger] self.layouts.view().contains_key(k) ==> self.layouts.view()[k].wf()
    }

    /// Only the own layout changed, to `layout`.
    pub open spec fn with_layout(self, post: Self, layout: AttributeLayout) -> bool {
        &&& post.current() == layout
        &&& post.layouts() == self.layouts()
    }

    /// Creates a new instance with no attributes and an empty layout.
    pub fn empty() -> (r: Self)
        ensures
            r.wf(),
            r.current().is_empty_layout(),
            r.layouts() == Map::<Seq<char>, AttributeLayout>::empty(),
    {
        VertexLayoutManager { layout: AttributeLayout::empty(), layouts: StrMap::new() }
    }

    /// Adds a vertex attribute and updates the layout info.
    pub fn add_attribute(&mut self, attribute: VertexAttribute) -> (r: &mut Self)
        requires
            old(self).wf(),
        ensures
            r.wf(),
            r.attrs() == old(self).attrs().push(attribute),
            r.info() == packed_layout(r.attrs(), old(self).info()),
            r.is_packed(),
            r.current().setup() == old(self).current().setup(),
            r.current().shader() == old(self).current().shader(),
            r.layouts() == old(self).layouts(),
            *final(self) == *final(r),
    {
        self.layout.push_attribute(attribute);
        self
    }

    /// Builds a manager whose attributes are `attributes`, added in order.
    pub fn from_attributes(attributes: Vec<VertexAttribute>) -> (r: Self)
        ensures
            r.wf(),
            r.current().is_fresh_for(attributes@),
            r.layouts() == Map::<Seq<char>, AttributeLayout>::empty(),
    {
        VertexLayoutManager { layout: AttributeLayout::from_slice(attributes.as_slice()), layouts: StrMap::new() }
    }

    /// Builds a manager from the attributes of the given kinds, added in order.
    pub fn from_attribute_types(attribute_types: Vec<VertexAttributeType>) -> (r: Self)
        ensures
            r.wf(),
            r.layouts() == Map::<Seq<char>, AttributeLayout>::empty(),
            !r.current().setup(),
            r.current().shader() is None,
            r.attrs().len() == attribute_types@.len(),
            forall|i: int| 0 <= i < attribute_types@.len() ==> {
                let a = #[trigger] r.attrs()[i];
                let t = attribute_types@[i];
                &&& a.name matches Some(n) && n@ == t.spec_name()
                &&& a.components == t.spec_components()
                &&& a.data_type == VertexDataType::Float
                &&& a.normalized is None && a.stride is None && a.offset is None
            },
            r.is_packed(),
    {
        let mut attributes: Vec<VertexAttribute> = Vec::new();
        let mut i: usize = 0;
        while i < attribute_types.len()
            invariant
                i <= attribute_types@.len(),
                attributes@.len() == i,
                forall|j: int| 0 <= j < i ==> {
                    let a = #[trigger] attributes@[j];
                    let t = attribute_types@[j];
                    &&& a.name matches Some(n) && n@ == t.spec_name()
                    &&& a.components == t.spec_components()
                    &&& a.data_type == VertexDataType::Float
                    &&& a.normalized is None && a.stride is None && a.offset is None
                },
            decreases attribute_types@.len() - i,
        {
            attributes.push(attribute_types[i].to_vertex_attribute());
            i = i + 1;
        }
        let r = Self::from_attributes(attributes);
        proof { AttributeLayout::lemma_packed_layout(r.attrs(), Seq::<(u32, u32)>::empty()); }
        r
    }

    /// The table holds, for every attribute, the total size of a vertex and
    /// the size of the attributes before it.
    pub open spec fn is_packed(&self) -> bool {
        self.current().is_packed()
    }

    /// Adds clones of `attributes`, in order, and updates the layout info.
    pub fn add_attributes(&mut self, attributes: &[VertexAttribute]) -> (r: &mut Self)
        requires
            old(self).wf(),
        ensures
            r.wf(),
            r.attrs() == old(self).attrs() + attributes@,
            r.info() == packed_layout(r.attrs(), old(self).info()),
            r.is_packed(),
            r.current().setup() == old(self).current().setup(),
            r.current().shader() == old(self).current().shader(),
            r.layouts() == old(self).layouts(),
            *final(self) == *final(r),
    {
        let mut i: usize = 0;
        while i < attributes.len()
            invariant
                i <= attributes@.len(),
                self.layout.wf() || i > 0,
                self.layouts.wf(),
                forall|k: Seq<char>| #[trigger] self.layouts.view().contains_key(k) ==> self.layouts.view()[k].wf(),
                self.attrs() == old(self).attrs() + attributes@.take(i as int),
                self.info() == old(self).info(),
                self.current().setup() == old(self).current().setup(),
                self.current().shader() == old(self).current().shader(),
                self.layouts() == old(self).layouts(),
            decreases attributes@.len() - i,
        {
            self.layout.attributes.push(attributes[i].clone());
            proof {
                assert(old(self).attrs() + attributes@.take(i as int + 1) =~= (old(self).attrs()
                    + attributes@.take(i as int)).push(attributes@[i as int]));
            }
            i = i + 1;
        }
        proof {
            assert(attributes@.take(attributes@.len() as int) =~= attributes@);
        }
        self.layout.calculate_layout_info();
        self
    }

    /// Recomputes the (stride, offset) table for the current attributes: each
    /// attribute gets the total size of the attributes as its stride and the
    /// size of the attributes before it as its offset, both reduced to 32
    /// bits. The attributes and everything else are left as they are.
    pub fn calculate_layout_info(&mut self)
        requires
            old(self).wf(),
        ensures
            final(self).wf(),
            final(self).attrs() == old(self).attrs(),
            final(self).info() == packed_layout(old(self).attrs(), old(self).info()),
            final(self).is_packed(),
            forall|i: int| 0 <= i < final(self).attrs().len() ==> #[trigger] final(self).info()[i] == (
                wrap_u32(packed_size(old(self).attrs(), old(self).attrs().len() as int)),
                wrap_u32(packed_size(old(self).attrs(), i)),
            ),
            final(self).current().setup() == old(self).current().setup(),
            final(self).current().shader() == old(self).current().shader(),
            final(self).layouts() == old(self).layouts(),
    {
        self.layout.calculate_layout_info();
    }

    /// Adding a list of attributes at once (`add_attributes`) leaves the same
    /// attributes and the same (stride, offset) table as adding them one at a
    /// time with `add_attribute`, in order. Adding an empty list still lays
    /// the table out anew, so for it the table must already be packed.
    pub proof fn lemma_add_attributes_one_at_a_time(m: VertexLayoutManager, added: Seq<VertexAttribute>)
        requires
            m.wf(),
            added.len() > 0 || m.is_packed(),
        ensures
            add_each(m.attrs(), m.info(), added) == (m.attrs() + added, packed_layout(m.attrs() + added, m.info())),
    {
        if added.len() > 0 {
            lemma_add_each(m.attrs(), m.info(), added);
        } else {
            assert(m.attrs() + added =~= m.attrs());
            assert(packed_layout(m.attrs(), m.info()) =~= m.info());
        }
    }

    /// Adds `attributes`, in order, and updates the layout info.
    pub fn add_attributes_iter(&mut self, attributes: Vec<VertexAttribute>) -> (r: &mut Self)
        requires
            old(self).wf(),
        ensures
            r.wf(),
            r.attrs() == old(self).attrs() + attributes@,
            r.info() == packed_layout(r.attrs(), old(self).info()),
            r.is_packed(),
            r.current().setup() == old(self).current().setup(),
            r.current().shader() == old(self).current().shader(),
            r.layouts() == old(self).layouts(),
            *final(self) == *final(r),
    {
        self.add_attributes(attributes.as_slice())
    }

    /// Adds the attribute of the given kind and updates the layout info.
    pub fn add_attribute_type(&mut self, attribute_type: VertexAttributeType) -> (r: &mut Self)
        requires
            old(self).wf(),
        ensures
            r.wf(),
            r.attrs().len() == old(self).attrs().len() + 1,
            r.attrs().drop_last() == old(self).attrs(),
            r.attrs().last().name matches Some(n) && n@ == attribute_type.spec_name(),
            r.attrs().last().components == attribute_type.spec_components(),
            r.attrs().last().data_type == VertexDataType::Float,
            r.info() == packed_layout(r.attrs(), old(self).info()),
            r.is_packed(),
            r.current().setup() == old(self).current().setup(),
            r.current().shader() == old(self).current().shader(),
            r.layouts() == old(self).layouts(),
            *final(self) == *final(r),
    {
        self.layout.push_attribute(attribute_type.to_vertex_attribute());
        proof {
            assert(self.attrs().drop_last() =~= old(self).attrs());
        }
        self
    }

    /// Removes the attributes named `name` and updates the layout info.
    pub fn remove_attribute_by_name(&mut self, name: &str) -> (r: &mut Self)
        requires
            old(self).wf(),
        ensures
            r.wf(),
            r.attrs() == old(self).attrs().filter(|a: VertexAttribute| !has_name(a, name@)),
            r.info() == packed_layout(r.attrs(), old(self).info()),
            r.current().setup() == old(self).current().setup(),
            r.current().shader() == old(self).current().shader(),
            r.layouts() == old(self).layouts(),
            *final(self) == *final(r),
    {
        let key = name.to_owned();
        let ghost pred = |a: VertexAttribute| !has_name(a, name@);
        let n = self.layout.attributes.len();
        let mut kept: Vec<VertexAttribute> = Vec::new();
        let mut i: usize = 0;
        while i < n
            invariant
                n == self.attrs().len(),
                i <= n,
                key@ == name@,
                pred == (|a: VertexAttribute| !has_name(a, name@)),
                kept@ == self.attrs().take(i as int).filter(pred),
            decreases n - i,
        {
            let keep = match &self.layout.attributes[i].name {
                Some(n) => !(*n == key),
                None => true,
            };
            proof {
                assert(self.attrs().take(i as int + 1) =~= self.attrs().take(i as int).push(self.attrs()[i as int]));
                self.attrs().take(i as int).lemma_filter_push(self.attrs()[i as int], pred);
            }
            if keep {
                kept.push(self.layout.attributes[i].clone());
            }
            i = i + 1;
        }
        proof {
            assert(self.attrs().take(n as int) =~= self.attrs());
        }
        self.layout.attributes = kept;
        self.layout.calculate_layout_info();
        self
    }

    /// Removes the attribute at `index`, if there is one, and updates the layout info.
    pub fn remove_attribute_by_index(&mut self, index: usize) -> (r: &mut Self)
        requires
            old(self).wf(),
        ensures
            r.wf(),
            index < old(self).attrs().len() ==> {
                &&& r.attrs() == old(self).attrs().remove(index as int)
                &&& r.info() == packed_layout(r.attrs(), old(self).info())
            },
            index >= old(self).attrs().len() ==> r.current() == old(self).current(),
            r.current().setup() == old(self).current().setup(),
            r.current().shader() == old(self).current().shader(),
            r.layouts() == old(self).layouts(),
            *final(self) == *final(r),
    {
        if index < self.layout.attributes.len() {
            self.layout.attributes.remove(index);
            self.layout.calculate_layout_info();
        }
        self
    }

    /// Clears all attributes; the layout info is left as it is.
    pub fn clear_attributes(&mut self) -> (r: &mut Self)
        requires
            old(self).wf(),
        ensures
            r.wf(),
            r.attrs() == Seq::<VertexAttribute>::empty(),
            r.info() == old(self).info(),
            r.current().setup() == old(self).current().setup(),
            r.current().shader() == old(self).current().shader(),
            r.layouts() == old(self).layouts(),
            *final(self) == *final(r),
    {
        self.layout.attributes.clear();
        self
    }

    /// The first attribute named `name`, if any.
    pub fn get_attribute_by_name(&self, name: &str) -> (r: Option<&VertexAttribute>)
        requires
            self.wf(),
        ensures
            match r {
                Some(a) => exists|i: int|
                    {
                        &&& 0 <= i < self.attrs().len()
                        &&& *a == #[trigger] self.attrs()[i]
                        &&& has_name(self.attrs()[i], name@)
                        &&& forall|j: int| 0 <= j < i ==> !has_name(#[trigger] self.attrs()[j], name@)
                    },
                None => forall|j: int| 0 <= j < self.attrs().len() ==> !has_name(#[trigger] self.attrs()[j], name@),
            },
    {
        let key = name.to_owned();
        match self.layout.index_of_name(&key) {
            Some(i) => {
                let a = &self.layout.attributes[i];
                assert(*a == self.attrs()[i as int]);
                Some(a)
            },
            None => None,
        }
    }

    /// The attribute at `index`, if any.
    pub fn get_attribute_by_index(&self, index: usize) -> (r: Option<&VertexAttribute>)
        requires
            self.wf(),
        ensures
            r == (if index < self.attrs().len() { Some(&self.attrs()[index as int]) } else { None }),
    {
        if index < self.layout.attributes.len() {
            Some(&self.layout.attributes[index])
        } else {
            None
        }
    }

    /// Replaces the first attribute with the same (possibly absent) name as
    /// `attribute`, or adds it when there is none, and updates the layout info.
    pub fn add_or_replace(&mut self, attribute: VertexAttribute) -> (r: &mut Self)
        requires
            old(self).wf(),
        ensures
            r.wf(),
            (exists|i: int|
                {
                    &&& 0 <= i < old(self).attrs().len()
                    &&& same_name(#[trigger] old(self).attrs()[i].name, attribute.name)
                    &&& forall|j: int| 0 <= j < i ==> !same_name(#[trigger] old(self).attrs()[j].name, attribute.name)
                    &&& r.attrs() == old(self).attrs().update(i, attribute)
                }) || {
                &&& forall|j: int| 0 <= j < old(self).attrs().len() ==> !same_name(#[trigger] old(self).attrs()[j].name, attribute.name)
                &&& r.attrs() == old(self).attrs().push(attribute)
            },
            r.info() == packed_layout(r.attrs(), old(self).info()),
            r.current().setup() == old(self).current().setup(),
            r.current().shader() == old(self).current().shader(),
            r.layouts() == old(self).layouts(),
            *final(self) == *final(r),
    {
        match self.layout.index_of_same_name(&attribute.name) {
            Some(i) => {
                self.layout.attributes.set(i, attribute);
                self.layout.calculate_layout_info();
                assert(same_name(old(self).attrs()[i as int].name, attribute.name));
            },
            None => {
                self.layout.push_attribute(attribute);
            },
        }
        self
    }

    /// Returns the number of attributes.
    pub fn attribute_count(&self) -> (r: usize)
        ensures
            r == self.attrs().len(),
    {
        self.layout.attributes.len()
    }

    /// Returns the number of attributes.
    pub fn attributes_len(&mut self) -> (r: usize)
        ensures
            r == old(self).attrs().len(),
            *final(self) == *old(self),
    {
        self.layout.attributes.len()
    }

    /// Checks that every attribute has between 1 and 4 components.
    pub fn finalize_layout(&mut self) -> (r: Result<(), VertexLayoutError>)
        ensures
            *final(self) == *old(self),
            r is Ok <==> components_valid(old(self).attrs()),
            r matches Err(e) ==> e matches VertexLayoutError::InvalidNumberOfComponents,
    {
        if self.layout.check_components() {
            Ok(())
        } else {
            Err(VertexLayoutError::InvalidNumberOfComponents)
        }
    }

    /// Sets up the pointers of the attributes at the locations of their indices.
    pub fn setup_attributes<F: Fn(AttributePointer) -> Result<(), String>>(
        &mut self,
        apply: F,
    ) -> (r: Result<(), VertexLayoutError>)
        requires
            old(self).wf(),
            forall|p: AttributePointer| apply.requires((p,)),
        ensures
            final(self).wf(),
            final(self).layouts() == old(self).layouts(),
            AttributeLayout::setup_outcome(old(self).current(), final(self).current(), apply, r),
    {
        self.layout.setup_attributes(apply)
    }

    /// Sets up the pointers of the attributes at their locations in the
    /// shader program `shader_program_id`.
    pub fn setup_attributes_for_shader<L: Fn(u32, &String) -> i32, F: Fn(AttributePointer) -> Result<(), String>>(
        &mut self,
        shader_program_id: u32,
        lookup: L,
        apply: F,
    ) -> (r: Result<(), VertexLayoutError>)
        requires
            old(self).wf(),
            forall|program: u32, name: &String| lookup.requires((program, name)),
            forall|p: AttributePointer| apply.requires((p,)),
        ensures
            final(self).wf(),
            final(self).layouts() == old(self).layouts(),
            AttributeLayout::shader_setup_outcome(
                old(self).current(),
                final(self).current(),
                shader_program_id,
                lookup,
                apply,
                r,
            ),
    {
        self.layout.setup_attributes_for_shader(shader_program_id, lookup, apply)
    }

    /// Clears the setup state and the associated shader program.
    pub fn reset_setup(&mut self)
        requires
            old(self).wf(),
        ensures
            final(self).wf(),
            final(self).attrs() == old(self).attrs(),
            final(self).info() == old(self).info(),
            !final(self).current().setup(),
            final(self).current().shader() is None,
            final(self).layouts() == old(self).layouts(),
    {
        self.layout.reset_setup();
    }

    /// Creates the layout `key` from `attributes`; refused when `key` exists.
    pub fn create_layout(&mut self, key: &str, attributes: Vec<VertexAttribute>) -> (r: Result<(), String>)
        requires
            old(self).wf(),
        ensures
            final(self).wf(),
            final(self).current() == old(self).current(),
            old(self).layouts().contains_key(key@) ==> {
                &&& r matches Err(m) && m@ == "A layout with the key '"@ + key@ + "' already exists."@
                &&& final(self).layouts() == old(self).layouts()
            },
            !old(self).layouts().contains_key(key@) ==> {
                &&& r is Ok
                &&& final(self).layouts().dom() == old(self).layouts().dom().insert(key@)
                &&& final(self).layouts().len() == old(self).layouts().len() + 1
                &&& final(self).layouts().remove(key@) == old(self).layouts()
                &&& final(self).layouts()[key@].is_fresh_for(attributes@)
            },
    {
        if self.layouts.contains_key(key) {
            return Err(crate::text::concat3("A layout with the key '", key, "' already exists."));
        }
        let layout = AttributeLayout::from_slice(attributes.as_slice());
        let ghost fresh = layout;
        self.layouts.insert(key.to_owned(), layout);
        proof {
            assert(self.layouts.view() == old(self).layouts.view().insert(key@, fresh));
            assert(self.layouts.view().remove(key@) =~= old(self).layouts.view());
            assert(self.layouts.view().dom() =~= old(self).layouts.view().dom().insert(key@));
            old(self).layouts.lemma_dom_len();
        }
        Ok(())
    }

    /// Creates the layout `key` from `attributes`, replacing an existing one;
    /// tells whether one was replaced.
    pub fn create_or_update_layout(&mut self, key: &str, attributes: Vec<VertexAttribute>) -> (replaced: bool)
        requires
            old(self).wf(),
        ensures
            final(self).wf(),
            final(self).current() == old(self).current(),
            replaced == old(self).layouts().contains_key(key@),
            final(self).layouts().dom() == old(self).layouts().dom().insert(key@),
            final(self).layouts().remove(key@) == old(self).layouts().remove(key@),
            final(self).layouts()[key@].is_fresh_for(attributes@),
    {
        let layout = AttributeLayout::from_slice(attributes.as_slice());
        let ghost fresh = layout;
        let prev = self.layouts.insert(key.to_owned(), layout);
        proof {
            assert(self.layouts.view().remove(key@) =~= old(self).layouts.view().remove(key@));
            assert(self.layouts.view().dom() =~= old(self).layouts.view().dom().insert(key@));
        }
        prev.is_some()
    }

    /// Deletes the layout `key`; refused when there is none.
    pub fn delete_layout(&mut self, key: &str) -> (r: Result<(), String>)
        requires
            old(self).wf(),
        ensures
            final(self).wf(),
            final(self).current() == old(self).current(),
            final(self).layouts() == old(self).layouts().remove(key@),
            r is Ok <==> old(self).layouts().contains_key(key@),
            r matches Err(m) ==> m@ == "No layout found with the key '"@ + key@ + "'"@,
    {
        match self.layouts.remove(key) {
            Some(_) => Ok(()),
            None => Err(crate::text::concat3("No layout found with the key '", key, "'")),
        }
    }

    /// Removes every named layout.
    pub fn clear_all_layouts(&mut self)
        requires
            old(self).wf(),
        ensures
            final(self).wf(),
            final(self).current() == old(self).current(),
            final(self).layouts() == Map::<Seq<char>, AttributeLayout>::empty(),
    {
        self.layouts.clear();
    }

    /// Whether there is at least one named layout.
    pub fn has_layouts(&self) -> (r: bool)
        requires
            self.wf(),
        ensures
            r == (self.layouts().len() > 0),
    {
        !self.layouts.is_empty()
    }

    /// A manager holds finitely many named layouts.
    pub proof fn lemma_layouts_finite(&self)
        requires
            self.wf(),
        ensures
            self.layouts().dom().finite(),
    {
        self.layouts.lemma_dom_len();
    }

    /// The number of named layouts.
    pub fn layout_count(&self) -> (r: usize)
        requires
            self.wf(),
        ensures
            r == self.layouts().len(),
    {
        self.layouts.len()
    }

    /// Sets up the layout `key` at the locations of its attribute indices.
    pub fn activate_layout<F: Fn(AttributePointer) -> Result<(), String>>(
        &mut self,
        key: &str,
        apply: F,
    ) -> (r: Result<(), VertexLayoutError>)
        requires
            old(self).wf(),
            forall|p: AttributePointer| apply.requires((p,)),
        ensures
            final(self).wf(),
            final(self).current() == old(self).current(),
            old(self).layouts().contains_key(key@) ==> exists|post: AttributeLayout|
                {
                    &&& AttributeLayout::setup_outcome(old(self).layouts()[key@], post, apply, r)
                    &&& #[trigger] final(self).layouts() == old(self).layouts().insert(key@, post)
                },
            !old(self).layouts().contains_key(key@) ==> {
                &&& r matches Err(VertexLayoutError::InvalidLayoutName(name)) && name@ == key@
                &&& final(self).layouts() == old(self).layouts()
            },
    {
        match self.layouts.remove(key) {
            Some(layout) => {
                let mut layout = layout;
                let r = layout.setup_attributes(apply);
                let ghost post = layout;
                self.layouts.insert(key.to_owned(), layout);
                proof {
                    assert(self.layouts.view() =~= old(self).layouts.view().insert(key@, post));
                }
                r
            },
            None => Err(VertexLayoutError::InvalidLayoutName(key.to_owned())),
        }
    }

    /// Like `activate_layout`, but first clears the manager's own setup state
    /// when the layout exists.
    pub fn force_activate_layout<F: Fn(AttributePointer) -> Result<(), String>>(
        &mut self,
        key: &str,
        apply: F,
    ) -> (r: Result<(), VertexLayoutError>)
        requires
            old(self).wf(),
            forall|p: AttributePointer| apply.requires((p,)),
        ensures
            final(self).wf(),
            old(self).layouts().contains_key(key@) ==> {
                &&& final(self).attrs() == old(self).attrs()
                &&& final(self).info() == old(self).info()
                &&& !final(self).current().setup()
                &&& final(self).current().shader() is None
                &&& exists|post: AttributeLayout|
                    {
                        &&& AttributeLayout::setup_outcome(old(self).layouts()[key@], post, apply, r)
                        &&& #[trigger] final(self).layouts() == old(self).layouts().insert(key@, post)
                    }
            },
            !old(self).layouts().contains_key(key@) ==> {
                &&& r matches Err(VertexLayoutError::InvalidLayoutName(name)) && name@ == key@
                &&& final(self).current() == old(self).current()
                &&& final(self).layouts() == old(self).layouts()
            },
    {
        match self.layouts.remove(key) {
            Some(layout) => {
                self.layout.reset_setup();
                let mut layout = layout;
                let r = layout.setup_attributes(apply);
                let ghost post = layout;
                self.layouts.insert(key.to_owned(), layout);
                proof {
                    assert(self.layouts.view() =~= old(self).layouts.view().insert(key@, post));
                }
                r
            },
            None => Err(VertexLayoutError::InvalidLayoutName(key.to_owned())),
        }
    }

    /// Mutable access to the attribute at `index`, if any. The layout info
    /// is not recomputed after a change made through it.
    pub fn get_attribute_by_index_mut(&mut self, index: usize) -> (r: Option<&mut VertexAttribute>)
        requires
            old(self).wf(),
        ensures
            index < old(self).attrs().len() ==> {
                &&& r is Some
                &&& *r.unwrap() == old(self).attrs()[index as int]
                &&& final(self).attrs() == old(self).attrs().update(index as int, *final(r.unwrap()))
                &&& final(self).info() == old(self).info()
                &&& final(self).current().setup() == old(self).current().setup()
                &&& final(self).current().shader() == old(self).current().shader()
                &&& final(self).layouts() == old(self).layouts()
            },
            index >= old(self).attrs().len() ==> r is None && *final(self) == *old(self),
            final(self).wf(),
    {
        if index < self.layout.attributes.len() {
            Some(&mut self.layout.attributes[index])
        } else {
            None
        }
    }

    /// Mutable access to the first attribute named `name`, if any. The layout
    /// info is not recomputed after a change made through it.
    pub fn get_attribute_by_name_mut(&mut self, name: &str) -> (r: Option<&mut VertexAttribute>)
        requires
            old(self).wf(),
        ensures
            final(self).wf(),
            match r {
                Some(a) => exists|i: int|
                    {
                        &&& 0 <= i < old(self).attrs().len()
                        &&& *a == #[trigger] old(self).attrs()[i]
                        &&& has_name(old(self).attrs()[i], name@)
                        &&& forall|j: int| 0 <= j < i ==> !has_name(#[trigger] old(self).attrs()[j], name@)
                        &&& final(self).attrs() == old(self).attrs().update(i, *final(a))
                    },
                None => {
                    &&& forall|j: int| 0 <= j < old(self).attrs().len() ==> !has_name(#[trigger] old(self).attrs()[j], name@)
                    &&& *final(self) == *old(self)
                },
            },
            final(self).info() == old(self).info(),
            final(self).current().setup() == old(self).current().setup(),
            final(self).current().shader() == old(self).current().shader(),
            final(self).layouts() == old(self).layouts(),
    {
        let key = name.to_owned();
        match self.layout.index_of_name(&key) {
            Some(i) => {
                let a = &mut self.layout.attributes[i];
                assert(*a == old(self).attrs()[i as int]);
                Some(a)
            },
            None => None,
        }
    }

    /// A manager holding the attributes of the vertex type `T`, laid out.
    pub fn new<T: Vertex>() -> (r: Self)
        ensures
            r.wf(),
            r.current().is_fresh_for(r.attrs()),
            r.layouts() == Map::<Seq<char>, AttributeLayout>::empty(),
    {
        let attributes = T::attributes();
        VertexLayoutManager { layout: AttributeLayout::from_slice(attributes.as_slice()), layouts: StrMap::new() }
    }
}

// ---------------------------------------------------------------------------
// Laws
// ---------------------------------------------------------------------------

/// In a tightly packed layout the first attribute starts at offset 0, each
/// next attribute starts where the previous one ends, and every attribute
/// has the size of the whole vertex as stride (all reduced to 32 bits).
pub proof fn lemma_packed_layout_is_interleaved(attrs: Seq<VertexAttribute>, info: Seq<(u32, u32)>)
    ensures
        attrs.len() > 0 ==> packed_layout(attrs, info)[0].1 == 0,
        forall|i: int|
            0 <= i < attrs.len() - 1 ==> #[trigger] packed_layout(attrs, info)[i + 1].1 == wrap_u32(
                packed_size(attrs, i) + attribute_size(attrs[i]),
            ),
        forall|i: int|
            0 <= i < attrs.len() ==> #[trigger] packed_layout(attrs, info)[i].0 == wrap_u32(
                packed_size(attrs, attrs.len() as int),
            ),
{
    assert forall|i: int| 0 <= i < attrs.len() - 1 implies #[trigger] packed_layout(attrs, info)[i + 1].1
        == wrap_u32(packed_size(attrs, i) + attribute_size(attrs[i])) by {
        lemma_packed_size_step(attrs, i);
    }
}

/// Creating a layout under a new key and then deleting that key leaves the
/// named layouts as they were.
pub proof fn lemma_create_then_delete_layout(
    before: Map<Seq<char>, AttributeLayout>,
    created: Map<Seq<char>, AttributeLayout>,
    deleted: Map<Seq<char>, AttributeLayout>,
    key: Seq<char>,
)
    requires
        !before.contains_key(key),
        created.dom() == before.dom().insert(key),
        created.remove(key) == before,
        deleted == created.remove(key),
    ensures
        deleted == before,
{
}

/// A layout that was refused for its component counts is not set up by
/// the refused setup.
pub proof fn lemma_refused_setup_keeps_state<F: Fn(AttributePointer) -> Result<(), String>>(
    pre: AttributeLayout,
    post: AttributeLayout,
    apply: F,
    r: Result<(), VertexLayoutError>,
)
    requires
        AttributeLayout::setup_outcome(pre, post, apply, r),
        r is Err,
    ensures
        post.setup() == pre.setup(),
        post.attrs() == pre.attrs(),
{
}

} // verus!
