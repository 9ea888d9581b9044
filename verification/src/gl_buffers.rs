//! Vertex attribute types, the layout of interleaved vertex data, and the
//! buffer objects that hold it.
use vstd::prelude::*;

use crate::command::{GlCommand, GL_ARRAY_BUFFER, GL_DYNAMIC_DRAW, GL_FALSE, GL_FLOAT};

verus! {

/// The scalar type of one component of a vertex attribute.
#[derive(Clone, Copy, Debug, PartialEq, Eq, Structural)]
pub enum VertexAttributeDataTypes {
    F32,
}

impl VertexAttributeDataTypes {
    /// Size in bytes of one component of this type.
    pub open spec fn spec_size(&self) -> int {
        match self {
            VertexAttributeDataTypes::F32 => 4,
        }
    }

    /// Size in bytes of one component of this type.
    pub fn get_size(&self) -> (size: i32)
        ensures
            size == self.spec_size(),
    {
        match self {
            VertexAttributeDataTypes::F32 => 4,
        }
    }
}

/// The shape of one vertex attribute: a scalar or a vector of two to four
/// components, each of the given data type.
#[derive(Clone, Copy, Debug, PartialEq, Eq, Structural)]
pub enum VertexAttributeTypes {
    Scalar(VertexAttributeDataTypes),
    Vec2(VertexAttributeDataTypes),
    Vec3(VertexAttributeDataTypes),
    Vec4(VertexAttributeDataTypes),
}

impl VertexAttributeTypes {
    /// Number of components of the attribute.
    pub open spec fn spec_components(&self) -> int {
        match self {
            VertexAttributeTypes::Scalar(_) => 1,
            VertexAttributeTypes::Vec2(_) => 2,
            VertexAttributeTypes::Vec3(_) => 3,
            VertexAttributeTypes::Vec4(_) => 4,
        }
    }

    /// Type of each component of the attribute.
    pub open spec fn data_type(&self) -> VertexAttributeDataTypes {
        match self {
            VertexAttributeTypes::Scalar(d) => *d,
            VertexAttributeTypes::Vec2(d) => *d,
            VertexAttributeTypes::Vec3(d) => *d,
            VertexAttributeTypes::Vec4(d) => *d,
        }
    }

    /// Size in bytes of the whole attribute.
    pub open spec fn spec_size(&self) -> int {
        self.spec_components() * self.data_type().spec_size()
    }

    /// Size in bytes of the whole attribute: its number of components times
    /// the size of one component.
    pub fn get_size(&self) -> (size: i32)
        ensures
            size == self.spec_size(),
            4 <= size <= 16,
    {
        let data_types = match self {
            VertexAttributeTypes::Scalar(data_types) => data_types,
            VertexAttributeTypes::Vec2(data_types) => data_types,
            VertexAttributeTypes::Vec3(data_types) => data_types,
            VertexAttributeTypes::Vec4(data_types) => data_types,
        };
        let count = self.get_components_count();
        let component = data_types.get_size();
        assert(4 <= count * component <= 16) by (nonlinear_arith)
            requires
                1 <= count <= 4,
                component == 4,
        ;
        count * component
    }

    /// Number of components of the attribute.
    pub fn get_components_count(&self) -> (count: i32)
        ensures
            count == self.spec_components(),
            1 <= count <= 4,
    {
        match self {
            VertexAttributeTypes::Scalar(_) => 1,
            VertexAttributeTypes::Vec2(_) => 2,
            VertexAttributeTypes::Vec3(_) => 3,
            VertexAttributeTypes::Vec4(_) => 4,
        }
    }
}

/// Total size in bytes of one vertex made of the attributes `attrs`, stored
/// one after the other: the sum of their sizes.
pub open spec fn spec_stride(attrs: Seq<VertexAttributeTypes>) -> int
    decreases attrs.len(),
{
    if attrs.len() == 0 {
        0
    } else {
        spec_stride(attrs.drop_last()) + attrs.last().spec_size()
    }
}

/// Byte offset of attribute `i` inside a vertex: the sizes of the attributes
/// before it, summed.
pub open spec fn spec_offset(attrs: Seq<VertexAttributeTypes>, i: int) -> int {
    spec_stride(attrs.take(i))
}

/// The call that describes attribute `i` of the vertex layout `attrs`. Its
/// `offset` is the attribute's byte offset inside a vertex; the last argument
/// of `glVertexAttribPointer` is the address of an `i32` that holds it.
pub open spec fn attribute_pointer(attrs: Seq<VertexAttributeTypes>, i: int) -> GlCommand {
    GlCommand::VertexAttribPointer {
        index: i as u32,
        size: attrs[i].spec_components() as i32,
        kind: GL_FLOAT,
        normalized: GL_FALSE,
        stride: spec_stride(attrs) as i32,
        offset: spec_offset(attrs, i) as i32,
    }
}

/// The calls that describe and enable the first `n` attributes of `attrs`:
/// for each attribute in order, its pointer and then its enabling.
pub open spec fn attribute_commands(attrs: Seq<VertexAttributeTypes>, n: int) -> Seq<GlCommand>
    decreases n,
{
    if n <= 0 {
        Seq::empty()
    } else {
        attribute_commands(attrs, n - 1) + seq![
            attribute_pointer(attrs, n - 1),
            GlCommand::EnableVertexAttribArray { index: (n - 1) as u32 },
        ]
    }
}

/// Every attribute is at least four bytes wide.
proof fn lemma_stride_at_least(attrs: Seq<VertexAttributeTypes>)
    ensures
        spec_stride(attrs) >= 4 * attrs.len(),
    decreases attrs.len(),
{
    if attrs.len() > 0 {
        lemma_stride_at_least(attrs.drop_last());
    }
}

/// The offset after the first `i + 1` attributes is the offset of attribute
/// `i` plus its size.
proof fn lemma_offset_step(attrs: Seq<VertexAttributeTypes>, i: int)
    requires
        0 <= i < attrs.len(),
    ensures
        spec_offset(attrs, i + 1) == spec_offset(attrs, i) + attrs[i].spec_size(),
{
    assert(attrs.take(i + 1).drop_last() =~= attrs.take(i));
}

/// Offsets never decrease along the attributes.
proof fn lemma_offset_monotonic(attrs: Seq<VertexAttributeTypes>, i: int, j: int)
    requires
        0 <= i <= j <= attrs.len(),
    ensures
        spec_offset(attrs, i) <= spec_offset(attrs, j),
    decreases j - i,
{
    if i < j {
        lemma_offset_step(attrs, j - 1);
        lemma_offset_monotonic(attrs, i, j - 1);
    }
}

/// The offset past the last attribute is the stride.
proof fn lemma_offset_end(attrs: Seq<VertexAttributeTypes>)
    ensures
        spec_offset(attrs, attrs.len() as int) == spec_stride(attrs),
{
    assert(attrs.take(attrs.len() as int) =~= attrs);
}

/// Attributes are packed: the first starts at offset 0, each next one starts
/// where the previous one ends, and the last one ends at the stride.
pub proof fn lemma_layout_packed(attrs: Seq<VertexAttributeTypes>)
    ensures
        spec_offset(attrs, 0) == 0,
        forall|i: int|
            0 <= i < attrs.len() ==> #[trigger] spec_offset(attrs, i + 1) == spec_offset(attrs, i)
                + attrs[i].spec_size(),
        spec_offset(attrs, attrs.len() as int) == spec_stride(attrs),
{
    assert(attrs.take(0) =~= Seq::<VertexAttributeTypes>::empty());
    assert forall|i: int| 0 <= i < attrs.len() implies #[trigger] spec_offset(attrs, i + 1)
        == spec_offset(attrs, i) + attrs[i].spec_size() by {
        lemma_offset_step(attrs, i);
    }
    lemma_offset_end(attrs);
}

/// Each attribute lies inside one vertex, and two different attributes never
/// overlap: attribute `i` ends at or before attribute `j` starts when `i < j`.
pub proof fn lemma_attributes_disjoint(attrs: Seq<VertexAttributeTypes>, i: int, j: int)
    requires
        0 <= i < j < attrs.len(),
    ensures
        0 <= spec_offset(attrs, i),
        spec_offset(attrs, i) + attrs[i].spec_size() <= spec_offset(attrs, j),
        spec_offset(attrs, j) + attrs[j].spec_size() <= spec_stride(attrs),
{
    assert(attrs.take(0) =~= Seq::<VertexAttributeTypes>::empty());
    lemma_offset_monotonic(attrs, 0, i);
    lemma_offset_step(attrs, i);
    lemma_offset_monotonic(attrs, i + 1, j);
    lemma_offset_step(attrs, j);
    lemma_offset_monotonic(attrs, j + 1, attrs.len() as int);
    lemma_offset_end(attrs);
}

/// The stride of two attribute lists laid out one after the other is the sum
/// of their strides.
pub proof fn lemma_stride_concat(a: Seq<VertexAttributeTypes>, b: Seq<VertexAttributeTypes>)
    ensures
        spec_stride(a + b) == spec_stride(a) + spec_stride(b),
    decreases b.len(),
{
    if b.len() == 0 {
        assert(a + b =~= a);
    } else {
        assert((a + b).drop_last() =~= a + b.drop_last());
        lemma_stride_concat(a, b.drop_last());
    }
}

/// The calls of a layout come in pairs: call `2 i` points attribute `i`, and
/// call `2 i + 1` enables it.
pub proof fn lemma_attribute_commands_pairs(attrs: Seq<VertexAttributeTypes>, n: int, i: int)
    requires
        0 <= i < n,
    ensures
        attribute_commands(attrs, n).len() == 2 * n,
        attribute_commands(attrs, n)[2 * i] == attribute_pointer(attrs, i),
        attribute_commands(attrs, n)[2 * i + 1] == (GlCommand::EnableVertexAttribArray {
            index: i as u32,
        }),
    decreases n,
{
    lemma_attribute_commands_len(attrs, n - 1);
    if i < n - 1 {
        lemma_attribute_commands_pairs(attrs, n - 1, i);
    }
}

/// What the calls that describe a vertex layout say, read off the calls
/// themselves. There are two calls per attribute. Call `2 i` points shader
/// location `i` at attribute `i`: as many `GL_FLOAT` components as the
/// attribute has, not normalised. The first attribute starts at offset 0, and
/// each next one starts exactly the previous one's byte size further on, so
/// no two overlap and none is skipped. Every pointer has the same stride: the
/// end of the last attribute, which is the sum of all the byte sizes. Call
/// `2 i + 1` enables location `i`.
pub proof fn lemma_set_attributes_layout(attrs: Seq<VertexAttributeTypes>, cmds: Seq<GlCommand>)
    requires
        spec_stride(attrs) <= i32::MAX,
        cmds == attribute_commands(attrs, attrs.len() as int),
    ensures
        cmds.len() == 2 * attrs.len(),
        forall|i: int|
            #![trigger cmds[2 * i]]
            0 <= i < attrs.len() ==> {
                &&& cmds[2 * i] is VertexAttribPointer
                &&& cmds[2 * i]->VertexAttribPointer_index == i
                &&& cmds[2 * i]->VertexAttribPointer_size == attrs[i].spec_components()
                &&& cmds[2 * i]->VertexAttribPointer_kind == GL_FLOAT
                &&& cmds[2 * i]->VertexAttribPointer_normalized == GL_FALSE
                &&& cmds[2 * i]->VertexAttribPointer_stride == spec_stride(attrs)
                &&& cmds[2 * i + 1] == (GlCommand::EnableVertexAttribArray { index: i as u32 })
            },
        attrs.len() > 0 ==> cmds[0]->VertexAttribPointer_offset == 0,
        forall|i: int|
            #![trigger cmds[2 * i]]
            0 <= i < attrs.len() - 1 ==> cmds[2 * i + 2]->VertexAttribPointer_offset
                == cmds[2 * i]->VertexAttribPointer_offset + attrs[i].spec_size(),
        forall|i: int|
            #![trigger cmds[2 * i]]
            0 <= i < attrs.len() ==> cmds[2 * i]->VertexAttribPointer_stride == cmds[2 * (
            attrs.len() - 1)]->VertexAttribPointer_offset + attrs[attrs.len() - 1].spec_size(),
{
    let n = attrs.len() as int;
    lemma_attribute_commands_len(attrs, n);
    assert forall|i: int|
        #![trigger cmds[2 * i]]
        0 <= i < attrs.len() implies {
            &&& cmds[2 * i] is VertexAttribPointer
            &&& cmds[2 * i]->VertexAttribPointer_index == i
            &&& cmds[2 * i]->VertexAttribPointer_size == attrs[i].spec_components()
            &&& cmds[2 * i]->VertexAttribPointer_kind == GL_FLOAT
            &&& cmds[2 * i]->VertexAttribPointer_normalized == GL_FALSE
            &&& cmds[2 * i]->VertexAttribPointer_stride == spec_stride(attrs)
            &&& cmds[2 * i + 1] == (GlCommand::EnableVertexAttribArray { index: i as u32 })
        } by {
        lemma_pointer_call(attrs, i);
    }
    if n > 0 {
        lemma_pointer_call(attrs, 0);
        assert(spec_offset(attrs, 0) == 0) by {
            assert(attrs.take(0) =~= Seq::<VertexAttributeTypes>::empty());
        }
        assert forall|i: int|
            #![trigger cmds[2 * i]]
            0 <= i < n - 1 implies cmds[2 * i + 2]->VertexAttribPointer_offset
            == cmds[2 * i]->VertexAttribPointer_offset + attrs[i].spec_size() by {
            lemma_pointer_call(attrs, i);
            lemma_pointer_call(attrs, i + 1);
            assert(2 * i + 2 == 2 * (i + 1));
            lemma_offset_step(attrs, i);
        }
        lemma_pointer_call(attrs, n - 1);
        lemma_offset_step(attrs, n - 1);
        lemma_offset_end(attrs);
        assert forall|i: int|
            #![trigger cmds[2 * i]]
            0 <= i < attrs.len() implies cmds[2 * i]->VertexAttribPointer_stride == cmds[2 * (
            attrs.len() - 1)]->VertexAttribPointer_offset + attrs[attrs.len() - 1].spec_size() by {
            lemma_pointer_call(attrs, i);
        }
    }
}

/// The pointer call of attribute `i` in the calls of the whole layout, field
/// by field, and the enabling call after it.
proof fn lemma_pointer_call(attrs: Seq<VertexAttributeTypes>, i: int)
    requires
        spec_stride(attrs) <= i32::MAX,
        0 <= i < attrs.len(),
    ensures
        ({
            let cmds = attribute_commands(attrs, attrs.len() as int);
            &&& cmds[2 * i] is VertexAttribPointer
            &&& cmds[2 * i]->VertexAttribPointer_index == i
            &&& cmds[2 * i]->VertexAttribPointer_size == attrs[i].spec_components()
            &&& cmds[2 * i]->VertexAttribPointer_kind == GL_FLOAT
            &&& cmds[2 * i]->VertexAttribPointer_normalized == GL_FALSE
            &&& cmds[2 * i]->VertexAttribPointer_stride == spec_stride(attrs)
            &&& cmds[2 * i]->VertexAttribPointer_offset == spec_offset(attrs, i)
            &&& cmds[2 * i + 1] == (GlCommand::EnableVertexAttribArray { index: i as u32 })
        }),
{
    let n = attrs.len() as int;
    lemma_stride_at_least(attrs);
    lemma_attribute_commands_pairs(attrs, n, i);
    assert(attrs.take(0) =~= Seq::<VertexAttributeTypes>::empty());
    lemma_offset_monotonic(attrs, 0, i);
    lemma_offset_monotonic(attrs, i, n);
    lemma_offset_end(attrs);
}

proof fn lemma_attribute_commands_len(attrs: Seq<VertexAttributeTypes>, n: int)
    requires
        0 <= n,
    ensures
        attribute_commands(attrs, n).len() == 2 * n,
    decreases n,
{
    if n > 0 {
        lemma_attribute_commands_len(attrs, n - 1);
    }
}

/// A buffer object holding vertex data, by its GL name. It is owned: whoever
/// holds it deletes it once, with [`VertexBuffer::release`].
#[derive(Debug, PartialEq, Eq, Structural)]
pub struct VertexBuffer {
    pub id: u32,
}

impl VertexBuffer {
    /// The buffer named `id`, as `glGenBuffers` gave it.
    pub fn new(id: u32) -> (buffer: Self)
        ensures
            buffer.id == id,
    {
        VertexBuffer { id }
    }

    /// Binds this buffer as the array buffer.
    pub fn bind(&self) -> (cmd: GlCommand)
        ensures
            cmd == (GlCommand::BindBuffer { target: GL_ARRAY_BUFFER, buffer: self.id }),
    {
        GlCommand::BindBuffer { target: GL_ARRAY_BUFFER, buffer: self.id }
    }

    /// Unbinds whatever buffer is bound as the array buffer.
    pub fn unbind(&self) -> (cmd: GlCommand)
        ensures
            cmd == (GlCommand::BindBuffer { target: GL_ARRAY_BUFFER, buffer: 0 }),
    {
        GlCommand::BindBuffer { target: GL_ARRAY_BUFFER, buffer: 0 }
    }

    /// Binds this buffer and gives it `size` bytes of uninitialised storage
    /// for dynamic drawing.
    pub fn allocate(&self, size: isize) -> (cmds: Vec<GlCommand>)
        ensures
            cmds@ == seq![
                GlCommand::BindBuffer { target: GL_ARRAY_BUFFER, buffer: self.id },
                GlCommand::BufferData { target: GL_ARRAY_BUFFER, size, usage: GL_DYNAMIC_DRAW },
            ],
    {
        let mut cmds: Vec<GlCommand> = Vec::new();
        cmds.push(self.bind());
        cmds.push(GlCommand::BufferData { target: GL_ARRAY_BUFFER, size, usage: GL_DYNAMIC_DRAW });
        cmds
    }

    /// Binds this buffer and writes `data_len` floats (four bytes each) into
    /// it, starting at byte `offset`. The floats themselves are the caller's:
    /// the last call uploads them.
    pub fn insert_data(&self, offset: isize, data_len: usize) -> (cmds: Vec<GlCommand>)
        requires
            data_len * 4 <= isize::MAX,
        ensures
            cmds@ == seq![
                GlCommand::BindBuffer { target: GL_ARRAY_BUFFER, buffer: self.id },
                GlCommand::BufferSubData {
                    target: GL_ARRAY_BUFFER,
                    offset,
                    size: (data_len * 4) as isize,
                },
            ],
    {
        let size: isize = data_len as isize * 4;
        let mut cmds: Vec<GlCommand> = Vec::new();
        cmds.push(self.bind());
        cmds.push(GlCommand::BufferSubData { target: GL_ARRAY_BUFFER, offset, size });
        cmds
    }

    /// Size in bytes of one vertex with the attributes `attrs`.
    pub fn attributes_stride(attrs: &Vec<VertexAttributeTypes>) -> (stride: i32)
        requires
            spec_stride(attrs@) <= i32::MAX,
        ensures
            stride == spec_stride(attrs@),
    {
        let mut stride: i32 = 0;
        let mut i: usize = 0;
        while i < attrs.len()
            invariant
                0 <= i <= attrs.len(),
                spec_stride(attrs@) <= i32::MAX,
                stride == spec_offset(attrs@, i as int),
            decreases attrs.len() - i,
        {
            proof {
                lemma_offset_step(attrs@, i as int);
                lemma_offset_monotonic(attrs@, i + 1, attrs.len() as int);
                lemma_offset_end(attrs@);
            }
            stride = stride + attrs[i].get_size();
            i = i + 1;
        }
        proof {
            lemma_offset_end(attrs@);
        }
        stride
    }

    /// Describes the vertex layout `attrs` to the bound vertex array: the
    /// attributes are interleaved in the given order with no gaps, attribute
    /// `i` is fed to shader location `i` as `GL_FLOAT` components, and each is
    /// enabled right after it is described. Each attribute's byte offset
    /// inside a vertex reaches GL as the address of an `i32` that holds it.
    pub fn set_attributes(&self, attrs: &Vec<VertexAttributeTypes>) -> (cmds: Vec<GlCommand>)
        requires
            spec_stride(attrs@) <= i32::MAX,
        ensures
            cmds@ == attribute_commands(attrs@, attrs.len() as int),
            cmds@.len() == 2 * attrs@.len(),
            forall|i: int|
                #![trigger cmds@[2 * i]]
                0 <= i < attrs@.len() ==> {
                    &&& cmds@[2 * i] is VertexAttribPointer
                    &&& cmds@[2 * i]->VertexAttribPointer_index == i
                    &&& cmds@[2 * i]->VertexAttribPointer_size == attrs@[i].spec_components()
                    &&& cmds@[2 * i]->VertexAttribPointer_kind == GL_FLOAT
                    &&& cmds@[2 * i]->VertexAttribPointer_normalized == GL_FALSE
                    &&& cmds@[2 * i]->VertexAttribPointer_stride == spec_stride(attrs@)
                    &&& cmds@[2 * i + 1] == (GlCommand::EnableVertexAttribArray { index: i as u32 })
                },
            attrs@.len() > 0 ==> cmds@[0]->VertexAttribPointer_offset == 0,
            forall|i: int|
                #![trigger cmds@[2 * i]]
                0 <= i < attrs@.len() - 1 ==> cmds@[2 * i + 2]->VertexAttribPointer_offset
                    == cmds@[2 * i]->VertexAttribPointer_offset + attrs@[i].spec_size(),
            forall|i: int|
                #![trigger cmds@[2 * i]]
                0 <= i < attrs@.len() ==> cmds@[2 * i]->VertexAttribPointer_stride == cmds@[2 * (
                attrs@.len() - 1)]->VertexAttribPointer_offset + attrs@[attrs@.len() - 1].spec_size(),
    {
        let stride = Self::attributes_stride(attrs);
        let mut cmds: Vec<GlCommand> = Vec::new();
        let mut offset: i32 = 0;
        let mut i: usize = 0;
        proof {
            lemma_stride_at_least(attrs@);
            assert(attrs@.take(0) =~= Seq::<VertexAttributeTypes>::empty());
        }
        while i < attrs.len()
            invariant
                0 <= i <= attrs.len(),
                spec_stride(attrs@) <= i32::MAX,
                spec_stride(attrs@) >= 4 * attrs.len(),
                stride == spec_stride(attrs@),
                offset == spec_offset(attrs@, i as int),
                cmds@ == attribute_commands(attrs@, i as int),
            decreases attrs.len() - i,
        {
            let attr = &attrs[i];
            proof {
                lemma_offset_step(attrs@, i as int);
                lemma_offset_monotonic(attrs@, i + 1, attrs.len() as int);
                lemma_offset_monotonic(attrs@, 0, i as int);
                lemma_offset_end(attrs@);
            }
            let index: u32 = i as u32;
            cmds.push(
                GlCommand::VertexAttribPointer {
                    index,
                    size: attr.get_components_count(),
                    kind: GL_FLOAT,
                    normalized: GL_FALSE,
                    stride,
                    offset,
                },
            );
            cmds.push(GlCommand::EnableVertexAttribArray { index });
            offset = offset + attr.get_size();
            i = i + 1;
        }
        proof {
            lemma_set_attributes_layout(attrs@, cmds@);
        }
        cmds
    }

    /// Deletes this buffer object.
    pub fn release(&self) -> (cmd: GlCommand)
        ensures
            cmd == (GlCommand::DeleteBuffers { buffer: self.id }),
    {
        GlCommand::DeleteBuffers { buffer: self.id }
    }
}

/// A buffer object holding vertex indices, by its GL name.
#[derive(Debug, PartialEq, Eq, Structural)]
pub struct IndexBuffer {
    pub id: u32,
}

} // verus!
