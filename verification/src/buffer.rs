//! Vertex and index buffers, and the layout of one interleaved vertex record.

use vstd::prelude::*;

use crate::backend;
use crate::command::{trace, BufferTarget, BufferUsage, Command, CommandView};

verus! {

/// Scalar kind of one attribute component.
#[derive(Debug, Clone, Copy, PartialEq, Eq, Structural)]
pub enum BufferElementType {
    Float,
    UnsignedInt,
}

impl BufferElementType {
    /// Byte size of one component of this kind.
    pub open spec fn spec_size_of(&self) -> usize {
        4
    }

    /// The backend's numeric code for this kind.
    pub open spec fn spec_code(&self) -> u32 {
        match self {
            BufferElementType::Float => 0x1406,
            BufferElementType::UnsignedInt => 0x1405,
        }
    }

    /// Byte size of one component of this kind.
    #[verifier::when_used_as_spec(spec_size_of)]
    pub fn size_of(&self) -> (size: usize)
        ensures
            size == self.spec_size_of(),
    {
        match self {
            BufferElementType::Float => 4,
            BufferElementType::UnsignedInt => 4,
        }
    }

    /// The backend's numeric code for this kind.
    #[verifier::when_used_as_spec(spec_code)]
    pub fn code(&self) -> (code: u32)
        ensures
            code == self.spec_code(),
    {
        match self {
            BufferElementType::Float => backend::float_code(),
            BufferElementType::UnsignedInt => backend::unsigned_int_code(),
        }
    }
}

/// One attribute of a vertex record: `count` components of kind `ty`.
#[derive(Debug, Clone, Copy, PartialEq, Eq, Structural)]
pub struct VertexBufferElement {
    pub count: u32,
    pub ty: BufferElementType,
    pub normalized: bool,
}

impl VertexBufferElement {
    /// Bytes that the attribute takes up in a vertex record.
    pub open spec fn byte_size(self) -> int {
        self.count * self.ty.spec_size_of()
    }
}

/// Byte offset of attribute `i` in a vertex record made of `elements`: the
/// sizes of the attributes before it, added up. At `elements.len()` this is
/// the size of the whole record.
pub open spec fn offset_of(elements: Seq<VertexBufferElement>, i: int) -> int
    decreases i,
{
    if i <= 0 {
        0
    } else {
        offset_of(elements, i - 1) + elements[i - 1].byte_size()
    }
}

/// Byte size of one whole vertex record made of `elements`.
pub open spec fn stride_of(elements: Seq<VertexBufferElement>) -> int {
    offset_of(elements, elements.len() as int)
}

/// Offsets depend only on the attributes before them.
proof fn lemma_offset_of_prefix(
    a: Seq<VertexBufferElement>,
    b: Seq<VertexBufferElement>,
    i: int,
)
    requires
        0 <= i <= a.len(),
        i <= b.len(),
        forall|k: int| 0 <= k < i ==> a[k] == b[k],
    ensures
        offset_of(a, i) == offset_of(b, i),
    decreases i,
{
    if i > 0 {
        lemma_offset_of_prefix(a, b, i - 1);
    }
}

/// Appending an attribute to a record grows its stride by the attribute's
/// size and leaves the offsets of the earlier attributes alone.
pub proof fn lemma_stride_of_push(elements: Seq<VertexBufferElement>, element: VertexBufferElement)
    ensures
        stride_of(elements.push(element)) == stride_of(elements) + element.byte_size(),
        forall|i: int|
            0 <= i <= elements.len() ==> #[trigger] offset_of(elements.push(element), i)
                == offset_of(elements, i),
{
    let pushed = elements.push(element);
    assert forall|i: int| 0 <= i <= elements.len() implies #[trigger] offset_of(pushed, i)
        == offset_of(elements, i) by {
        lemma_offset_of_prefix(pushed, elements, i);
    }
    let n = elements.len() as int;
    assert(offset_of(pushed, n + 1) == offset_of(pushed, n) + pushed[n].byte_size());
}

/// Offsets never decrease from one attribute to the next, and they grow
/// wherever an attribute with at least one component lies in between.
pub proof fn lemma_offsets_ordered(elements: Seq<VertexBufferElement>, i: int, j: int)
    requires
        0 <= i <= j <= elements.len(),
    ensures
        offset_of(elements, i) <= offset_of(elements, j),
        (exists|k: int| i <= k < j && elements[k].count > 0) ==> offset_of(elements, i)
            < offset_of(elements, j),
    decreases j - i,
{
    if i < j {
        lemma_offsets_ordered(elements, i, j - 1);
        assert(elements[j - 1].byte_size() >= 0) by (nonlinear_arith)
            requires
                elements[j - 1].byte_size() == elements[j - 1].count * 4,
        ;
    }
}

/// In a record whose attributes all have at least one component, offsets grow
/// strictly from one attribute to any later one, and each attribute ends
/// where the next begins.
pub proof fn lemma_offsets_strictly_increasing(elements: Seq<VertexBufferElement>, i: int, j: int)
    requires
        0 <= i < j <= elements.len(),
        forall|k: int| 0 <= k < elements.len() ==> (#[trigger] elements[k]).count > 0,
    ensures
        offset_of(elements, i) < offset_of(elements, j),
        offset_of(elements, i + 1) == offset_of(elements, i) + elements[i].byte_size(),
{
    lemma_offsets_ordered(elements, i, j);
}

/// The layout of one interleaved vertex record: its attributes in order, and
/// the record's byte size.
pub struct VertexBufferLayout {
    elements: Vec<VertexBufferElement>,
    stride: u32,
}

impl View for VertexBufferLayout {
    type V = Seq<VertexBufferElement>;

    closed spec fn view(&self) -> Seq<VertexBufferElement> {
        self.elements@
    }
}

impl VertexBufferLayout {
    #[verifier::type_invariant]
    spec fn well_formed(&self) -> bool {
        &&& self.stride == stride_of(self.elements@)
        &&& self.elements@.len() <= u32::MAX
    }

    /// A record with `count` more components of kind `ty` is still one that
    /// 32-bit offsets and slot numbers can describe.
    pub open spec fn spec_fits(&self, ty: BufferElementType, count: u32) -> bool {
        &&& self@.len() < u32::MAX
        &&& stride_of(self@) + count * ty.spec_size_of() <= u32::MAX
    }

    /// The layout of an empty record.
    pub fn new() -> (layout: Self)
        ensures
            layout@ == Seq::<VertexBufferElement>::empty(),
            stride_of(layout@) == 0,
    {
        VertexBufferLayout { elements: Vec::new(), stride: 0 }
    }

    /// Whether [`push`](Self::push) can take `count` more components of kind `ty`.
    #[verifier::when_used_as_spec(spec_fits)]
    pub fn fits(&self, ty: BufferElementType, count: u32) -> (fits: bool)
        ensures
            fits == self.spec_fits(ty, count),
    {
        proof {
            use_type_invariant(self);
        }
        let unit: u64 = ty.size_of() as u64;
        let size: u64 = unit * count as u64;
        self.elements.len() < u32::MAX as usize && self.stride as u64 + size <= u32::MAX as u64
    }

    /// Appends an attribute of `count` components of kind `ty` to the record
    /// and advances the stride by its size.
    pub fn push(&mut self, ty: BufferElementType, count: u32, normalized: bool)
        requires
            old(self).spec_fits(ty, count),
        ensures
            final(self)@ == old(self)@.push(VertexBufferElement { count, ty, normalized }),
            stride_of(final(self)@) == stride_of(old(self)@) + count * ty.spec_size_of(),
    {
        let mut taken = VertexBufferLayout::new();
        core::mem::swap(self, &mut taken);
        proof {
            use_type_invariant(&taken);
            lemma_stride_of_push(taken.elements@, VertexBufferElement { count, ty, normalized });
        }
        let VertexBufferLayout { mut elements, stride } = taken;
        elements.push(VertexBufferElement { count, ty, normalized });
        let unit: u32 = ty.size_of() as u32;
        assert(count * ty.spec_size_of() == 4 * count);
        *self = VertexBufferLayout { elements, stride: stride + unit * count };
    }

    /// Byte size of one whole vertex record.
    pub fn stride(&self) -> (stride: u32)
        ensures
            stride == stride_of(self@),
    {
        proof {
            use_type_invariant(self);
        }
        self.stride
    }

    /// The attributes of the record, in order.
    pub fn elements(&self) -> (elements: &[VertexBufferElement])
        ensures
            elements@ == self@,
            elements@.len() <= u32::MAX,
            stride_of(elements@) <= u32::MAX,
    {
        proof {
            use_type_invariant(self);
        }
        self.elements.as_slice()
    }
}

/// A GPU buffer that holds raw vertex data.
///
/// The value owns the buffer object: it is neither copied nor cloned, and
/// [`delete`](Self::delete) consumes it.
#[derive(Debug)]
pub struct VertexBuffer {
    id: u32,
}

impl VertexBuffer {
    /// Handle of the buffer object.
    pub closed spec fn spec_id(&self) -> u32 {
        self.id
    }

    /// Takes ownership of the fresh buffer object `id` and fills it with
    /// `positions`, the 32-bit words of the interleaved vertex records, as
    /// upload-once data. The buffer is left bound as the vertex-attribute
    /// source.
    pub fn new(id: u32, positions: Vec<u32>) -> (made: (VertexBuffer, Vec<Command>))
        requires
            positions@.len() > 0,
        ensures
            made.0.spec_id() == id,
            trace(made.1@) == seq![
                CommandView::BindBuffer { target: BufferTarget::Array, buffer: id },
                CommandView::BufferData {
                    target: BufferTarget::Array,
                    words: positions@,
                    usage: BufferUsage::StaticDraw,
                },
            ],
    {
        let mut commands: Vec<Command> = Vec::new();
        commands.push(Command::BindBuffer { target: BufferTarget::Array, buffer: id });
        commands.push(
            Command::BufferData {
                target: BufferTarget::Array,
                words: positions,
                usage: BufferUsage::StaticDraw,
            },
        );
        assert(trace(commands@) =~= seq![
            CommandView::BindBuffer { target: BufferTarget::Array, buffer: id },
            CommandView::BufferData {
                    target: BufferTarget::Array,
                    words: positions@,
                    usage: BufferUsage::StaticDraw,
                },
        ]);
        (VertexBuffer { id }, commands)
    }

    /// Handle of the buffer object.
    #[verifier::when_used_as_spec(spec_id)]
    pub fn id(&self) -> (id: u32)
        ensures
            id == self.spec_id(),
    {
        self.id
    }

    /// Makes the buffer the current vertex-attribute source.
    pub fn bind(&self) -> (command: Command)
        ensures
            command@ == (CommandView::BindBuffer { target: BufferTarget::Array, buffer: self.id() }),
    {
        Command::BindBuffer { target: BufferTarget::Array, buffer: self.id }
    }

    /// Leaves no buffer as the current vertex-attribute source.
    pub fn unbind(&self) -> (command: Command)
        ensures
            command@ == (CommandView::BindBuffer { target: BufferTarget::Array, buffer: 0 }),
    {
        Command::BindBuffer { target: BufferTarget::Array, buffer: 0 }
    }

    /// Gives the buffer up: the buffer object is deleted.
    pub fn delete(self) -> (command: Command)
        ensures
            command@ == (CommandView::DeleteBuffer { buffer: self.id() }),
    {
        Command::DeleteBuffer { buffer: self.id }
    }
}

/// A GPU buffer that holds triangle indices, with their number.
///
/// The value owns the buffer object: it is neither copied nor cloned, and
/// [`delete`](Self::delete) consumes it.
#[derive(Debug)]
pub struct IndexBuffer {
    id: u32,
    count: u32,
}

impl IndexBuffer {
    /// Handle of the buffer object.
    pub closed spec fn spec_id(&self) -> u32 {
        self.id
    }

    /// Number of indices in the buffer.
    pub closed spec fn spec_count(&self) -> u32 {
        self.count
    }

    /// Takes ownership of the fresh buffer object `id` and fills it with
    /// `indices` as upload-once data. The buffer is left bound as the index
    /// source.
    pub fn new(id: u32, indices: Vec<u32>) -> (made: (IndexBuffer, Vec<Command>))
        requires
            0 < indices@.len() <= u32::MAX,
        ensures
            made.0.spec_id() == id,
            made.0.spec_count() == indices@.len(),
            trace(made.1@) == seq![
                CommandView::BindBuffer { target: BufferTarget::ElementArray, buffer: id },
                CommandView::BufferData {
                    target: BufferTarget::ElementArray,
                    words: indices@,
                    usage: BufferUsage::StaticDraw,
                },
            ],
    {
        let count = indices.len() as u32;
        let mut commands: Vec<Command> = Vec::new();
        commands.push(Command::BindBuffer { target: BufferTarget::ElementArray, buffer: id });
        commands.push(
            Command::BufferData {
                target: BufferTarget::ElementArray,
                words: indices,
                usage: BufferUsage::StaticDraw,
            },
        );
        assert(trace(commands@) =~= seq![
            CommandView::BindBuffer { target: BufferTarget::ElementArray, buffer: id },
            CommandView::BufferData {
                    target: BufferTarget::ElementArray,
                    words: indices@,
                    usage: BufferUsage::StaticDraw,
                },
        ]);
        (IndexBuffer { id, count }, commands)
    }

    /// Handle of the buffer object.
    #[verifier::when_used_as_spec(spec_id)]
    pub fn id(&self) -> (id: u32)
        ensures
            id == self.spec_id(),
    {
        self.id
    }

    /// Number of indices in the buffer, as given at construction.
    #[verifier::when_used_as_spec(spec_count)]
    pub fn count(&self) -> (count: u32)
        ensures
            count == self.spec_count(),
    {
        self.count
    }

    /// Makes the buffer the current index source.
    pub fn bind(&self) -> (command: Command)
        ensures
            command@ == (CommandView::BindBuffer {
                target: BufferTarget::ElementArray,
                buffer: self.id(),
            }),
    {
        Command::BindBuffer { target: BufferTarget::ElementArray, buffer: self.id }
    }

    /// Leaves no buffer as the current index source.
    pub fn unbind(&self) -> (command: Command)
        ensures
            command@ == (CommandView::BindBuffer { target: BufferTarget::ElementArray, buffer: 0 }),
    {
        Command::BindBuffer { target: BufferTarget::ElementArray, buffer: 0 }
    }

    /// Gives the buffer up: the buffer object is deleted.
    pub fn delete(self) -> (command: Command)
        ensures
            command@ == (CommandView::DeleteBuffer { buffer: self.id() }),
    {
        Command::DeleteBuffer { buffer: self.id }
    }
}

} // verus!
