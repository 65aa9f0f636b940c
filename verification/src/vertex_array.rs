//! Vertex arrays: which attribute of a vertex record feeds which slot.

use vstd::prelude::*;

use crate::buffer::{
    lemma_offsets_ordered, offset_of, stride_of, VertexBuffer, VertexBufferElement,
    VertexBufferLayout,
};
use crate::command::{trace, BufferTarget, Command, CommandView};

verus! {

/// The attribute pointer of slot `i` for a vertex record made of `elements`:
/// the attribute's own component count, kind and normalisation, the stride
/// of the whole record, and the attribute's byte offset in the record.
pub open spec fn attribute_pointer(elements: Seq<VertexBufferElement>, i: int) -> CommandView {
    CommandView::VertexAttribPointer {
        index: i as u32,
        size: elements[i].count,
        type_code: elements[i].ty.spec_code(),
        normalized: elements[i].normalized,
        stride: stride_of(elements) as u32,
        offset: offset_of(elements, i) as u32,
    }
}

/// Enabling and pointing the first `n` slots at the first `n` attributes of
/// `elements`, slot by slot.
pub open spec fn attribute_commands(elements: Seq<VertexBufferElement>, n: int) -> Seq<
    CommandView,
>
    decreases n,
{
    if n <= 0 {
        Seq::empty()
    } else {
        attribute_commands(elements, n - 1) + seq![
            CommandView::EnableVertexAttribArray { index: (n - 1) as u32 },
            attribute_pointer(elements, n - 1),
        ]
    }
}

/// What binding the buffer `buffer` against a record made of `elements`
/// takes in the vertex array `array`: buffer and array are made current,
/// then every attribute gets its slot.
pub open spec fn binding_commands(
    buffer: u32,
    array: u32,
    elements: Seq<VertexBufferElement>,
) -> Seq<CommandView> {
    seq![
        CommandView::BindBuffer { target: BufferTarget::Array, buffer },
        CommandView::BindVertexArray { array },
    ] + attribute_commands(elements, elements.len() as int)
}

/// The slots that `commands` enable.
pub open spec fn enabled_slots(commands: Seq<CommandView>) -> Set<u32> {
    Set::new(
        |slot: u32|
            exists|j: int|
                0 <= j < commands.len() && commands[j] == (CommandView::EnableVertexAttribArray {
                    index: slot,
                }),
    )
}

/// The commands for the first `n` attributes are two per attribute: slot
/// `i` is enabled at position `2 * i` and pointed at attribute `i` right
/// after.
pub proof fn lemma_attribute_commands(elements: Seq<VertexBufferElement>, n: int)
    requires
        0 <= n,
    ensures
        attribute_commands(elements, n).len() == 2 * n,
        forall|i: int|
            0 <= i < n ==> #[trigger] attribute_commands(elements, n)[2 * i] == (
            CommandView::EnableVertexAttribArray { index: i as u32 }),
        forall|i: int|
            0 <= i < n ==> #[trigger] attribute_commands(elements, n)[2 * i + 1]
                == attribute_pointer(elements, i),
    decreases n,
{
    if n > 0 {
        lemma_attribute_commands(elements, n - 1);
        let head = attribute_commands(elements, n - 1);
        let all = attribute_commands(elements, n);
        assert forall|i: int| 0 <= i < n implies #[trigger] all[2 * i] == (
        CommandView::EnableVertexAttribArray { index: i as u32 }) by {
            if i < n - 1 {
                assert(all[2 * i] == head[2 * i]);
            }
        }
        assert forall|i: int| 0 <= i < n implies #[trigger] all[2 * i + 1] == attribute_pointer(
            elements,
            i,
        ) by {
            if i < n - 1 {
                assert(all[2 * i + 1] == head[2 * i + 1]);
            }
        }
    }
}

/// Binding a buffer against a record of `k` attributes enables exactly the
/// slots `0` to `k - 1`, and points slot `i` at the byte offset that the
/// sizes of the attributes `0` to `i - 1` add up to, with the stride of the
/// whole record.
pub proof fn lemma_binding_slots(buffer: u32, array: u32, elements: Seq<VertexBufferElement>)
    requires
        elements.len() <= u32::MAX,
    ensures
        binding_commands(buffer, array, elements).len() == 2 + 2 * elements.len(),
        enabled_slots(binding_commands(buffer, array, elements)) == Set::new(
            |slot: u32| slot < elements.len(),
        ),
        forall|i: int|
            0 <= i < elements.len() ==> binding_commands(buffer, array, elements)[3 + 2 * i]
                == #[trigger] attribute_pointer(elements, i),
{
    let k = elements.len() as int;
    let slots = attribute_commands(elements, k);
    let all = binding_commands(buffer, array, elements);
    lemma_attribute_commands(elements, k);
    assert forall|i: int| 0 <= i < k implies all[3 + 2 * i] == #[trigger] attribute_pointer(
        elements,
        i,
    ) by {
        assert(all[3 + 2 * i] == slots[2 * i + 1]);
    }
    assert forall|slot: u32| enabled_slots(all).contains(slot) <==> slot < k by {
        if slot < k {
            assert(all[2 + 2 * slot] == slots[2 * (slot as int)]);
        }
        if enabled_slots(all).contains(slot) {
            let j = choose|j: int|
                0 <= j < all.len() && all[j] == (CommandView::EnableVertexAttribArray {
                    index: slot,
                });
            let i = (j - 2) / 2;
            if (j - 2) % 2 == 0 {
                assert(all[j] == slots[2 * i]);
            } else {
                assert(all[j] == slots[2 * i + 1]);
            }
        }
    }
}

/// A GPU vertex-array object.
///
/// The value owns the object: it is neither copied nor cloned, and
/// [`delete`](Self::delete) consumes it.
#[derive(Debug)]
pub struct VertexArray {
    id: u32,
}

impl VertexArray {
    /// Handle of the vertex-array object.
    pub closed spec fn spec_id(&self) -> u32 {
        self.id
    }

    /// Takes ownership of the fresh, empty vertex-array object `id`.
    pub fn new(id: u32) -> (array: VertexArray)
        ensures
            array.spec_id() == id,
    {
        VertexArray { id }
    }

    /// Handle of the vertex-array object.
    #[verifier::when_used_as_spec(spec_id)]
    pub fn id(&self) -> (id: u32)
        ensures
            id == self.spec_id(),
    {
        self.id
    }

    /// Makes the array the current vertex-array state.
    pub fn bind(&self) -> (command: Command)
        ensures
            command@ == (CommandView::BindVertexArray { array: self.id() }),
    {
        Command::BindVertexArray { array: self.id }
    }

    /// Leaves no array as the current vertex-array state.
    pub fn unbind(&self) -> (command: Command)
        ensures
            command@ == (CommandView::BindVertexArray { array: 0 }),
    {
        Command::BindVertexArray { array: 0 }
    }

    /// Gives the array up: the vertex-array object is deleted.
    pub fn delete(self) -> (command: Command)
        ensures
            command@ == (CommandView::DeleteVertexArray { array: self.id() }),
    {
        Command::DeleteVertexArray { array: self.id }
    }

    /// Binds `vb` against `layout` in this array.
    ///
    /// The buffer and the array are made current; then, for each attribute
    /// of the layout in order, the slot with the attribute's position is
    /// enabled and pointed at the attribute: slot `i` gets the byte offset
    /// of attribute `i` in the record, and every slot the stride of the
    /// whole record.
    pub fn add_buffer(&mut self, vb: &VertexBuffer, layout: &VertexBufferLayout) -> (commands: Vec<
        Command,
    >)
        ensures
            final(self).id() == old(self).id(),
            trace(commands@) == binding_commands(vb.id(), old(self).id(), layout@),
    {
        let elements = layout.elements();
        let stride = layout.stride();
        let mut commands: Vec<Command> = Vec::new();
        commands.push(vb.bind());
        commands.push(self.bind());
        let ghost bound = trace(commands@);
        assert(bound =~= seq![
            CommandView::BindBuffer { target: BufferTarget::Array, buffer: vb.id() },
            CommandView::BindVertexArray { array: self.id() },
        ]);
        let mut offset: u32 = 0;
        let mut idx: usize = 0;
        while idx < elements.len()
            invariant
                elements@ == layout@,
                elements@.len() <= u32::MAX,
                stride == stride_of(elements@),
                0 <= idx <= elements@.len(),
                offset == offset_of(elements@, idx as int),
                trace(commands@) == bound + attribute_commands(elements@, idx as int),
            decreases elements@.len() - idx,
        {
            let element = elements[idx];
            proof {
                lemma_offsets_ordered(elements@, idx as int + 1, elements@.len() as int);
            }
            let ghost before = trace(commands@);
            commands.push(Command::EnableVertexAttribArray { index: idx as u32 });
            commands.push(
                Command::VertexAttribPointer {
                    index: idx as u32,
                    size: element.count,
                    type_code: element.ty.code(),
                    normalized: element.normalized,
                    stride,
                    offset,
                },
            );
            assert(trace(commands@) =~= before + seq![
                CommandView::EnableVertexAttribArray { index: idx as u32 },
                attribute_pointer(elements@, idx as int),
            ]);
            offset += element.count * element.ty.size_of() as u32;
            idx += 1;
        }
        commands
    }
}

} // verus!
