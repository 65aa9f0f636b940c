use render_core::{
    BufferElementType, BufferTarget, BufferUsage, Command, IndexBuffer, VertexArray, VertexBuffer,
    VertexBufferElement, VertexBufferLayout,
};

fn bits(values: &[f32]) -> Vec<u32> {
    values.iter().map(|v| v.to_bits()).collect()
}

#[test]
fn element_sizes_are_four_bytes() {
    assert_eq!(BufferElementType::Float.size_of(), 4);
    assert_eq!(BufferElementType::UnsignedInt.size_of(), 4);
    assert_eq!(BufferElementType::Float.size_of(), std::mem::size_of::<f32>());
    assert_eq!(BufferElementType::UnsignedInt.size_of(), std::mem::size_of::<u32>());
}

#[test]
fn element_codes_are_the_backend_constants() {
    assert_eq!(BufferElementType::Float.code(), 0x1406);
    assert_eq!(BufferElementType::UnsignedInt.code(), 0x1405);
    assert_eq!(BufferElementType::Float.code(), gl::FLOAT);
    assert_eq!(BufferElementType::UnsignedInt.code(), gl::UNSIGNED_INT);
}

#[test]
fn new_layout_is_empty() {
    let layout = VertexBufferLayout::new();
    assert_eq!(layout.stride(), 0);
    assert!(layout.elements().is_empty());
}

#[test]
fn push_advances_stride_by_count_times_size() {
    let mut layout = VertexBufferLayout::new();
    layout.push(BufferElementType::Float, 3, false);
    assert_eq!(layout.stride(), 12);
    layout.push(BufferElementType::UnsignedInt, 1, true);
    assert_eq!(layout.stride(), 16);
    layout.push(BufferElementType::Float, 2, false);
    assert_eq!(layout.stride(), 24);
    assert_eq!(
        layout.elements(),
        &[
            VertexBufferElement { count: 3, ty: BufferElementType::Float, normalized: false },
            VertexBufferElement { count: 1, ty: BufferElementType::UnsignedInt, normalized: true },
            VertexBufferElement { count: 2, ty: BufferElementType::Float, normalized: false },
        ]
    );
}

#[test]
fn push_of_zero_components_keeps_stride() {
    let mut layout = VertexBufferLayout::new();
    layout.push(BufferElementType::Float, 2, false);
    layout.push(BufferElementType::Float, 0, false);
    assert_eq!(layout.stride(), 8);
    assert_eq!(layout.elements().len(), 2);
}

#[test]
fn fits_tells_when_the_stride_would_overflow() {
    let mut layout = VertexBufferLayout::new();
    assert!(layout.fits(BufferElementType::Float, 0x3FFF_FFFF));
    assert!(!layout.fits(BufferElementType::Float, 0x4000_0000));
    layout.push(BufferElementType::Float, 0x3FFF_FFFF, false);
    assert_eq!(layout.stride(), 0xFFFF_FFFC);
    assert!(layout.fits(BufferElementType::UnsignedInt, 0));
    assert!(!layout.fits(BufferElementType::UnsignedInt, 1));
}

#[test]
fn vertex_buffer_uploads_all_words_once() {
    let data = bits(&[0.5, -1.0, 2.0]);
    let (vb, commands) = VertexBuffer::new(7, data.clone());
    assert_eq!(vb.id(), 7);
    assert_eq!(
        commands,
        vec![
            Command::BindBuffer { target: BufferTarget::Array, buffer: 7 },
            Command::BufferData {
                target: BufferTarget::Array,
                words: data,
                usage: BufferUsage::StaticDraw,
            },
        ]
    );
    assert_eq!(vb.bind(), Command::BindBuffer { target: BufferTarget::Array, buffer: 7 });
    assert_eq!(vb.unbind(), Command::BindBuffer { target: BufferTarget::Array, buffer: 0 });
    assert_eq!(vb.delete(), Command::DeleteBuffer { buffer: 7 });
}

#[test]
fn index_buffer_count_is_the_number_of_indices() {
    let indices: Vec<u32> = vec![0, 1, 2, 2, 3, 0, 4];
    let (ib, commands) = IndexBuffer::new(9, indices.clone());
    assert_eq!(ib.id(), 9);
    assert_eq!(ib.count(), 7);
    assert_eq!(
        commands,
        vec![
            Command::BindBuffer { target: BufferTarget::ElementArray, buffer: 9 },
            Command::BufferData {
                target: BufferTarget::ElementArray,
                words: indices,
                usage: BufferUsage::StaticDraw,
            },
        ]
    );
    assert_eq!(ib.bind(), Command::BindBuffer { target: BufferTarget::ElementArray, buffer: 9 });
    assert_eq!(ib.unbind(), Command::BindBuffer { target: BufferTarget::ElementArray, buffer: 0 });
    assert_eq!(ib.delete(), Command::DeleteBuffer { buffer: 9 });
}

#[test]
fn index_buffer_of_one_index() {
    let (ib, _) = IndexBuffer::new(1, vec![42]);
    assert_eq!(ib.count(), 1);
}

#[test]
fn vertex_array_binds_and_deletes_its_own_object() {
    let va = VertexArray::new(3);
    assert_eq!(va.id(), 3);
    assert_eq!(va.bind(), Command::BindVertexArray { array: 3 });
    assert_eq!(va.unbind(), Command::BindVertexArray { array: 0 });
    assert_eq!(va.delete(), Command::DeleteVertexArray { array: 3 });
}

#[test]
fn add_buffer_with_empty_layout_only_binds() {
    let (vb, _) = VertexBuffer::new(5, bits(&[1.0]));
    let mut va = VertexArray::new(6);
    let layout = VertexBufferLayout::new();
    assert_eq!(
        va.add_buffer(&vb, &layout),
        vec![
            Command::BindBuffer { target: BufferTarget::Array, buffer: 5 },
            Command::BindVertexArray { array: 6 },
        ]
    );
}

#[test]
fn add_buffer_enables_one_slot_per_element_with_running_offsets() {
    let (vb, _) = VertexBuffer::new(5, bits(&[1.0; 7]));
    let mut va = VertexArray::new(6);
    let mut layout = VertexBufferLayout::new();
    layout.push(BufferElementType::Float, 3, false);
    layout.push(BufferElementType::UnsignedInt, 1, true);
    layout.push(BufferElementType::Float, 2, false);
    layout.push(BufferElementType::Float, 1, false);
    let commands = va.add_buffer(&vb, &layout);
    assert_eq!(
        commands,
        vec![
            Command::BindBuffer { target: BufferTarget::Array, buffer: 5 },
            Command::BindVertexArray { array: 6 },
            Command::EnableVertexAttribArray { index: 0 },
            Command::VertexAttribPointer {
                index: 0,
                size: 3,
                type_code: gl::FLOAT,
                normalized: false,
                stride: 28,
                offset: 0,
            },
            Command::EnableVertexAttribArray { index: 1 },
            Command::VertexAttribPointer {
                index: 1,
                size: 1,
                type_code: gl::UNSIGNED_INT,
                normalized: true,
                stride: 28,
                offset: 12,
            },
            Command::EnableVertexAttribArray { index: 2 },
            Command::VertexAttribPointer {
                index: 2,
                size: 2,
                type_code: gl::FLOAT,
                normalized: false,
                stride: 28,
                offset: 16,
            },
            Command::EnableVertexAttribArray { index: 3 },
            Command::VertexAttribPointer {
                index: 3,
                size: 1,
                type_code: gl::FLOAT,
                normalized: false,
                stride: 28,
                offset: 24,
            },
        ]
    );
    assert_eq!(va.id(), 6);
}

#[test]
fn offsets_grow_strictly_and_end_at_the_stride() {
    let (vb, _) = VertexBuffer::new(1, bits(&[0.0; 10]));
    let mut va = VertexArray::new(2);
    let mut layout = VertexBufferLayout::new();
    let counts = [1u32, 4, 2, 3];
    for count in counts {
        layout.push(BufferElementType::Float, count, false);
    }
    let commands = va.add_buffer(&vb, &layout);
    let mut offsets = Vec::new();
    let mut enabled = Vec::new();
    for command in &commands {
        match command {
            Command::VertexAttribPointer { offset, stride, .. } => {
                assert_eq!(*stride, layout.stride());
                offsets.push(*offset);
            }
            Command::EnableVertexAttribArray { index } => enabled.push(*index),
            _ => {}
        }
    }
    assert_eq!(enabled, vec![0, 1, 2, 3]);
    assert_eq!(offsets, vec![0, 4, 20, 28]);
    for pair in offsets.windows(2) {
        assert!(pair[0] < pair[1]);
    }
    assert_eq!(offsets[3] + 4 * counts[3], layout.stride());
}
