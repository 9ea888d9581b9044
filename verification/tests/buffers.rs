use glkit::command::{GlCommand, GL_ARRAY_BUFFER, GL_DYNAMIC_DRAW, GL_FALSE, GL_FLOAT};
use glkit::gl_buffers::{IndexBuffer, VertexAttributeDataTypes, VertexAttributeTypes, VertexBuffer};
use glkit::gl_vertex_array::VertexArray;

fn pointer(index: u32, size: i32, stride: i32, offset: i32) -> GlCommand {
    GlCommand::VertexAttribPointer {
        index,
        size,
        kind: GL_FLOAT,
        normalized: GL_FALSE,
        stride,
        offset,
    }
}

#[test]
fn f32_components_are_four_bytes() {
    assert_eq!(VertexAttributeDataTypes::F32.get_size(), 4);
}

#[test]
fn attribute_sizes_are_components_times_four() {
    let f = VertexAttributeDataTypes::F32;
    let cases = [
        (VertexAttributeTypes::Scalar(f), 1, 4),
        (VertexAttributeTypes::Vec2(f), 2, 8),
        (VertexAttributeTypes::Vec3(f), 3, 12),
        (VertexAttributeTypes::Vec4(f), 4, 16),
    ];
    for (attr, count, size) in cases {
        assert_eq!(attr.get_components_count(), count);
        assert_eq!(attr.get_size(), size);
    }
}

#[test]
fn position_and_color_layout() {
    let f = VertexAttributeDataTypes::F32;
    let attrs = vec![VertexAttributeTypes::Vec3(f), VertexAttributeTypes::Vec3(f)];
    let vbo = VertexBuffer::new(3);
    assert_eq!(VertexBuffer::attributes_stride(&attrs), 24);
    let cmds = vbo.set_attributes(&attrs);
    assert_eq!(
        cmds,
        vec![
            pointer(0, 3, 24, 0),
            GlCommand::EnableVertexAttribArray { index: 0 },
            pointer(1, 3, 24, 12),
            GlCommand::EnableVertexAttribArray { index: 1 },
        ]
    );
}

#[test]
fn mixed_layout_is_packed() {
    let f = VertexAttributeDataTypes::F32;
    let attrs = vec![
        VertexAttributeTypes::Scalar(f),
        VertexAttributeTypes::Vec4(f),
        VertexAttributeTypes::Vec2(f),
    ];
    let vbo = VertexBuffer::new(1);
    assert_eq!(VertexBuffer::attributes_stride(&attrs), 28);
    let cmds = vbo.set_attributes(&attrs);
    assert_eq!(cmds.len(), 6);
    assert_eq!(cmds[0], pointer(0, 1, 28, 0));
    assert_eq!(cmds[2], pointer(1, 4, 28, 4));
    assert_eq!(cmds[4], pointer(2, 2, 28, 20));
    assert_eq!(cmds[5], GlCommand::EnableVertexAttribArray { index: 2 });
}

#[test]
fn stride_of_concatenated_layouts_adds_up() {
    let f = VertexAttributeDataTypes::F32;
    let a = vec![VertexAttributeTypes::Vec2(f), VertexAttributeTypes::Scalar(f)];
    let b = vec![VertexAttributeTypes::Vec4(f)];
    let mut ab = a.clone();
    ab.extend(b.iter().copied());
    assert_eq!(
        VertexBuffer::attributes_stride(&ab),
        VertexBuffer::attributes_stride(&a) + VertexBuffer::attributes_stride(&b)
    );
}

#[test]
fn empty_layout_has_no_calls() {
    let attrs: Vec<VertexAttributeTypes> = Vec::new();
    assert_eq!(VertexBuffer::attributes_stride(&attrs), 0);
    assert!(VertexBuffer::new(9).set_attributes(&attrs).is_empty());
}

#[test]
fn vertex_buffer_calls() {
    let vbo = VertexBuffer::new(5);
    assert_eq!(vbo.id, 5);
    assert_eq!(vbo.bind(), GlCommand::BindBuffer { target: GL_ARRAY_BUFFER, buffer: 5 });
    assert_eq!(vbo.unbind(), GlCommand::BindBuffer { target: GL_ARRAY_BUFFER, buffer: 0 });
    assert_eq!(
        vbo.allocate(96),
        vec![
            GlCommand::BindBuffer { target: GL_ARRAY_BUFFER, buffer: 5 },
            GlCommand::BufferData { target: GL_ARRAY_BUFFER, size: 96, usage: GL_DYNAMIC_DRAW },
        ]
    );
    assert_eq!(
        vbo.insert_data(16, 24),
        vec![
            GlCommand::BindBuffer { target: GL_ARRAY_BUFFER, buffer: 5 },
            GlCommand::BufferSubData { target: GL_ARRAY_BUFFER, offset: 16, size: 96 },
        ]
    );
    assert_eq!(vbo.release(), GlCommand::DeleteBuffers { buffer: 5 });
}

#[test]
fn inserting_no_data_uploads_zero_bytes() {
    let cmds = VertexBuffer::new(2).insert_data(0, 0);
    assert_eq!(cmds[1], GlCommand::BufferSubData { target: GL_ARRAY_BUFFER, offset: 0, size: 0 });
}

#[test]
fn vertex_array_attachments() {
    let mut vao = VertexArray::new(7);
    assert_eq!(vao.id, 7);
    assert!(vao.vbo.is_none());
    assert!(vao.ebo.is_none());
    assert_eq!(vao.bind(), GlCommand::BindVertexArray { array: 7 });
    assert_eq!(vao.unbind(), GlCommand::BindVertexArray { array: 0 });
    assert_eq!(vao.release(), vec![GlCommand::DeleteVertexArrays { array: 7 }]);

    assert!(vao.set_vbo(VertexBuffer::new(11)).is_empty());
    assert_eq!(vao.vbo, Some(VertexBuffer { id: 11 }));
    assert!(vao.ebo.is_none());
    vao.set_ebo(IndexBuffer { id: 12 });
    assert_eq!(vao.ebo, Some(IndexBuffer { id: 12 }));
    assert_eq!(vao.vbo, Some(VertexBuffer { id: 11 }));
    assert_eq!(
        vao.set_vbo(VertexBuffer::new(13)),
        vec![GlCommand::DeleteBuffers { buffer: 11 }]
    );
    assert_eq!(vao.vbo, Some(VertexBuffer { id: 13 }));
    assert_eq!(vao.ebo, Some(IndexBuffer { id: 12 }));
    assert_eq!(vao.id, 7);
    assert_eq!(
        vao.release(),
        vec![
            GlCommand::DeleteVertexArrays { array: 7 },
            GlCommand::DeleteBuffers { buffer: 13 },
        ]
    );
}
