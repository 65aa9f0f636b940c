use render_core::{
    BufferElementType, BufferTarget, BufferUsage, Command, DrawMode, IndexBuffer, Material, Next,
    Query, Renderer, Reply,
    Shader, ShaderProgramSource, Step, Texture, TextureParameter, TextureSetting, Uniform,
    VertexArray, VertexBuffer, VertexBufferLayout,
};

fn program(id: u32) -> Shader {
    let source = ShaderProgramSource { vertex: "v".to_string(), fragment: "f".to_string() };
    let (mut builder, _) = Shader::new(source);
    builder.step(Reply::Handle(id));
    builder.step(Reply::Handle(100));
    builder.step(Reply::Status(1));
    builder.step(Reply::Handle(101));
    builder.step(Reply::Status(1));
    builder.step(Reply::Status(1));
    builder.finish().unwrap()
}

#[test]
fn renderer_new_is_stateless() {
    assert_eq!(Renderer::new(), Renderer {});
}

#[test]
fn clear_sets_the_background_and_resets_colour_and_depth() {
    let commands = Renderer::new().clear();
    assert_eq!(
        commands,
        vec![
            Command::ClearColor {
                red: 0.0f32.to_bits(),
                green: 0.0f32.to_bits(),
                blue: 0.0f32.to_bits(),
                alpha: 1.0f32.to_bits(),
            },
            Command::Clear { mask: gl::COLOR_BUFFER_BIT | gl::DEPTH_BUFFER_BIT },
        ]
    );
    assert_eq!(commands[1], Command::Clear { mask: 0x4100 });
}

#[test]
fn cube_scenario_end_to_end() {
    // 8 vertices of 6 floats each (position + normal), 12 triangles.
    let mut vertices: Vec<f32> = Vec::new();
    for corner in 0..8u32 {
        let x = (corner & 1) as f32;
        let y = ((corner >> 1) & 1) as f32;
        let z = ((corner >> 2) & 1) as f32;
        vertices.extend_from_slice(&[x, y, z, x - 0.5, y - 0.5, z - 0.5]);
    }
    assert_eq!(vertices.len(), 48);
    let indices: Vec<u32> = vec![
        0, 1, 3, 0, 3, 2, 4, 6, 7, 4, 7, 5, 0, 4, 5, 0, 5, 1, 2, 3, 7, 2, 7, 6, 0, 2, 6, 0, 6, 4,
        1, 5, 7, 1, 7, 3,
    ];
    assert_eq!(indices.len(), 36);

    let mut va = VertexArray::new(1);
    let words: Vec<u32> = vertices.iter().map(|v| v.to_bits()).collect();
    let (vb, upload) = VertexBuffer::new(2, words.clone());
    assert_eq!(
        upload[1],
        Command::BufferData {
            target: BufferTarget::Array,
            words,
            usage: BufferUsage::StaticDraw,
        }
    );

    let mut layout = VertexBufferLayout::new();
    layout.push(BufferElementType::Float, 3, false);
    layout.push(BufferElementType::Float, 3, false);
    assert_eq!(layout.stride(), 24);

    let binding = va.add_buffer(&vb, &layout);
    assert_eq!(
        binding,
        vec![
            Command::BindBuffer { target: BufferTarget::Array, buffer: 2 },
            Command::BindVertexArray { array: 1 },
            Command::EnableVertexAttribArray { index: 0 },
            Command::VertexAttribPointer {
                index: 0,
                size: 3,
                type_code: gl::FLOAT,
                normalized: false,
                stride: 24,
                offset: 0,
            },
            Command::EnableVertexAttribArray { index: 1 },
            Command::VertexAttribPointer {
                index: 1,
                size: 3,
                type_code: gl::FLOAT,
                normalized: false,
                stride: 24,
                offset: 12,
            },
        ]
    );

    let (ib, _) = IndexBuffer::new(3, indices);
    assert_eq!(ib.count(), 36);

    let mut shader = program(4);
    shader.cache_location("tint", 0);
    let uniforms = [Uniform::OneFloat { name: "tint", v0: 0.8f32.to_bits() }];
    let material = Material::new(&shader, &uniforms);
    let step = Renderer::new().draw(&va, &ib, &material);
    assert_eq!(
        step,
        Step {
            commands: vec![
                Command::UseProgram { program: 4 },
                Command::Uniform1f { location: 0, v0: 0.8f32.to_bits() },
                Command::BindVertexArray { array: 1 },
                Command::BindBuffer { target: BufferTarget::ElementArray, buffer: 3 },
                Command::DrawElements {
                    mode: DrawMode::Triangles,
                    count: 36,
                    type_code: gl::UNSIGNED_INT,
                },
            ],
            next: Next::Done,
        }
    );
    let draws = step
        .commands
        .iter()
        .filter(|command| matches!(command, Command::DrawElements { .. }))
        .count();
    assert_eq!(draws, 1);
}

#[test]
fn draw_waits_for_unresolved_uniforms_and_issues_nothing() {
    let va = VertexArray::new(1);
    let (ib, _) = IndexBuffer::new(3, vec![0, 1, 2]);
    let mut shader = program(4);
    let uniforms = [
        Uniform::OneInteger { name: "a", v0: 1 },
        Uniform::OneInteger { name: "b", v0: 2 },
    ];
    let renderer = Renderer::new();

    let step = renderer.draw(&va, &ib, &Material::new(&shader, &uniforms));
    assert_eq!(
        step,
        Step {
            commands: vec![],
            next: Next::Ask(Query::UniformLocation { program: 4, name: "a".to_string() }),
        }
    );
    shader.cache_location("a", 5);
    let step = renderer.draw(&va, &ib, &Material::new(&shader, &uniforms));
    assert_eq!(
        step.next,
        Next::Ask(Query::UniformLocation { program: 4, name: "b".to_string() })
    );
    assert!(step.commands.is_empty());
    shader.cache_location("b", 6);
    let step = renderer.draw(&va, &ib, &Material::new(&shader, &uniforms));
    assert_eq!(
        step.commands,
        vec![
            Command::UseProgram { program: 4 },
            Command::Uniform1i { location: 5, v0: 1 },
            Command::Uniform1i { location: 6, v0: 2 },
            Command::BindVertexArray { array: 1 },
            Command::BindBuffer { target: BufferTarget::ElementArray, buffer: 3 },
            Command::DrawElements {
                mode: DrawMode::Triangles,
                count: 3,
                type_code: gl::UNSIGNED_INT,
            },
        ]
    );
    assert_eq!(step.next, Next::Done);
}

#[test]
fn every_draw_rebinds_what_it_needs() {
    let va = VertexArray::new(8);
    let (ib, _) = IndexBuffer::new(9, vec![0, 1, 2, 0, 2, 3]);
    let shader = program(7);
    let uniforms: [Uniform; 0] = [];
    let material = Material::new(&shader, &uniforms);
    let renderer = Renderer::new();
    let first = renderer.draw(&va, &ib, &material);
    let second = renderer.draw(&va, &ib, &material);
    assert_eq!(first, second);
    assert_eq!(
        first.commands,
        vec![
            Command::UseProgram { program: 7 },
            Command::BindVertexArray { array: 8 },
            Command::BindBuffer { target: BufferTarget::ElementArray, buffer: 9 },
            Command::DrawElements {
                mode: DrawMode::Triangles,
                count: 6,
                type_code: gl::UNSIGNED_INT,
            },
        ]
    );
}

#[test]
fn texture_is_set_up_then_unbound() {
    let pixels: Vec<u8> = (0..2 * 3 * 4).map(|i| i as u8).collect();
    let (texture, commands) = Texture::new(11, 2, 3, pixels.clone());
    assert_eq!(texture.id(), 11);
    assert_eq!(
        commands,
        vec![
            Command::BindTexture { texture: 11 },
            Command::TexParameter {
                parameter: TextureParameter::MinFilter,
                setting: TextureSetting::Linear,
            },
            Command::TexParameter {
                parameter: TextureParameter::MagFilter,
                setting: TextureSetting::Linear,
            },
            Command::TexParameter {
                parameter: TextureParameter::WrapS,
                setting: TextureSetting::ClampToEdge,
            },
            Command::TexParameter {
                parameter: TextureParameter::WrapT,
                setting: TextureSetting::ClampToEdge,
            },
            Command::TexImage2D { width: 2, height: 3, pixels },
            Command::BindTexture { texture: 0 },
        ]
    );
}

#[test]
fn texture_binds_to_the_unit_of_its_slot() {
    let (texture, _) = Texture::new(11, 1, 1, vec![255, 0, 0, 255]);
    assert_eq!(
        texture.bind(0),
        vec![
            Command::ActiveTexture { unit: gl::TEXTURE0 },
            Command::BindTexture { texture: 11 },
        ]
    );
    assert_eq!(
        texture.bind(5),
        vec![
            Command::ActiveTexture { unit: gl::TEXTURE5 },
            Command::BindTexture { texture: 11 },
        ]
    );
    assert_eq!(texture.bind(0xFFFF_7B3F)[0], Command::ActiveTexture { unit: u32::MAX });
    assert_eq!(texture.unbind(), Command::BindTexture { texture: 0 });
    assert_eq!(texture.delete(), Command::DeleteTexture { texture: 11 });
}
