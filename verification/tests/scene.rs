use merdia::memory::{
    as_byte_slice, bytes_in_order, order_of_one, ByteOrder,
};
use merdia::renderer::{
    Attrib, BufferName, GlCommand, Layout, Matrix, Outcome, Renderer, SceneAction, Stage, Target,
    Uniform, Usage, FS_SRC, INDEX_COUNT, VS_SRC,
};

fn outcome(command: GlCommand) -> Outcome {
    match command {
        GlCommand::CreateShader(_)
        | GlCommand::CreateProgram
        | GlCommand::CreateVertexArray
        | GlCommand::CreateBuffer(_) => Outcome::Created(Ok(())),
        GlCommand::ReadLinkStatus => Outcome::Linked(true),
        GlCommand::FindAttrib(_) => Outcome::Located,
        _ => Outcome::Performed,
    }
}

fn run(stop: GlCommand, last: Outcome) -> (Vec<GlCommand>, SceneAction) {
    let (mut setup, mut action) = Renderer::init_scene();
    let mut commands = Vec::new();
    let mut last = Some(last);
    loop {
        match action {
            SceneAction::Perform(command) => {
                commands.push(command);
                let result = if command == stop {
                    last.take().unwrap()
                } else {
                    outcome(command)
                };
                action = setup.step(result);
            }
            end => return (commands, end),
        }
    }
}

#[test]
fn scene_is_set_up() {
    let (commands, end) = run(GlCommand::Clear, Outcome::Performed);
    assert_eq!(end, SceneAction::Finish);
    assert_eq!(commands.len(), 29);
    assert_eq!(commands[0], GlCommand::CreateShader(Stage::Vertex));
    assert_eq!(commands[1], GlCommand::ShaderSource(Stage::Vertex, VS_SRC));
    assert_eq!(commands[4], GlCommand::ShaderSource(Stage::Fragment, FS_SRC));
    assert_eq!(commands[10], GlCommand::ReadLinkStatus);
    assert_eq!(
        commands[16],
        GlCommand::BufferData(Target::Array, BufferName::Vertices, Usage::StaticDraw)
    );
    assert_eq!(
        commands[19],
        GlCommand::BufferData(Target::ElementArray, BufferName::Indices, Usage::StaticDraw)
    );
    assert_eq!(commands[28], GlCommand::BindBuffer(Target::Array, None));
}

#[test]
fn scene_fails_with_the_object_that_fails() {
    let failing = [
        (GlCommand::CreateShader(Stage::Vertex), 1),
        (GlCommand::CreateShader(Stage::Fragment), 4),
        (GlCommand::CreateProgram, 7),
        (GlCommand::CreateVertexArray, 14),
        (GlCommand::CreateBuffer(BufferName::Vertices), 15),
        (GlCommand::CreateBuffer(BufferName::Indices), 18),
    ];
    for (command, count) in failing {
        let (commands, end) = run(command, Outcome::Created(Err("no memory".to_string())));
        assert_eq!(commands.len(), count);
        assert_eq!(end, SceneAction::Fail("no memory".to_string()));
    }
}

#[test]
fn scene_fails_without_link() {
    let (commands, end) = run(GlCommand::ReadLinkStatus, Outcome::Linked(false));
    assert_eq!(commands.len(), 11);
    assert_eq!(end, SceneAction::Fail("failed to link program".to_string()));
}

#[test]
fn frame_is_drawn_and_cleaned_up() {
    let commands = Renderer {}.draw_frame(7);
    assert_eq!(commands.len(), 26);
    assert_eq!(commands[15], GlCommand::BindTexture(Some(7)));
    assert_eq!(commands[14], GlCommand::ActiveTexture(0));
    assert_eq!(commands[16], GlCommand::SetInteger(Uniform::Sampler, 0));
    assert_eq!(
        commands[17],
        GlCommand::SetMatrix(Uniform::Transformation, Matrix::Identity)
    );
    assert_eq!(commands[18], GlCommand::DrawElements(6));
    assert_eq!(commands[19], GlCommand::BindTexture(None));
    let tail = [
        GlCommand::UseProgram(false),
        GlCommand::BindVertexArray(false),
        GlCommand::BindBuffer(Target::ElementArray, None),
        GlCommand::BindBuffer(Target::Array, None),
        GlCommand::DisableAttrib(Attrib::Position),
        GlCommand::DisableAttrib(Attrib::Texture),
    ];
    assert_eq!(&commands[20..], tail.as_slice());
}

#[test]
fn attributes_lie_in_the_vertices() {
    let position = Layout {
        size: 3,
        stride: 20,
        offset: 0,
    };
    let texture = Layout {
        size: 2,
        stride: 20,
        offset: 12,
    };
    assert_eq!(Attrib::Position.layout(), position);
    assert_eq!(Attrib::Texture.layout(), texture);
    assert_eq!(position.stride as usize, 5 * std::mem::size_of::<f32>());
    assert_eq!(texture.offset as usize, 3 * std::mem::size_of::<f32>());
}

#[test]
fn attributes_are_named_in_the_shader() {
    assert_eq!(Attrib::Position.name(), "a_position");
    assert_eq!(Attrib::Texture.name(), "a_texcoord");
    assert!(VS_SRC.contains("attribute vec4 a_position;"));
    assert!(VS_SRC.contains("attribute vec2 a_texcoord;"));
    assert_eq!(Uniform::Sampler.name(), "tex");
    assert_eq!(Uniform::Transformation.name(), "u_transformation");
    assert!(VS_SRC.contains("uniform mat4 u_transformation;"));
    assert!(FS_SRC.contains("uniform sampler2D tex;"));
    assert!(VS_SRC.ends_with('\0'));
    assert!(FS_SRC.ends_with('\0'));
}

#[test]
fn corners_of_the_texture_are_corners_of_the_screen() {
    let vertices = Renderer::vertices();
    assert_eq!(
        vertices,
        [1, 1, 0, 1, 0, -1, 1, 0, 0, 0, -1, -1, 0, 0, 1, 1, -1, 0, 1, 1]
    );
    for vertex in vertices.chunks(5) {
        assert_eq!(2 * vertex[3], 1 + vertex[0]);
        assert_eq!(2 * vertex[4], 1 - vertex[1]);
    }
    assert_eq!(Renderer::indices(), [0, 1, 2, 0, 2, 3]);
    assert_eq!(INDEX_COUNT as usize, Renderer::indices().len());
}

#[test]
fn identity_has_ones_on_its_diagonal() {
    assert_eq!(Matrix::Identity.cells(), Renderer::identity());
    for (i, cell) in Renderer::identity().iter().enumerate() {
        assert_eq!(*cell, if i / 4 == i % 4 { 1 } else { 0 });
    }
}

#[test]
fn numbers_become_bytes_in_order() {
    let little = ByteOrder::Little;
    let big = ByteOrder::Big;
    assert_eq!(bytes_in_order(little, &[1u16, 0x0203]), [1, 0, 3, 2]);
    assert_eq!(bytes_in_order(big, &[1u16, 0x0203]), [0, 1, 2, 3]);
    assert_eq!(bytes_in_order(little, &[0x01020304u32]), [4, 3, 2, 1]);
    assert_eq!(bytes_in_order(big, &[0x01020304u32, 5]), [1, 2, 3, 4, 0, 0, 0, 5]);
    assert!(bytes_in_order::<u32>(big, &[]).is_empty());
}

#[test]
fn numbers_become_the_bytes_in_memory() {
    let indices = Renderer::indices();
    let mut expected = Vec::new();
    for index in indices {
        expected.extend_from_slice(&index.to_ne_bytes());
    }
    assert_eq!(as_byte_slice(&indices), expected);
    let mut bits = Vec::new();
    let mut expected = Vec::new();
    for vertex in Renderer::vertices() {
        bits.push(f32::from(vertex).to_bits());
        expected.extend_from_slice(&f32::from(vertex).to_ne_bytes());
    }
    assert_eq!(as_byte_slice(&bits), expected);
}

#[test]
fn bytes_of_one_show_the_order() {
    assert_eq!(order_of_one([1, 0]), ByteOrder::Little);
    assert_eq!(order_of_one([0, 1]), ByteOrder::Big);
    let native = order_of_one(1u16.to_ne_bytes());
    assert_eq!(as_byte_slice(&[0x0203u16]), bytes_in_order(native, &[0x0203u16]));
}

#[test]
fn buffers_are_filled_with_vertices_and_indices() {
    let mut floats = Vec::new();
    for vertex in Renderer::vertices() {
        floats.extend_from_slice(&f32::from(vertex).to_ne_bytes());
    }
    assert_eq!(floats.len(), 80);
    assert_eq!(BufferName::Vertices.bytes(), floats);
    assert_eq!(BufferName::Indices.bytes(), as_byte_slice(&[0u16, 1, 2, 0, 2, 3]));
    assert_eq!(BufferName::Indices.bytes().len(), 12);
    let big = BufferName::Vertices.bytes_in_order(ByteOrder::Big);
    assert_eq!(&big[..8], &[0x3f, 0x80, 0, 0, 0x3f, 0x80, 0, 0]);
    let little = BufferName::Indices.bytes_in_order(ByteOrder::Little);
    assert_eq!(little, [0, 0, 1, 0, 2, 0, 0, 0, 2, 0, 3, 0]);
}

#[test]
fn bytes_can_be_cut_anywhere() {
    let numbers = [1u16, 0x0203, 0xffff, 7];
    for cut in 0..5 {
        let mut bytes = as_byte_slice(&numbers[..cut]);
        bytes.extend_from_slice(&as_byte_slice(&numbers[cut..]));
        assert_eq!(bytes, as_byte_slice(&numbers));
    }
}
