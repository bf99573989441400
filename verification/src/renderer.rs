//! The drawing commands that set the scene up and that draw a frame.
use vstd::prelude::*;
use vstd::string::*;

use crate::memory::{as_byte_slice, bytes_in_order, ByteOrder};

verus! {

/// The number of components of a vertex: three of its position, two of its texture coordinate.
pub const VERTEX_LEN: usize = 5;

/// The size of a component in bytes.
pub const COMPONENT_SIZE: i32 = 4;

/// The number of indices that a frame is drawn with.
pub const INDEX_COUNT: i32 = 6;

/// The source of the vertex shader.
pub const VS_SRC: &'static str = "
uniform mat4 u_transformation;
attribute vec4 a_position;
attribute vec2 a_texcoord;
varying vec2 v_texcoord;

void main() {
    gl_Position = u_transformation * a_position;
    v_texcoord = a_texcoord;
}
\0";

/// The source of the fragment shader.
pub const FS_SRC: &'static str = "
#ifdef GL_ES
precision mediump float;
#endif
varying vec2 v_texcoord;
uniform sampler2D tex;

void main() {
    gl_FragColor = texture2D(tex, v_texcoord);
}
\0";

/// The corners of the screen, each with the corner of the texture that belongs there.
pub open spec fn vertices() -> Seq<int> {
    seq![
        1, 1, 0, 1, 0,
        -1, 1, 0, 0, 0,
        -1, -1, 0, 0, 1,
        1, -1, 0, 1, 1,
    ]
}

/// The corners of the two triangles that make up the screen.
pub open spec fn indices() -> Seq<u16> {
    seq![0u16, 1u16, 2u16, 0u16, 2u16, 3u16]
}

/// The transformation that leaves each position where it is.
pub open spec fn identity() -> Seq<int> {
    seq![
        1, 0, 0, 0,
        0, 1, 0, 0,
        0, 0, 1, 0,
        0, 0, 0, 1,
    ]
}

/// A shader of the scene.
#[derive(Clone, Copy, Debug, PartialEq, Eq, Structural)]
pub enum Stage {
    Vertex,
    Fragment,
}

/// A buffer of the scene.
#[derive(Clone, Copy, Debug, PartialEq, Eq, Structural)]
pub enum BufferName {
    Vertices,
    Indices,
}

/// A place where a buffer can be bound.
#[derive(Clone, Copy, Debug, PartialEq, Eq, Structural)]
pub enum Target {
    Array,
    ElementArray,
}

/// A vertex attribute of the scene.
#[derive(Clone, Copy, Debug, PartialEq, Eq, Structural)]
pub enum Attrib {
    Position,
    Texture,
}

/// A uniform of the program.
#[derive(Clone, Copy, Debug, PartialEq, Eq, Structural)]
pub enum Uniform {
    /// The texture unit that the fragment shader reads from.
    Sampler,
    /// The transformation that the vertex shader applies to each position.
    Transformation,
}

impl Uniform {
    /// The name of the uniform in the shaders.
    pub fn name(self) -> (r: &'static str)
        ensures
            r@ == (match self {
                Uniform::Sampler => "tex"@,
                Uniform::Transformation => "u_transformation"@,
            }),
    {
        match self {
            Uniform::Sampler => "tex",
            Uniform::Transformation => "u_transformation",
        }
    }
}

/// What a buffer is for.
#[derive(Clone, Copy, Debug, PartialEq, Eq, Structural)]
pub enum Usage {
    /// It is filled once and drawn from many times.
    StaticDraw,
}

/// A transformation of positions.
#[derive(Clone, Copy, Debug, PartialEq, Eq, Structural)]
pub enum Matrix {
    /// Each position stays where it is.
    Identity,
}

/// How a colour takes part in blending.
#[derive(Clone, Copy, Debug, PartialEq, Eq, Structural)]
pub enum BlendFactor {
    SrcAlpha,
    ConstantColor,
    One,
    OneMinusSrcAlpha,
}

/// A colour, each part of it off or on.
#[derive(Clone, Copy, Debug, PartialEq, Eq, Structural)]
pub struct Color {
    pub red: u8,
    pub green: u8,
    pub blue: u8,
    pub alpha: u8,
}

/// Where an attribute stands in the vertices: its number of components, the distance from one
/// vertex to the next, and the distance from the start of the vertex, both in bytes.
#[derive(Clone, Copy, Debug, PartialEq, Eq, Structural)]
pub struct Layout {
    pub size: i32,
    pub stride: i32,
    pub offset: i32,
}

/// A drawing command.
#[derive(Clone, Copy, Debug, PartialEq, Eq)]
pub enum GlCommand {
    /// Make a shader.
    CreateShader(Stage),
    /// Give a shader this source.
    ShaderSource(Stage, &'static str),
    /// Compile a shader.
    CompileShader(Stage),
    /// Make the program.
    CreateProgram,
    /// Attach a shader to the program.
    AttachShader(Stage),
    /// Link the program.
    LinkProgram,
    /// Ask whether the program is linked.
    ReadLinkStatus,
    /// Look an attribute up in the program, by [`Attrib::name`].
    FindAttrib(Attrib),
    /// Make the vertex array.
    CreateVertexArray,
    /// Make a buffer.
    CreateBuffer(BufferName),
    /// Bind a buffer, or none.
    BindBuffer(Target, Option<BufferName>),
    /// Fill the buffer that is bound with [`BufferName::bytes`].
    BufferData(Target, BufferName, Usage),
    /// Say where an attribute, of floating-point components, stands in the vertices.
    AttribPointer(Attrib, Layout),
    /// Switch an attribute on.
    EnableAttrib(Attrib),
    /// Switch an attribute off.
    DisableAttrib(Attrib),
    /// Bind the vertex array, or none.
    BindVertexArray(bool),
    /// Choose the colour to clear with.
    ClearColor(Color),
    /// Clear the colours.
    Clear,
    /// Choose the constant colour of blending.
    BlendColor(Color),
    /// Choose the factors of source and destination, for the colour and for its alpha.
    BlendFunc(BlendFactor, BlendFactor, BlendFactor, BlendFactor),
    /// Blend by adding.
    BlendAdd,
    /// Switch blending on.
    EnableBlend,
    /// Use the program, or none.
    UseProgram(bool),
    /// Choose a texture unit.
    ActiveTexture(u32),
    /// Bind a flat texture to the unit, or none.
    BindTexture(Option<u32>),
    /// Look a uniform up in the program, by [`Uniform::name`], and set it to a number.
    SetInteger(Uniform, i32),
    /// Look a uniform up in the program, by [`Uniform::name`], and set it to [`Matrix::cells`].
    SetMatrix(Uniform, Matrix),
    /// Draw triangles from this many indices of sixteen bits, from the first on.
    DrawElements(i32),
}

/// The bits of a small number as a floating-point number of single precision (IEEE 754).
pub open spec fn float_bits(n: int) -> u32 {
    if n == 0 {
        0
    } else if n == 1 {
        0x3f80_0000
    } else {
        0xbf80_0000
    }
}

/// The bits of the components of the vertices.
pub open spec fn vertex_bits() -> Seq<u32> {
    vertices().map_values(|n: int| float_bits(n))
}

/// The bytes that a buffer is filled with, on a machine of the given order: the vertices as
/// floating-point numbers, or the indices.
pub open spec fn contents(name: BufferName, order: ByteOrder) -> Seq<u8> {
    match name {
        BufferName::Vertices => crate::memory::bytes_of(order, vertex_bits()),
        BufferName::Indices => crate::memory::bytes_of(order, indices()),
    }
}

impl Stage {
    /// The source of the shader of this stage.
    pub open spec fn spec_source(self) -> &'static str {
        match self {
            Stage::Vertex => VS_SRC,
            Stage::Fragment => FS_SRC,
        }
    }

    /// The source of the shader of this stage.
    pub fn source(self) -> (r: &'static str)
        ensures
            r == self.spec_source(),
    {
        match self {
            Stage::Vertex => VS_SRC,
            Stage::Fragment => FS_SRC,
        }
    }
}

impl Matrix {
    /// The cells of the matrix, row by row.
    pub fn cells(self) -> (r: [i8; 16])
        ensures
            r@.map_values(|v: i8| v as int) == (match self {
                Matrix::Identity => identity(),
            }),
    {
        Renderer::identity()
    }
}

impl BufferName {
    /// The bytes that the buffer is filled with, on a machine of the given order.
    pub fn bytes_in_order(self, order: ByteOrder) -> (r: Vec<u8>)
        ensures
            r@ == contents(self, order),
            r@.len() == (match self {
                BufferName::Vertices => 80int,
                BufferName::Indices => 12int,
            }),
    {
        proof {
            contents_len(self, order);
        }
        match self {
            BufferName::Vertices => bytes_in_order(order, Renderer::vertex_bits().as_slice()),
            BufferName::Indices => {
                let numbers: [u16; 6] = Renderer::indices();
                bytes_in_order(order, numbers.as_slice())
            },
        }
    }

    /// The bytes that the buffer is filled with, as this machine keeps the numbers.
    pub fn bytes(self) -> (r: Vec<u8>)
        ensures
            r@ == contents(self, ByteOrder::Little) || r@ == contents(self, ByteOrder::Big),
            r@.len() == (match self {
                BufferName::Vertices => 80int,
                BufferName::Indices => 12int,
            }),
    {
        proof {
            contents_len(self, ByteOrder::Little);
            contents_len(self, ByteOrder::Big);
        }
        match self {
            BufferName::Vertices => as_byte_slice(Renderer::vertex_bits().as_slice()),
            BufferName::Indices => {
                let numbers: [u16; 6] = Renderer::indices();
                as_byte_slice(numbers.as_slice())
            },
        }
    }
}

proof fn contents_len(name: BufferName, order: ByteOrder)
    ensures
        contents(name, order).len() == (match name {
            BufferName::Vertices => 80int,
            BufferName::Indices => 12int,
        }),
{
    crate::memory::bytes_have_width(order, vertex_bits());
    crate::memory::bytes_have_width(order, indices());
    assert(vertex_bits().len() == 20);
    assert(20nat * <u32 as crate::memory::Plain>::width() == 80);
    assert(indices().len() == 6);
    assert(6nat * <u16 as crate::memory::Plain>::width() == 12);
}

impl Attrib {
    /// Where the attribute stands in the vertices.
    pub open spec fn spec_layout(self) -> Layout {
        match self {
            Attrib::Position => Layout { size: 3, stride: 20, offset: 0 },
            Attrib::Texture => Layout { size: 2, stride: 20, offset: 12 },
        }
    }

    /// Where the attribute stands in the vertices.
    pub fn layout(self) -> (r: Layout)
        ensures
            r == self.spec_layout(),
            r.offset + r.size * COMPONENT_SIZE <= r.stride,
            r.stride == VERTEX_LEN * COMPONENT_SIZE,
    {
        match self {
            Attrib::Position => Layout { size: 3, stride: 5 * COMPONENT_SIZE, offset: 0 },
            Attrib::Texture => Layout {
                size: 2,
                stride: 5 * COMPONENT_SIZE,
                offset: 3 * COMPONENT_SIZE,
            },
        }
    }

    /// The name of the attribute in the vertex shader.
    pub fn name(self) -> (r: &'static str)
        ensures
            r@ == (match self {
                Attrib::Position => "a_position"@,
                Attrib::Texture => "a_texcoord"@,
            }),
    {
        match self {
            Attrib::Position => "a_position",
            Attrib::Texture => "a_texcoord",
        }
    }
}

/// Opaque black.
pub open spec fn black() -> Color {
    Color { red: 0, green: 0, blue: 0, alpha: 1 }
}

/// The commands that set the scene up: two shaders linked to a program, a vertex array, and two
/// buffers with their contents.
pub open spec fn scene_commands() -> Seq<GlCommand> {
    seq![
        GlCommand::CreateShader(Stage::Vertex),
        GlCommand::ShaderSource(Stage::Vertex, Stage::Vertex.spec_source()),
        GlCommand::CompileShader(Stage::Vertex),
        GlCommand::CreateShader(Stage::Fragment),
        GlCommand::ShaderSource(Stage::Fragment, Stage::Fragment.spec_source()),
        GlCommand::CompileShader(Stage::Fragment),
        GlCommand::CreateProgram,
        GlCommand::AttachShader(Stage::Vertex),
        GlCommand::AttachShader(Stage::Fragment),
        GlCommand::LinkProgram,
        GlCommand::ReadLinkStatus,
        GlCommand::FindAttrib(Attrib::Position),
        GlCommand::FindAttrib(Attrib::Texture),
        GlCommand::CreateVertexArray,
        GlCommand::CreateBuffer(BufferName::Vertices),
        GlCommand::BindBuffer(Target::Array, Some(BufferName::Vertices)),
        GlCommand::BufferData(Target::Array, BufferName::Vertices, Usage::StaticDraw),
        GlCommand::CreateBuffer(BufferName::Indices),
        GlCommand::BindBuffer(Target::ElementArray, Some(BufferName::Indices)),
        GlCommand::BufferData(Target::ElementArray, BufferName::Indices, Usage::StaticDraw),
        GlCommand::BindBuffer(Target::Array, Some(BufferName::Vertices)),
        GlCommand::BindBuffer(Target::ElementArray, Some(BufferName::Indices)),
        GlCommand::AttribPointer(Attrib::Position, Attrib::Position.spec_layout()),
        GlCommand::AttribPointer(Attrib::Texture, Attrib::Texture.spec_layout()),
        GlCommand::EnableAttrib(Attrib::Position),
        GlCommand::EnableAttrib(Attrib::Texture),
        GlCommand::BindVertexArray(false),
        GlCommand::BindBuffer(Target::ElementArray, None),
        GlCommand::BindBuffer(Target::Array, None),
    ]
}

/// The commands that draw a texture over the whole screen.
pub open spec fn draw_commands(texture: u32) -> Seq<GlCommand> {
    seq![
        GlCommand::ClearColor(black()),
        GlCommand::Clear,
        GlCommand::BlendColor(black()),
        GlCommand::BlendFunc(
            BlendFactor::SrcAlpha,
            BlendFactor::ConstantColor,
            BlendFactor::One,
            BlendFactor::OneMinusSrcAlpha,
        ),
        GlCommand::BlendAdd,
        GlCommand::EnableBlend,
        GlCommand::UseProgram(true),
        GlCommand::BindVertexArray(true),
        GlCommand::BindBuffer(Target::ElementArray, Some(BufferName::Indices)),
        GlCommand::BindBuffer(Target::Array, Some(BufferName::Vertices)),
        GlCommand::AttribPointer(Attrib::Position, Attrib::Position.spec_layout()),
        GlCommand::AttribPointer(Attrib::Texture, Attrib::Texture.spec_layout()),
        GlCommand::EnableAttrib(Attrib::Position),
        GlCommand::EnableAttrib(Attrib::Texture),
        GlCommand::ActiveTexture(0),
        GlCommand::BindTexture(Some(texture)),
        GlCommand::SetInteger(Uniform::Sampler, 0),
        GlCommand::SetMatrix(Uniform::Transformation, Matrix::Identity),
        GlCommand::DrawElements(INDEX_COUNT),
        GlCommand::BindTexture(None),
        GlCommand::UseProgram(false),
        GlCommand::BindVertexArray(false),
        GlCommand::BindBuffer(Target::ElementArray, None),
        GlCommand::BindBuffer(Target::Array, None),
        GlCommand::DisableAttrib(Attrib::Position),
        GlCommand::DisableAttrib(Attrib::Texture),
    ]
}

/// The place in the commands of a frame where it is drawn.
pub open spec fn draw_place() -> int {
    18
}

/// What came of a command of the setup.
#[derive(Debug, PartialEq, Eq)]
pub enum Outcome {
    /// It was carried out.
    Performed,
    /// The object was made, or the reason why it was not.
    Created(Result<(), String>),
    /// Whether the program was linked.
    Linked(bool),
    /// The attribute was found in the program.
    Located,
}

/// Whether an outcome is one that a command can have. An attribute of the shaders is always found.
pub open spec fn fits(command: GlCommand, outcome: Outcome) -> bool {
    match command {
        GlCommand::CreateShader(_) => outcome is Created,
        GlCommand::CreateProgram => outcome is Created,
        GlCommand::CreateVertexArray => outcome is Created,
        GlCommand::CreateBuffer(_) => outcome is Created,
        GlCommand::ReadLinkStatus => outcome is Linked,
        GlCommand::FindAttrib(_) => outcome is Located,
        _ => outcome is Performed,
    }
}

/// The reason why the setup ends with an outcome, if it does.
pub open spec fn failure(outcome: Outcome) -> Option<Seq<char>> {
    match outcome {
        Outcome::Created(Err(reason)) => Some(reason@),
        Outcome::Linked(false) => Some("failed to link program"@),
        _ => None,
    }
}

/// What the setup is to do next.
#[derive(Debug, PartialEq, Eq)]
pub enum SceneAction {
    /// Carry a command out.
    Perform(GlCommand),
    /// The scene is set up.
    Finish,
    /// Give up for this reason.
    Fail(String),
}

/// A setup of the scene under way.
#[derive(Debug)]
pub struct SceneSetup {
    commands: Vec<GlCommand>,
    next: usize,
}

impl SceneSetup {
    /// The place of the command that is to be carried out.
    pub closed spec fn place(self) -> int {
        self.next as int
    }

    /// The setup holds the commands.
    pub closed spec fn holds_commands(self) -> bool {
        self.commands@ == scene_commands()
    }

    /// The setup holds the commands, and stands at one of them.
    pub open spec fn wf(self) -> bool {
        &&& self.holds_commands()
        &&& 0 <= self.place() < scene_commands().len()
    }

    /// The command that is to be carried out.
    pub open spec fn command(self) -> GlCommand {
        scene_commands()[self.place()]
    }

    /// Takes up what came of the command that was to be carried out.
    pub fn step(&mut self, outcome: Outcome) -> (r: SceneAction)
        requires
            old(self).wf(),
            fits(old(self).command(), outcome),
        ensures
            final(self).wf(),
            0 <= final(self).place() < scene_commands().len(),
            match failure(outcome) {
                Some(reason) => r matches SceneAction::Fail(text) && text@ == reason
                    && final(self).place() == old(self).place(),
                None => if old(self).place() + 1 < scene_commands().len() {
                    r == SceneAction::Perform(final(self).command()) && final(self).place()
                        == old(self).place() + 1
                } else {
                    r is Finish && final(self).place() == old(self).place()
                },
            },
    {
        match outcome {
            Outcome::Created(Err(reason)) => {
                return SceneAction::Fail(reason);
            },
            Outcome::Linked(linked) => {
                if !linked {
                    return SceneAction::Fail("failed to link program".to_owned());
                }
            },
            _ => {},
        }
        if self.next + 1 < self.commands.len() {
            self.next = self.next + 1;
            SceneAction::Perform(self.commands[self.next])
        } else {
            SceneAction::Finish
        }
    }
}

/// The scene: a square that covers the screen, with the frame as its texture.
#[derive(Clone, Copy, Debug, PartialEq, Eq)]
pub struct Renderer {}

impl Renderer {
    /// The corners of the screen, each with the corner of the texture that belongs there.
    pub fn vertices() -> (r: [i8; 20])
        ensures
            r@.map_values(|v: i8| v as int) == vertices(),
    {
        [1, 1, 0, 1, 0, -1, 1, 0, 0, 0, -1, -1, 0, 0, 1, 1, -1, 0, 1, 1]
    }

    /// The bits of the components of the vertices, as floating-point numbers.
    pub fn vertex_bits() -> (r: Vec<u32>)
        ensures
            r@ == vertex_bits(),
    {
        let numbers: [i8; 20] = Renderer::vertices();
        let ghost mapped = numbers@.map_values(|v: i8| v as int);
        let mut bits: Vec<u32> = Vec::new();
        let mut i: usize = 0;
        while i < 20
            invariant
                0 <= i <= 20,
                mapped == numbers@.map_values(|v: i8| v as int),
                mapped == vertices(),
                bits@.len() == i,
                forall|j: int| 0 <= j < i ==> bits@[j] == float_bits(mapped[j]),
            decreases 20 - i,
        {
            let n: i8 = numbers[i];
            assert(mapped[i as int] == n);
            if n == 0 {
                bits.push(0);
            } else if n == 1 {
                bits.push(0x3f80_0000);
            } else {
                bits.push(0xbf80_0000);
            }
            i += 1;
        }
        assert(bits@ =~= vertex_bits());
        bits
    }

    /// The corners of the two triangles that make up the screen.
    pub fn indices() -> (r: [u16; 6])
        ensures
            r@ == indices(),
    {
        [0, 1, 2, 0, 2, 3]
    }

    /// The transformation that leaves each position where it is.
    pub fn identity() -> (r: [i8; 16])
        ensures
            r@.map_values(|v: i8| v as int) == identity(),
    {
        [1, 0, 0, 0, 0, 1, 0, 0, 0, 0, 1, 0, 0, 0, 0, 1]
    }

    /// Starts to set the scene up.
    pub fn init_scene() -> (r: (SceneSetup, SceneAction))
        ensures
            r.0.wf(),
            r.0.place() == 0,
            r.1 == SceneAction::Perform(r.0.command()),
    {
        let position: Layout = Attrib::Position.layout();
        let texture: Layout = Attrib::Texture.layout();
        let mut commands: Vec<GlCommand> = Vec::new();
        commands.push(GlCommand::CreateShader(Stage::Vertex));
        commands.push(GlCommand::ShaderSource(Stage::Vertex, Stage::Vertex.source()));
        commands.push(GlCommand::CompileShader(Stage::Vertex));
        commands.push(GlCommand::CreateShader(Stage::Fragment));
        commands.push(GlCommand::ShaderSource(Stage::Fragment, Stage::Fragment.source()));
        commands.push(GlCommand::CompileShader(Stage::Fragment));
        commands.push(GlCommand::CreateProgram);
        commands.push(GlCommand::AttachShader(Stage::Vertex));
        commands.push(GlCommand::AttachShader(Stage::Fragment));
        commands.push(GlCommand::LinkProgram);
        commands.push(GlCommand::ReadLinkStatus);
        commands.push(GlCommand::FindAttrib(Attrib::Position));
        commands.push(GlCommand::FindAttrib(Attrib::Texture));
        commands.push(GlCommand::CreateVertexArray);
        commands.push(GlCommand::CreateBuffer(BufferName::Vertices));
        commands.push(GlCommand::BindBuffer(Target::Array, Some(BufferName::Vertices)));
        commands.push(
            GlCommand::BufferData(Target::Array, BufferName::Vertices, Usage::StaticDraw),
        );
        commands.push(GlCommand::CreateBuffer(BufferName::Indices));
        commands.push(GlCommand::BindBuffer(Target::ElementArray, Some(BufferName::Indices)));
        commands.push(
            GlCommand::BufferData(Target::ElementArray, BufferName::Indices, Usage::StaticDraw),
        );
        commands.push(GlCommand::BindBuffer(Target::Array, Some(BufferName::Vertices)));
        commands.push(GlCommand::BindBuffer(Target::ElementArray, Some(BufferName::Indices)));
        commands.push(GlCommand::AttribPointer(Attrib::Position, position));
        commands.push(GlCommand::AttribPointer(Attrib::Texture, texture));
        commands.push(GlCommand::EnableAttrib(Attrib::Position));
        commands.push(GlCommand::EnableAttrib(Attrib::Texture));
        commands.push(GlCommand::BindVertexArray(false));
        commands.push(GlCommand::BindBuffer(Target::ElementArray, None));
        commands.push(GlCommand::BindBuffer(Target::Array, None));
        assert(commands@ =~= scene_commands());
        let first: GlCommand = commands[0];
        (SceneSetup { commands, next: 0 }, SceneAction::Perform(first))
    }

    /// The commands that draw a texture over the whole screen.
    pub fn draw_frame(&self, texture_id: u32) -> (r: Vec<GlCommand>)
        requires
            texture_id != 0,
        ensures
            r@ == draw_commands(texture_id),
    {
        let black: Color = Color { red: 0, green: 0, blue: 0, alpha: 1 };
        let position: Layout = Attrib::Position.layout();
        let texture: Layout = Attrib::Texture.layout();
        let mut commands: Vec<GlCommand> = Vec::new();
        commands.push(GlCommand::ClearColor(black));
        commands.push(GlCommand::Clear);
        commands.push(GlCommand::BlendColor(black));
        commands.push(
            GlCommand::BlendFunc(
                BlendFactor::SrcAlpha,
                BlendFactor::ConstantColor,
                BlendFactor::One,
                BlendFactor::OneMinusSrcAlpha,
            ),
        );
        commands.push(GlCommand::BlendAdd);
        commands.push(GlCommand::EnableBlend);
        commands.push(GlCommand::UseProgram(true));
        commands.push(GlCommand::BindVertexArray(true));
        commands.push(GlCommand::BindBuffer(Target::ElementArray, Some(BufferName::Indices)));
        commands.push(GlCommand::BindBuffer(Target::Array, Some(BufferName::Vertices)));
        commands.push(GlCommand::AttribPointer(Attrib::Position, position));
        commands.push(GlCommand::AttribPointer(Attrib::Texture, texture));
        commands.push(GlCommand::EnableAttrib(Attrib::Position));
        commands.push(GlCommand::EnableAttrib(Attrib::Texture));
        commands.push(GlCommand::ActiveTexture(0));
        commands.push(GlCommand::BindTexture(Some(texture_id)));
        commands.push(GlCommand::SetInteger(Uniform::Sampler, 0));
        commands.push(GlCommand::SetMatrix(Uniform::Transformation, Matrix::Identity));
        commands.push(GlCommand::DrawElements(INDEX_COUNT));
        commands.push(GlCommand::BindTexture(None));
        commands.push(GlCommand::UseProgram(false));
        commands.push(GlCommand::BindVertexArray(false));
        commands.push(GlCommand::BindBuffer(Target::ElementArray, None));
        commands.push(GlCommand::BindBuffer(Target::Array, None));
        commands.push(GlCommand::DisableAttrib(Attrib::Position));
        commands.push(GlCommand::DisableAttrib(Attrib::Texture));
        assert(commands@ =~= draw_commands(texture_id));
        commands
    }
}

/// Something that a command binds, uses or switches on until another undoes it.
#[derive(Clone, Copy, Debug, PartialEq, Eq, Structural)]
pub enum Slot {
    Buffer(Target),
    VertexArray,
    Program,
    Texture,
    Attrib(Attrib),
}

/// What a command does to a slot: fill it, empty it, or leave it as it is.
pub open spec fn effect(command: GlCommand, slot: Slot) -> Option<bool> {
    match (command, slot) {
        (GlCommand::BindBuffer(target, buffer), Slot::Buffer(t)) => if t == target {
            Some(buffer is Some)
        } else {
            None
        },
        (GlCommand::BindVertexArray(bound), Slot::VertexArray) => Some(bound),
        (GlCommand::UseProgram(used), Slot::Program) => Some(used),
        (GlCommand::BindTexture(texture), Slot::Texture) => Some(texture is Some),
        (GlCommand::EnableAttrib(attrib), Slot::Attrib(a)) => if a == attrib {
            Some(true)
        } else {
            None
        },
        (GlCommand::DisableAttrib(attrib), Slot::Attrib(a)) => if a == attrib {
            Some(false)
        } else {
            None
        },
        _ => None,
    }
}

/// Whether a slot that was empty is filled after the first `n` commands.
pub open spec fn is_filled(commands: Seq<GlCommand>, n: int, slot: Slot) -> bool
    decreases n,
{
    if n <= 0 {
        false
    } else {
        match effect(commands[n - 1], slot) {
            Some(filled) => filled,
            None => is_filled(commands, n - 1, slot),
        }
    }
}

/// A frame is drawn while each slot is filled, and leaves each slot empty.
pub proof fn drawing_cleans_up(texture: u32, slot: Slot)
    ensures
        draw_commands(texture)[draw_place()] == GlCommand::DrawElements(INDEX_COUNT),
        is_filled(draw_commands(texture), draw_place(), slot),
        !is_filled(draw_commands(texture), draw_commands(texture).len() as int, slot),
{
    reveal_with_fuel(is_filled, 27);
}

/// Setting the scene up leaves nothing bound; only the two attributes stay switched on.
pub proof fn setup_leaves_nothing_bound(slot: Slot)
    ensures
        is_filled(scene_commands(), scene_commands().len() as int, slot) <==> slot is Attrib,
{
    reveal_with_fuel(is_filled, 30);
}

/// An object that the setup makes.
#[derive(Clone, Copy, Debug, PartialEq, Eq, Structural)]
pub enum GlObject {
    Shader(Stage),
    Program,
    VertexArray,
    Buffer(BufferName),
}

/// Whether a command makes an object.
pub open spec fn makes(command: GlCommand, object: GlObject) -> bool {
    match command {
        GlCommand::CreateShader(stage) => object == GlObject::Shader(stage),
        GlCommand::CreateProgram => object is Program,
        GlCommand::CreateVertexArray => object is VertexArray,
        GlCommand::CreateBuffer(name) => object == GlObject::Buffer(name),
        _ => false,
    }
}

/// Whether a command needs an object.
pub open spec fn needs(command: GlCommand, object: GlObject) -> bool {
    match command {
        GlCommand::ShaderSource(stage, _) => object == GlObject::Shader(stage),
        GlCommand::CompileShader(stage) => object == GlObject::Shader(stage),
        GlCommand::AttachShader(stage) => object == GlObject::Shader(stage) || object is Program,
        GlCommand::LinkProgram => object is Program,
        GlCommand::ReadLinkStatus => object is Program,
        GlCommand::FindAttrib(_) => object is Program,
        GlCommand::BindBuffer(_, Some(name)) => object == GlObject::Buffer(name),
        GlCommand::BufferData(_, name, _) => object == GlObject::Buffer(name),
        GlCommand::BindVertexArray(true) => object is VertexArray,
        GlCommand::UseProgram(true) => object is Program,
        GlCommand::SetInteger(_, _) => object is Program,
        GlCommand::SetMatrix(_, _) => object is Program,
        _ => false,
    }
}

/// The place of the command that makes an object.
pub open spec fn making_place(object: GlObject) -> int {
    match object {
        GlObject::Shader(Stage::Vertex) => 0,
        GlObject::Shader(Stage::Fragment) => 3,
        GlObject::Program => 6,
        GlObject::VertexArray => 13,
        GlObject::Buffer(BufferName::Vertices) => 14,
        GlObject::Buffer(BufferName::Indices) => 17,
    }
}

/// Each object is made by one command of the setup, and no command needs an object before it is
/// made.
pub proof fn objects_are_made_before_use(object: GlObject, i: int)
    requires
        0 <= i < scene_commands().len(),
    ensures
        makes(scene_commands()[i], object) <==> i == making_place(object),
        needs(scene_commands()[i], object) ==> making_place(object) < i,
{
}

/// The indices name vertices that are there, and a frame is drawn with all of them.
pub proof fn indices_name_vertices(i: int)
    requires
        0 <= i < indices().len(),
    ensures
        vertices().len() == 4 * VERTEX_LEN,
        indices()[i] * VERTEX_LEN + VERTEX_LEN <= vertices().len(),
        INDEX_COUNT == indices().len(),
{
}

/// The place of corner `c` of triangle `t` on the screen.
pub open spec fn corner(t: int, c: int) -> (int, int) {
    let v = indices()[3 * t + c] * VERTEX_LEN;
    (vertices()[v], vertices()[v + 1])
}

/// Twice the area to the left of the way from `a` over `b` to `c`, negative where the way turns
/// right.
pub open spec fn turn(a: (int, int), b: (int, int), c: (int, int)) -> int {
    (b.0 - a.0) * (c.1 - a.1) - (b.1 - a.1) * (c.0 - a.0)
}

/// Both triangles turn left, and together they are as large as the screen, which is two wide and
/// two high. They have two corners in common and lie on either side of the line between these, so
/// that they do not overlap.
pub proof fn triangles_cover_screen()
    ensures
        turn(corner(0, 0), corner(0, 1), corner(0, 2)) == 4,
        turn(corner(1, 0), corner(1, 1), corner(1, 2)) == 4,
        corner(0, 0) == corner(1, 0),
        corner(0, 2) == corner(1, 1),
        turn(corner(0, 0), corner(0, 2), corner(0, 1)) < 0,
        turn(corner(0, 0), corner(0, 2), corner(1, 2)) > 0,
{
    assert(corner(0, 0) == (1int, 1int));
    assert(corner(0, 1) == (-1int, 1int));
    assert(corner(0, 2) == (-1int, -1int));
    assert(corner(1, 2) == (1int, -1int));
    assert(forall|a: int, b: int| a == -2 && b == -2 ==> #[trigger] (a * b) == 4)
        by (nonlinear_arith);
    assert(forall|a: int, b: int| a == 0 || b == 0 ==> #[trigger] (a * b) == 0)
        by (nonlinear_arith);
}

/// The components of the vertices are corners of the screen or of the texture: each is minus one,
/// zero or one, and its bits tell which.
pub proof fn bits_tell_components(i: int)
    requires
        0 <= i < vertices().len(),
    ensures
        -1 <= vertices()[i] <= 1,
        vertex_bits()[i] == 0 <==> vertices()[i] == 0,
        vertex_bits()[i] == 0x3f80_0000u32 <==> vertices()[i] == 1,
        vertex_bits()[i] == 0xbf80_0000u32 <==> vertices()[i] == -1,
{
}

/// The attributes of a vertex lie side by side and fill it.
pub proof fn attributes_fill_vertex()
    ensures
        ({
            let position = Attrib::Position.spec_layout();
            let texture = Attrib::Texture.spec_layout();
            &&& position.offset == 0
            &&& texture.offset == position.offset + position.size * COMPONENT_SIZE
            &&& position.stride == texture.offset + texture.size * COMPONENT_SIZE
            &&& texture.stride == position.stride == VERTEX_LEN * COMPONENT_SIZE
        }),
{
}

/// Each vertex is a corner of the screen and shows the same corner of the texture, whose rows run
/// from the top down; no two vertices are the same corner.
pub proof fn texture_covers_screen(v: int, w: int)
    requires
        0 <= v < 4,
        0 <= w < 4,
    ensures
        ({
            let x = vertices()[v * VERTEX_LEN];
            let y = vertices()[v * VERTEX_LEN + 1];
            &&& x == 1 || x == -1
            &&& y == 1 || y == -1
            &&& vertices()[v * VERTEX_LEN + 2] == 0
            &&& 2 * vertices()[v * VERTEX_LEN + 3] == 1 + x
            &&& 2 * vertices()[v * VERTEX_LEN + 4] == 1 - y
            &&& vertices()[w * VERTEX_LEN] == x && vertices()[w * VERTEX_LEN + 1] == y ==> v == w
        }),
{
}

/// What a command that draws goes by: the state that the commands before it leave.
pub struct DrawState {
    /// The buffer that vertices are read from when an attribute is placed.
    pub array: Option<BufferName>,
    /// The buffer that indices are read from.
    pub elements: Option<BufferName>,
    /// Whether the vertex array is bound.
    pub vertex_array: bool,
    /// Whether the program is used.
    pub program: bool,
    /// The texture unit that is chosen.
    pub unit: Option<u32>,
    /// The texture that is bound to the unit.
    pub texture: Option<u32>,
    /// The buffer and the place that positions are read from.
    pub position: Option<(BufferName, Layout)>,
    /// The buffer and the place that texture coordinates are read from.
    pub texcoord: Option<(BufferName, Layout)>,
    /// Whether the positions are switched on.
    pub position_on: bool,
    /// Whether the texture coordinates are switched on.
    pub texcoord_on: bool,
    /// The texture unit that the program reads from.
    pub sampler: Option<i32>,
    /// The transformation that the program applies.
    pub transformation: Option<Matrix>,
    /// The colour to clear with.
    pub clear_color: Option<Color>,
    /// The colour that all was cleared to.
    pub cleared: Option<Color>,
    /// The constant colour of blending.
    pub blend_color: Option<Color>,
    /// The factors of blending.
    pub blend_factors: Option<(BlendFactor, BlendFactor, BlendFactor, BlendFactor)>,
    /// Whether colours are blended by adding.
    pub blend_add: bool,
    /// Whether blending is switched on.
    pub blend: bool,
}

/// Nothing is known of what came before.
pub open spec fn blank() -> DrawState {
    DrawState {
        array: None,
        elements: None,
        vertex_array: false,
        program: false,
        unit: None,
        texture: None,
        position: None,
        texcoord: None,
        position_on: false,
        texcoord_on: false,
        sampler: None,
        transformation: None,
        clear_color: None,
        cleared: None,
        blend_color: None,
        blend_factors: None,
        blend_add: false,
        blend: false,
    }
}

/// What a command changes. Binding a vertex array brings in the indices and the attributes that it
/// holds, of which nothing is known.
pub open spec fn carried_out(s: DrawState, command: GlCommand) -> DrawState {
    match command {
        GlCommand::BindBuffer(Target::Array, buffer) => DrawState { array: buffer, ..s },
        GlCommand::BindBuffer(Target::ElementArray, buffer) => DrawState { elements: buffer, ..s },
        GlCommand::BindVertexArray(bound) => DrawState {
            vertex_array: bound,
            elements: None,
            position: None,
            texcoord: None,
            position_on: false,
            texcoord_on: false,
            ..s
        },
        GlCommand::UseProgram(used) => DrawState { program: used, ..s },
        GlCommand::ActiveTexture(unit) => DrawState { unit: Some(unit), texture: None, ..s },
        GlCommand::BindTexture(texture) => DrawState { texture, ..s },
        GlCommand::AttribPointer(Attrib::Position, layout) => DrawState {
            position: match s.array {
                Some(buffer) => Some((buffer, layout)),
                None => None,
            },
            ..s
        },
        GlCommand::AttribPointer(Attrib::Texture, layout) => DrawState {
            texcoord: match s.array {
                Some(buffer) => Some((buffer, layout)),
                None => None,
            },
            ..s
        },
        GlCommand::EnableAttrib(Attrib::Position) => DrawState { position_on: true, ..s },
        GlCommand::EnableAttrib(Attrib::Texture) => DrawState { texcoord_on: true, ..s },
        GlCommand::DisableAttrib(Attrib::Position) => DrawState { position_on: false, ..s },
        GlCommand::DisableAttrib(Attrib::Texture) => DrawState { texcoord_on: false, ..s },
        GlCommand::SetInteger(Uniform::Sampler, unit) => DrawState {
            sampler: if s.program {
                Some(unit)
            } else {
                None
            },
            ..s
        },
        GlCommand::SetMatrix(Uniform::Transformation, matrix) => DrawState {
            transformation: if s.program {
                Some(matrix)
            } else {
                None
            },
            ..s
        },
        GlCommand::ClearColor(color) => DrawState { clear_color: Some(color), ..s },
        GlCommand::Clear => DrawState { cleared: s.clear_color, ..s },
        GlCommand::BlendColor(color) => DrawState { blend_color: Some(color), ..s },
        GlCommand::BlendFunc(a, b, c, d) => DrawState { blend_factors: Some((a, b, c, d)), ..s },
        GlCommand::BlendAdd => DrawState { blend_add: true, ..s },
        GlCommand::EnableBlend => DrawState { blend: true, ..s },
        _ => s,
    }
}

/// The state that the first `n` commands leave.
pub open spec fn state_after(commands: Seq<GlCommand>, n: int) -> DrawState
    decreases n,
{
    if n <= 0 {
        blank()
    } else {
        carried_out(state_after(commands, n - 1), commands[n - 1])
    }
}

/// A frame is drawn in one go. All has been cleared to opaque black by then, and nothing drawn. The
/// triangles are read from the indices, all six of them. Positions and texture coordinates are read
/// from the vertices, three and two components of each record of twenty bytes, side by side. The
/// program is used, it leaves positions where they are, and it reads from the texture that was
/// given.
pub proof fn frame_is_drawn_from_its_buffers(texture: u32, i: int)
    requires
        0 <= i < draw_commands(texture).len(),
        draw_commands(texture)[i] is DrawElements,
    ensures
        draw_commands(texture)[i] == GlCommand::DrawElements(6),
        forall|j: int|
            0 <= j < draw_commands(texture).len() && j != i ==> !(#[trigger] draw_commands(
                texture,
            )[j] is DrawElements),
        forall|j: int|
            i < j < draw_commands(texture).len() ==> !(#[trigger] draw_commands(texture)[j]
                is Clear),
        ({
            let s = state_after(draw_commands(texture), i);
            let black = Color { red: 0, green: 0, blue: 0, alpha: 1 };
            &&& s.elements == Some(BufferName::Indices)
            &&& s.position == Some(
                (BufferName::Vertices, Layout { size: 3, stride: 20, offset: 0 }),
            )
            &&& s.texcoord == Some(
                (BufferName::Vertices, Layout { size: 2, stride: 20, offset: 12 }),
            )
            &&& s.position_on
            &&& s.texcoord_on
            &&& s.vertex_array
            &&& s.program
            &&& s.unit == Some(0u32)
            &&& s.texture == Some(texture)
            &&& s.sampler == Some(0i32)
            &&& s.transformation == Some(Matrix::Identity)
            &&& s.cleared == Some(black)
            &&& s.blend_color == Some(black)
            &&& s.blend_factors == Some(
                (
                    BlendFactor::SrcAlpha,
                    BlendFactor::ConstantColor,
                    BlendFactor::One,
                    BlendFactor::OneMinusSrcAlpha,
                ),
            )
            &&& s.blend_add
            &&& s.blend
        }),
{
    assert(i == 18);
    reveal_with_fuel(state_after, 19);
}

/// A frame is drawn, and leaves nothing bound and nothing of its own switched on.
pub proof fn frame_leaves_nothing_behind(texture: u32)
    ensures
        exists|i: int|
            0 <= i < draw_commands(texture).len() && #[trigger] draw_commands(texture)[i]
                == GlCommand::DrawElements(6),
        ({
            let s = state_after(draw_commands(texture), draw_commands(texture).len() as int);
            &&& s.array is None
            &&& s.elements is None
            &&& !s.vertex_array
            &&& !s.program
            &&& s.texture is None
            &&& !s.position_on
            &&& !s.texcoord_on
        }),
        exists|i: int, j: int|
            0 <= i < draw_commands(texture).len() && 0 <= j < draw_commands(texture).len()
                && #[trigger] draw_commands(texture)[i] == GlCommand::DisableAttrib(
                Attrib::Position,
            ) && #[trigger] draw_commands(texture)[j] == GlCommand::DisableAttrib(Attrib::Texture),
{
    assert(draw_commands(texture)[18] == GlCommand::DrawElements(6));
    assert(draw_commands(texture)[24] == GlCommand::DisableAttrib(Attrib::Position));
    assert(draw_commands(texture)[25] == GlCommand::DisableAttrib(Attrib::Texture));
    reveal_with_fuel(state_after, 27);
}

/// A buffer is filled while it is the one that is bound at that place, once, and for good.
#[verifier::rlimit(50)]
pub proof fn buffers_are_filled_while_bound(i: int)
    requires
        0 <= i < scene_commands().len(),
    ensures
        scene_commands()[i] matches GlCommand::BufferData(target, name, usage) ==> {
            let s = state_after(scene_commands(), i);
            &&& usage is StaticDraw
            &&& target is Array ==> name is Vertices && s.array == Some(name)
            &&& target is ElementArray ==> name is Indices && s.elements == Some(name)
        },
        exists|j: int|
            0 <= j < scene_commands().len() && #[trigger] scene_commands()[j]
                == GlCommand::BufferData(Target::Array, BufferName::Vertices, Usage::StaticDraw),
        exists|j: int|
            0 <= j < scene_commands().len() && #[trigger] scene_commands()[j]
                == GlCommand::BufferData(
                Target::ElementArray,
                BufferName::Indices,
                Usage::StaticDraw,
            ),
        scene_commands()[i] is BufferData ==> forall|j: int|
            0 <= j < scene_commands().len() && #[trigger] scene_commands()[j]
                == scene_commands()[i] ==> j == i,
{
    assert(scene_commands()[16] == GlCommand::BufferData(
        Target::Array,
        BufferName::Vertices,
        Usage::StaticDraw,
    ));
    assert(scene_commands()[19] == GlCommand::BufferData(
        Target::ElementArray,
        BufferName::Indices,
        Usage::StaticDraw,
    ));
    reveal_with_fuel(state_after, 20);
    if scene_commands()[i] is BufferData {
        assert(i == 16 || i == 19);
    }
}

/// By the end of the setup both attributes have been read from the vertices and switched on, and
/// nothing is bound.
pub proof fn setup_places_attributes(i: int)
    requires
        0 <= i < scene_commands().len(),
        scene_commands()[i] is BindVertexArray,
    ensures
        ({
            let s = state_after(scene_commands(), i);
            &&& s.elements == Some(BufferName::Indices)
            &&& s.position == Some(
                (BufferName::Vertices, Layout { size: 3, stride: 20, offset: 0 }),
            )
            &&& s.texcoord == Some(
                (BufferName::Vertices, Layout { size: 2, stride: 20, offset: 12 }),
            )
            &&& s.position_on
            &&& s.texcoord_on
        }),
        ({
            let s = state_after(scene_commands(), scene_commands().len() as int);
            &&& s.array is None
            &&& s.elements is None
            &&& !s.vertex_array
            &&& !s.program
        }),
        scene_commands()[i] == GlCommand::BindVertexArray(false),
{
    assert(i == 26);
    reveal_with_fuel(state_after, 30);
}

/// How far a shader is after the first `n` commands: made, given the source of its stage, compiled,
/// and attached to the program, each of which counts only after the one before.
pub open spec fn built(commands: Seq<GlCommand>, n: int, stage: Stage) -> int
    decreases n,
{
    if n <= 0 {
        0
    } else {
        let before = built(commands, n - 1, stage);
        match commands[n - 1] {
            GlCommand::CreateShader(s) => if s == stage {
                1
            } else {
                before
            },
            GlCommand::ShaderSource(s, text) => if s == stage && before == 1 && text == (
            match stage {
                Stage::Vertex => VS_SRC,
                Stage::Fragment => FS_SRC,
            }) {
                2
            } else if s == stage {
                0
            } else {
                before
            },
            GlCommand::CompileShader(s) => if s == stage && before == 2 {
                3
            } else {
                before
            },
            GlCommand::AttachShader(s) => if s == stage && before == 3 {
                4
            } else {
                before
            },
            _ => before,
        }
    }
}

/// The program is linked from both shaders: each is made, given its source, compiled and attached
/// by then. It is linked once.
pub proof fn program_is_linked_from_both_shaders(stage: Stage, i: int, j: int)
    requires
        0 <= i < scene_commands().len(),
        0 <= j < scene_commands().len(),
        scene_commands()[i] is LinkProgram,
    ensures
        built(scene_commands(), i, stage) == 4,
        scene_commands()[j] is LinkProgram ==> j == i,
{
    assert(i == 9);
    reveal_with_fuel(built, 10);
}

/// The program is linked before it is asked whether it is, and only then its attributes are looked
/// up: both of them, before they are placed.
pub proof fn linked_program_is_searched(attrib: Attrib, i: int, j: int)
    requires
        0 <= i < scene_commands().len(),
        0 <= j < scene_commands().len(),
    ensures
        scene_commands()[i] is LinkProgram && scene_commands()[j] is ReadLinkStatus ==> i < j,
        scene_commands()[i] is ReadLinkStatus && scene_commands()[j] is FindAttrib ==> i < j,
        scene_commands()[i] == GlCommand::FindAttrib(attrib) && (scene_commands()[j]
            matches GlCommand::AttribPointer(a, _) && a == attrib) ==> i < j,
        exists|k: int|
            0 <= k < scene_commands().len() && #[trigger] scene_commands()[k] is LinkProgram,
        exists|k: int|
            0 <= k < scene_commands().len() && #[trigger] scene_commands()[k] is ReadLinkStatus,
        exists|k: int|
            0 <= k < scene_commands().len() && #[trigger] scene_commands()[k]
                == GlCommand::FindAttrib(attrib),
{
    assert(scene_commands()[9] is LinkProgram);
    assert(scene_commands()[10] is ReadLinkStatus);
    assert(scene_commands()[11] == GlCommand::FindAttrib(Attrib::Position));
    assert(scene_commands()[12] == GlCommand::FindAttrib(Attrib::Texture));
}

/// The setup fails where an object cannot be made, whatever the reason, and with that reason; and
/// where the program is not linked. It fails in no other case.
pub proof fn setup_fails_with_the_reason(outcome: Outcome)
    ensures
        match outcome {
            Outcome::Created(Ok(_)) => failure(outcome) is None,
            Outcome::Created(Err(reason)) => failure(outcome) == Some(reason@),
            Outcome::Linked(linked) => if linked {
                failure(outcome) is None
            } else {
                failure(outcome) == Some("failed to link program"@)
            },
            Outcome::Performed => failure(outcome) is None,
            Outcome::Located => failure(outcome) is None,
        },
{
}

/// Each command can have the outcomes of its kind: one that makes an object can succeed or fail for
/// any reason, the program can be linked or not, attributes are found, and all else is carried out.
pub proof fn outcomes_of_commands(command: GlCommand, reason: String, linked: bool)
    ensures
        match command {
            GlCommand::CreateShader(_) | GlCommand::CreateProgram | GlCommand::CreateVertexArray
            | GlCommand::CreateBuffer(_) => fits(command, Outcome::Created(Ok(()))) && fits(
                command,
                Outcome::Created(Err(reason)),
            ),
            GlCommand::ReadLinkStatus => fits(command, Outcome::Linked(linked)),
            GlCommand::FindAttrib(_) => fits(command, Outcome::Located),
            _ => fits(command, Outcome::Performed),
        },
{
}

/// The transformation has ones where row and column are the same, and zeros elsewhere.
pub proof fn identity_moves_nothing(row: int, column: int)
    requires
        0 <= row < 4,
        0 <= column < 4,
    ensures
        identity().len() == 16,
        identity()[4 * row + column] == (if row == column {
            1int
        } else {
            0int
        }),
{
}

/// The buffers are filled with the right numbers: four bytes for each component of the vertices,
/// those of minus one, zero or one as a floating-point number, and two for each index.
pub proof fn buffers_hold_vertices_and_indices(order: ByteOrder, i: int, j: int)
    requires
        0 <= i < 20,
        0 <= j < 6,
    ensures
        contents(BufferName::Vertices, order).len() == 80,
        contents(BufferName::Indices, order).len() == 12,
        contents(BufferName::Vertices, order).subrange(4 * i, 4 * i + 4)
            == crate::memory::word_bytes(
            order,
            if vertices()[i] == 0 {
                0u32
            } else if vertices()[i] == 1 {
                0x3f80_0000u32
            } else {
                0xbf80_0000u32
            },
        ),
        contents(BufferName::Indices, order).subrange(2 * j, 2 * j + 2)
            == crate::memory::short_bytes(order, indices()[j]),
{
    contents_len(BufferName::Vertices, order);
    contents_len(BufferName::Indices, order);
    crate::memory::bytes_stand_in_order(order, vertex_bits(), i);
    crate::memory::bytes_stand_in_order(order, indices(), j);
    assert(<u32 as crate::memory::Plain>::width() == 4);
    assert(<u16 as crate::memory::Plain>::width() == 2);
    assert(i * <u32 as crate::memory::Plain>::width() == 4 * i) by (nonlinear_arith)
        requires
            <u32 as crate::memory::Plain>::width() == 4,
    ;
    assert(j * <u16 as crate::memory::Plain>::width() == 2 * j) by (nonlinear_arith)
        requires
            <u16 as crate::memory::Plain>::width() == 2,
    ;
    assert(vertex_bits()[i] == float_bits(vertices()[i]));
}

/// The vertex shader moves each position by the transformation and passes the texture coordinate
/// on; the fragment shader looks the colour up there. Both end with a zero.
pub proof fn shaders_in_words()
    ensures
        VS_SRC@ == "
uniform mat4 u_transformation;
attribute vec4 a_position;
attribute vec2 a_texcoord;
varying vec2 v_texcoord;

void main() {
    gl_Position = u_transformation * a_position;
    v_texcoord = a_texcoord;
}
\0"@,
        FS_SRC@ == "
#ifdef GL_ES
precision mediump float;
#endif
varying vec2 v_texcoord;
uniform sampler2D tex;

void main() {
    gl_FragColor = texture2D(tex, v_texcoord);
}
\0"@,
{
}

} // verus!
