//! The graphics calls that the scenes make, as plain values.
//!
//! Nothing in this crate talks to a graphics driver. Every operation hands
//! back the calls it wants made, in order, and whoever owns the current
//! context makes them. A [`Command`] is one such call with its arguments; the
//! numeric constants are those of the OpenGL headers.
//!
//! Real numbers are held in thousandths: `-500` stands for `-0.5`, `1175`
//! for `1.175`. The one who makes the calls divides by a thousand.
use vstd::multiset::Multiset;
use vstd::prelude::*;

verus! {

/// `GL_SRC_ALPHA`.
pub const SRC_ALPHA: u32 = 0x0302;

/// `GL_ONE_MINUS_SRC_ALPHA`.
pub const ONE_MINUS_SRC_ALPHA: u32 = 0x0303;

/// `GL_VERTEX_SHADER`.
pub const VERTEX_SHADER: u32 = 0x8B31;

/// `GL_FRAGMENT_SHADER`.
pub const FRAGMENT_SHADER: u32 = 0x8B30;

/// `GL_COMPILE_STATUS`.
pub const COMPILE_STATUS: u32 = 0x8B81;

/// `GL_INFO_LOG_LENGTH`.
pub const INFO_LOG_LENGTH: u32 = 0x8B84;

/// `GL_ARRAY_BUFFER`.
pub const ARRAY_BUFFER: u32 = 0x8892;

/// `GL_ELEMENT_ARRAY_BUFFER`.
pub const ELEMENT_ARRAY_BUFFER: u32 = 0x8893;

/// `GL_STATIC_DRAW`.
pub const STATIC_DRAW: u32 = 0x88E4;

/// `GL_FLOAT`.
pub const FLOAT: u32 = 0x1406;

/// `GL_UNSIGNED_INT`.
pub const UNSIGNED_INT: u32 = 0x1405;

/// `GL_UNSIGNED_BYTE`.
pub const UNSIGNED_BYTE: u32 = 0x1401;

/// `GL_TRIANGLES`.
pub const TRIANGLES: u32 = 0x0004;

/// `GL_COLOR_BUFFER_BIT`.
pub const COLOR_BUFFER_BIT: u32 = 0x4000;

/// `GL_TEXTURE_2D`.
pub const TEXTURE_2D: u32 = 0x0DE1;

/// `GL_TEXTURE_MIN_FILTER`.
pub const TEXTURE_MIN_FILTER: u32 = 0x2801;

/// `GL_TEXTURE_MAG_FILTER`.
pub const TEXTURE_MAG_FILTER: u32 = 0x2800;

/// `GL_TEXTURE_WRAP_S`.
pub const TEXTURE_WRAP_S: u32 = 0x2802;

/// `GL_TEXTURE_WRAP_T`.
pub const TEXTURE_WRAP_T: u32 = 0x2803;

/// `GL_LINEAR`.
pub const LINEAR: u32 = 0x2601;

/// `GL_CLAMP_TO_EDGE`.
pub const CLAMP_TO_EDGE: u32 = 0x812F;

/// `GL_RGBA8`.
pub const RGBA8: u32 = 0x8058;

/// `GL_RGBA`.
pub const RGBA: u32 = 0x1908;

/// `GL_TEXTURE0`.
pub const TEXTURE0: u32 = 0x84C0;

/// What a status query answers for "no".
pub const FALSE: i32 = 0;

/// How many texture units a texture can be bound to.
pub const TEXTURE_UNITS: u32 = 32;

/// The six planes of an orthographic projection, in thousandths.
#[derive(Clone, Copy, Debug, PartialEq, Eq)]
pub struct Ortho {
    pub left: i32,
    pub right: i32,
    pub bottom: i32,
    pub top: i32,
    pub znear: i32,
    pub zfar: i32,
}

/// The kinds of object that the driver hands out names for.
#[derive(Clone, Copy, Debug, PartialEq, Eq)]
pub enum ObjectKind {
    Shader,
    Program,
    VertexArray,
    Buffer,
    Texture,
}

/// One named object of the driver. Names of different kinds are unrelated:
/// buffer 1 and texture 1 are two objects.
#[derive(Clone, Copy, Debug, PartialEq, Eq)]
pub struct Object {
    pub kind: ObjectKind,
    pub name: u32,
}

/// What a call gives back to the one who made it.
#[derive(Clone, Copy, Debug, PartialEq, Eq)]
pub enum Yield {
    Nothing,
    /// The name of a fresh object of this kind.
    Name(ObjectKind),
    Integer,
    Bytes,
}

/// One graphics call. Object names are the driver's; `0` names no object.
#[allow(inconsistent_fields)]
#[derive(Debug, PartialEq, Eq)]
pub enum Command {
    BlendFunc { sfactor: u32, dfactor: u32 },
    /// Gives back the new shader's name.
    CreateShader { kind: u32 },
    /// `source` ends with a zero byte.
    ShaderSource { shader: u32, source: Vec<u8> },
    CompileShader { shader: u32 },
    /// Gives back the integer asked for.
    GetShaderiv { shader: u32, pname: u32 },
    /// Gives back at most `capacity` bytes of the shader's log.
    GetShaderInfoLog { shader: u32, capacity: i32 },
    /// Gives back the new program's name.
    CreateProgram,
    AttachShader { program: u32, shader: u32 },
    LinkProgram { program: u32 },
    UseProgram { program: u32 },
    DeleteShader { shader: u32 },
    DeleteProgram { program: u32 },
    /// Gives back the new vertex array's name.
    GenVertexArray,
    BindVertexArray { array: u32 },
    DeleteVertexArray { array: u32 },
    /// Gives back the new buffer's name.
    GenBuffer,
    BindBuffer { target: u32, buffer: u32 },
    /// Fills the buffer bound to `target` with 32-bit floats, given in
    /// thousandths.
    BufferDataFloat { target: u32, data: Vec<i32>, usage: u32 },
    /// Fills the buffer bound to `target` with 32-bit unsigned integers.
    BufferDataUint { target: u32, data: Vec<u32>, usage: u32 },
    DeleteBuffer { buffer: u32 },
    EnableVertexAttribArray { index: u32 },
    /// `stride` and `offset` are in bytes.
    VertexAttribPointer {
        index: u32,
        size: i32,
        kind: u32,
        normalized: bool,
        stride: i32,
        offset: u32,
    },
    /// Gives back the new texture's name.
    GenTexture,
    ActiveTexture { texture: u32 },
    BindTexture { target: u32, texture: u32 },
    TexParameteri { target: u32, pname: u32, param: u32 },
    TexImage2D {
        target: u32,
        level: i32,
        internal_format: u32,
        width: u32,
        height: u32,
        border: i32,
        format: u32,
        kind: u32,
        pixels: Vec<u8>,
    },
    DeleteTexture { texture: u32 },
    /// Sets the uniform called `name` of `program`. `name` is a C string.
    Uniform1i { program: u32, name: Vec<u8>, v0: i32 },
    /// As `Uniform1i`; the four values are in thousandths.
    Uniform4f { program: u32, name: Vec<u8>, v0: i32, v1: i32, v2: i32, v3: i32 },
    /// As `Uniform1i`; the value is the 4x4 matrix of the projection.
    UniformMatrix4fv { program: u32, name: Vec<u8>, transpose: bool, matrix: Ortho },
    /// The four channels are in thousandths.
    ClearColor { red: i32, green: i32, blue: i32, alpha: i32 },
    Clear { mask: u32 },
    DrawArrays { mode: u32, first: i32, count: i32 },
    /// Draws `count` indices from the start of the bound index buffer.
    DrawElements { mode: u32, count: i32, kind: u32 },
    Viewport { x: i32, y: i32, width: i32, height: i32 },
}

/// A [`Command`] as a mathematical value.
#[allow(inconsistent_fields)]
pub enum CommandView {
    BlendFunc { sfactor: u32, dfactor: u32 },
    CreateShader { kind: u32 },
    ShaderSource { shader: u32, source: Seq<u8> },
    CompileShader { shader: u32 },
    GetShaderiv { shader: u32, pname: u32 },
    GetShaderInfoLog { shader: u32, capacity: i32 },
    CreateProgram,
    AttachShader { program: u32, shader: u32 },
    LinkProgram { program: u32 },
    UseProgram { program: u32 },
    DeleteShader { shader: u32 },
    DeleteProgram { program: u32 },
    GenVertexArray,
    BindVertexArray { array: u32 },
    DeleteVertexArray { array: u32 },
    GenBuffer,
    BindBuffer { target: u32, buffer: u32 },
    BufferDataFloat { target: u32, data: Seq<i32>, usage: u32 },
    BufferDataUint { target: u32, data: Seq<u32>, usage: u32 },
    DeleteBuffer { buffer: u32 },
    EnableVertexAttribArray { index: u32 },
    VertexAttribPointer {
        index: u32,
        size: i32,
        kind: u32,
        normalized: bool,
        stride: i32,
        offset: u32,
    },
    GenTexture,
    ActiveTexture { texture: u32 },
    BindTexture { target: u32, texture: u32 },
    TexParameteri { target: u32, pname: u32, param: u32 },
    TexImage2D {
        target: u32,
        level: i32,
        internal_format: u32,
        width: u32,
        height: u32,
        border: i32,
        format: u32,
        kind: u32,
        pixels: Seq<u8>,
    },
    DeleteTexture { texture: u32 },
    Uniform1i { program: u32, name: Seq<u8>, v0: i32 },
    Uniform4f { program: u32, name: Seq<u8>, v0: i32, v1: i32, v2: i32, v3: i32 },
    UniformMatrix4fv { program: u32, name: Seq<u8>, transpose: bool, matrix: Ortho },
    ClearColor { red: i32, green: i32, blue: i32, alpha: i32 },
    Clear { mask: u32 },
    DrawArrays { mode: u32, first: i32, count: i32 },
    DrawElements { mode: u32, count: i32, kind: u32 },
    Viewport { x: i32, y: i32, width: i32, height: i32 },
}

impl View for Command {
    type V = CommandView;

    open spec fn view(&self) -> CommandView {
        match *self {
            Command::BlendFunc { sfactor, dfactor } => CommandView::BlendFunc { sfactor, dfactor },
            Command::CreateShader { kind } => CommandView::CreateShader { kind },
            Command::ShaderSource { shader, source } => CommandView::ShaderSource {
                shader,
                source: source@,
            },
            Command::CompileShader { shader } => CommandView::CompileShader { shader },
            Command::GetShaderiv { shader, pname } => CommandView::GetShaderiv { shader, pname },
            Command::GetShaderInfoLog { shader, capacity } => CommandView::GetShaderInfoLog {
                shader,
                capacity,
            },
            Command::CreateProgram => CommandView::CreateProgram,
            Command::AttachShader { program, shader } => CommandView::AttachShader {
                program,
                shader,
            },
            Command::LinkProgram { program } => CommandView::LinkProgram { program },
            Command::UseProgram { program } => CommandView::UseProgram { program },
            Command::DeleteShader { shader } => CommandView::DeleteShader { shader },
            Command::DeleteProgram { program } => CommandView::DeleteProgram { program },
            Command::GenVertexArray => CommandView::GenVertexArray,
            Command::BindVertexArray { array } => CommandView::BindVertexArray { array },
            Command::DeleteVertexArray { array } => CommandView::DeleteVertexArray { array },
            Command::GenBuffer => CommandView::GenBuffer,
            Command::BindBuffer { target, buffer } => CommandView::BindBuffer { target, buffer },
            Command::BufferDataFloat { target, data, usage } => CommandView::BufferDataFloat {
                target,
                data: data@,
                usage,
            },
            Command::BufferDataUint { target, data, usage } => CommandView::BufferDataUint {
                target,
                data: data@,
                usage,
            },
            Command::DeleteBuffer { buffer } => CommandView::DeleteBuffer { buffer },
            Command::EnableVertexAttribArray { index } => CommandView::EnableVertexAttribArray {
                index,
            },
            Command::VertexAttribPointer { index, size, kind, normalized, stride, offset } =>
                CommandView::VertexAttribPointer { index, size, kind, normalized, stride, offset },
            Command::GenTexture => CommandView::GenTexture,
            Command::ActiveTexture { texture } => CommandView::ActiveTexture { texture },
            Command::BindTexture { target, texture } => CommandView::BindTexture {
                target,
                texture,
            },
            Command::TexParameteri { target, pname, param } => CommandView::TexParameteri {
                target,
                pname,
                param,
            },
            Command::TexImage2D {
                target,
                level,
                internal_format,
                width,
                height,
                border,
                format,
                kind,
                pixels,
            } => CommandView::TexImage2D {
                target,
                level,
                internal_format,
                width,
                height,
                border,
                format,
                kind,
                pixels: pixels@,
            },
            Command::DeleteTexture { texture } => CommandView::DeleteTexture { texture },
            Command::Uniform1i { program, name, v0 } => CommandView::Uniform1i {
                program,
                name: name@,
                v0,
            },
            Command::Uniform4f { program, name, v0, v1, v2, v3 } => CommandView::Uniform4f {
                program,
                name: name@,
                v0,
                v1,
                v2,
                v3,
            },
            Command::UniformMatrix4fv { program, name, transpose, matrix } =>
                CommandView::UniformMatrix4fv { program, name: name@, transpose, matrix },
            Command::ClearColor { red, green, blue, alpha } => CommandView::ClearColor {
                red,
                green,
                blue,
                alpha,
            },
            Command::Clear { mask } => CommandView::Clear { mask },
            Command::DrawArrays { mode, first, count } => CommandView::DrawArrays {
                mode,
                first,
                count,
            },
            Command::DrawElements { mode, count, kind } => CommandView::DrawElements {
                mode,
                count,
                kind,
            },
            Command::Viewport { x, y, width, height } => CommandView::Viewport {
                x,
                y,
                width,
                height,
            },
        }
    }
}

/// Whole numbers of thousandths as the 32-bit values that commands hold.
pub open spec fn thousandths(values: Seq<int>) -> Seq<i32> {
    values.map_values(|v: int| v as i32)
}

/// The commands of a list, each as a mathematical value.
pub open spec fn views(commands: Seq<Command>) -> Seq<CommandView> {
    commands.map_values(|c: Command| c@)
}

impl CommandView {
    /// What the driver gives back for this call.
    pub open spec fn yields(self) -> Yield {
        match self {
            CommandView::CreateShader { .. } => Yield::Name(ObjectKind::Shader),
            CommandView::CreateProgram => Yield::Name(ObjectKind::Program),
            CommandView::GenVertexArray => Yield::Name(ObjectKind::VertexArray),
            CommandView::GenBuffer => Yield::Name(ObjectKind::Buffer),
            CommandView::GenTexture => Yield::Name(ObjectKind::Texture),
            CommandView::GetShaderiv { .. } => Yield::Integer,
            CommandView::GetShaderInfoLog { .. } => Yield::Bytes,
            _ => Yield::Nothing,
        }
    }

    /// The object that this call deletes, if it is a delete.
    pub open spec fn deletes(self) -> Option<Object> {
        match self {
            CommandView::DeleteShader { shader } => Some(
                Object { kind: ObjectKind::Shader, name: shader },
            ),
            CommandView::DeleteProgram { program } => Some(
                Object { kind: ObjectKind::Program, name: program },
            ),
            CommandView::DeleteVertexArray { array } => Some(
                Object { kind: ObjectKind::VertexArray, name: array },
            ),
            CommandView::DeleteBuffer { buffer } => Some(
                Object { kind: ObjectKind::Buffer, name: buffer },
            ),
            CommandView::DeleteTexture { texture } => Some(
                Object { kind: ObjectKind::Texture, name: texture },
            ),
            _ => None,
        }
    }
}

impl Command {
    /// A second copy of the call.
    pub fn duplicate(&self) -> (copy: Command)
        ensures
            copy@ == self@,
    {
        match self {
            Command::BlendFunc { sfactor, dfactor } => Command::BlendFunc {
                sfactor: *sfactor,
                dfactor: *dfactor,
            },
            Command::CreateShader { kind } => Command::CreateShader { kind: *kind },
            Command::ShaderSource { shader, source } => Command::ShaderSource {
                shader: *shader,
                source: source.clone(),
            },
            Command::CompileShader { shader } => Command::CompileShader { shader: *shader },
            Command::GetShaderiv { shader, pname } => Command::GetShaderiv {
                shader: *shader,
                pname: *pname,
            },
            Command::GetShaderInfoLog { shader, capacity } => Command::GetShaderInfoLog {
                shader: *shader,
                capacity: *capacity,
            },
            Command::CreateProgram => Command::CreateProgram,
            Command::AttachShader { program, shader } => Command::AttachShader {
                program: *program,
                shader: *shader,
            },
            Command::LinkProgram { program } => Command::LinkProgram { program: *program },
            Command::UseProgram { program } => Command::UseProgram { program: *program },
            Command::DeleteShader { shader } => Command::DeleteShader { shader: *shader },
            Command::DeleteProgram { program } => Command::DeleteProgram { program: *program },
            Command::GenVertexArray => Command::GenVertexArray,
            Command::BindVertexArray { array } => Command::BindVertexArray { array: *array },
            Command::DeleteVertexArray { array } => Command::DeleteVertexArray { array: *array },
            Command::GenBuffer => Command::GenBuffer,
            Command::BindBuffer { target, buffer } => Command::BindBuffer {
                target: *target,
                buffer: *buffer,
            },
            Command::BufferDataFloat { target, data, usage } => Command::BufferDataFloat {
                target: *target,
                data: data.clone(),
                usage: *usage,
            },
            Command::BufferDataUint { target, data, usage } => Command::BufferDataUint {
                target: *target,
                data: data.clone(),
                usage: *usage,
            },
            Command::DeleteBuffer { buffer } => Command::DeleteBuffer { buffer: *buffer },
            Command::EnableVertexAttribArray { index } => Command::EnableVertexAttribArray {
                index: *index,
            },
            Command::VertexAttribPointer { index, size, kind, normalized, stride, offset } =>
                Command::VertexAttribPointer {
                    index: *index,
                    size: *size,
                    kind: *kind,
                    normalized: *normalized,
                    stride: *stride,
                    offset: *offset,
                },
            Command::GenTexture => Command::GenTexture,
            Command::ActiveTexture { texture } => Command::ActiveTexture { texture: *texture },
            Command::BindTexture { target, texture } => Command::BindTexture {
                target: *target,
                texture: *texture,
            },
            Command::TexParameteri { target, pname, param } => Command::TexParameteri {
                target: *target,
                pname: *pname,
                param: *param,
            },
            Command::TexImage2D {
                target,
                level,
                internal_format,
                width,
                height,
                border,
                format,
                kind,
                pixels,
            } => Command::TexImage2D {
                target: *target,
                level: *level,
                internal_format: *internal_format,
                width: *width,
                height: *height,
                border: *border,
                format: *format,
                kind: *kind,
                pixels: pixels.clone(),
            },
            Command::DeleteTexture { texture } => Command::DeleteTexture { texture: *texture },
            Command::Uniform1i { program, name, v0 } => Command::Uniform1i {
                program: *program,
                name: name.clone(),
                v0: *v0,
            },
            Command::Uniform4f { program, name, v0, v1, v2, v3 } => Command::Uniform4f {
                program: *program,
                name: name.clone(),
                v0: *v0,
                v1: *v1,
                v2: *v2,
                v3: *v3,
            },
            Command::UniformMatrix4fv { program, name, transpose, matrix } =>
                Command::UniformMatrix4fv {
                    program: *program,
                    name: name.clone(),
                    transpose: *transpose,
                    matrix: *matrix,
                },
            Command::ClearColor { red, green, blue, alpha } => Command::ClearColor {
                red: *red,
                green: *green,
                blue: *blue,
                alpha: *alpha,
            },
            Command::Clear { mask } => Command::Clear { mask: *mask },
            Command::DrawArrays { mode, first, count } => Command::DrawArrays {
                mode: *mode,
                first: *first,
                count: *count,
            },
            Command::DrawElements { mode, count, kind } => Command::DrawElements {
                mode: *mode,
                count: *count,
                kind: *kind,
            },
            Command::Viewport { x, y, width, height } => Command::Viewport {
                x: *x,
                y: *y,
                width: *width,
                height: *height,
            },
        }
    }

    /// What the driver gives back for this call.
    pub fn yields(&self) -> (y: Yield)
        ensures
            y == self@.yields(),
    {
        match self {
            Command::CreateShader { .. } => Yield::Name(ObjectKind::Shader),
            Command::CreateProgram => Yield::Name(ObjectKind::Program),
            Command::GenVertexArray => Yield::Name(ObjectKind::VertexArray),
            Command::GenBuffer => Yield::Name(ObjectKind::Buffer),
            Command::GenTexture => Yield::Name(ObjectKind::Texture),
            Command::GetShaderiv { .. } => Yield::Integer,
            Command::GetShaderInfoLog { .. } => Yield::Bytes,
            _ => Yield::Nothing,
        }
    }
}

/// One of the calls sets a matrix uniform.
pub open spec fn sets_matrix(commands: Seq<CommandView>) -> bool {
    exists|i: int| 0 <= i < commands.len() && #[trigger] commands[i] is UniformMatrix4fv
}

/// The objects that a list of calls deletes, each as often as it is deleted.
pub open spec fn deleted(commands: Seq<CommandView>) -> Multiset<Object>
    decreases commands.len(),
{
    if commands.len() == 0 {
        Multiset::empty()
    } else {
        match commands.last().deletes() {
            Some(object) => deleted(commands.drop_last()).insert(object),
            None => deleted(commands.drop_last()),
        }
    }
}

} // verus!
