//! Shader programs.
use crate::gpu::{views, Command, CommandView, Ortho, FRAGMENT_SHADER, VERTEX_SHADER};
use crate::script::{filled_after, lines, matrices_set, uints_uploaded, Slot, Step, StepView};
use vstd::prelude::*;
use vstd::string::{StrSliceExecFns, StringExecFns};
use vstd::utf8::encode_utf8;

verus! {

/// The two stages of a program.
#[derive(Clone, Copy, Debug, PartialEq, Eq)]
pub enum ShaderType {
    Vertex,
    Fragment,
}

/// The path of the source file for `stage` of the shader called `name`.
pub open spec fn shader_path(stage: ShaderType, name: Seq<char>) -> Seq<char> {
    "res/shaders/"@ + name + stage.spec_suffix()
}

/// The script that makes and compiles the shader of one stage from the
/// source that was read for it.
pub open spec fn create_shader_script(stage: ShaderType) -> Seq<StepView> {
    seq![
        StepView::Generate(stage.slot()),
        StepView::ShaderSource(stage),
        StepView::CompileShader(stage),
        StepView::CheckCompiled(stage),
    ]
}

impl ShaderType {
    /// The slot for the name of this stage's shader.
    pub open spec fn slot(self) -> Slot {
        match self {
            ShaderType::Vertex => Slot::VertexShader,
            ShaderType::Fragment => Slot::FragmentShader,
        }
    }

    /// What the file name of this stage's source ends in.
    pub open spec fn spec_suffix(self) -> Seq<char> {
        match self {
            ShaderType::Vertex => ".vs"@,
            ShaderType::Fragment => ".fs"@,
        }
    }

    /// The driver's constant for this kind of shader.
    pub open spec fn spec_gl_type(self) -> u32 {
        match self {
            ShaderType::Vertex => VERTEX_SHADER,
            ShaderType::Fragment => FRAGMENT_SHADER,
        }
    }

    /// The script that reads the stage's source file and makes the shader.
    pub open spec fn create_shader_script(self, name: Seq<char>) -> Seq<StepView> {
        seq![StepView::ReadSource { stage: self, path: shader_path(self, name) }]
            + create_shader_script(self)
    }

    /// What the file name of this stage's source ends in.
    pub fn suffix(&self) -> (suffix: &'static str)
        ensures
            suffix@ == self.spec_suffix(),
    {
        match self {
            ShaderType::Vertex => ".vs",
            ShaderType::Fragment => ".fs",
        }
    }

    /// The driver's constant for this kind of shader.
    pub fn gl_type(&self) -> (kind: u32)
        ensures
            kind == self.spec_gl_type(),
    {
        match self {
            ShaderType::Vertex => VERTEX_SHADER,
            ShaderType::Fragment => FRAGMENT_SHADER,
        }
    }

    /// The slot for the name of this stage's shader.
    pub fn shader_slot(&self) -> (slot: Slot)
        ensures
            slot == self.slot(),
    {
        match self {
            ShaderType::Vertex => Slot::VertexShader,
            ShaderType::Fragment => Slot::FragmentShader,
        }
    }

    /// The script that reads the source of the shader called `name` for this
    /// stage and makes the shader.
    pub fn create_shader(&self, name: &str) -> (script: Vec<Step>)
        ensures
            lines(script@) == self.create_shader_script(name@),
    {
        let path = String::from_str("res/shaders/").concat(name).concat(self.suffix());
        let mut script = vec![Step::ReadSource { stage: *self, path }];
        let mut rest = create_shader(*self);
        script.append(&mut rest);
        assert(lines(script@) =~= self.create_shader_script(name@));
        script
    }
}

/// The script that makes and compiles the shader of one stage from the
/// source that was read for it. A shader that does not compile ends the
/// construction.
pub fn create_shader(stage: ShaderType) -> (script: Vec<Step>)
    ensures
        lines(script@) == create_shader_script(stage),
{
    let script = vec![
        Step::Generate(stage.shader_slot()),
        Step::ShaderSource(stage),
        Step::CompileShader(stage),
        Step::CheckCompiled(stage),
    ];
    assert(lines(script@) =~= create_shader_script(stage));
    script
}

/// The bytes of `name` as the driver reads them. The driver stops at the
/// first zero byte, so a name handed to it ends with `'\0'`.
pub fn as_gl_char_ptr(name: &str) -> (bytes: Vec<u8>)
    ensures
        bytes@ == encode_utf8(name@),
{
    name.as_bytes_vec()
}

/// Loading a program is sound where no name is held yet, and leaves the
/// program's name alone: both shaders are deleted again.
pub proof fn lemma_load_script_filled(vertex_name: Seq<char>, fragment_name: Seq<char>)
    ensures
        filled_after(Some(Set::empty()), Shader::load_script(vertex_name, fragment_name)) == Some(
            Set::<Slot>::empty().insert(Slot::Program),
        ),
{
    let filled = filled_after(
        Some(Set::<Slot>::empty()),
        Shader::load_script(vertex_name, fragment_name),
    );
    assert(filled is Some && filled->0 =~= Set::<Slot>::empty().insert(Slot::Program)) by {
        reveal_with_fuel(filled_after, 20);
    }
}

/// Loading a program sets no matrix and fills no buffer.
pub proof fn lemma_load_script_plain(vertex_name: Seq<char>, fragment_name: Seq<char>)
    ensures
        matrices_set(Shader::load_script(vertex_name, fragment_name)) == Seq::<
            (Seq<u8>, Ortho),
        >::empty(),
        uints_uploaded(Shader::load_script(vertex_name, fragment_name)) == Seq::<
            (u32, Seq<u32>),
        >::empty(),
{
    reveal_with_fuel(matrices_set, 20);
    reveal_with_fuel(uints_uploaded, 20);
}

/// A linked program that lives in the driver.
#[derive(Debug, PartialEq, Eq)]
pub struct Shader {
    pub program: u32,
}

impl Shader {
    /// The script that builds a program from the vertex shader called
    /// `vertex_name` and the fragment shader called `fragment_name`. The two
    /// shaders are deleted once the program is linked; the program is left
    /// in use.
    pub open spec fn load_script(vertex_name: Seq<char>, fragment_name: Seq<char>) -> Seq<
        StepView,
    > {
        ShaderType::Vertex.create_shader_script(vertex_name)
            + ShaderType::Fragment.create_shader_script(fragment_name) + seq![
            StepView::Generate(Slot::Program),
            StepView::AttachShader(ShaderType::Vertex),
            StepView::AttachShader(ShaderType::Fragment),
            StepView::LinkProgram,
            StepView::UseProgram,
            StepView::DeleteShader(ShaderType::Vertex),
            StepView::DeleteShader(ShaderType::Fragment),
        ]
    }

    /// The call that puts the program in use.
    pub open spec fn bind_commands(self) -> Seq<CommandView> {
        seq![CommandView::UseProgram { program: self.program }]
    }

    /// The call that leaves no program in use.
    pub open spec fn unbind_commands(self) -> Seq<CommandView> {
        seq![CommandView::UseProgram { program: 0 }]
    }

    /// The call that deletes the program.
    pub open spec fn drop_commands(self) -> Seq<CommandView> {
        seq![CommandView::DeleteProgram { program: self.program }]
    }

    /// The calls that set an integer uniform: the program is put in use,
    /// then the uniform is set under its name as the driver reads it.
    pub open spec fn set_uniform_1i_commands(self, name: Seq<char>, v0: i32) -> Seq<CommandView> {
        self.bind_commands().push(
            CommandView::Uniform1i { program: self.program, name: encode_utf8(name), v0 },
        )
    }

    /// As `set_uniform_1i_commands`, for four floats in thousandths.
    pub open spec fn set_uniform_4f_commands(
        self,
        name: Seq<char>,
        v0: i32,
        v1: i32,
        v2: i32,
        v3: i32,
    ) -> Seq<CommandView> {
        self.bind_commands().push(
            CommandView::Uniform4f {
                program: self.program,
                name: encode_utf8(name),
                v0,
                v1,
                v2,
                v3,
            },
        )
    }

    /// As `set_uniform_1i_commands`, for the matrix of a projection.
    pub open spec fn set_uniform_mat_4f_commands(self, name: Seq<char>, mat: Ortho) -> Seq<
        CommandView,
    > {
        self.bind_commands().push(
            CommandView::UniformMatrix4fv {
                program: self.program,
                name: encode_utf8(name),
                transpose: false,
                matrix: mat,
            },
        )
    }

    /// The script that builds a program from the two named shaders.
    pub fn load(vertex_name: &str, fragment_name: &str) -> (script: Vec<Step>)
        ensures
            lines(script@) == Shader::load_script(vertex_name@, fragment_name@),
    {
        let mut script = ShaderType::Vertex.create_shader(vertex_name);
        let mut fragment = ShaderType::Fragment.create_shader(fragment_name);
        let mut link = vec![
            Step::Generate(Slot::Program),
            Step::AttachShader(ShaderType::Vertex),
            Step::AttachShader(ShaderType::Fragment),
            Step::LinkProgram,
            Step::UseProgram,
            Step::DeleteShader(ShaderType::Vertex),
            Step::DeleteShader(ShaderType::Fragment),
        ];
        script.append(&mut fragment);
        script.append(&mut link);
        assert(lines(script@) =~= Shader::load_script(vertex_name@, fragment_name@));
        script
    }

    /// Sets an integer uniform. `name` ends with `'\0'`.
    pub fn set_uniform_1i(&self, name: &str, v0: i32) -> (commands: Vec<Command>)
        ensures
            views(commands@) == self.set_uniform_1i_commands(name@, v0),
    {
        let mut commands = self.bind();
        commands.push(Command::Uniform1i { program: self.program, name: as_gl_char_ptr(name), v0 });
        assert(views(commands@) =~= self.set_uniform_1i_commands(name@, v0));
        commands
    }

    /// Sets a uniform of four floats, given in thousandths. `name` ends with
    /// `'\0'`.
    pub fn set_uniform_4f(&self, name: &str, v0: i32, v1: i32, v2: i32, v3: i32) -> (commands: Vec<
        Command,
    >)
        ensures
            views(commands@) == self.set_uniform_4f_commands(name@, v0, v1, v2, v3),
    {
        let mut commands = self.bind();
        commands.push(
            Command::Uniform4f {
                program: self.program,
                name: as_gl_char_ptr(name),
                v0,
                v1,
                v2,
                v3,
            },
        );
        assert(views(commands@) =~= self.set_uniform_4f_commands(name@, v0, v1, v2, v3));
        commands
    }

    /// Sets a matrix uniform to a projection. `name` ends with `'\0'`.
    pub fn set_uniform_mat_4f(&self, name: &str, mat: &Ortho) -> (commands: Vec<Command>)
        ensures
            views(commands@) == self.set_uniform_mat_4f_commands(name@, *mat),
    {
        let mut commands = self.bind();
        commands.push(
            Command::UniformMatrix4fv {
                program: self.program,
                name: as_gl_char_ptr(name),
                transpose: false,
                matrix: *mat,
            },
        );
        assert(views(commands@) =~= self.set_uniform_mat_4f_commands(name@, *mat));
        commands
    }

    /// Puts the program in use.
    pub fn bind(&self) -> (commands: Vec<Command>)
        ensures
            views(commands@) == self.bind_commands(),
    {
        let commands = vec![Command::UseProgram { program: self.program }];
        assert(views(commands@) =~= self.bind_commands());
        commands
    }

    /// Leaves no program in use.
    pub fn unbind(&self) -> (commands: Vec<Command>)
        ensures
            views(commands@) == self.unbind_commands(),
    {
        let commands = vec![Command::UseProgram { program: 0 }];
        assert(views(commands@) =~= self.unbind_commands());
        commands
    }

    /// Deletes the program.
    pub fn drop(&self) -> (commands: Vec<Command>)
        ensures
            views(commands@) == self.drop_commands(),
    {
        let commands = vec![Command::DeleteProgram { program: self.program }];
        assert(views(commands@) =~= self.drop_commands());
        commands
    }

    /// The program's name.
    pub fn program(&self) -> (program: u32)
        ensures
            program == self.program,
    {
        self.program
    }
}

} // verus!
