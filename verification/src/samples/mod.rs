//! The scenes and their life: built once, bound and drawn every frame,
//! destroyed once.
pub mod simple_square;
pub mod simple_triangle;
pub mod textured_square;

use crate::bindings::{lemma_apply_all_add, BindingsView};
use crate::construction::{Construction, Model};
use crate::gpu::{
    deleted, sets_matrix, views, Command, CommandView, Object, ObjectKind, Ortho,
    COLOR_BUFFER_BIT, ELEMENT_ARRAY_BUFFER, ONE_MINUS_SRC_ALPHA, SRC_ALPHA, TRIANGLES,
    UNSIGNED_INT,
};
use crate::script::{
    filled_after, lemma_filled_after_add, lemma_matrices_set_add, lemma_uints_uploaded_add, lines,
    matrices_set, uints_uploaded, Slot, Step, StepView,
};
use crate::shaders::Shader;
use crate::texture::Texture;
use vstd::multiset::Multiset;
use vstd::prelude::*;
use vstd::utf8::{encode_utf8, is_ascii_chars_encode_utf8};

verus! {

/// Which scene to build.
#[derive(Clone, Copy, Debug, PartialEq, Eq)]
pub enum Sample {
    SimpleTriangle,
    SimpleSquare,
    TexturedSquare,
}

impl Sample {
    /// The script that builds the scene. Whatever the scene, blending by
    /// the source's alpha is switched on first.
    pub open spec fn script(self) -> Seq<StepView> {
        first_steps() + self.scene_script()
    }

    /// What the script does once blending is on: it builds the scene.
    pub open spec fn scene_script(self) -> Seq<StepView> {
        match self {
            Sample::SimpleTriangle => simple_triangle::script(),
            Sample::SimpleSquare => simple_square::script(),
            Sample::TexturedSquare => textured_square::script(),
        }
    }

    /// The matrices that the script of the scene sets: the projection of
    /// the textured square under the name `u_proj`, and no other.
    pub open spec fn matrices(self) -> Seq<(Seq<u8>, Ortho)> {
        if self == Sample::TexturedSquare {
            seq![(encode_utf8("u_proj\0"@), textured_square::projection())]
        } else {
            Seq::empty()
        }
    }

    /// The buffers of unsigned integers that the script of the scene fills:
    /// the index buffer of a square, with the indices of its two triangles.
    pub open spec fn uints(self) -> Seq<(u32, Seq<u32>)> {
        if self == Sample::SimpleTriangle {
            Seq::empty()
        } else {
            seq![(ELEMENT_ARRAY_BUFFER, seq![0u32, 1, 2, 2, 3, 0])]
        }
    }

    /// The slots whose names make up the finished scene.
    pub open spec fn slots(self) -> Set<Slot> {
        let plain = Set::<Slot>::empty().insert(Slot::Program).insert(Slot::VertexArray).insert(
            Slot::VertexBuffer,
        );
        match self {
            Sample::SimpleTriangle => plain,
            Sample::SimpleSquare => plain.insert(Slot::IndexBuffer),
            Sample::TexturedSquare => plain.insert(Slot::IndexBuffer).insert(Slot::Texture),
        }
    }

    /// Starts to build the scene. The value that comes back says which
    /// calls to make and which files to read, and gives the scene at the
    /// end.
    pub fn create(&self) -> (construction: Construction)
        ensures
            construction@ == Model::start(*self),
    {
        Construction::new(*self)
    }

    /// The script that builds the scene.
    pub fn steps(&self) -> (steps: Vec<Step>)
        ensures
            lines(steps@) == self.script(),
    {
        let mut steps = vec![
            Step::Issue(Command::BlendFunc { sfactor: SRC_ALPHA, dfactor: ONE_MINUS_SRC_ALPHA }),
        ];
        let mut scene = match self {
            Sample::SimpleTriangle => simple_triangle::create_sample(),
            Sample::SimpleSquare => simple_square::create_sample(),
            Sample::TexturedSquare => textured_square::create_sample(),
        };
        steps.append(&mut scene);
        assert(lines(steps@) =~= self.script());
        steps
    }
}

/// What every script begins with: blending by the source's alpha is
/// switched on.
pub open spec fn first_steps() -> Seq<StepView> {
    seq![
        StepView::Issue(
            CommandView::BlendFunc { sfactor: SRC_ALPHA, dfactor: ONE_MINUS_SRC_ALPHA },
        ),
    ]
}

/// Switching blending on makes no object, sets no matrix and fills no
/// buffer.
proof fn lemma_first_steps(before: Option<Set<Slot>>)
    ensures
        filled_after(before, first_steps()) == before,
        matrices_set(first_steps()) == Seq::<(Seq<u8>, Ortho)>::empty(),
        uints_uploaded(first_steps()) == Seq::<(u32, Seq<u32>)>::empty(),
{
    reveal_with_fuel(filled_after, 2);
    reveal_with_fuel(matrices_set, 2);
    reveal_with_fuel(uints_uploaded, 2);
}

/// What holds of the part of each script that builds the scene.
proof fn lemma_scene_script(sample: Sample)
    ensures
        filled_after(Some(Set::empty()), sample.scene_script()) == Some(sample.slots()),
        matrices_set(sample.scene_script()) == sample.matrices(),
        uints_uploaded(sample.scene_script()) == sample.uints(),
{
    match sample {
        Sample::SimpleTriangle => {
            simple_triangle::lemma_script_filled();
            simple_triangle::lemma_script_content();
        },
        Sample::SimpleSquare => {
            simple_square::lemma_script_filled();
            simple_square::lemma_script_content();
        },
        Sample::TexturedSquare => {
            textured_square::lemma_script_filled();
            textured_square::lemma_script_content();
        },
    }
}

/// Every scene's script is sound, and leaves the names that make up the
/// scene and no other: the two shaders are deleted on the way.
pub proof fn lemma_script_sound(sample: Sample)
    ensures
        filled_after(Some(Set::empty()), sample.script()) == Some(sample.slots()),
{
    lemma_first_steps(Some(Set::empty()));
    lemma_scene_script(sample);
    lemma_filled_after_add(Some(Set::empty()), first_steps(), sample.scene_script());
}

/// The projection is set once while a scene is built, and only for the
/// textured square: to the same six planes every time, under the name
/// `u_proj`. The other scenes set no matrix.
pub proof fn lemma_projection_set_once(sample: Sample)
    ensures
        matrices_set(sample.script()) == sample.matrices(),
{
    lemma_first_steps(None);
    lemma_scene_script(sample);
    lemma_matrices_set_add(first_steps(), sample.scene_script());
    assert(matrices_set(sample.script()) =~= sample.matrices());
}

/// The two squares fill their index buffer with `0, 1, 2, 2, 3, 0`, once,
/// and no scene fills any other buffer with integers.
pub proof fn lemma_index_buffer_content(sample: Sample)
    ensures
        uints_uploaded(sample.script()) == sample.uints(),
{
    lemma_first_steps(None);
    lemma_scene_script(sample);
    lemma_uints_uploaded_add(first_steps(), sample.scene_script());
    assert(uints_uploaded(sample.script()) =~= sample.uints());
}

/// The full strength of a colour channel, in thousandths.
pub const UNIT: i32 = 1000;

/// By how much the pulsing channel changes from one frame to the next, in
/// thousandths.
pub const STEP: i32 = 50;

/// A scene that lives in the driver, with the names of everything it owns
/// there. Whoever holds the value owns the objects: they are made when the
/// scene is built and deleted by [`SampleProps::drop`], which leaves
/// `Destroyed` behind.
#[derive(Debug, PartialEq, Eq)]
pub enum SampleProps {
    SimpleTriangle { shader: Shader, vao: u32, vbo: u32 },
    SimpleSquare {
        shader: Shader,
        vao: u32,
        vbo: u32,
        ibo: u32,
        /// The red channel of the square's colour, in thousandths.
        color_channel: i32,
        /// What the next frame adds to it: `STEP` or `-STEP`.
        increment: i32,
    },
    TexturedSquare { shader: Shader, vao: u32, vbo: u32, ibo: u32, texture: Texture },
    /// What is left of a scene once its objects are deleted.
    Destroyed,
}

/// The calls that clear the frame to the background colour.
pub open spec fn clear_commands() -> Seq<CommandView> {
    seq![
        CommandView::ClearColor { red: 100, green: 100, blue: 100, alpha: 900 },
        CommandView::Clear { mask: COLOR_BUFFER_BIT },
    ]
}

/// The calls that unbind the vertex array and the index buffer.
pub open spec fn unbind_indexed() -> Seq<CommandView> {
    seq![
        CommandView::BindVertexArray { array: 0 },
        CommandView::BindBuffer { target: ELEMENT_ARRAY_BUFFER, buffer: 0 },
    ]
}

impl SampleProps {
    /// The scene's objects exist.
    pub open spec fn is_live(self) -> bool {
        !(self is Destroyed)
    }

    /// The pulsing channel is within one step of the range from nothing to
    /// full strength, and moves by one step.
    pub open spec fn wf(self) -> bool {
        match self {
            SampleProps::SimpleSquare { color_channel, increment, .. } => {
                &&& -STEP <= color_channel <= UNIT + STEP
                &&& increment == STEP || increment == -STEP
            },
            _ => true,
        }
    }

    /// Which scene this is, if it is live.
    pub open spec fn sample(self) -> Option<Sample> {
        match self {
            SampleProps::SimpleTriangle { .. } => Some(Sample::SimpleTriangle),
            SampleProps::SimpleSquare { .. } => Some(Sample::SimpleSquare),
            SampleProps::TexturedSquare { .. } => Some(Sample::TexturedSquare),
            SampleProps::Destroyed => None,
        }
    }

    /// The objects that the scene owns.
    pub open spec fn handles(self) -> Multiset<Object> {
        match self {
            SampleProps::SimpleTriangle { shader, vao, vbo } => Multiset::empty().insert(
                Object { kind: ObjectKind::Program, name: shader.program },
            ).insert(Object { kind: ObjectKind::VertexArray, name: vao }).insert(
                Object { kind: ObjectKind::Buffer, name: vbo },
            ),
            SampleProps::SimpleSquare { shader, vao, vbo, ibo, .. } => Multiset::empty().insert(
                Object { kind: ObjectKind::Program, name: shader.program },
            ).insert(Object { kind: ObjectKind::VertexArray, name: vao }).insert(
                Object { kind: ObjectKind::Buffer, name: vbo },
            ).insert(Object { kind: ObjectKind::Buffer, name: ibo }),
            SampleProps::TexturedSquare { shader, vao, vbo, ibo, texture } =>
                Multiset::empty().insert(
                    Object { kind: ObjectKind::Program, name: shader.program },
                ).insert(Object { kind: ObjectKind::VertexArray, name: vao }).insert(
                    Object { kind: ObjectKind::Buffer, name: vbo },
                ).insert(Object { kind: ObjectKind::Buffer, name: ibo }).insert(
                    Object { kind: ObjectKind::Texture, name: texture.id },
                ),
            SampleProps::Destroyed => Multiset::empty(),
        }
    }

    /// The calls that make the scene current: its program, its vertex
    /// array, its index buffer if it has one, and its texture, on unit 0
    /// and with the sampler pointed there, if it has one.
    pub open spec fn bind_commands(self) -> Seq<CommandView> {
        match self {
            SampleProps::SimpleTriangle { shader, vao, .. } => shader.bind_commands().push(
                CommandView::BindVertexArray { array: vao },
            ),
            SampleProps::SimpleSquare { shader, vao, ibo, .. } => shader.bind_commands().push(
                CommandView::BindVertexArray { array: vao },
            ).push(CommandView::BindBuffer { target: ELEMENT_ARRAY_BUFFER, buffer: ibo }),
            SampleProps::TexturedSquare { shader, vao, ibo, texture, .. } => (
            shader.bind_commands() + texture.bind_commands(0) + shader.set_uniform_1i_commands(
                "u_texture\0"@,
                0,
            )).push(CommandView::BindVertexArray { array: vao }).push(
                CommandView::BindBuffer { target: ELEMENT_ARRAY_BUFFER, buffer: ibo },
            ),
            SampleProps::Destroyed => seq![],
        }
    }

    /// The calls that undo `bind_commands`: they bind nothing where it
    /// bound something.
    pub open spec fn unbind_commands(self) -> Seq<CommandView> {
        match self {
            SampleProps::SimpleTriangle { shader, .. } => shader.unbind_commands().push(
                CommandView::BindVertexArray { array: 0 },
            ),
            SampleProps::SimpleSquare { shader, .. } => shader.unbind_commands()
                + unbind_indexed(),
            SampleProps::TexturedSquare { shader, texture, .. } => shader.unbind_commands()
                + texture.unbind_commands() + unbind_indexed(),
            SampleProps::Destroyed => seq![],
        }
    }

    /// The call that draws the scene once it is bound: three vertices for
    /// the triangle, six indices for the squares.
    pub open spec fn draw_call(self) -> Seq<CommandView> {
        match self {
            SampleProps::SimpleTriangle { .. } => seq![
                CommandView::DrawArrays { mode: TRIANGLES, first: 0, count: 3 },
            ],
            SampleProps::SimpleSquare { .. } | SampleProps::TexturedSquare { .. } => seq![
                CommandView::DrawElements { mode: TRIANGLES, count: 6, kind: UNSIGNED_INT },
            ],
            SampleProps::Destroyed => seq![],
        }
    }

    /// The calls of one frame: bind, clear to the background, draw, unbind.
    pub open spec fn draw_commands(self) -> Seq<CommandView> {
        if self.is_live() {
            self.bind_commands() + clear_commands() + self.draw_call() + self.unbind_commands()
        } else {
            seq![]
        }
    }

    /// The calls that a snapshot makes: the pulsing square sends its colour
    /// as it is before the step; the others have nothing to send.
    pub open spec fn snapshot_commands(self) -> Seq<CommandView> {
        match self {
            SampleProps::SimpleSquare { shader, color_channel, .. } =>
                shader.set_uniform_4f_commands("u_color\0"@, color_channel, 200, 750, 900),
            _ => seq![],
        }
    }

    /// The scene one snapshot later. The channel of the pulsing square
    /// turns down once it is above full strength and up once it is below
    /// nothing, and then moves one step.
    pub open spec fn after_snapshot(self) -> SampleProps {
        match self {
            SampleProps::SimpleSquare { shader, vao, vbo, ibo, color_channel, increment } => {
                let turned = if color_channel > UNIT {
                    (-STEP) as i32
                } else if color_channel < 0 {
                    STEP
                } else {
                    increment
                };
                SampleProps::SimpleSquare {
                    shader,
                    vao,
                    vbo,
                    ibo,
                    color_channel: (color_channel + turned) as i32,
                    increment: turned,
                }
            },
            _ => self,
        }
    }

    /// The calls that delete what the scene owns: the program, the texture
    /// if there is one, the buffers, the vertex array.
    pub open spec fn drop_commands(self) -> Seq<CommandView> {
        match self {
            SampleProps::SimpleTriangle { shader, vao, vbo } => shader.drop_commands().push(
                CommandView::DeleteBuffer { buffer: vbo },
            ).push(CommandView::DeleteVertexArray { array: vao }),
            SampleProps::SimpleSquare { shader, vao, vbo, ibo, .. } => shader.drop_commands().push(
                CommandView::DeleteBuffer { buffer: vbo },
            ).push(CommandView::DeleteBuffer { buffer: ibo }).push(
                CommandView::DeleteVertexArray { array: vao },
            ),
            SampleProps::TexturedSquare { shader, vao, vbo, ibo, texture } => (
            shader.drop_commands() + texture.drop_commands()).push(
                CommandView::DeleteBuffer { buffer: vbo },
            ).push(CommandView::DeleteBuffer { buffer: ibo }).push(
                CommandView::DeleteVertexArray { array: vao },
            ),
            SampleProps::Destroyed => seq![],
        }
    }

    /// Makes the scene current.
    pub fn bind(&self) -> (commands: Vec<Command>)
        requires
            self.is_live(),
        ensures
            views(commands@) == self.bind_commands(),
    {
        match self {
            SampleProps::SimpleTriangle { shader, vao, .. } => {
                let mut commands = shader.bind();
                commands.push(Command::BindVertexArray { array: *vao });
                assert(views(commands@) =~= self.bind_commands());
                commands
            },
            SampleProps::SimpleSquare { shader, vao, ibo, .. } => {
                let mut commands = shader.bind();
                commands.push(Command::BindVertexArray { array: *vao });
                commands.push(Command::BindBuffer { target: ELEMENT_ARRAY_BUFFER, buffer: *ibo });
                assert(views(commands@) =~= self.bind_commands());
                commands
            },
            SampleProps::TexturedSquare { shader, vao, ibo, texture, .. } => {
                let slot: i32 = 0;
                let mut commands = shader.bind();
                let mut unit = match texture.bind(slot) {
                    Ok(unit) => unit,
                    Err(_) => Vec::new(),
                };
                let mut sampler = shader.set_uniform_1i("u_texture\0", slot);
                commands.append(&mut unit);
                commands.append(&mut sampler);
                commands.push(Command::BindVertexArray { array: *vao });
                commands.push(Command::BindBuffer { target: ELEMENT_ARRAY_BUFFER, buffer: *ibo });
                assert(views(commands@) =~= self.bind_commands());
                commands
            },
            SampleProps::Destroyed => Vec::new(),
        }
    }

    /// Undoes `bind`.
    pub fn unbind(&self) -> (commands: Vec<Command>)
        requires
            self.is_live(),
        ensures
            views(commands@) == self.unbind_commands(),
    {
        match self {
            SampleProps::SimpleTriangle { shader, .. } => {
                let mut commands = shader.unbind();
                commands.push(Command::BindVertexArray { array: 0 });
                assert(views(commands@) =~= self.unbind_commands());
                commands
            },
            SampleProps::SimpleSquare { shader, .. } => {
                let mut commands = shader.unbind();
                commands.push(Command::BindVertexArray { array: 0 });
                commands.push(Command::BindBuffer { target: ELEMENT_ARRAY_BUFFER, buffer: 0 });
                assert(views(commands@) =~= self.unbind_commands());
                commands
            },
            SampleProps::TexturedSquare { shader, texture, .. } => {
                let mut commands = shader.unbind();
                let mut unit = texture.unbind();
                commands.append(&mut unit);
                commands.push(Command::BindVertexArray { array: 0 });
                commands.push(Command::BindBuffer { target: ELEMENT_ARRAY_BUFFER, buffer: 0 });
                assert(views(commands@) =~= self.unbind_commands());
                commands
            },
            SampleProps::Destroyed => Vec::new(),
        }
    }

    /// Draws one frame of the scene.
    pub fn draw(&self) -> (commands: Vec<Command>)
        requires
            self.is_live(),
        ensures
            views(commands@) == self.draw_commands(),
    {
        let mut commands = self.bind();
        commands.push(Command::ClearColor { red: 100, green: 100, blue: 100, alpha: 900 });
        commands.push(Command::Clear { mask: COLOR_BUFFER_BIT });
        match self {
            SampleProps::SimpleTriangle { .. } => {
                commands.push(Command::DrawArrays { mode: TRIANGLES, first: 0, count: 3 });
            },
            SampleProps::SimpleSquare { .. } | SampleProps::TexturedSquare { .. } => {
                commands.push(
                    Command::DrawElements { mode: TRIANGLES, count: 6, kind: UNSIGNED_INT },
                );
            },
            SampleProps::Destroyed => {},
        }
        let mut unbind = self.unbind();
        commands.append(&mut unbind);
        assert(views(commands@) =~= self.draw_commands());
        commands
    }

    /// Moves the scene on by one frame. Gives back whether the scene has
    /// to be drawn again, which is so for the pulsing square and for no
    /// other, and the calls to make.
    pub fn snapshot(&mut self) -> (r: (bool, Vec<Command>))
        requires
            old(self).is_live(),
            old(self).wf(),
        ensures
            r.0 == (*old(self) is SimpleSquare),
            views(r.1@) == old(self).snapshot_commands(),
            *final(self) == old(self).after_snapshot(),
            final(self).is_live(),
            final(self).wf(),
    {
        match self {
            SampleProps::SimpleSquare { shader, color_channel, increment, .. } => {
                let rc: i32 = *color_channel;
                let commands = shader.set_uniform_4f("u_color\0", rc, 200, 750, 900);
                if rc > UNIT {
                    *increment = -STEP;
                } else if rc < 0 {
                    *increment = STEP;
                }
                *color_channel = rc + *increment;
                (true, commands)
            },
            _ => {
                let commands: Vec<Command> = Vec::new();
                assert(views(commands@) =~= old(self).snapshot_commands());
                (false, commands)
            },
        }
    }

    /// Deletes everything the scene owns. The scene is `Destroyed`
    /// afterwards, and nothing more can be asked of it.
    pub fn drop(&mut self) -> (commands: Vec<Command>)
        requires
            old(self).is_live(),
        ensures
            views(commands@) == old(self).drop_commands(),
            *final(self) == SampleProps::Destroyed,
    {
        let commands = match self {
            SampleProps::SimpleTriangle { shader, vao, vbo } => {
                let mut commands = shader.drop();
                commands.push(Command::DeleteBuffer { buffer: *vbo });
                commands.push(Command::DeleteVertexArray { array: *vao });
                commands
            },
            SampleProps::SimpleSquare { shader, vao, vbo, ibo, .. } => {
                let mut commands = shader.drop();
                commands.push(Command::DeleteBuffer { buffer: *vbo });
                commands.push(Command::DeleteBuffer { buffer: *ibo });
                commands.push(Command::DeleteVertexArray { array: *vao });
                commands
            },
            SampleProps::TexturedSquare { shader, vao, vbo, ibo, texture } => {
                let mut commands = shader.drop();
                let mut image = texture.drop();
                commands.append(&mut image);
                commands.push(Command::DeleteBuffer { buffer: *vbo });
                commands.push(Command::DeleteBuffer { buffer: *ibo });
                commands.push(Command::DeleteVertexArray { array: *vao });
                commands
            },
            SampleProps::Destroyed => Vec::new(),
        };
        assert(views(commands@) =~= old(self).drop_commands());
        *self = SampleProps::Destroyed;
        commands
    }
}

impl SampleProps {
    /// Nothing is bound at the points that the scene binds to, and for a
    /// scene with a texture unit 0 is the active one.
    pub open spec fn unbound_in(self, bindings: BindingsView) -> bool {
        match self {
            SampleProps::SimpleTriangle { .. } => bindings.program == 0 && bindings.vertex_array
                == 0,
            SampleProps::SimpleSquare { .. } => bindings.program == 0 && bindings.vertex_array == 0
                && bindings.element_array_buffer == 0,
            SampleProps::TexturedSquare { .. } => bindings.program == 0 && bindings.vertex_array
                == 0 && bindings.element_array_buffer == 0 && bindings.active_unit == 0
                && bindings.textures[0] == 0,
            SampleProps::Destroyed => true,
        }
    }

    /// The scene after `count` snapshots.
    pub open spec fn after_snapshots(self, count: nat) -> SampleProps
        decreases count,
    {
        if count == 0 {
            self
        } else {
            self.after_snapshots((count - 1) as nat).after_snapshot()
        }
    }
}

/// After how many snapshots the pulsing square is back where it began.
pub open spec fn period() -> nat {
    44
}

/// The pulsing channel after `count` snapshots of a square that begins at
/// nothing and goes up: up for 21 steps to one step above full strength,
/// then down for 22 steps to one step below nothing, and one step up again.
pub open spec fn wave(count: nat) -> int {
    let phase = count % period();
    if phase <= 21 {
        STEP * phase
    } else {
        2 * (UNIT + STEP) - STEP * phase
    }
}

/// The direction of the pulsing channel after `count` snapshots.
pub open spec fn slope(count: nat) -> int {
    if count % period() <= 21 {
        STEP as int
    } else {
        -STEP
    }
}

/// From one snapshot to the next the wave does what a snapshot does to the
/// channel: it turns where it has left the range, and moves one step.
pub proof fn lemma_wave_next(count: nat)
    ensures
        -STEP <= wave(count) <= UNIT + STEP,
        slope(count) == STEP || slope(count) == -STEP,
        slope(count + 1) == if wave(count) > UNIT {
            -STEP
        } else if wave(count) < 0 {
            STEP as int
        } else {
            slope(count)
        },
        wave(count + 1) == wave(count) + slope(count + 1),
{
    let phase = count % period();
    let next = (count + 1) % period();
    assert(0 <= phase < 44);
    assert(next == if phase == 43 {
        0
    } else {
        phase + 1
    });
}

/// The pulsing square runs through a triangle wave: after `count`
/// snapshots of a square that begins at nothing and goes up, the channel
/// is at `wave(count)` and moves by `slope(count)`. The objects it owns
/// never change.
pub proof fn lemma_triangle_wave(shader: Shader, vao: u32, vbo: u32, ibo: u32, count: nat)
    ensures
        (SampleProps::SimpleSquare {
            shader,
            vao,
            vbo,
            ibo,
            color_channel: 0,
            increment: STEP,
        }).after_snapshots(count) == (SampleProps::SimpleSquare {
            shader,
            vao,
            vbo,
            ibo,
            color_channel: wave(count) as i32,
            increment: slope(count) as i32,
        }),
        -STEP <= wave(count) <= UNIT + STEP,
    decreases count,
{
    let fresh = SampleProps::SimpleSquare {
        shader,
        vao,
        vbo,
        ibo,
        color_channel: 0,
        increment: STEP,
    };
    if count == 0 {
        assert(wave(0) == 0 && slope(0) == STEP);
    } else {
        let earlier = (count - 1) as nat;
        lemma_triangle_wave(shader, vao, vbo, ibo, earlier);
        lemma_wave_next(earlier);
        lemma_wave_next(count);
        assert(fresh.after_snapshots(count) == fresh.after_snapshots(earlier).after_snapshot());
    }
}

/// The wave repeats itself every `period()` snapshots.
pub proof fn lemma_wave_repeats(count: nat)
    ensures
        wave(count + period()) == wave(count),
        slope(count + period()) == slope(count),
{
}

/// Bind and then unbind leaves everything as it was exactly where nothing
/// was bound, at the points that the scene binds to, before: unbind binds
/// nothing there, whatever was bound before.
pub proof fn lemma_bind_unbind_restores(props: SampleProps, bindings: BindingsView)
    requires
        props.is_live(),
        bindings.wf(),
    ensures
        bindings.apply_all(props.bind_commands() + props.unbind_commands()) == bindings
            <==> props.unbound_in(bindings),
{
    let after = bindings.apply_all(props.bind_commands() + props.unbind_commands());
    lemma_bound_then_unbound(props, bindings.apply_all(props.bind_commands()));
    lemma_apply_all_add(bindings, props.bind_commands(), props.unbind_commands());
    lemma_bind_touches(props, bindings);
    assert(props.unbound_in(bindings) ==> after.textures =~= bindings.textures);
}

/// A frame leaves everything bound as bind and then unbind does: clearing
/// and drawing bind nothing.
pub proof fn lemma_draw_restores(props: SampleProps, bindings: BindingsView)
    requires
        props.is_live(),
        bindings.wf(),
    ensures
        bindings.apply_all(props.draw_commands()) == bindings.apply_all(
            props.bind_commands() + props.unbind_commands(),
        ),
        bindings.apply_all(props.draw_commands()) == bindings <==> props.unbound_in(bindings),
{
    let bound = bindings.apply_all(props.bind_commands());
    let middle = clear_commands() + props.draw_call();
    assert(props.draw_commands() =~= props.bind_commands() + middle + props.unbind_commands());
    lemma_apply_all_add(bindings, props.bind_commands() + middle, props.unbind_commands());
    lemma_apply_all_add(bindings, props.bind_commands(), middle);
    lemma_apply_all_add(bindings, props.bind_commands(), props.unbind_commands());
    lemma_clear_and_draw_bind_nothing(props, bound);
    lemma_bind_unbind_restores(props, bindings);
}

/// Clearing the frame and drawing leave bound what was bound.
proof fn lemma_clear_and_draw_bind_nothing(props: SampleProps, bound: BindingsView)
    ensures
        bound.apply_all(clear_commands() + props.draw_call()) == bound,
{
    reveal_with_fuel(BindingsView::apply_all, 4);
}

/// What unbind leaves of the bindings that bind made.
proof fn lemma_bound_then_unbound(props: SampleProps, bound: BindingsView)
    requires
        props.is_live(),
    ensures
        ({
            let after = bound.apply_all(props.unbind_commands());
            &&& after.program == 0
            &&& after.vertex_array == 0
            &&& after.array_buffer == bound.array_buffer
            &&& after.active_unit == bound.active_unit
            &&& after.element_array_buffer == if props is SimpleTriangle {
                bound.element_array_buffer
            } else {
                0
            }
            &&& after.textures == if props is TexturedSquare {
                bound.textures.update(bound.active_unit as int, 0)
            } else {
                bound.textures
            }
        }),
{
    reveal_with_fuel(BindingsView::apply_all, 6);
}

/// What bind changes of the bindings.
proof fn lemma_bind_touches(props: SampleProps, bindings: BindingsView)
    requires
        props.is_live(),
        bindings.wf(),
    ensures
        ({
            let bound = bindings.apply_all(props.bind_commands());
            &&& bound.array_buffer == bindings.array_buffer
            &&& bound.active_unit == if props is TexturedSquare {
                0
            } else {
                bindings.active_unit
            }
            &&& props is SimpleTriangle ==> bound.element_array_buffer
                == bindings.element_array_buffer
            &&& bound.textures.len() == bindings.textures.len()
            &&& forall|unit: int|
                0 <= unit < bindings.textures.len() && !(props is TexturedSquare && unit == 0)
                    ==> bound.textures[unit] == bindings.textures[unit]
        }),
{
    reveal_with_fuel(BindingsView::apply_all, 9);
    match props {
        SampleProps::TexturedSquare { shader, vao, ibo, texture, .. } => {
            let commands = seq![
                CommandView::UseProgram { program: shader.program },
                CommandView::ActiveTexture { texture: crate::gpu::TEXTURE0 },
                CommandView::BindTexture { target: crate::gpu::TEXTURE_2D, texture: texture.id },
                CommandView::UseProgram { program: shader.program },
                CommandView::Uniform1i {
                    program: shader.program,
                    name: vstd::utf8::encode_utf8("u_texture\0"@),
                    v0: 0,
                },
                CommandView::BindVertexArray { array: vao },
                CommandView::BindBuffer { target: ELEMENT_ARRAY_BUFFER, buffer: ibo },
            ];
            assert(props.bind_commands() =~= commands);
        },
        _ => {},
    }
}

/// Once a scene is built its projection stays as it is: no frame, no
/// snapshot and no other call on the scene sets a matrix.
pub proof fn lemma_frame_sets_no_matrix(props: SampleProps)
    ensures
        !sets_matrix(props.bind_commands()),
        !sets_matrix(props.unbind_commands()),
        !sets_matrix(props.draw_commands()),
        !sets_matrix(props.snapshot_commands()),
        !sets_matrix(props.drop_commands()),
{
}

/// The names under which the scenes set their uniforms end with a zero
/// byte, where the driver stops reading.
pub proof fn lemma_uniform_names_end_with_zero()
    ensures
        encode_utf8("u_texture\0"@).last() == 0,
        encode_utf8("u_color\0"@).last() == 0,
        encode_utf8("u_proj\0"@).last() == 0,
{
    reveal_strlit("u_texture\0");
    reveal_strlit("u_color\0");
    reveal_strlit("u_proj\0");
    is_ascii_chars_encode_utf8("u_texture\0"@);
    is_ascii_chars_encode_utf8("u_color\0"@);
    is_ascii_chars_encode_utf8("u_proj\0"@);
    assert("u_texture\0"@[9] == '\0');
    assert("u_color\0"@[7] == '\0');
    assert("u_proj\0"@[6] == '\0');
}

/// Destroying a scene deletes exactly the objects that it owns, each once.
pub proof fn lemma_drop_releases_handles(props: SampleProps)
    ensures
        deleted(props.drop_commands()) == props.handles(),
{
    reveal_with_fuel(deleted, 7);
    match props {
        SampleProps::TexturedSquare { shader, vao, vbo, ibo, texture } => {
            let commands = seq![
                CommandView::DeleteProgram { program: shader.program },
                CommandView::DeleteTexture { texture: texture.id },
                CommandView::DeleteBuffer { buffer: vbo },
                CommandView::DeleteBuffer { buffer: ibo },
                CommandView::DeleteVertexArray { array: vao },
            ];
            assert(props.drop_commands() =~= commands);
        },
        _ => {},
    }
    assert(deleted(props.drop_commands()) =~= props.handles());
}

} // verus!
