//! Construction scripts.
//!
//! Building a scene is a fixed run of graphics calls, but some of them need
//! a name that the driver only hands out on the way. A script writes the run
//! down once, with a [`Slot`] wherever such a name goes; the names are filled
//! in as the driver answers.
use crate::gpu::{Command, CommandView, Object, ObjectKind, Ortho};
use crate::shaders::ShaderType;
use vstd::multiset::Multiset;
use vstd::prelude::*;

verus! {

/// The places for the names that a scene under construction collects.
#[derive(Clone, Copy, Debug, PartialEq, Eq)]
pub enum Slot {
    VertexShader,
    FragmentShader,
    Program,
    VertexArray,
    VertexBuffer,
    IndexBuffer,
    Texture,
}

impl Slot {
    /// The kind of object whose name goes here.
    pub open spec fn kind(self) -> ObjectKind {
        match self {
            Slot::VertexShader | Slot::FragmentShader => ObjectKind::Shader,
            Slot::Program => ObjectKind::Program,
            Slot::VertexArray => ObjectKind::VertexArray,
            Slot::VertexBuffer | Slot::IndexBuffer => ObjectKind::Buffer,
            Slot::Texture => ObjectKind::Texture,
        }
    }
}

/// One line of a construction script.
#[derive(Debug, PartialEq, Eq)]
pub enum Step {
    /// Make this call as it stands.
    Issue(Command),
    /// Read the shader source at `path` and keep it for this stage.
    ReadSource { stage: ShaderType, path: String },
    /// Read and decode the image at `path` and keep it.
    ReadImage { path: String },
    /// Have the driver create the object for this slot, and keep its name.
    Generate(Slot),
    /// Hand the stage's source to its shader.
    ShaderSource(ShaderType),
    CompileShader(ShaderType),
    /// Ask whether the stage's shader compiled; give up if it did not.
    CheckCompiled(ShaderType),
    /// Attach the stage's shader to the program.
    AttachShader(ShaderType),
    LinkProgram,
    UseProgram,
    /// Delete the stage's shader and forget its name.
    DeleteShader(ShaderType),
    BindVertexArray,
    /// Bind the buffer of this slot to `target`.
    BindBuffer { target: u32, slot: Slot },
    /// Bind the texture as a 2D texture.
    BindTexture,
    /// Upload the image that was read as the bound 2D texture.
    TexImage2D,
    /// Set a matrix uniform of the program to this projection.
    UniformMatrix4fv { name: Vec<u8>, matrix: Ortho },
}

/// A [`Step`] as a mathematical value.
pub enum StepView {
    Issue(CommandView),
    ReadSource { stage: ShaderType, path: Seq<char> },
    ReadImage { path: Seq<char> },
    Generate(Slot),
    ShaderSource(ShaderType),
    CompileShader(ShaderType),
    CheckCompiled(ShaderType),
    AttachShader(ShaderType),
    LinkProgram,
    UseProgram,
    DeleteShader(ShaderType),
    BindVertexArray,
    BindBuffer { target: u32, slot: Slot },
    BindTexture,
    TexImage2D,
    UniformMatrix4fv { name: Seq<u8>, matrix: Ortho },
}

impl View for Step {
    type V = StepView;

    open spec fn view(&self) -> StepView {
        match *self {
            Step::Issue(command) => StepView::Issue(command@),
            Step::ReadSource { stage, path } => StepView::ReadSource { stage, path: path@ },
            Step::ReadImage { path } => StepView::ReadImage { path: path@ },
            Step::Generate(slot) => StepView::Generate(slot),
            Step::ShaderSource(stage) => StepView::ShaderSource(stage),
            Step::CompileShader(stage) => StepView::CompileShader(stage),
            Step::CheckCompiled(stage) => StepView::CheckCompiled(stage),
            Step::AttachShader(stage) => StepView::AttachShader(stage),
            Step::LinkProgram => StepView::LinkProgram,
            Step::UseProgram => StepView::UseProgram,
            Step::DeleteShader(stage) => StepView::DeleteShader(stage),
            Step::BindVertexArray => StepView::BindVertexArray,
            Step::BindBuffer { target, slot } => StepView::BindBuffer { target, slot },
            Step::BindTexture => StepView::BindTexture,
            Step::TexImage2D => StepView::TexImage2D,
            Step::UniformMatrix4fv { name, matrix } => StepView::UniformMatrix4fv {
                name: name@,
                matrix,
            },
        }
    }
}

/// The steps of a script, each as a mathematical value.
pub open spec fn lines(script: Seq<Step>) -> Seq<StepView> {
    script.map_values(|s: Step| s@)
}

/// Follows which slots hold a name while `script` runs from a state in
/// which those of `before` do. Gives the slots that hold one at the end, or
/// nothing if the script is not sound: if it has an object made for a slot
/// that holds a name already, deletes a shader that it has not made, or
/// makes or deletes an object by a call written out as it stands.
pub open spec fn filled_after(before: Option<Set<Slot>>, script: Seq<StepView>) -> Option<
    Set<Slot>,
>
    decreases script.len(),
{
    if script.len() == 0 {
        before
    } else {
        match filled_after(before, script.drop_last()) {
            Some(filled) => match script.last() {
                StepView::Generate(slot) => if filled.contains(slot) {
                    None
                } else {
                    Some(filled.insert(slot))
                },
                StepView::DeleteShader(stage) => if filled.contains(stage.slot()) {
                    Some(filled.remove(stage.slot()))
                } else {
                    None
                },
                StepView::Issue(command) => if command.yields() is Name || command.deletes()
                    is Some {
                    None
                } else {
                    Some(filled)
                },
                _ => Some(filled),
            },
            None => None,
        }
    }
}

/// A script run after another is followed from where the other ends.
pub proof fn lemma_filled_after_add(
    before: Option<Set<Slot>>,
    first: Seq<StepView>,
    second: Seq<StepView>,
)
    ensures
        filled_after(before, first + second) == filled_after(filled_after(before, first), second),
    decreases second.len(),
{
    if second.len() == 0 {
        assert(first + second =~= first);
    } else {
        lemma_filled_after_add(before, first, second.drop_last());
        assert((first + second).drop_last() =~= first + second.drop_last());
    }
}

/// The matrix uniforms that `script` sets, in order: the name of each and
/// the projection it is set to.
pub open spec fn matrices_set(script: Seq<StepView>) -> Seq<(Seq<u8>, Ortho)>
    decreases script.len(),
{
    if script.len() == 0 {
        Seq::empty()
    } else {
        let earlier = matrices_set(script.drop_last());
        match script.last() {
            StepView::UniformMatrix4fv { name, matrix } => earlier.push((name, matrix)),
            StepView::Issue(CommandView::UniformMatrix4fv { name, matrix, .. }) => earlier.push(
                (name, matrix),
            ),
            _ => earlier,
        }
    }
}

/// The buffers of unsigned integers that `script` fills, in order: the
/// target of each and what it is filled with.
pub open spec fn uints_uploaded(script: Seq<StepView>) -> Seq<(u32, Seq<u32>)>
    decreases script.len(),
{
    if script.len() == 0 {
        Seq::empty()
    } else {
        let earlier = uints_uploaded(script.drop_last());
        match script.last() {
            StepView::Issue(CommandView::BufferDataUint { target, data, .. }) => earlier.push(
                (target, data),
            ),
            _ => earlier,
        }
    }
}

/// What two scripts set, one after the other, is what the first sets and
/// then what the second sets.
pub proof fn lemma_matrices_set_add(first: Seq<StepView>, second: Seq<StepView>)
    ensures
        matrices_set(first + second) == matrices_set(first) + matrices_set(second),
    decreases second.len(),
{
    if second.len() == 0 {
        assert(first + second =~= first);
        assert(matrices_set(first) + matrices_set(second) =~= matrices_set(first));
    } else {
        lemma_matrices_set_add(first, second.drop_last());
        assert((first + second).drop_last() =~= first + second.drop_last());
        assert(matrices_set(first + second) =~= matrices_set(first) + matrices_set(second));
    }
}

/// What two scripts upload, one after the other, is what the first uploads
/// and then what the second uploads.
pub proof fn lemma_uints_uploaded_add(first: Seq<StepView>, second: Seq<StepView>)
    ensures
        uints_uploaded(first + second) == uints_uploaded(first) + uints_uploaded(second),
    decreases second.len(),
{
    if second.len() == 0 {
        assert(first + second =~= first);
        assert(uints_uploaded(first) + uints_uploaded(second) =~= uints_uploaded(first));
    } else {
        lemma_uints_uploaded_add(first, second.drop_last());
        assert((first + second).drop_last() =~= first + second.drop_last());
        assert(uints_uploaded(first + second) =~= uints_uploaded(first) + uints_uploaded(second));
    }
}

/// A sound script is sound up to each of its steps.
pub proof fn lemma_filled_after_prefix(before: Option<Set<Slot>>, script: Seq<StepView>, done: int)
    requires
        filled_after(before, script) is Some,
        0 <= done <= script.len(),
    ensures
        filled_after(before, script.take(done)) is Some,
    decreases script.len(),
{
    if done == script.len() {
        assert(script.take(done) =~= script);
    } else {
        assert(script.take(done) =~= script.drop_last().take(done));
        lemma_filled_after_prefix(before, script.drop_last(), done);
    }
}

/// Following a script one step further takes that step into account.
pub proof fn lemma_filled_after_next(before: Option<Set<Slot>>, script: Seq<StepView>, done: int)
    requires
        0 <= done < script.len(),
    ensures
        filled_after(before, script.take(done + 1)) == filled_after(
            filled_after(before, script.take(done)),
            seq![script[done]],
        ),
{
    let longer = script.take(done + 1);
    assert(longer =~= script.take(done) + seq![script[done]]);
    lemma_filled_after_add(before, script.take(done), seq![script[done]]);
}

/// The names collected so far, slot by slot.
#[derive(Clone, Copy, Debug, PartialEq, Eq)]
pub struct Names {
    pub vertex_shader: Option<u32>,
    pub fragment_shader: Option<u32>,
    pub program: Option<u32>,
    pub vertex_array: Option<u32>,
    pub vertex_buffer: Option<u32>,
    pub index_buffer: Option<u32>,
    pub texture: Option<u32>,
}

/// The object of this kind and name, if there is a name.
pub open spec fn named(kind: ObjectKind, name: Option<u32>) -> Multiset<Object> {
    match name {
        Some(name) => Multiset::singleton(Object { kind, name }),
        None => Multiset::empty(),
    }
}

impl Names {
    /// No name in any slot.
    pub open spec fn none() -> Names {
        Names {
            vertex_shader: None,
            fragment_shader: None,
            program: None,
            vertex_array: None,
            vertex_buffer: None,
            index_buffer: None,
            texture: None,
        }
    }

    /// The name in `slot`, if there is one.
    pub open spec fn get(self, slot: Slot) -> Option<u32> {
        match slot {
            Slot::VertexShader => self.vertex_shader,
            Slot::FragmentShader => self.fragment_shader,
            Slot::Program => self.program,
            Slot::VertexArray => self.vertex_array,
            Slot::VertexBuffer => self.vertex_buffer,
            Slot::IndexBuffer => self.index_buffer,
            Slot::Texture => self.texture,
        }
    }

    /// The name in `slot`, or `0`, which names no object, where there is none.
    pub open spec fn name(self, slot: Slot) -> u32 {
        match self.get(slot) {
            Some(name) => name,
            None => 0,
        }
    }

    /// The names with `name` in `slot`, or with the slot emptied.
    pub open spec fn put(self, slot: Slot, name: Option<u32>) -> Names {
        match slot {
            Slot::VertexShader => Names { vertex_shader: name, ..self },
            Slot::FragmentShader => Names { fragment_shader: name, ..self },
            Slot::Program => Names { program: name, ..self },
            Slot::VertexArray => Names { vertex_array: name, ..self },
            Slot::VertexBuffer => Names { vertex_buffer: name, ..self },
            Slot::IndexBuffer => Names { index_buffer: name, ..self },
            Slot::Texture => Names { texture: name, ..self },
        }
    }

    /// The slots that hold a name.
    pub open spec fn filled(self) -> Set<Slot> {
        Set::new(|slot: Slot| self.get(slot) is Some)
    }

    /// The objects whose names are held.
    pub open spec fn held(self) -> Multiset<Object> {
        named(ObjectKind::Shader, self.vertex_shader).add(
            named(ObjectKind::Shader, self.fragment_shader),
        ).add(named(ObjectKind::Program, self.program)).add(
            named(ObjectKind::VertexArray, self.vertex_array),
        ).add(named(ObjectKind::Buffer, self.vertex_buffer)).add(
            named(ObjectKind::Buffer, self.index_buffer),
        ).add(named(ObjectKind::Texture, self.texture))
    }

    /// The slot to release next when construction is given up: the last
    /// kind of object made comes first.
    pub open spec fn first_held(self) -> Option<Slot> {
        if self.texture is Some {
            Some(Slot::Texture)
        } else if self.index_buffer is Some {
            Some(Slot::IndexBuffer)
        } else if self.vertex_buffer is Some {
            Some(Slot::VertexBuffer)
        } else if self.vertex_array is Some {
            Some(Slot::VertexArray)
        } else if self.program is Some {
            Some(Slot::Program)
        } else if self.fragment_shader is Some {
            Some(Slot::FragmentShader)
        } else if self.vertex_shader is Some {
            Some(Slot::VertexShader)
        } else {
            None
        }
    }

    /// No name in any slot.
    pub fn new() -> (names: Names)
        ensures
            names == Names::none(),
    {
        Names {
            vertex_shader: None,
            fragment_shader: None,
            program: None,
            vertex_array: None,
            vertex_buffer: None,
            index_buffer: None,
            texture: None,
        }
    }

    /// The name in `slot`, if there is one.
    pub fn lookup(&self, slot: Slot) -> (name: Option<u32>)
        ensures
            name == self.get(slot),
    {
        match slot {
            Slot::VertexShader => self.vertex_shader,
            Slot::FragmentShader => self.fragment_shader,
            Slot::Program => self.program,
            Slot::VertexArray => self.vertex_array,
            Slot::VertexBuffer => self.vertex_buffer,
            Slot::IndexBuffer => self.index_buffer,
            Slot::Texture => self.texture,
        }
    }

    /// The name in `slot`, or `0` where there is none.
    pub fn name_of(&self, slot: Slot) -> (name: u32)
        ensures
            name == self.name(slot),
    {
        match self.lookup(slot) {
            Some(name) => name,
            None => 0,
        }
    }

    /// Puts `name` into `slot`, or empties the slot.
    pub fn set(&mut self, slot: Slot, name: Option<u32>)
        ensures
            *final(self) == old(self).put(slot, name),
    {
        match slot {
            Slot::VertexShader => self.vertex_shader = name,
            Slot::FragmentShader => self.fragment_shader = name,
            Slot::Program => self.program = name,
            Slot::VertexArray => self.vertex_array = name,
            Slot::VertexBuffer => self.vertex_buffer = name,
            Slot::IndexBuffer => self.index_buffer = name,
            Slot::Texture => self.texture = name,
        }
    }

    /// The slot to release next when construction is given up.
    pub fn next_release(&self) -> (slot: Option<Slot>)
        ensures
            slot == self.first_held(),
    {
        if self.texture.is_some() {
            Some(Slot::Texture)
        } else if self.index_buffer.is_some() {
            Some(Slot::IndexBuffer)
        } else if self.vertex_buffer.is_some() {
            Some(Slot::VertexBuffer)
        } else if self.vertex_array.is_some() {
            Some(Slot::VertexArray)
        } else if self.program.is_some() {
            Some(Slot::Program)
        } else if self.fragment_shader.is_some() {
            Some(Slot::FragmentShader)
        } else if self.vertex_shader.is_some() {
            Some(Slot::VertexShader)
        } else {
            None
        }
    }
}

/// A name put into an empty slot is one more object held.
pub proof fn lemma_held_put_some(names: Names, slot: Slot, name: u32)
    requires
        names.get(slot) is None,
    ensures
        names.put(slot, Some(name)).held() == names.held().insert(
            Object { kind: slot.kind(), name },
        ),
        names.put(slot, Some(name)).filled() == names.filled().insert(slot),
{
    assert(names.put(slot, Some(name)).held() =~= names.held().insert(
        Object { kind: slot.kind(), name },
    ));
    assert(names.put(slot, Some(name)).filled() =~= names.filled().insert(slot));
}

/// A name taken out of its slot is one object held less.
pub proof fn lemma_held_put_none(names: Names, slot: Slot)
    requires
        names.get(slot) is Some,
    ensures
        names.put(slot, None).held() == names.held().remove(
            Object { kind: slot.kind(), name: names.name(slot) },
        ),
        names.put(slot, None).filled() == names.filled().remove(slot),
{
    assert(names.put(slot, None).held() =~= names.held().remove(
        Object { kind: slot.kind(), name: names.name(slot) },
    ));
    assert(names.put(slot, None).filled() =~= names.filled().remove(slot));
}

} // verus!
