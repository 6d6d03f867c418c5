//! A square whose colour pulses.
use crate::gpu::{
    thousandths, Command, CommandView, Ortho, ARRAY_BUFFER, ELEMENT_ARRAY_BUFFER, FLOAT,
    STATIC_DRAW,
};
use crate::script::{
    filled_after, lemma_filled_after_add, lemma_matrices_set_add, lemma_uints_uploaded_add, lines,
    matrices_set, uints_uploaded, Slot, Step, StepView,
};
use crate::shaders::{lemma_load_script_filled, lemma_load_script_plain, Shader};
use vstd::prelude::*;

verus! {

/// Four corners, two coordinates each, in thousandths.
pub open spec fn vertex_data() -> Seq<i32> {
    thousandths(seq![-500, -500, 500, -500, 500, 500, -500, 500])
}

/// Two triangles that share the diagonal from corner 0 to corner 2.
pub open spec fn indices() -> Seq<u32> {
    seq![0u32, 1, 2, 2, 3, 0]
}

/// What the script does once the program is there.
pub open spec fn scene_script() -> Seq<StepView> {
    seq![
        StepView::Generate(Slot::VertexArray),
        StepView::BindVertexArray,
        StepView::Generate(Slot::VertexBuffer),
        StepView::BindBuffer { target: ARRAY_BUFFER, slot: Slot::VertexBuffer },
        StepView::Issue(
            CommandView::BufferDataFloat {
                target: ARRAY_BUFFER,
                data: vertex_data(),
                usage: STATIC_DRAW,
            },
        ),
        StepView::Issue(CommandView::EnableVertexAttribArray { index: 0 }),
        StepView::Issue(
            CommandView::VertexAttribPointer {
                index: 0,
                size: 2,
                kind: FLOAT,
                normalized: false,
                stride: 8,
                offset: 0,
            },
        ),
        StepView::Generate(Slot::IndexBuffer),
        StepView::BindBuffer { target: ELEMENT_ARRAY_BUFFER, slot: Slot::IndexBuffer },
        StepView::Issue(
            CommandView::BufferDataUint {
                target: ELEMENT_ARRAY_BUFFER,
                data: indices(),
                usage: STATIC_DRAW,
            },
        ),
        StepView::Issue(CommandView::BindBuffer { target: ARRAY_BUFFER, buffer: 0 }),
        StepView::Issue(CommandView::BindBuffer { target: ELEMENT_ARRAY_BUFFER, buffer: 0 }),
        StepView::Issue(CommandView::BindVertexArray { array: 0 }),
        StepView::Issue(CommandView::UseProgram { program: 0 }),
    ]
}

/// The script that builds the square: the program, then a vertex array
/// with a buffer of positions and a buffer of indices, and everything
/// unbound at the end.
pub open spec fn script() -> Seq<StepView> {
    Shader::load_script("basic"@, "basic_uniform"@) + scene_script()
}

/// The script is sound, and leaves the names of the program, the vertex
/// array, the vertex buffer, the index buffer.
pub proof fn lemma_script_filled()
    ensures
        filled_after(Some(Set::empty()), script()) == Some(
            Set::<Slot>::empty().insert(Slot::Program).insert(Slot::VertexArray).insert(
                Slot::VertexBuffer,
            ).insert(Slot::IndexBuffer),
        ),
{
    lemma_load_script_filled("basic"@, "basic_uniform"@);
    lemma_filled_after_add(
        Some(Set::empty()),
        Shader::load_script("basic"@, "basic_uniform"@),
        scene_script(),
    );
    lemma_scene_filled();
}

proof fn lemma_scene_filled()
    ensures
        filled_after(Some(Set::<Slot>::empty().insert(Slot::Program)), scene_script()) == Some(
            Set::<Slot>::empty().insert(Slot::Program).insert(Slot::VertexArray).insert(
                Slot::VertexBuffer,
            ).insert(Slot::IndexBuffer),
        ),
{
    let program = Set::<Slot>::empty().insert(Slot::Program);
    let filled = filled_after(Some(program), scene_script());
    assert(filled is Some && filled->0 =~= program.insert(Slot::VertexArray).insert(
        Slot::VertexBuffer,
    ).insert(Slot::IndexBuffer)) by {
        reveal_with_fuel(filled_after, 16);
    }
}

/// The script sets no matrix, and fills one buffer of unsigned integers:
/// the index buffer, with the six indices of the two triangles.
pub proof fn lemma_script_content()
    ensures
        matrices_set(script()) == Seq::<(Seq<u8>, Ortho)>::empty(),
        uints_uploaded(script()) == seq![(ELEMENT_ARRAY_BUFFER, indices())],
{
    lemma_load_script_plain("basic"@, "basic_uniform"@);
    lemma_matrices_set_add(Shader::load_script("basic"@, "basic_uniform"@), scene_script());
    lemma_uints_uploaded_add(Shader::load_script("basic"@, "basic_uniform"@), scene_script());
    lemma_scene_content();
    assert(uints_uploaded(script()) =~= uints_uploaded(scene_script()));
    assert(matrices_set(script()) =~= matrices_set(scene_script()));
}

proof fn lemma_scene_content()
    ensures
        matrices_set(scene_script()) == Seq::<(Seq<u8>, Ortho)>::empty(),
        uints_uploaded(scene_script()) == seq![(ELEMENT_ARRAY_BUFFER, indices())],
{
    reveal_with_fuel(matrices_set, 16);
    reveal_with_fuel(uints_uploaded, 16);
    assert(uints_uploaded(scene_script()) =~= seq![(ELEMENT_ARRAY_BUFFER, indices())]);
}

/// The script that builds the square.
pub fn create_sample() -> (steps: Vec<Step>)
    ensures
        lines(steps@) == script(),
{
    let mut steps = Shader::load("basic", "basic_uniform");
    let vertices: Vec<i32> = vec![-500, -500, 500, -500, 500, 500, -500, 500];
    assert(vertices@ =~= vertex_data());
    let mut scene = vec![
        Step::Generate(Slot::VertexArray),
        Step::BindVertexArray,
        Step::Generate(Slot::VertexBuffer),
        Step::BindBuffer { target: ARRAY_BUFFER, slot: Slot::VertexBuffer },
        Step::Issue(
            Command::BufferDataFloat {
                target: ARRAY_BUFFER,
                data: vertices,
                usage: STATIC_DRAW,
            },
        ),
        Step::Issue(Command::EnableVertexAttribArray { index: 0 }),
        Step::Issue(
            Command::VertexAttribPointer {
                index: 0,
                size: 2,
                kind: FLOAT,
                normalized: false,
                stride: 8,
                offset: 0,
            },
        ),
        Step::Generate(Slot::IndexBuffer),
        Step::BindBuffer { target: ELEMENT_ARRAY_BUFFER, slot: Slot::IndexBuffer },
        Step::Issue(
            Command::BufferDataUint {
                target: ELEMENT_ARRAY_BUFFER,
                data: vec![0, 1, 2, 2, 3, 0],
                usage: STATIC_DRAW,
            },
        ),
        Step::Issue(Command::BindBuffer { target: ARRAY_BUFFER, buffer: 0 }),
        Step::Issue(Command::BindBuffer { target: ELEMENT_ARRAY_BUFFER, buffer: 0 }),
        Step::Issue(Command::BindVertexArray { array: 0 }),
        Step::Issue(Command::UseProgram { program: 0 }),
    ];
    assert(lines(scene@) =~= scene_script());
    steps.append(&mut scene);
    assert(lines(steps@) =~= script());
    steps
}

} // verus!
