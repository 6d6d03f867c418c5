//! A square with a picture on it.
use crate::gpu::{
    thousandths, Command, CommandView, Ortho, ARRAY_BUFFER, ELEMENT_ARRAY_BUFFER, FLOAT,
    STATIC_DRAW,
};
use crate::script::{
    filled_after, lemma_filled_after_add, lemma_matrices_set_add, lemma_uints_uploaded_add, lines,
    matrices_set, uints_uploaded, Slot, Step, StepView,
};
use crate::shaders::{as_gl_char_ptr, lemma_load_script_filled, lemma_load_script_plain, Shader};
use crate::texture::Texture;
use vstd::prelude::*;
use vstd::utf8::encode_utf8;

verus! {

/// Four corners, each with two coordinates and the point of the picture
/// that goes there, in thousandths.
pub open spec fn vertex_data() -> Seq<i32> {
    thousandths(
        seq![-500, -500, 0, 0, 500, -500, 1000, 0, 500, 500, 1000, 1000, -500, 500, 0, 1000],
    )
}

/// Two triangles that share the diagonal from corner 0 to corner 2.
pub open spec fn indices() -> Seq<u32> {
    seq![0u32, 1, 2, 2, 3, 0]
}

/// The projection of the scene: from -1.6 to 1.6 across, from -1.175 to
/// 1.175 up, from -1 to 1 in depth.
pub open spec fn projection() -> Ortho {
    Ortho {
        left: (-1600) as i32,
        right: 1600,
        bottom: (-1175) as i32,
        top: 1175,
        znear: (-1000) as i32,
        zfar: 1000,
    }
}

/// The first part of the script: the program, then the vertex array with
/// its two buffers.
pub open spec fn geometry_script() -> Seq<StepView> {
    seq![
        StepView::Generate(Slot::VertexArray),
        StepView::BindVertexArray,
        StepView::Generate(Slot::VertexBuffer),
        StepView::BindBuffer { target: ARRAY_BUFFER, slot: Slot::VertexBuffer },
        StepView::Issue(
            CommandView::BufferDataFloat {
                target: ARRAY_BUFFER,
                data: vertex_data(),
                usage: STATIC_DRAW,
            },
        ),
        StepView::Issue(CommandView::EnableVertexAttribArray { index: 0 }),
        StepView::Issue(
            CommandView::VertexAttribPointer {
                index: 0,
                size: 2,
                kind: FLOAT,
                normalized: false,
                stride: 16,
                offset: 0,
            },
        ),
        StepView::Issue(CommandView::EnableVertexAttribArray { index: 1 }),
        StepView::Issue(
            CommandView::VertexAttribPointer {
                index: 1,
                size: 2,
                kind: FLOAT,
                normalized: false,
                stride: 16,
                offset: 8,
            },
        ),
        StepView::Generate(Slot::IndexBuffer),
        StepView::BindBuffer { target: ELEMENT_ARRAY_BUFFER, slot: Slot::IndexBuffer },
        StepView::Issue(
            CommandView::BufferDataUint {
                target: ELEMENT_ARRAY_BUFFER,
                data: indices(),
                usage: STATIC_DRAW,
            },
        ),
    ]
}

/// The last part of the script: the projection is set, once and for all,
/// and everything is unbound.
pub open spec fn finish_script() -> Seq<StepView> {
    seq![
        StepView::UseProgram,
        StepView::UniformMatrix4fv { name: encode_utf8("u_proj\0"@), matrix: projection() },
        StepView::Issue(CommandView::BindBuffer { target: ARRAY_BUFFER, buffer: 0 }),
        StepView::Issue(CommandView::BindBuffer { target: ELEMENT_ARRAY_BUFFER, buffer: 0 }),
        StepView::Issue(CommandView::BindVertexArray { array: 0 }),
        StepView::Issue(CommandView::UseProgram { program: 0 }),
    ]
}

/// The script that builds the textured square.
pub open spec fn script() -> Seq<StepView> {
    Shader::load_script("basic_texture"@, "basic_texture"@) + geometry_script()
        + Texture::load_script("texture01.jpeg"@) + finish_script()
}

/// The script is sound, and leaves the names of the program, the vertex
/// array, the two buffers and the texture.
pub proof fn lemma_script_filled()
    ensures
        filled_after(Some(Set::empty()), script()) == Some(
            Set::<Slot>::empty().insert(Slot::Program).insert(Slot::VertexArray).insert(
                Slot::VertexBuffer,
            ).insert(Slot::IndexBuffer).insert(Slot::Texture),
        ),
{
    let none = Some(Set::<Slot>::empty());
    let shader = Shader::load_script("basic_texture"@, "basic_texture"@);
    let geometry = geometry_script();
    let texture = Texture::load_script("texture01.jpeg"@);
    let finish = finish_script();
    lemma_filled_after_add(none, shader + geometry + texture, finish);
    lemma_filled_after_add(none, shader + geometry, texture);
    lemma_filled_after_add(none, shader, geometry);
    lemma_load_script_filled("basic_texture"@, "basic_texture"@);
    let program = Set::<Slot>::empty().insert(Slot::Program);
    let indexed = program.insert(Slot::VertexArray).insert(Slot::VertexBuffer).insert(
        Slot::IndexBuffer,
    );
    let all = indexed.insert(Slot::Texture);
    lemma_geometry_filled();
    lemma_texture_filled();
    lemma_finish_filled(all);
}

proof fn lemma_finish_filled(before: Set<Slot>)
    ensures
        filled_after(Some(before), finish_script()) == Some(before),
{
    reveal_with_fuel(filled_after, 8);
}

proof fn lemma_geometry_filled()
    ensures
        filled_after(Some(Set::<Slot>::empty().insert(Slot::Program)), geometry_script()) == Some(
            Set::<Slot>::empty().insert(Slot::Program).insert(Slot::VertexArray).insert(
                Slot::VertexBuffer,
            ).insert(Slot::IndexBuffer),
        ),
{
    let program = Set::<Slot>::empty().insert(Slot::Program);
    let filled = filled_after(Some(program), geometry_script());
    assert(filled is Some && filled->0 =~= program.insert(Slot::VertexArray).insert(
        Slot::VertexBuffer,
    ).insert(Slot::IndexBuffer)) by {
        reveal_with_fuel(filled_after, 14);
    }
}

proof fn lemma_texture_filled()
    ensures
        filled_after(
            Some(
                Set::<Slot>::empty().insert(Slot::Program).insert(Slot::VertexArray).insert(
                    Slot::VertexBuffer,
                ).insert(Slot::IndexBuffer),
            ),
            Texture::load_script("texture01.jpeg"@),
        ) == Some(
            Set::<Slot>::empty().insert(Slot::Program).insert(Slot::VertexArray).insert(
                Slot::VertexBuffer,
            ).insert(Slot::IndexBuffer).insert(Slot::Texture),
        ),
{
    let indexed = Set::<Slot>::empty().insert(Slot::Program).insert(Slot::VertexArray).insert(
        Slot::VertexBuffer,
    ).insert(Slot::IndexBuffer);
    let filled = filled_after(Some(indexed), Texture::load_script("texture01.jpeg"@));
    assert(filled is Some && filled->0 =~= indexed.insert(Slot::Texture)) by {
        reveal_with_fuel(filled_after, 11);
    }
}

/// The script sets one matrix, the projection of the scene under the name
/// `u_proj`, and fills one buffer of unsigned integers: the index buffer,
/// with the six indices of the two triangles.
pub proof fn lemma_script_content()
    ensures
        matrices_set(script()) == seq![(encode_utf8("u_proj\0"@), projection())],
        uints_uploaded(script()) == seq![(ELEMENT_ARRAY_BUFFER, indices())],
{
    let shader = Shader::load_script("basic_texture"@, "basic_texture"@);
    let geometry = geometry_script();
    let texture = Texture::load_script("texture01.jpeg"@);
    let finish = finish_script();
    lemma_load_script_plain("basic_texture"@, "basic_texture"@);
    crate::texture::lemma_load_script_plain("texture01.jpeg"@);
    lemma_geometry_content();
    lemma_finish_content();
    lemma_matrices_set_add(shader + geometry + texture, finish);
    lemma_matrices_set_add(shader + geometry, texture);
    lemma_matrices_set_add(shader, geometry);
    lemma_uints_uploaded_add(shader + geometry + texture, finish);
    lemma_uints_uploaded_add(shader + geometry, texture);
    lemma_uints_uploaded_add(shader, geometry);
    assert(matrices_set(script()) =~= matrices_set(finish));
    assert(uints_uploaded(script()) =~= uints_uploaded(geometry));
}

proof fn lemma_geometry_content()
    ensures
        matrices_set(geometry_script()) == Seq::<(Seq<u8>, Ortho)>::empty(),
        uints_uploaded(geometry_script()) == seq![(ELEMENT_ARRAY_BUFFER, indices())],
{
    reveal_with_fuel(matrices_set, 14);
    reveal_with_fuel(uints_uploaded, 14);
    assert(uints_uploaded(geometry_script()) =~= seq![(ELEMENT_ARRAY_BUFFER, indices())]);
}

proof fn lemma_finish_content()
    ensures
        matrices_set(finish_script()) == seq![(encode_utf8("u_proj\0"@), projection())],
        uints_uploaded(finish_script()) == Seq::<(u32, Seq<u32>)>::empty(),
{
    reveal_with_fuel(matrices_set, 8);
    reveal_with_fuel(uints_uploaded, 8);
    assert(matrices_set(finish_script()) =~= seq![(encode_utf8("u_proj\0"@), projection())]);
}

/// The script that builds the textured square.
pub fn create_sample() -> (steps: Vec<Step>)
    ensures
        lines(steps@) == script(),
{
    let mut steps = Shader::load("basic_texture", "basic_texture");
    let vertices: Vec<i32> = vec![
        -500, -500, 0, 0, 500, -500, 1000, 0, 500, 500, 1000, 1000, -500, 500, 0, 1000,
    ];
    assert(vertices@ =~= vertex_data());
    let mut geometry = vec![
        Step::Generate(Slot::VertexArray),
        Step::BindVertexArray,
        Step::Generate(Slot::VertexBuffer),
        Step::BindBuffer { target: ARRAY_BUFFER, slot: Slot::VertexBuffer },
        Step::Issue(
            Command::BufferDataFloat {
                target: ARRAY_BUFFER,
                data: vertices,
                usage: STATIC_DRAW,
            },
        ),
        Step::Issue(Command::EnableVertexAttribArray { index: 0 }),
        Step::Issue(
            Command::VertexAttribPointer {
                index: 0,
                size: 2,
                kind: FLOAT,
                normalized: false,
                stride: 16,
                offset: 0,
            },
        ),
        Step::Issue(Command::EnableVertexAttribArray { index: 1 }),
        Step::Issue(
            Command::VertexAttribPointer {
                index: 1,
                size: 2,
                kind: FLOAT,
                normalized: false,
                stride: 16,
                offset: 8,
            },
        ),
        Step::Generate(Slot::IndexBuffer),
        Step::BindBuffer { target: ELEMENT_ARRAY_BUFFER, slot: Slot::IndexBuffer },
        Step::Issue(
            Command::BufferDataUint {
                target: ELEMENT_ARRAY_BUFFER,
                data: vec![0, 1, 2, 2, 3, 0],
                usage: STATIC_DRAW,
            },
        ),
    ];
    assert(lines(geometry@) =~= geometry_script());
    let mut texture = Texture::load("texture01.jpeg");
    let mut finish = vec![
        Step::UseProgram,
        Step::UniformMatrix4fv {
            name: as_gl_char_ptr("u_proj\0"),
            matrix: Ortho {
                left: -1600,
                right: 1600,
                bottom: -1175,
                top: 1175,
                znear: -1000,
                zfar: 1000,
            },
        },
        Step::Issue(Command::BindBuffer { target: ARRAY_BUFFER, buffer: 0 }),
        Step::Issue(Command::BindBuffer { target: ELEMENT_ARRAY_BUFFER, buffer: 0 }),
        Step::Issue(Command::BindVertexArray { array: 0 }),
        Step::Issue(Command::UseProgram { program: 0 }),
    ];
    assert(lines(finish@) =~= finish_script());
    steps.append(&mut geometry);
    steps.append(&mut texture);
    steps.append(&mut finish);
    assert(lines(steps@) =~= script());
    steps
}

} // verus!
