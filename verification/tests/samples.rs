use gl_samples::bindings::Bindings;
use gl_samples::gpu::{
    Command, Ortho, ARRAY_BUFFER, COLOR_BUFFER_BIT, ELEMENT_ARRAY_BUFFER, FLOAT,
    ONE_MINUS_SRC_ALPHA, SRC_ALPHA, STATIC_DRAW, TEXTURE0, TEXTURE_2D, TRIANGLES, UNSIGNED_INT,
};
use gl_samples::samples::simple_square;
use gl_samples::samples::simple_triangle;
use gl_samples::samples::textured_square;
use gl_samples::samples::{Sample, SampleProps, STEP, UNIT};
use gl_samples::script::{Slot, Step};
use gl_samples::shaders::Shader;
use gl_samples::texture::Texture;

fn triangle() -> SampleProps {
    SampleProps::SimpleTriangle { shader: Shader { program: 3 }, vao: 4, vbo: 5 }
}

fn square() -> SampleProps {
    SampleProps::SimpleSquare {
        shader: Shader { program: 3 },
        vao: 4,
        vbo: 5,
        ibo: 6,
        color_channel: 0,
        increment: STEP,
    }
}

fn textured() -> SampleProps {
    SampleProps::TexturedSquare {
        shader: Shader { program: 3 },
        vao: 4,
        vbo: 5,
        ibo: 6,
        texture: Texture { id: 7, width: 640, height: 470 },
    }
}

fn channel(props: &SampleProps) -> (i32, i32) {
    match props {
        SampleProps::SimpleSquare { color_channel, increment, .. } => (*color_channel, *increment),
        _ => panic!("not the pulsing square"),
    }
}

fn clear() -> Vec<Command> {
    vec![
        Command::ClearColor { red: 100, green: 100, blue: 100, alpha: 900 },
        Command::Clear { mask: COLOR_BUFFER_BIT },
    ]
}

fn uint_uploads(script: &[Step]) -> Vec<(u32, Vec<u32>)> {
    let mut uploads = Vec::new();
    for step in script {
        if let Step::Issue(Command::BufferDataUint { target, data, .. }) = step {
            uploads.push((*target, data.clone()));
        }
    }
    uploads
}

fn matrices(script: &[Step]) -> Vec<(Vec<u8>, Ortho)> {
    let mut found = Vec::new();
    for step in script {
        match step {
            Step::UniformMatrix4fv { name, matrix } => found.push((name.clone(), *matrix)),
            Step::Issue(Command::UniformMatrix4fv { name, matrix, .. }) => {
                found.push((name.clone(), *matrix))
            }
            _ => {}
        }
    }
    found
}

#[test]
fn every_script_begins_with_alpha_blending() {
    for sample in [Sample::SimpleTriangle, Sample::SimpleSquare, Sample::TexturedSquare] {
        let steps = sample.steps();
        assert_eq!(
            steps[0],
            Step::Issue(Command::BlendFunc { sfactor: SRC_ALPHA, dfactor: ONE_MINUS_SRC_ALPHA })
        );
    }
    assert_eq!(Sample::SimpleTriangle.steps()[1..], simple_triangle::create_sample());
    assert_eq!(Sample::SimpleSquare.steps()[1..], simple_square::create_sample());
    assert_eq!(Sample::TexturedSquare.steps()[1..], textured_square::create_sample());
}

#[test]
fn triangle_script_uploads_three_corners() {
    let script = simple_triangle::create_sample();
    assert_eq!(script.len(), 27);
    assert_eq!(script[..17], Shader::load("basic", "basic"));
    assert_eq!(
        script[17..],
        vec![
            Step::Generate(Slot::VertexArray),
            Step::BindVertexArray,
            Step::Generate(Slot::VertexBuffer),
            Step::BindBuffer { target: ARRAY_BUFFER, slot: Slot::VertexBuffer },
            Step::Issue(Command::BufferDataFloat {
                target: ARRAY_BUFFER,
                data: vec![-500, -500, 0, 500, 500, -500],
                usage: STATIC_DRAW,
            }),
            Step::Issue(Command::EnableVertexAttribArray { index: 0 }),
            Step::Issue(Command::VertexAttribPointer {
                index: 0,
                size: 2,
                kind: FLOAT,
                normalized: false,
                stride: 8,
                offset: 0,
            }),
            Step::Issue(Command::BindBuffer { target: ARRAY_BUFFER, buffer: 0 }),
            Step::Issue(Command::BindVertexArray { array: 0 }),
            Step::Issue(Command::UseProgram { program: 0 }),
        ]
    );
}

#[test]
fn square_script_uploads_four_corners_and_six_indices() {
    let script = simple_square::create_sample();
    assert_eq!(script.len(), 31);
    assert_eq!(script[..17], Shader::load("basic", "basic_uniform"));
    assert_eq!(
        script[17..],
        vec![
            Step::Generate(Slot::VertexArray),
            Step::BindVertexArray,
            Step::Generate(Slot::VertexBuffer),
            Step::BindBuffer { target: ARRAY_BUFFER, slot: Slot::VertexBuffer },
            Step::Issue(Command::BufferDataFloat {
                target: ARRAY_BUFFER,
                data: vec![-500, -500, 500, -500, 500, 500, -500, 500],
                usage: STATIC_DRAW,
            }),
            Step::Issue(Command::EnableVertexAttribArray { index: 0 }),
            Step::Issue(Command::VertexAttribPointer {
                index: 0,
                size: 2,
                kind: FLOAT,
                normalized: false,
                stride: 8,
                offset: 0,
            }),
            Step::Generate(Slot::IndexBuffer),
            Step::BindBuffer { target: ELEMENT_ARRAY_BUFFER, slot: Slot::IndexBuffer },
            Step::Issue(Command::BufferDataUint {
                target: ELEMENT_ARRAY_BUFFER,
                data: vec![0, 1, 2, 2, 3, 0],
                usage: STATIC_DRAW,
            }),
            Step::Issue(Command::BindBuffer { target: ARRAY_BUFFER, buffer: 0 }),
            Step::Issue(Command::BindBuffer { target: ELEMENT_ARRAY_BUFFER, buffer: 0 }),
            Step::Issue(Command::BindVertexArray { array: 0 }),
            Step::Issue(Command::UseProgram { program: 0 }),
        ]
    );
}

#[test]
fn textured_script_uploads_positions_with_picture_points() {
    let script = textured_square::create_sample();
    assert_eq!(script.len(), 44);
    assert_eq!(script[..17], Shader::load("basic_texture", "basic_texture"));
    assert_eq!(
        script[17..29],
        vec![
            Step::Generate(Slot::VertexArray),
            Step::BindVertexArray,
            Step::Generate(Slot::VertexBuffer),
            Step::BindBuffer { target: ARRAY_BUFFER, slot: Slot::VertexBuffer },
            Step::Issue(Command::BufferDataFloat {
                target: ARRAY_BUFFER,
                data: vec![
                    -500, -500, 0, 0, 500, -500, 1000, 0, 500, 500, 1000, 1000, -500, 500, 0, 1000,
                ],
                usage: STATIC_DRAW,
            }),
            Step::Issue(Command::EnableVertexAttribArray { index: 0 }),
            Step::Issue(Command::VertexAttribPointer {
                index: 0,
                size: 2,
                kind: FLOAT,
                normalized: false,
                stride: 16,
                offset: 0,
            }),
            Step::Issue(Command::EnableVertexAttribArray { index: 1 }),
            Step::Issue(Command::VertexAttribPointer {
                index: 1,
                size: 2,
                kind: FLOAT,
                normalized: false,
                stride: 16,
                offset: 8,
            }),
            Step::Generate(Slot::IndexBuffer),
            Step::BindBuffer { target: ELEMENT_ARRAY_BUFFER, slot: Slot::IndexBuffer },
            Step::Issue(Command::BufferDataUint {
                target: ELEMENT_ARRAY_BUFFER,
                data: vec![0, 1, 2, 2, 3, 0],
                usage: STATIC_DRAW,
            }),
        ]
    );
    assert_eq!(script[29..38], Texture::load("texture01.jpeg"));
    assert_eq!(
        script[38..],
        vec![
            Step::UseProgram,
            Step::UniformMatrix4fv {
                name: b"u_proj\0".to_vec(),
                matrix: Ortho {
                    left: -1600,
                    right: 1600,
                    bottom: -1175,
                    top: 1175,
                    znear: -1000,
                    zfar: 1000,
                },
            },
            Step::Issue(Command::BindBuffer { target: ARRAY_BUFFER, buffer: 0 }),
            Step::Issue(Command::BindBuffer { target: ELEMENT_ARRAY_BUFFER, buffer: 0 }),
            Step::Issue(Command::BindVertexArray { array: 0 }),
            Step::Issue(Command::UseProgram { program: 0 }),
        ]
    );
}

#[test]
fn index_buffer_holds_two_triangles_over_one_diagonal() {
    let indices = vec![(ELEMENT_ARRAY_BUFFER, vec![0, 1, 2, 2, 3, 0])];
    assert_eq!(uint_uploads(&Sample::SimpleSquare.steps()), indices);
    assert_eq!(uint_uploads(&Sample::TexturedSquare.steps()), indices);
    assert_eq!(uint_uploads(&Sample::SimpleTriangle.steps()), Vec::new());
}

#[test]
fn projection_is_set_once_by_the_textured_script_alone() {
    let planes =
        Ortho { left: -1600, right: 1600, bottom: -1175, top: 1175, znear: -1000, zfar: 1000 };
    assert_eq!(matrices(&Sample::TexturedSquare.steps()), vec![(b"u_proj\0".to_vec(), planes)]);
    assert_eq!(matrices(&Sample::SimpleSquare.steps()), Vec::new());
    assert_eq!(matrices(&Sample::SimpleTriangle.steps()), Vec::new());
}

#[test]
fn projection_planes_in_thousandths_are_the_planes_of_the_scene() {
    let planes = [-1600, 1600, -1175, 1175, -1000, 1000];
    let expected = [-1.6f32, 1.6, -1.175, 1.175, -1.0, 1.0];
    for (thousandths, real) in planes.iter().zip(expected.iter()) {
        assert_eq!(*thousandths as f32 / 1000.0, *real);
    }
    let from_thousandths = nalgebra::Matrix4::<f32>::new_orthographic(
        -1600.0 / 1000.0,
        1600.0 / 1000.0,
        -1175.0 / 1000.0,
        1175.0 / 1000.0,
        -1000.0 / 1000.0,
        1000.0 / 1000.0,
    );
    let direct = nalgebra::Matrix4::<f32>::new_orthographic(-1.6, 1.6, -1.175, 1.175, -1.0, 1.0);
    assert_eq!(from_thousandths, direct);
}

#[test]
fn frames_set_no_matrix() {
    for mut props in [triangle(), square(), textured()] {
        let mut commands = props.bind();
        commands.extend(props.unbind());
        commands.extend(props.draw());
        commands.extend(props.snapshot().1);
        commands.extend(props.drop());
        for command in &commands {
            assert!(!matches!(command, Command::UniformMatrix4fv { .. }));
        }
    }
}

#[test]
fn bind_makes_the_triangle_current() {
    assert_eq!(
        triangle().bind(),
        vec![Command::UseProgram { program: 3 }, Command::BindVertexArray { array: 4 }]
    );
}

#[test]
fn bind_makes_the_square_current() {
    assert_eq!(
        square().bind(),
        vec![
            Command::UseProgram { program: 3 },
            Command::BindVertexArray { array: 4 },
            Command::BindBuffer { target: ELEMENT_ARRAY_BUFFER, buffer: 6 },
        ]
    );
}

#[test]
fn bind_makes_the_textured_square_current() {
    assert_eq!(
        textured().bind(),
        vec![
            Command::UseProgram { program: 3 },
            Command::ActiveTexture { texture: TEXTURE0 },
            Command::BindTexture { target: TEXTURE_2D, texture: 7 },
            Command::UseProgram { program: 3 },
            Command::Uniform1i { program: 3, name: b"u_texture\0".to_vec(), v0: 0 },
            Command::BindVertexArray { array: 4 },
            Command::BindBuffer { target: ELEMENT_ARRAY_BUFFER, buffer: 6 },
        ]
    );
}

#[test]
fn unbind_binds_nothing_where_bind_bound() {
    assert_eq!(
        triangle().unbind(),
        vec![Command::UseProgram { program: 0 }, Command::BindVertexArray { array: 0 }]
    );
    assert_eq!(
        square().unbind(),
        vec![
            Command::UseProgram { program: 0 },
            Command::BindVertexArray { array: 0 },
            Command::BindBuffer { target: ELEMENT_ARRAY_BUFFER, buffer: 0 },
        ]
    );
    assert_eq!(
        textured().unbind(),
        vec![
            Command::UseProgram { program: 0 },
            Command::BindTexture { target: TEXTURE_2D, texture: 0 },
            Command::BindVertexArray { array: 0 },
            Command::BindBuffer { target: ELEMENT_ARRAY_BUFFER, buffer: 0 },
        ]
    );
}

#[test]
fn draw_binds_clears_draws_and_unbinds() {
    let props = triangle();
    let mut expected = props.bind();
    expected.extend(clear());
    expected.push(Command::DrawArrays { mode: TRIANGLES, first: 0, count: 3 });
    expected.extend(props.unbind());
    assert_eq!(props.draw(), expected);
    for props in [square(), textured()] {
        let mut expected = props.bind();
        expected.extend(clear());
        expected.push(Command::DrawElements { mode: TRIANGLES, count: 6, kind: UNSIGNED_INT });
        expected.extend(props.unbind());
        assert_eq!(props.draw(), expected);
    }
}

#[test]
fn bind_then_unbind_restores_what_was_unbound() {
    for props in [triangle(), square(), textured()] {
        let mut bindings = Bindings::new();
        bindings.apply(&Command::BindBuffer { target: ARRAY_BUFFER, buffer: 11 });
        bindings.apply(&Command::ActiveTexture { texture: TEXTURE0 + 5 });
        bindings.apply(&Command::BindTexture { target: TEXTURE_2D, texture: 12 });
        bindings.apply(&Command::ActiveTexture { texture: TEXTURE0 });
        let mut after = Bindings::new();
        after.apply(&Command::BindBuffer { target: ARRAY_BUFFER, buffer: 11 });
        after.apply(&Command::ActiveTexture { texture: TEXTURE0 + 5 });
        after.apply(&Command::BindTexture { target: TEXTURE_2D, texture: 12 });
        after.apply(&Command::ActiveTexture { texture: TEXTURE0 });
        after.apply_all(&props.bind());
        assert_ne!(after, bindings);
        after.apply_all(&props.unbind());
        assert_eq!(after, bindings);
        after.apply_all(&props.draw());
        assert_eq!(after, bindings);
    }
}

#[test]
fn bind_then_unbind_leaves_nothing_of_what_was_bound_before() {
    let mut bindings = Bindings::new();
    bindings.apply(&Command::UseProgram { program: 21 });
    bindings.apply_all(&triangle().bind());
    bindings.apply_all(&triangle().unbind());
    assert_eq!(bindings, Bindings::new());
    let mut bindings = Bindings::new();
    bindings.apply(&Command::ActiveTexture { texture: TEXTURE0 + 3 });
    bindings.apply_all(&textured().bind());
    bindings.apply_all(&textured().unbind());
    assert_eq!(bindings, Bindings::new());
}

#[test]
fn snapshot_asks_for_frames_of_the_pulsing_square_only() {
    let mut props = square();
    for _ in 0..100 {
        assert!(props.snapshot().0);
    }
    let mut props = triangle();
    for _ in 0..100 {
        assert_eq!(props.snapshot(), (false, Vec::new()));
    }
    assert_eq!(props, triangle());
    let mut props = textured();
    for _ in 0..100 {
        assert_eq!(props.snapshot(), (false, Vec::new()));
    }
    assert_eq!(props, textured());
}

#[test]
fn snapshot_sends_the_colour_before_the_step() {
    let mut props = square();
    let uniform = |red: i32| {
        vec![
            Command::UseProgram { program: 3 },
            Command::Uniform4f {
                program: 3,
                name: b"u_color\0".to_vec(),
                v0: red,
                v1: 200,
                v2: 750,
                v3: 900,
            },
        ]
    };
    assert_eq!(props.snapshot(), (true, uniform(0)));
    assert_eq!(props.snapshot(), (true, uniform(50)));
    assert_eq!(props.snapshot(), (true, uniform(100)));
    assert_eq!(channel(&props), (150, 50));
}

#[test]
fn snapshot_runs_through_a_triangle_wave() {
    let mut props = square();
    let mut seen = Vec::new();
    for _ in 0..89 {
        seen.push(channel(&props));
        props.snapshot();
    }
    assert_eq!(seen[0], (0, 50));
    assert_eq!(seen[1], (50, 50));
    assert_eq!(seen[20], (1000, 50));
    assert_eq!(seen[21], (1050, 50));
    assert_eq!(seen[22], (1000, -50));
    assert_eq!(seen[42], (0, -50));
    assert_eq!(seen[43], (-50, -50));
    assert_eq!(seen[44], (0, 50));
    assert_eq!(seen[64], (1000, 50));
    assert_eq!(seen[88], (0, 50));
    for count in 0..45 {
        assert_eq!(seen[count + 44], seen[count]);
        let (level, _) = seen[count];
        assert!(-STEP <= level && level <= UNIT + STEP);
        let phase = count as i32 % 44;
        let wave = if phase <= 21 { 50 * phase } else { 2100 - 50 * phase };
        assert_eq!(level, wave);
    }
}

#[test]
fn snapshot_turns_at_the_ends_of_the_range() {
    let mut props = SampleProps::SimpleSquare {
        shader: Shader { program: 3 },
        vao: 4,
        vbo: 5,
        ibo: 6,
        color_channel: 1001,
        increment: STEP,
    };
    props.snapshot();
    assert_eq!(channel(&props), (951, -50));
    let mut props = SampleProps::SimpleSquare {
        shader: Shader { program: 3 },
        vao: 4,
        vbo: 5,
        ibo: 6,
        color_channel: -1,
        increment: -STEP,
    };
    props.snapshot();
    assert_eq!(channel(&props), (49, 50));
    let mut props = SampleProps::SimpleSquare {
        shader: Shader { program: 3 },
        vao: 4,
        vbo: 5,
        ibo: 6,
        color_channel: 1000,
        increment: STEP,
    };
    props.snapshot();
    assert_eq!(channel(&props), (1050, 50));
}

#[test]
fn drop_deletes_what_the_scene_owns() {
    let mut props = triangle();
    assert_eq!(
        props.drop(),
        vec![
            Command::DeleteProgram { program: 3 },
            Command::DeleteBuffer { buffer: 5 },
            Command::DeleteVertexArray { array: 4 },
        ]
    );
    assert_eq!(props, SampleProps::Destroyed);
    let mut props = square();
    assert_eq!(
        props.drop(),
        vec![
            Command::DeleteProgram { program: 3 },
            Command::DeleteBuffer { buffer: 5 },
            Command::DeleteBuffer { buffer: 6 },
            Command::DeleteVertexArray { array: 4 },
        ]
    );
    assert_eq!(props, SampleProps::Destroyed);
    let mut props = textured();
    assert_eq!(
        props.drop(),
        vec![
            Command::DeleteProgram { program: 3 },
            Command::DeleteTexture { texture: 7 },
            Command::DeleteBuffer { buffer: 5 },
            Command::DeleteBuffer { buffer: 6 },
            Command::DeleteVertexArray { array: 4 },
        ]
    );
    assert_eq!(props, SampleProps::Destroyed);
}
