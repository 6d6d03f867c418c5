use gl_samples::bindings::Bindings;
use gl_samples::gpu::{
    Command, ObjectKind, Yield, ARRAY_BUFFER, CLAMP_TO_EDGE, COLOR_BUFFER_BIT, COMPILE_STATUS,
    ELEMENT_ARRAY_BUFFER, FALSE, FLOAT, FRAGMENT_SHADER, INFO_LOG_LENGTH, LINEAR,
    ONE_MINUS_SRC_ALPHA, RGBA, RGBA8, SRC_ALPHA, STATIC_DRAW, TEXTURE0, TEXTURE_2D,
    TEXTURE_MAG_FILTER, TEXTURE_MIN_FILTER, TEXTURE_UNITS, TEXTURE_WRAP_S, TEXTURE_WRAP_T,
    TRIANGLES, UNSIGNED_BYTE, UNSIGNED_INT, VERTEX_SHADER,
};

#[test]
fn constants_are_those_of_the_gl_headers() {
    assert_eq!(SRC_ALPHA, gl::SRC_ALPHA);
    assert_eq!(ONE_MINUS_SRC_ALPHA, gl::ONE_MINUS_SRC_ALPHA);
    assert_eq!(VERTEX_SHADER, gl::VERTEX_SHADER);
    assert_eq!(FRAGMENT_SHADER, gl::FRAGMENT_SHADER);
    assert_eq!(COMPILE_STATUS, gl::COMPILE_STATUS);
    assert_eq!(INFO_LOG_LENGTH, gl::INFO_LOG_LENGTH);
    assert_eq!(ARRAY_BUFFER, gl::ARRAY_BUFFER);
    assert_eq!(ELEMENT_ARRAY_BUFFER, gl::ELEMENT_ARRAY_BUFFER);
    assert_eq!(STATIC_DRAW, gl::STATIC_DRAW);
    assert_eq!(FLOAT, gl::FLOAT);
    assert_eq!(UNSIGNED_INT, gl::UNSIGNED_INT);
    assert_eq!(UNSIGNED_BYTE, gl::UNSIGNED_BYTE);
    assert_eq!(TRIANGLES, gl::TRIANGLES);
    assert_eq!(COLOR_BUFFER_BIT, gl::COLOR_BUFFER_BIT);
    assert_eq!(TEXTURE_2D, gl::TEXTURE_2D);
    assert_eq!(TEXTURE_MIN_FILTER, gl::TEXTURE_MIN_FILTER);
    assert_eq!(TEXTURE_MAG_FILTER, gl::TEXTURE_MAG_FILTER);
    assert_eq!(TEXTURE_WRAP_S, gl::TEXTURE_WRAP_S);
    assert_eq!(TEXTURE_WRAP_T, gl::TEXTURE_WRAP_T);
    assert_eq!(LINEAR, gl::LINEAR);
    assert_eq!(CLAMP_TO_EDGE, gl::CLAMP_TO_EDGE);
    assert_eq!(RGBA8, gl::RGBA8);
    assert_eq!(RGBA, gl::RGBA);
    assert_eq!(TEXTURE0, gl::TEXTURE0);
    assert_eq!(FALSE, i32::from(gl::FALSE));
    assert_eq!(TEXTURE_UNITS, 32);
}

#[test]
fn yields_tells_which_calls_give_something_back() {
    assert_eq!(
        Command::CreateShader { kind: VERTEX_SHADER }.yields(),
        Yield::Name(ObjectKind::Shader)
    );
    assert_eq!(Command::CreateProgram.yields(), Yield::Name(ObjectKind::Program));
    assert_eq!(Command::GenVertexArray.yields(), Yield::Name(ObjectKind::VertexArray));
    assert_eq!(Command::GenBuffer.yields(), Yield::Name(ObjectKind::Buffer));
    assert_eq!(Command::GenTexture.yields(), Yield::Name(ObjectKind::Texture));
    assert_eq!(Command::GetShaderiv { shader: 1, pname: COMPILE_STATUS }.yields(), Yield::Integer);
    assert_eq!(Command::GetShaderInfoLog { shader: 1, capacity: 9 }.yields(), Yield::Bytes);
    assert_eq!(Command::UseProgram { program: 1 }.yields(), Yield::Nothing);
    assert_eq!(Command::DeleteBuffer { buffer: 1 }.yields(), Yield::Nothing);
    assert_eq!(Command::Clear { mask: COLOR_BUFFER_BIT }.yields(), Yield::Nothing);
}

#[test]
fn duplicate_gives_an_equal_command() {
    let commands = vec![
        Command::ShaderSource { shader: 4, source: vec![1, 2, 0] },
        Command::BufferDataFloat {
            target: ARRAY_BUFFER,
            data: vec![-500, 500],
            usage: STATIC_DRAW,
        },
        Command::BufferDataUint {
            target: ELEMENT_ARRAY_BUFFER,
            data: vec![0, 1, 2],
            usage: STATIC_DRAW,
        },
        Command::TexImage2D {
            target: TEXTURE_2D,
            level: 0,
            internal_format: RGBA8,
            width: 1,
            height: 1,
            border: 0,
            format: RGBA,
            kind: UNSIGNED_BYTE,
            pixels: vec![1, 2, 3, 4],
        },
        Command::Uniform1i { program: 2, name: b"u\0".to_vec(), v0: 1 },
        Command::DrawElements { mode: TRIANGLES, count: 6, kind: UNSIGNED_INT },
        Command::Viewport { x: 0, y: 0, width: 800, height: 600 },
        Command::CreateProgram,
    ];
    for command in &commands {
        assert_eq!(&command.duplicate(), command);
    }
}

#[test]
fn bindings_start_with_nothing_bound() {
    let bindings = Bindings::new();
    assert_eq!(bindings.program, 0);
    assert_eq!(bindings.vertex_array, 0);
    assert_eq!(bindings.array_buffer, 0);
    assert_eq!(bindings.element_array_buffer, 0);
    assert_eq!(bindings.active_unit, 0);
    assert_eq!(bindings.textures, vec![0; 32]);
}

#[test]
fn bindings_follow_the_binding_calls() {
    let mut bindings = Bindings::new();
    bindings.apply(&Command::UseProgram { program: 3 });
    bindings.apply(&Command::BindVertexArray { array: 4 });
    bindings.apply(&Command::BindBuffer { target: ARRAY_BUFFER, buffer: 5 });
    bindings.apply(&Command::BindBuffer { target: ELEMENT_ARRAY_BUFFER, buffer: 6 });
    bindings.apply(&Command::ActiveTexture { texture: TEXTURE0 + 2 });
    bindings.apply(&Command::BindTexture { target: TEXTURE_2D, texture: 7 });
    assert_eq!(bindings.program, 3);
    assert_eq!(bindings.vertex_array, 4);
    assert_eq!(bindings.array_buffer, 5);
    assert_eq!(bindings.element_array_buffer, 6);
    assert_eq!(bindings.active_unit, 2);
    let mut textures = vec![0; 32];
    textures[2] = 7;
    assert_eq!(bindings.textures, textures);
}

#[test]
fn bindings_ignore_calls_that_bind_nothing() {
    let mut bindings = Bindings::new();
    bindings.apply(&Command::UseProgram { program: 3 });
    let before = Bindings {
        program: 3,
        vertex_array: 0,
        array_buffer: 0,
        element_array_buffer: 0,
        active_unit: 0,
        textures: vec![0; 32],
    };
    bindings.apply(&Command::Clear { mask: COLOR_BUFFER_BIT });
    bindings.apply(&Command::DrawArrays { mode: TRIANGLES, first: 0, count: 3 });
    bindings.apply(&Command::BindBuffer { target: 0x8C8E, buffer: 9 });
    bindings.apply(&Command::BindTexture { target: 0x8513, texture: 9 });
    bindings.apply(&Command::ActiveTexture { texture: TEXTURE0 + 32 });
    bindings.apply(&Command::ActiveTexture { texture: TEXTURE0 - 1 });
    bindings.apply(&Command::DeleteProgram { program: 3 });
    assert_eq!(bindings, before);
}

#[test]
fn bindings_apply_all_is_apply_in_order() {
    let commands = vec![
        Command::UseProgram { program: 1 },
        Command::UseProgram { program: 2 },
        Command::ActiveTexture { texture: TEXTURE0 + 31 },
        Command::BindTexture { target: TEXTURE_2D, texture: 8 },
        Command::ActiveTexture { texture: TEXTURE0 },
    ];
    let mut all = Bindings::new();
    all.apply_all(&commands);
    let mut one_by_one = Bindings::new();
    for command in &commands {
        one_by_one.apply(command);
    }
    assert_eq!(all, one_by_one);
    assert_eq!(all.program, 2);
    assert_eq!(all.textures[31], 8);
    assert_eq!(all.active_unit, 0);
}
