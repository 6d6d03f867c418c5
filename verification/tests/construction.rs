use gl_samples::construction::{Construction, Reply, Request};
use gl_samples::error::Error;
use gl_samples::gpu::{
    Command, Yield, ARRAY_BUFFER, COMPILE_STATUS, ELEMENT_ARRAY_BUFFER, FLOAT, FRAGMENT_SHADER,
    INFO_LOG_LENGTH, ONE_MINUS_SRC_ALPHA, RGBA, RGBA8, SRC_ALPHA, STATIC_DRAW, TEXTURE_2D,
    UNSIGNED_BYTE, VERTEX_SHADER,
};
use gl_samples::samples::{Sample, SampleProps, STEP};
use gl_samples::shaders::{Shader, ShaderType};
use gl_samples::texture::{Image, Texture};
use std::io::Cursor;

struct Driver {
    files: Vec<(String, Vec<u8>)>,
    broken_shader: Option<u32>,
    log: Vec<u8>,
    next_name: u32,
    made: Vec<Command>,
    read: Vec<String>,
    live: Vec<String>,
    broken_names: Vec<u32>,
}

fn jpeg_picture() -> Vec<u8> {
    let picture = image::RgbaImage::from_pixel(4, 2, image::Rgba([200, 100, 50, 255]));
    let mut bytes = Vec::new();
    image::DynamicImage::ImageRgba8(picture)
        .write_to(&mut Cursor::new(&mut bytes), image::ImageOutputFormat::Jpeg(90))
        .unwrap();
    bytes
}

fn driver_with_all_files() -> Driver {
    let mut files = Vec::new();
    for name in ["basic.vs", "basic.fs", "basic_uniform.fs", "basic_texture.vs", "basic_texture.fs"]
    {
        files.push((format!("res/shaders/{name}"), format!("// {name}").into_bytes()));
    }
    files.push((String::from("res/textures/texture01.jpeg"), jpeg_picture()));
    Driver {
        files,
        broken_shader: None,
        log: Vec::new(),
        next_name: 1,
        made: Vec::new(),
        read: Vec::new(),
        live: Vec::new(),
        broken_names: Vec::new(),
    }
}

fn without_file(mut driver: Driver, path: &str) -> Driver {
    driver.files.retain(|(name, _)| name != path);
    driver
}

fn perform(driver: &mut Driver, request: &Request) -> Reply {
    match request {
        Request::Asset { path } => {
            driver.read.push(path.clone());
            match driver.files.iter().find(|(name, _)| name == path) {
                Some((_, bytes)) => Reply::Bytes(bytes.clone()),
                None => Reply::Missing,
            }
        }
        Request::Gpu(command) => {
            driver.made.push(command.duplicate());
            match command {
                Command::DeleteShader { shader } => forget(driver, format!("Shader {shader}")),
                Command::DeleteProgram { program } => forget(driver, format!("Program {program}")),
                Command::DeleteVertexArray { array } => {
                    forget(driver, format!("VertexArray {array}"))
                }
                Command::DeleteBuffer { buffer } => forget(driver, format!("Buffer {buffer}")),
                Command::DeleteTexture { texture } => forget(driver, format!("Texture {texture}")),
                _ => {}
            }
            match command.yields() {
                Yield::Nothing => Reply::Unit,
                Yield::Name(kind) => {
                    let name = driver.next_name;
                    driver.next_name += 1;
                    driver.live.push(format!("{kind:?} {name}"));
                    if let Command::CreateShader { kind } = command {
                        if Some(*kind) == driver.broken_shader {
                            driver.broken_names.push(name);
                        }
                    }
                    Reply::Name(name)
                }
                Yield::Integer => match command {
                    Command::GetShaderiv { shader, pname } if *pname == COMPILE_STATUS => {
                        Reply::Integer(if driver.broken_names.contains(shader) { 0 } else { 1 })
                    }
                    Command::GetShaderiv { pname, .. } if *pname == INFO_LOG_LENGTH => {
                        Reply::Integer(driver.log.len() as i32)
                    }
                    _ => panic!("unexpected query"),
                },
                Yield::Bytes => Reply::Bytes(driver.log.clone()),
            }
        }
    }
}

fn forget(driver: &mut Driver, object: String) {
    let at = driver.live.iter().position(|held| *held == object).expect("deleted what is not live");
    driver.live.remove(at);
}

fn build(driver: &mut Driver, sample: Sample) -> Result<SampleProps, Error> {
    let mut construction = sample.create();
    let mut steps = 0;
    while let Some(request) = construction.request() {
        let reply = perform(driver, &request);
        assert!(reply.answers(&request));
        assert!(construction.accepts(&reply));
        construction.advance(reply);
        steps += 1;
        assert!(steps < 1000);
    }
    construction.finish().expect("ended")
}

fn shader_calls(kind: u32, shader: u32, source: &str) -> Vec<Command> {
    let mut bytes = source.as_bytes().to_vec();
    bytes.push(0);
    vec![
        Command::CreateShader { kind },
        Command::ShaderSource { shader, source: bytes },
        Command::CompileShader { shader },
        Command::GetShaderiv { shader, pname: COMPILE_STATUS },
    ]
}

fn program_calls(vertex: &str, fragment: &str) -> Vec<Command> {
    let mut calls = vec![Command::BlendFunc { sfactor: SRC_ALPHA, dfactor: ONE_MINUS_SRC_ALPHA }];
    calls.extend(shader_calls(VERTEX_SHADER, 1, vertex));
    calls.extend(shader_calls(FRAGMENT_SHADER, 2, fragment));
    calls.extend(vec![
        Command::CreateProgram,
        Command::AttachShader { program: 3, shader: 1 },
        Command::AttachShader { program: 3, shader: 2 },
        Command::LinkProgram { program: 3 },
        Command::UseProgram { program: 3 },
        Command::DeleteShader { shader: 1 },
        Command::DeleteShader { shader: 2 },
    ]);
    calls
}

fn position_attribute(index: u32, stride: i32, offset: u32) -> Vec<Command> {
    vec![
        Command::EnableVertexAttribArray { index },
        Command::VertexAttribPointer {
            index,
            size: 2,
            kind: FLOAT,
            normalized: false,
            stride,
            offset,
        },
    ]
}

#[test]
fn triangle_is_built_call_by_call() {
    let mut driver = driver_with_all_files();
    let props = build(&mut driver, Sample::SimpleTriangle);
    assert_eq!(
        props,
        Ok(SampleProps::SimpleTriangle { shader: Shader { program: 3 }, vao: 4, vbo: 5 })
    );
    assert_eq!(driver.read, vec!["res/shaders/basic.vs", "res/shaders/basic.fs"]);
    let mut expected = program_calls("// basic.vs", "// basic.fs");
    expected.extend(vec![
        Command::GenVertexArray,
        Command::BindVertexArray { array: 4 },
        Command::GenBuffer,
        Command::BindBuffer { target: ARRAY_BUFFER, buffer: 5 },
        Command::BufferDataFloat {
            target: ARRAY_BUFFER,
            data: vec![-500, -500, 0, 500, 500, -500],
            usage: STATIC_DRAW,
        },
    ]);
    expected.extend(position_attribute(0, 8, 0));
    expected.extend(vec![
        Command::BindBuffer { target: ARRAY_BUFFER, buffer: 0 },
        Command::BindVertexArray { array: 0 },
        Command::UseProgram { program: 0 },
    ]);
    assert_eq!(driver.made, expected);
    assert_eq!(driver.live, vec!["Program 3", "VertexArray 4", "Buffer 5"]);
}

#[test]
fn square_is_built_call_by_call() {
    let mut driver = driver_with_all_files();
    let props = build(&mut driver, Sample::SimpleSquare);
    assert_eq!(
        props,
        Ok(SampleProps::SimpleSquare {
            shader: Shader { program: 3 },
            vao: 4,
            vbo: 5,
            ibo: 6,
            color_channel: 0,
            increment: STEP,
        })
    );
    assert_eq!(driver.read, vec!["res/shaders/basic.vs", "res/shaders/basic_uniform.fs"]);
    let mut expected = program_calls("// basic.vs", "// basic_uniform.fs");
    expected.extend(vec![
        Command::GenVertexArray,
        Command::BindVertexArray { array: 4 },
        Command::GenBuffer,
        Command::BindBuffer { target: ARRAY_BUFFER, buffer: 5 },
        Command::BufferDataFloat {
            target: ARRAY_BUFFER,
            data: vec![-500, -500, 500, -500, 500, 500, -500, 500],
            usage: STATIC_DRAW,
        },
    ]);
    expected.extend(position_attribute(0, 8, 0));
    expected.extend(vec![
        Command::GenBuffer,
        Command::BindBuffer { target: ELEMENT_ARRAY_BUFFER, buffer: 6 },
        Command::BufferDataUint {
            target: ELEMENT_ARRAY_BUFFER,
            data: vec![0, 1, 2, 2, 3, 0],
            usage: STATIC_DRAW,
        },
        Command::BindBuffer { target: ARRAY_BUFFER, buffer: 0 },
        Command::BindBuffer { target: ELEMENT_ARRAY_BUFFER, buffer: 0 },
        Command::BindVertexArray { array: 0 },
        Command::UseProgram { program: 0 },
    ]);
    assert_eq!(driver.made, expected);
    assert_eq!(driver.live, vec!["Program 3", "VertexArray 4", "Buffer 5", "Buffer 6"]);
}

#[test]
fn textured_square_is_built_call_by_call() {
    let mut driver = driver_with_all_files();
    let props = build(&mut driver, Sample::TexturedSquare);
    assert_eq!(
        props,
        Ok(SampleProps::TexturedSquare {
            shader: Shader { program: 3 },
            vao: 4,
            vbo: 5,
            ibo: 6,
            texture: Texture { id: 7, width: 4, height: 2 },
        })
    );
    assert_eq!(
        driver.read,
        vec![
            "res/shaders/basic_texture.vs",
            "res/shaders/basic_texture.fs",
            "res/textures/texture01.jpeg",
        ]
    );
    let picture = Image::decode("res/textures/texture01.jpeg", &jpeg_picture()).unwrap();
    assert_eq!(picture.pixels.len(), 32);
    let mut expected = program_calls("// basic_texture.vs", "// basic_texture.fs");
    expected.extend(vec![
        Command::GenVertexArray,
        Command::BindVertexArray { array: 4 },
        Command::GenBuffer,
        Command::BindBuffer { target: ARRAY_BUFFER, buffer: 5 },
        Command::BufferDataFloat {
            target: ARRAY_BUFFER,
            data: vec![
                -500, -500, 0, 0, 500, -500, 1000, 0, 500, 500, 1000, 1000, -500, 500, 0, 1000,
            ],
            usage: STATIC_DRAW,
        },
    ]);
    expected.extend(position_attribute(0, 16, 0));
    expected.extend(position_attribute(1, 16, 8));
    expected.extend(vec![
        Command::GenBuffer,
        Command::BindBuffer { target: ELEMENT_ARRAY_BUFFER, buffer: 6 },
        Command::BufferDataUint {
            target: ELEMENT_ARRAY_BUFFER,
            data: vec![0, 1, 2, 2, 3, 0],
            usage: STATIC_DRAW,
        },
        Command::GenTexture,
        Command::BindTexture { target: TEXTURE_2D, texture: 7 },
        Command::TexParameteri {
            target: TEXTURE_2D,
            pname: gl::TEXTURE_MIN_FILTER,
            param: gl::LINEAR,
        },
        Command::TexParameteri {
            target: TEXTURE_2D,
            pname: gl::TEXTURE_MAG_FILTER,
            param: gl::LINEAR,
        },
        Command::TexParameteri {
            target: TEXTURE_2D,
            pname: gl::TEXTURE_WRAP_S,
            param: gl::CLAMP_TO_EDGE,
        },
        Command::TexParameteri {
            target: TEXTURE_2D,
            pname: gl::TEXTURE_WRAP_T,
            param: gl::CLAMP_TO_EDGE,
        },
        Command::TexImage2D {
            target: TEXTURE_2D,
            level: 0,
            internal_format: RGBA8,
            width: 4,
            height: 2,
            border: 0,
            format: RGBA,
            kind: UNSIGNED_BYTE,
            pixels: picture.pixels,
        },
        Command::BindTexture { target: TEXTURE_2D, texture: 0 },
        Command::UseProgram { program: 3 },
        Command::UniformMatrix4fv {
            program: 3,
            name: b"u_proj\0".to_vec(),
            transpose: false,
            matrix: gl_samples::gpu::Ortho {
                left: -1600,
                right: 1600,
                bottom: -1175,
                top: 1175,
                znear: -1000,
                zfar: 1000,
            },
        },
        Command::BindBuffer { target: ARRAY_BUFFER, buffer: 0 },
        Command::BindBuffer { target: ELEMENT_ARRAY_BUFFER, buffer: 0 },
        Command::BindVertexArray { array: 0 },
        Command::UseProgram { program: 0 },
    ]);
    assert_eq!(driver.made, expected);
    assert_eq!(
        driver.live,
        vec!["Program 3", "VertexArray 4", "Buffer 5", "Buffer 6", "Texture 7"]
    );
}

#[test]
fn built_scene_owns_what_is_live_and_drop_deletes_it() {
    for sample in [Sample::SimpleTriangle, Sample::SimpleSquare, Sample::TexturedSquare] {
        let mut driver = driver_with_all_files();
        let mut props = build(&mut driver, sample).unwrap();
        assert!(!driver.live.is_empty());
        for command in props.drop() {
            perform(&mut driver, &Request::Gpu(command));
        }
        assert_eq!(driver.live, Vec::<String>::new());
        assert_eq!(props, SampleProps::Destroyed);
    }
}

#[test]
fn missing_vertex_source_ends_the_construction_at_once() {
    let mut driver = without_file(driver_with_all_files(), "res/shaders/basic.vs");
    let props = build(&mut driver, Sample::SimpleTriangle);
    assert_eq!(props, Err(Error::AssetNotFound { path: String::from("res/shaders/basic.vs") }));
    assert_eq!(
        driver.made,
        vec![Command::BlendFunc { sfactor: SRC_ALPHA, dfactor: ONE_MINUS_SRC_ALPHA }]
    );
    assert_eq!(driver.live, Vec::<String>::new());
}

#[test]
fn missing_fragment_source_has_the_vertex_shader_deleted() {
    let mut driver = without_file(driver_with_all_files(), "res/shaders/basic_uniform.fs");
    let props = build(&mut driver, Sample::SimpleSquare);
    assert_eq!(
        props,
        Err(Error::AssetNotFound { path: String::from("res/shaders/basic_uniform.fs") })
    );
    assert_eq!(driver.made.last(), Some(&Command::DeleteShader { shader: 1 }));
    assert_eq!(driver.made.len(), 6);
    assert_eq!(driver.live, Vec::<String>::new());
}

#[test]
fn missing_texture_has_everything_deleted_last_made_first() {
    let mut driver = without_file(driver_with_all_files(), "res/textures/texture01.jpeg");
    let props = build(&mut driver, Sample::TexturedSquare);
    assert_eq!(
        props,
        Err(Error::AssetNotFound { path: String::from("res/textures/texture01.jpeg") })
    );
    let count = driver.made.len();
    assert_eq!(
        driver.made[count - 4..],
        vec![
            Command::DeleteBuffer { buffer: 6 },
            Command::DeleteBuffer { buffer: 5 },
            Command::DeleteVertexArray { array: 4 },
            Command::DeleteProgram { program: 3 },
        ]
    );
    assert!(!driver.made.contains(&Command::GenTexture));
    assert_eq!(driver.live, Vec::<String>::new());
}

#[test]
fn texture_that_is_no_picture_ends_the_construction() {
    let mut driver = without_file(driver_with_all_files(), "res/textures/texture01.jpeg");
    driver.files.push((String::from("res/textures/texture01.jpeg"), vec![1, 2, 3, 4]));
    let props = build(&mut driver, Sample::TexturedSquare);
    assert_eq!(
        props,
        Err(Error::AssetNotFound { path: String::from("res/textures/texture01.jpeg") })
    );
    assert_eq!(driver.live, Vec::<String>::new());
}

#[test]
fn vertex_shader_that_does_not_compile_is_reported_with_its_log() {
    let mut driver = driver_with_all_files();
    driver.broken_shader = Some(VERTEX_SHADER);
    driver.log = b"0:1: syntax error\0".to_vec();
    let props = build(&mut driver, Sample::SimpleTriangle);
    assert_eq!(
        props,
        Err(Error::ShaderCompileFailed {
            stage: ShaderType::Vertex,
            log: b"0:1: syntax error\0".to_vec(),
        })
    );
    let mut expected =
        vec![Command::BlendFunc { sfactor: SRC_ALPHA, dfactor: ONE_MINUS_SRC_ALPHA }];
    expected.extend(shader_calls(VERTEX_SHADER, 1, "// basic.vs"));
    expected.extend(vec![
        Command::GetShaderiv { shader: 1, pname: INFO_LOG_LENGTH },
        Command::GetShaderInfoLog { shader: 1, capacity: 18 },
        Command::DeleteShader { shader: 1 },
    ]);
    assert_eq!(driver.made, expected);
    assert_eq!(driver.live, Vec::<String>::new());
}

#[test]
fn fragment_shader_that_does_not_compile_has_both_shaders_deleted() {
    let mut driver = driver_with_all_files();
    driver.broken_shader = Some(FRAGMENT_SHADER);
    driver.log = b"bad".to_vec();
    let props = build(&mut driver, Sample::TexturedSquare);
    assert_eq!(
        props,
        Err(Error::ShaderCompileFailed { stage: ShaderType::Fragment, log: b"bad".to_vec() })
    );
    let count = driver.made.len();
    assert_eq!(
        driver.made[count - 4..],
        vec![
            Command::GetShaderiv { shader: 2, pname: INFO_LOG_LENGTH },
            Command::GetShaderInfoLog { shader: 2, capacity: 3 },
            Command::DeleteShader { shader: 2 },
            Command::DeleteShader { shader: 1 },
        ]
    );
    assert_eq!(driver.live, Vec::<String>::new());
}

#[test]
fn log_of_a_negative_length_is_asked_for_with_no_capacity() {
    let mut construction = Sample::SimpleTriangle.create();
    for reply in [Reply::Unit, Reply::Bytes(Vec::new()), Reply::Name(1), Reply::Unit, Reply::Unit] {
        construction.advance(reply);
    }
    assert_eq!(
        construction.request(),
        Some(Request::Gpu(Command::GetShaderiv { shader: 1, pname: COMPILE_STATUS }))
    );
    construction.advance(Reply::Integer(0));
    assert_eq!(
        construction.request(),
        Some(Request::Gpu(Command::GetShaderiv { shader: 1, pname: INFO_LOG_LENGTH }))
    );
    construction.advance(Reply::Integer(-7));
    assert_eq!(
        construction.request(),
        Some(Request::Gpu(Command::GetShaderInfoLog { shader: 1, capacity: 0 }))
    );
    construction.advance(Reply::Bytes(Vec::new()));
    assert_eq!(construction.request(), Some(Request::Gpu(Command::DeleteShader { shader: 1 })));
    construction.advance(Reply::Unit);
    assert_eq!(
        construction.finish(),
        Some(Err(Error::ShaderCompileFailed { stage: ShaderType::Vertex, log: Vec::new() }))
    );
}

fn until_the_image(driver: &mut Driver) -> Construction {
    let mut construction = Sample::TexturedSquare.create();
    loop {
        let request = construction.request().expect("the image is asked for");
        if request == (Request::Asset { path: String::from("res/textures/texture01.jpeg") }) {
            return construction;
        }
        let reply = perform(driver, &request);
        construction.advance(reply);
    }
}

fn perform_again(request: &Request) -> Request {
    match request {
        Request::Gpu(command) => Request::Gpu(command.duplicate()),
        Request::Asset { path } => Request::Asset { path: path.clone() },
    }
}

fn reply_again(reply: &Reply) -> Reply {
    match reply {
        Reply::Unit => Reply::Unit,
        Reply::Name(name) => Reply::Name(*name),
        Reply::Integer(value) => Reply::Integer(*value),
        Reply::Bytes(bytes) => Reply::Bytes(bytes.clone()),
        Reply::Picture(image) => Reply::Picture(Image {
            width: image.width,
            height: image.height,
            pixels: image.pixels.clone(),
        }),
        Reply::Missing => Reply::Missing,
    }
}

fn to_the_end_unchecked(driver: &mut Driver, mut construction: Construction) -> Construction {
    while let Some(request) = construction.request() {
        let reply = perform(driver, &request);
        construction.advance(reply);
    }
    construction
}

fn to_the_end(driver: &mut Driver, mut construction: Construction) -> Result<SampleProps, Error> {
    while let Some(request) = construction.request() {
        let reply = perform(driver, &request);
        construction.advance(reply);
    }
    construction.finish().expect("ended")
}

#[test]
fn picture_that_comes_decoded_is_taken_as_it_is() {
    let mut driver = driver_with_all_files();
    let mut construction = until_the_image(&mut driver);
    let pixels = vec![1, 2, 3, 4, 5, 6, 7, 8, 9, 10, 11, 12];
    construction.advance(Reply::Picture(Image { width: 3, height: 1, pixels: pixels.clone() }));
    assert_eq!(construction.request(), Some(Request::Gpu(Command::GenTexture)));
    let props = to_the_end(&mut driver, construction);
    assert_eq!(
        props,
        Ok(SampleProps::TexturedSquare {
            shader: Shader { program: 3 },
            vao: 4,
            vbo: 5,
            ibo: 6,
            texture: Texture { id: 7, width: 3, height: 1 },
        })
    );
    assert!(driver.made.contains(&Command::TexImage2D {
        target: TEXTURE_2D,
        level: 0,
        internal_format: RGBA8,
        width: 3,
        height: 1,
        border: 0,
        format: RGBA,
        kind: UNSIGNED_BYTE,
        pixels,
    }));
}

#[test]
fn picture_without_four_bytes_a_pixel_ends_the_construction() {
    let mut driver = driver_with_all_files();
    let mut construction = until_the_image(&mut driver);
    construction.advance(Reply::Picture(Image { width: 3, height: 1, pixels: vec![0; 11] }));
    assert_eq!(construction.request(), Some(Request::Gpu(Command::DeleteBuffer { buffer: 6 })));
    assert_eq!(
        to_the_end(&mut driver, construction),
        Err(Error::AssetNotFound { path: String::from("res/textures/texture01.jpeg") })
    );
    assert_eq!(driver.live, Vec::<String>::new());
}

#[test]
fn bytes_of_an_image_are_decoded_on_the_way_in() {
    let mut driver = driver_with_all_files();
    let mut by_bytes = until_the_image(&mut driver);
    by_bytes.advance(Reply::Bytes(jpeg_picture()));
    let mut driver = driver_with_all_files();
    let mut by_picture = until_the_image(&mut driver);
    let picture = Image::decode("res/textures/texture01.jpeg", &jpeg_picture()).unwrap();
    by_picture.advance(Reply::Picture(picture));
    let mut driver = driver_with_all_files();
    for _ in 0..7 {
        let request = by_bytes.request().expect("the texture is still to be made");
        assert_eq!(by_picture.request(), Some(perform_again(&request)));
        let reply = perform(&mut driver, &request);
        by_picture.advance(reply_again(&reply));
        by_bytes.advance(reply);
    }
}

#[test]
fn finish_gives_nothing_while_a_request_is_open() {
    let construction = Sample::SimpleTriangle.create();
    assert_eq!(
        construction.request(),
        Some(Request::Gpu(Command::BlendFunc { sfactor: SRC_ALPHA, dfactor: ONE_MINUS_SRC_ALPHA }))
    );
    assert_eq!(construction.finish(), None);
    let mut construction = Construction::new(Sample::SimpleSquare);
    construction.advance(Reply::Unit);
    assert_eq!(
        construction.request(),
        Some(Request::Asset { path: String::from("res/shaders/basic.vs") })
    );
    assert_eq!(construction.finish(), None);
}

#[test]
fn request_stays_the_same_until_it_is_answered() {
    let mut construction = Sample::SimpleTriangle.create();
    assert_eq!(construction.request(), construction.request());
    construction.advance(Reply::Unit);
    construction.advance(Reply::Bytes(b"void main() {}".to_vec()));
    construction.advance(Reply::Name(8));
    let source = Request::Gpu(Command::ShaderSource {
        shader: 8,
        source: b"void main() {}\0".to_vec(),
    });
    assert_eq!(construction.request(), Some(source));
    assert_eq!(construction.request(), construction.request());
}

#[test]
fn advance_after_the_end_changes_nothing() {
    let mut driver = driver_with_all_files();
    let mut construction = Sample::SimpleTriangle.create();
    while let Some(request) = construction.request() {
        let reply = perform(&mut driver, &request);
        construction.advance(reply);
    }
    construction.advance(Reply::Name(99));
    construction.advance(Reply::Missing);
    assert_eq!(construction.request(), None);
    assert_eq!(
        construction.finish(),
        Some(Ok(SampleProps::SimpleTriangle { shader: Shader { program: 3 }, vao: 4, vbo: 5 }))
    );
}

#[test]
fn accepts_takes_only_what_fits_the_open_request() {
    let mut construction = Sample::TexturedSquare.create();
    assert!(construction.accepts(&Reply::Unit));
    assert!(!construction.accepts(&Reply::Name(1)));
    assert!(!construction.accepts(&Reply::Missing));
    construction.advance(Reply::Unit);
    assert!(construction.accepts(&Reply::Bytes(Vec::new())));
    assert!(construction.accepts(&Reply::Missing));
    assert!(!construction.accepts(&Reply::Unit));
    assert!(!construction.accepts(&Reply::Picture(Image {
        width: 0,
        height: 0,
        pixels: Vec::new()
    })));
    construction.advance(Reply::Bytes(Vec::new()));
    assert!(construction.accepts(&Reply::Name(0)));
    assert!(!construction.accepts(&Reply::Integer(0)));
    let mut driver = driver_with_all_files();
    let at_the_image = until_the_image(&mut driver);
    assert!(at_the_image.accepts(&Reply::Picture(Image {
        width: 0,
        height: 0,
        pixels: Vec::new()
    })));
    assert!(at_the_image.accepts(&Reply::Bytes(vec![1, 2, 3])));
    assert!(at_the_image.accepts(&Reply::Missing));
    assert!(!at_the_image.accepts(&Reply::Name(3)));
    let ended = to_the_end_unchecked(&mut driver, at_the_image);
    assert!(ended.accepts(&Reply::Name(3)));
    assert!(ended.accepts(&Reply::Unit));
}

#[test]
fn answers_goes_by_what_the_request_gives_back() {
    let names = Request::Gpu(Command::GenBuffer);
    let nothing = Request::Gpu(Command::LinkProgram { program: 1 });
    let status = Request::Gpu(Command::GetShaderiv { shader: 1, pname: COMPILE_STATUS });
    let log = Request::Gpu(Command::GetShaderInfoLog { shader: 1, capacity: 4 });
    let file = Request::Asset { path: String::from("res/shaders/basic.vs") };
    assert!(Reply::Name(4).answers(&names));
    assert!(!Reply::Unit.answers(&names));
    assert!(Reply::Unit.answers(&nothing));
    assert!(!Reply::Name(1).answers(&nothing));
    assert!(Reply::Integer(0).answers(&status));
    assert!(!Reply::Bytes(Vec::new()).answers(&status));
    assert!(Reply::Bytes(Vec::new()).answers(&log));
    assert!(!Reply::Integer(0).answers(&log));
    assert!(Reply::Bytes(vec![1]).answers(&file));
    assert!(Reply::Picture(Image { width: 0, height: 0, pixels: Vec::new() }).answers(&file));
    assert!(!Reply::Picture(Image { width: 0, height: 0, pixels: Vec::new() }).answers(&nothing));
    assert!(Reply::Missing.answers(&file));
    assert!(!Reply::Unit.answers(&file));
    assert!(!Reply::Missing.answers(&nothing));
}
