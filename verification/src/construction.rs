//! Building a scene, one request at a time.
//!
//! A [`Construction`] walks through the script of a scene. It says what it
//! needs next, a graphics call or the bytes of a file; the caller does that
//! and hands back what came of it. When a file is missing or a shader does
//! not compile, the construction gives up: it has every object deleted that
//! was made so far, and ends with the error.
//!
//! The bytes of an image file are decoded on the way in. Which picture
//! the decoder makes of them is not for this crate to say, so the picture
//! counts as part of the reply: what is stated of a construction is stated
//! for every picture that could have come back.
use crate::error::{Error, ErrorView};
use crate::gpu::{
    deleted, Command, CommandView, Object, Yield, COMPILE_STATUS, FALSE, FRAGMENT_SHADER,
    INFO_LOG_LENGTH, RGBA, RGBA8, TEXTURE_2D, UNSIGNED_BYTE, VERTEX_SHADER,
};
use crate::jpeg::lossless_jpeg;
use crate::samples::{
    lemma_drop_releases_handles, lemma_script_sound, Sample, SampleProps, STEP,
};
use crate::script::{
    filled_after, lemma_filled_after_next, lemma_filled_after_prefix, lemma_held_put_none,
    lemma_held_put_some, lines, matrices_set, uints_uploaded, Names, Slot, Step, StepView,
};
use crate::shaders::{Shader, ShaderType};
use crate::texture::{Image, ImageView, Texture};
use vstd::multiset::Multiset;
use vstd::prelude::*;

verus! {

/// What a construction asks of its caller.
#[derive(Debug, PartialEq, Eq)]
pub enum Request {
    /// Make this call and hand back what it gives.
    Gpu(Command),
    /// Read the file at `path` and hand back its bytes.
    Asset { path: String },
}

/// A [`Request`] as a mathematical value.
pub enum RequestView {
    Gpu(CommandView),
    Asset { path: Seq<char> },
}

impl View for Request {
    type V = RequestView;

    open spec fn view(&self) -> RequestView {
        match *self {
            Request::Gpu(command) => RequestView::Gpu(command@),
            Request::Asset { path } => RequestView::Asset { path: path@ },
        }
    }
}

/// What came of a request.
#[derive(Debug, PartialEq, Eq)]
pub enum Reply {
    /// The call was made and gives nothing back.
    Unit,
    /// The name of the object that the call made.
    Name(u32),
    /// The integer that the call asked for.
    Integer(i32),
    /// The bytes of the file, or of the log.
    Bytes(Vec<u8>),
    /// The image file, decoded and upside down, as a texture takes it.
    Picture(Image),
    /// The file could not be read, or could not be decoded.
    Missing,
}

/// A [`Reply`] as a mathematical value.
pub enum ReplyView {
    Unit,
    Name(u32),
    Integer(i32),
    Bytes(Seq<u8>),
    Picture(ImageView),
    Missing,
}

impl View for Reply {
    type V = ReplyView;

    open spec fn view(&self) -> ReplyView {
        match *self {
            Reply::Unit => ReplyView::Unit,
            Reply::Name(name) => ReplyView::Name(name),
            Reply::Integer(value) => ReplyView::Integer(value),
            Reply::Bytes(bytes) => ReplyView::Bytes(bytes@),
            Reply::Picture(image) => ReplyView::Picture(image@),
            Reply::Missing => ReplyView::Missing,
        }
    }
}

impl ReplyView {
    /// The reply is of the kind that the request calls for.
    pub open spec fn answers(self, request: RequestView) -> bool {
        match request {
            RequestView::Gpu(command) => match command.yields() {
                Yield::Nothing => self is Unit,
                Yield::Name(_) => self is Name,
                Yield::Integer => self is Integer,
                Yield::Bytes => self is Bytes,
            },
            RequestView::Asset { .. } => self is Bytes || self is Picture || self is Missing,
        }
    }
}

impl Reply {
    /// Whether the reply is of the kind that the request calls for.
    pub fn answers(&self, request: &Request) -> (fits: bool)
        ensures
            fits == self@.answers(request@),
    {
        match request {
            Request::Gpu(command) => match command.yields() {
                Yield::Nothing => matches!(self, Reply::Unit),
                Yield::Name(_) => matches!(self, Reply::Name(_)),
                Yield::Integer => matches!(self, Reply::Integer(_)),
                Yield::Bytes => matches!(self, Reply::Bytes(_)),
            },
            Request::Asset { .. } => matches!(self, Reply::Bytes(_)) || matches!(
                self,
                Reply::Picture(_)
            ) || matches!(self, Reply::Missing),
        }
    }
}

/// Where a construction stands.
#[derive(Clone, Copy, Debug, PartialEq, Eq)]
pub enum Phase {
    /// Working through the script.
    Running,
    /// A shader did not compile; the length of its log is asked for.
    LogLength(ShaderType),
    /// The log itself is asked for, `capacity` bytes of it at most.
    Log { stage: ShaderType, capacity: i32 },
    /// Given up: what was made is being deleted.
    Unwinding,
}

/// The call that has the driver make the object for `slot`.
pub open spec fn create_command(slot: Slot) -> CommandView {
    match slot {
        Slot::VertexShader => CommandView::CreateShader { kind: VERTEX_SHADER },
        Slot::FragmentShader => CommandView::CreateShader { kind: FRAGMENT_SHADER },
        Slot::Program => CommandView::CreateProgram,
        Slot::VertexArray => CommandView::GenVertexArray,
        Slot::VertexBuffer | Slot::IndexBuffer => CommandView::GenBuffer,
        Slot::Texture => CommandView::GenTexture,
    }
}

/// The call that deletes the object of `slot`, whose name is `name`.
pub open spec fn delete_command(slot: Slot, name: u32) -> CommandView {
    match slot {
        Slot::VertexShader | Slot::FragmentShader => CommandView::DeleteShader { shader: name },
        Slot::Program => CommandView::DeleteProgram { program: name },
        Slot::VertexArray => CommandView::DeleteVertexArray { array: name },
        Slot::VertexBuffer | Slot::IndexBuffer => CommandView::DeleteBuffer { buffer: name },
        Slot::Texture => CommandView::DeleteTexture { texture: name },
    }
}

/// A [`Construction`] as a mathematical value.
pub struct Model {
    pub sample: Sample,
    pub script: Seq<StepView>,
    /// How many steps of the script are done.
    pub pc: nat,
    pub names: Names,
    pub vertex_source: Seq<u8>,
    pub fragment_source: Seq<u8>,
    pub image: Option<ImageView>,
    pub phase: Phase,
    /// Why the construction was given up, once it was.
    pub failure: Option<ErrorView>,
}

impl Model {
    /// The construction of `sample` before anything is done.
    pub open spec fn start(sample: Sample) -> Model {
        Model {
            sample,
            script: sample.script(),
            pc: 0,
            names: Names::none(),
            vertex_source: seq![],
            fragment_source: seq![],
            image: None,
            phase: Phase::Running,
            failure: None,
        }
    }

    /// The source that was read for `stage`.
    pub open spec fn source(self, stage: ShaderType) -> Seq<u8> {
        match stage {
            ShaderType::Vertex => self.vertex_source,
            ShaderType::Fragment => self.fragment_source,
        }
    }

    /// The image upload, with the image that was read; an empty image where
    /// none was.
    pub open spec fn upload(self) -> CommandView {
        let image = match self.image {
            Some(image) => image,
            None => ImageView { width: 0, height: 0, pixels: seq![] },
        };
        CommandView::TexImage2D {
            target: TEXTURE_2D,
            level: 0,
            internal_format: RGBA8,
            width: image.width,
            height: image.height,
            border: 0,
            format: RGBA,
            kind: UNSIGNED_BYTE,
            pixels: image.pixels,
        }
    }

    /// The request that a step of the script stands for, with the names
    /// collected so far in the place of its slots.
    pub open spec fn resolve(self, step: StepView) -> RequestView {
        let program = self.names.name(Slot::Program);
        match step {
            StepView::Issue(command) => RequestView::Gpu(command),
            StepView::ReadSource { path, .. } => RequestView::Asset { path },
            StepView::ReadImage { path } => RequestView::Asset { path },
            StepView::Generate(slot) => RequestView::Gpu(create_command(slot)),
            StepView::ShaderSource(stage) => RequestView::Gpu(
                CommandView::ShaderSource {
                    shader: self.names.name(stage.slot()),
                    source: self.source(stage),
                },
            ),
            StepView::CompileShader(stage) => RequestView::Gpu(
                CommandView::CompileShader { shader: self.names.name(stage.slot()) },
            ),
            StepView::CheckCompiled(stage) => RequestView::Gpu(
                CommandView::GetShaderiv {
                    shader: self.names.name(stage.slot()),
                    pname: COMPILE_STATUS,
                },
            ),
            StepView::AttachShader(stage) => RequestView::Gpu(
                CommandView::AttachShader { program, shader: self.names.name(stage.slot()) },
            ),
            StepView::LinkProgram => RequestView::Gpu(CommandView::LinkProgram { program }),
            StepView::UseProgram => RequestView::Gpu(CommandView::UseProgram { program }),
            StepView::DeleteShader(stage) => RequestView::Gpu(
                CommandView::DeleteShader { shader: self.names.name(stage.slot()) },
            ),
            StepView::BindVertexArray => RequestView::Gpu(
                CommandView::BindVertexArray { array: self.names.name(Slot::VertexArray) },
            ),
            StepView::BindBuffer { target, slot } => RequestView::Gpu(
                CommandView::BindBuffer { target, buffer: self.names.name(slot) },
            ),
            StepView::BindTexture => RequestView::Gpu(
                CommandView::BindTexture {
                    target: TEXTURE_2D,
                    texture: self.names.name(Slot::Texture),
                },
            ),
            StepView::TexImage2D => RequestView::Gpu(self.upload()),
            StepView::UniformMatrix4fv { name, matrix } => RequestView::Gpu(
                CommandView::UniformMatrix4fv { program, name, transpose: false, matrix },
            ),
        }
    }

    /// What the construction needs next; nothing once it has ended.
    pub open spec fn request(self) -> Option<RequestView> {
        match self.phase {
            Phase::Running => if self.pc < self.script.len() {
                Some(self.resolve(self.script[self.pc as int]))
            } else {
                None
            },
            Phase::LogLength(stage) => Some(
                RequestView::Gpu(
                    CommandView::GetShaderiv {
                        shader: self.names.name(stage.slot()),
                        pname: INFO_LOG_LENGTH,
                    },
                ),
            ),
            Phase::Log { stage, capacity } => Some(
                RequestView::Gpu(
                    CommandView::GetShaderInfoLog {
                        shader: self.names.name(stage.slot()),
                        capacity,
                    },
                ),
            ),
            Phase::Unwinding => match self.names.first_held() {
                Some(slot) => Some(RequestView::Gpu(delete_command(slot, self.names.name(slot)))),
                None => None,
            },
        }
    }

    /// On to the next step of the script.
    pub open spec fn proceed(self) -> Model {
        Model { pc: self.pc + 1, ..self }
    }

    /// The construction is given up for `error`.
    pub open spec fn give_up(self, error: ErrorView) -> Model {
        Model { phase: Phase::Unwinding, failure: Some(error), ..self }
    }

    /// The construction with this source kept for `stage`.
    pub open spec fn with_source(self, stage: ShaderType, source: Seq<u8>) -> Model {
        match stage {
            ShaderType::Vertex => Model { vertex_source: source, ..self },
            ShaderType::Fragment => Model { fragment_source: source, ..self },
        }
    }

    /// The construction after the reply to the request of `step`. A name
    /// that comes back is kept. A source that was read is kept with a zero
    /// byte at its end, a picture as it is if it has four bytes for every
    /// pixel; a file that is missing, or a reply that is no such picture
    /// where an image was asked for, ends the construction. A shader that
    /// did not compile has its log fetched. Only a reply that fits is ever
    /// handed in; of one that does not, nothing is made.
    pub open spec fn absorb(self, step: StepView, reply: ReplyView) -> Model {
        match step {
            StepView::Generate(slot) => match reply {
                ReplyView::Name(name) => Model {
                    names: self.names.put(slot, Some(name)),
                    ..self
                }.proceed(),
                _ => self.proceed(),
            },
            StepView::ReadSource { stage, path } => match reply {
                ReplyView::Bytes(bytes) => self.with_source(stage, bytes.push(0)).proceed(),
                _ => self.give_up(ErrorView::AssetNotFound { path }),
            },
            StepView::ReadImage { path } => match reply {
                ReplyView::Picture(image) => if image.complete() {
                    Model { image: Some(image), ..self }.proceed()
                } else {
                    self.give_up(ErrorView::AssetNotFound { path })
                },
                _ => self.give_up(ErrorView::AssetNotFound { path }),
            },
            StepView::CheckCompiled(stage) => match reply {
                ReplyView::Integer(status) => if status == FALSE {
                    Model { phase: Phase::LogLength(stage), ..self }
                } else {
                    self.proceed()
                },
                _ => self.proceed(),
            },
            StepView::DeleteShader(stage) => Model {
                names: self.names.put(stage.slot(), None),
                ..self
            }.proceed(),
            _ => self.proceed(),
        }
    }

    /// The request that is open is for an image file.
    pub open spec fn wants_picture(self) -> bool {
        &&& self.phase is Running
        &&& self.pc < self.script.len()
        &&& self.script[self.pc as int] is ReadImage
    }

    /// The reply fits the request that is open: it is of the kind that the
    /// request calls for, and a picture only where an image was asked for.
    /// Once the construction has ended every reply fits, and changes
    /// nothing.
    pub open spec fn accepts(self, reply: ReplyView) -> bool {
        match self.request() {
            Some(request) => reply.answers(request) && (reply is Picture
                ==> self.wants_picture()),
            None => true,
        }
    }

    /// The construction after the reply to its request. Where an image was
    /// asked for, the reply is the decoded picture.
    pub open spec fn advance(self, reply: ReplyView) -> Model {
        match self.phase {
            Phase::Running => if self.pc < self.script.len() {
                self.absorb(self.script[self.pc as int], reply)
            } else {
                self
            },
            Phase::LogLength(stage) => Model {
                phase: Phase::Log {
                    stage,
                    capacity: match reply {
                        ReplyView::Integer(length) => if length < 0 {
                            0
                        } else {
                            length
                        },
                        _ => 0,
                    },
                },
                ..self
            },
            Phase::Log { stage, .. } => self.give_up(
                ErrorView::ShaderCompileFailed {
                    stage,
                    log: match reply {
                        ReplyView::Bytes(log) => log,
                        _ => seq![],
                    },
                },
            ),
            Phase::Unwinding => match self.names.first_held() {
                Some(slot) => Model { names: self.names.put(slot, None), ..self },
                None => self,
            },
        }
    }

    /// The scene that the names collected make up.
    pub open spec fn props(self) -> SampleProps {
        let shader = Shader { program: self.names.name(Slot::Program) };
        let vao = self.names.name(Slot::VertexArray);
        let vbo = self.names.name(Slot::VertexBuffer);
        let ibo = self.names.name(Slot::IndexBuffer);
        match self.sample {
            Sample::SimpleTriangle => SampleProps::SimpleTriangle { shader, vao, vbo },
            Sample::SimpleSquare => SampleProps::SimpleSquare {
                shader,
                vao,
                vbo,
                ibo,
                color_channel: 0,
                increment: STEP,
            },
            Sample::TexturedSquare => SampleProps::TexturedSquare {
                shader,
                vao,
                vbo,
                ibo,
                texture: match self.image {
                    Some(image) => Texture {
                        id: self.names.name(Slot::Texture),
                        width: image.width,
                        height: image.height,
                    },
                    None => Texture { id: self.names.name(Slot::Texture), width: 0, height: 0 },
                },
            },
        }
    }

    /// How the construction ended, once it has: with the scene, or with the
    /// reason for which it was given up.
    pub open spec fn outcome(self) -> Option<Result<SampleProps, ErrorView>> {
        if self.request() is Some {
            None
        } else {
            match self.failure {
                Some(error) => Some(Err(error)),
                None => Some(Ok(self.props())),
            }
        }
    }
}

/// A scene that is being built.
pub struct Construction {
    sample: Sample,
    script: Vec<Step>,
    pc: usize,
    names: Names,
    vertex_source: Vec<u8>,
    fragment_source: Vec<u8>,
    image: Option<Image>,
    phase: Phase,
    failure: Option<Error>,
}

impl View for Construction {
    type V = Model;

    closed spec fn view(&self) -> Model {
        Model {
            sample: self.sample,
            script: lines(self.script@),
            pc: self.pc as nat,
            names: self.names,
            vertex_source: self.vertex_source@,
            fragment_source: self.fragment_source@,
            image: match self.image {
                Some(image) => Some(image@),
                None => None,
            },
            phase: self.phase,
            failure: match self.failure {
                Some(error) => Some(error@),
                None => None,
            },
        }
    }
}

fn create(slot: Slot) -> (command: Command)
    ensures
        command@ == create_command(slot),
{
    match slot {
        Slot::VertexShader => Command::CreateShader { kind: VERTEX_SHADER },
        Slot::FragmentShader => Command::CreateShader { kind: FRAGMENT_SHADER },
        Slot::Program => Command::CreateProgram,
        Slot::VertexArray => Command::GenVertexArray,
        Slot::VertexBuffer | Slot::IndexBuffer => Command::GenBuffer,
        Slot::Texture => Command::GenTexture,
    }
}

fn delete(slot: Slot, name: u32) -> (command: Command)
    ensures
        command@ == delete_command(slot, name),
{
    match slot {
        Slot::VertexShader | Slot::FragmentShader => Command::DeleteShader { shader: name },
        Slot::Program => Command::DeleteProgram { program: name },
        Slot::VertexArray => Command::DeleteVertexArray { array: name },
        Slot::VertexBuffer | Slot::IndexBuffer => Command::DeleteBuffer { buffer: name },
        Slot::Texture => Command::DeleteTexture { texture: name },
    }
}

impl Construction {
    /// The construction of `sample` before anything is done.
    pub fn new(sample: Sample) -> (construction: Construction)
        ensures
            construction@ == Model::start(sample),
    {
        Construction {
            sample,
            script: sample.steps(),
            pc: 0,
            names: Names::new(),
            vertex_source: Vec::new(),
            fragment_source: Vec::new(),
            image: None,
            phase: Phase::Running,
            failure: None,
        }
    }

    fn upload(&self) -> (command: Command)
        ensures
            command@ == self@.upload(),
    {
        match &self.image {
            Some(image) => Command::TexImage2D {
                target: TEXTURE_2D,
                level: 0,
                internal_format: RGBA8,
                width: image.width,
                height: image.height,
                border: 0,
                format: RGBA,
                kind: UNSIGNED_BYTE,
                pixels: image.pixels.clone(),
            },
            None => Command::TexImage2D {
                target: TEXTURE_2D,
                level: 0,
                internal_format: RGBA8,
                width: 0,
                height: 0,
                border: 0,
                format: RGBA,
                kind: UNSIGNED_BYTE,
                pixels: Vec::new(),
            },
        }
    }

    fn resolve(&self, step: &Step) -> (request: Request)
        ensures
            request@ == self@.resolve(step@),
    {
        let program = self.names.name_of(Slot::Program);
        match step {
            Step::Issue(command) => Request::Gpu(command.duplicate()),
            Step::ReadSource { path, .. } => Request::Asset { path: path.clone() },
            Step::ReadImage { path } => Request::Asset { path: path.clone() },
            Step::Generate(slot) => Request::Gpu(create(*slot)),
            Step::ShaderSource(stage) => Request::Gpu(
                Command::ShaderSource {
                    shader: self.names.name_of(stage.shader_slot()),
                    source: match stage {
                        ShaderType::Vertex => self.vertex_source.clone(),
                        ShaderType::Fragment => self.fragment_source.clone(),
                    },
                },
            ),
            Step::CompileShader(stage) => Request::Gpu(
                Command::CompileShader { shader: self.names.name_of(stage.shader_slot()) },
            ),
            Step::CheckCompiled(stage) => Request::Gpu(
                Command::GetShaderiv {
                    shader: self.names.name_of(stage.shader_slot()),
                    pname: COMPILE_STATUS,
                },
            ),
            Step::AttachShader(stage) => Request::Gpu(
                Command::AttachShader { program, shader: self.names.name_of(stage.shader_slot()) },
            ),
            Step::LinkProgram => Request::Gpu(Command::LinkProgram { program }),
            Step::UseProgram => Request::Gpu(Command::UseProgram { program }),
            Step::DeleteShader(stage) => Request::Gpu(
                Command::DeleteShader { shader: self.names.name_of(stage.shader_slot()) },
            ),
            Step::BindVertexArray => Request::Gpu(
                Command::BindVertexArray { array: self.names.name_of(Slot::VertexArray) },
            ),
            Step::BindBuffer { target, slot } => Request::Gpu(
                Command::BindBuffer { target: *target, buffer: self.names.name_of(*slot) },
            ),
            Step::BindTexture => Request::Gpu(
                Command::BindTexture {
                    target: TEXTURE_2D,
                    texture: self.names.name_of(Slot::Texture),
                },
            ),
            Step::TexImage2D => Request::Gpu(self.upload()),
            Step::UniformMatrix4fv { name, matrix } => Request::Gpu(
                Command::UniformMatrix4fv {
                    program,
                    name: name.clone(),
                    transpose: false,
                    matrix: *matrix,
                },
            ),
        }
    }

    /// What the construction needs next; nothing once it has ended.
    pub fn request(&self) -> (request: Option<Request>)
        ensures
            match request {
                Some(request) => self@.request() == Some(request@),
                None => self@.request() is None,
            },
    {
        match self.phase {
            Phase::Running => {
                if self.pc < self.script.len() {
                    Some(self.resolve(&self.script[self.pc]))
                } else {
                    None
                }
            },
            Phase::LogLength(stage) => Some(
                Request::Gpu(
                    Command::GetShaderiv {
                        shader: self.names.name_of(stage.shader_slot()),
                        pname: INFO_LOG_LENGTH,
                    },
                ),
            ),
            Phase::Log { stage, capacity } => Some(
                Request::Gpu(
                    Command::GetShaderInfoLog {
                        shader: self.names.name_of(stage.shader_slot()),
                        capacity,
                    },
                ),
            ),
            Phase::Unwinding => match self.names.next_release() {
                Some(slot) => Some(Request::Gpu(delete(slot, self.names.name_of(slot)))),
                None => None,
            },
        }
    }

    fn give_up(&mut self, error: Error)
        ensures
            final(self)@ == old(self)@.give_up(error@),
    {
        self.phase = Phase::Unwinding;
        self.failure = Some(error);
    }

    fn absorb(&mut self, reply: Reply)
        requires
            old(self).phase == Phase::Running,
            old(self).pc < old(self).script.len(),
        ensures
            final(self)@ == old(self)@.absorb(
                lines(old(self).script@)[old(self).pc as int],
                reply@,
            ),
    {
        match &self.script[self.pc] {
            Step::Generate(slot) => {
                if let Reply::Name(name) = reply {
                    self.names.set(*slot, Some(name));
                }
                self.pc = self.pc + 1;
            },
            Step::ReadSource { stage, path } => {
                match reply {
                    Reply::Bytes(bytes) => {
                        let mut source = bytes;
                        source.push(0);
                        match stage {
                            ShaderType::Vertex => {
                                self.vertex_source = source;
                            },
                            ShaderType::Fragment => {
                                self.fragment_source = source;
                            },
                        }
                        self.pc = self.pc + 1;
                    },
                    _ => {
                        let error = Error::AssetNotFound { path: path.clone() };
                        self.give_up(error);
                    },
                }
            },
            Step::ReadImage { path } => {
                let image = match reply {
                    Reply::Picture(image) => image.checked(),
                    _ => None,
                };
                match image {
                    Some(image) => {
                        self.image = Some(image);
                        self.pc = self.pc + 1;
                    },
                    None => {
                        let error = Error::AssetNotFound { path: path.clone() };
                        self.give_up(error);
                    },
                }
            },
            Step::CheckCompiled(stage) => {
                let failed = match reply {
                    Reply::Integer(status) => status == FALSE,
                    _ => false,
                };
                if failed {
                    self.phase = Phase::LogLength(*stage);
                } else {
                    self.pc = self.pc + 1;
                }
            },
            Step::DeleteShader(stage) => {
                self.names.set(stage.shader_slot(), None);
                self.pc = self.pc + 1;
            },
            _ => {
                self.pc = self.pc + 1;
            },
        }
    }

    /// The reply as the construction reads it: where an image was asked for
    /// and bytes came back, the picture that the decoder makes of them, or a
    /// missing file where it makes none; any other reply as it is.
    fn read(&self, reply: Reply) -> (taken: Reply)
        ensures
            if self@.wants_picture() && reply@ is Bytes {
                &&& taken@ is Missing || (taken@ matches ReplyView::Picture(image)
                    && image.complete())
                &&& lossless_jpeg(reply@->Bytes_0) ==> taken@ is Missing
            } else {
                taken@ == reply@
            },
            self@.accepts(reply@) ==> self@.accepts(taken@),
    {
        match self.phase {
            Phase::Running => {
                if self.pc < self.script.len() {
                    match &self.script[self.pc] {
                        Step::ReadImage { path } => match reply {
                            Reply::Bytes(bytes) => match Image::decode(path.as_str(), &bytes) {
                                Some(image) => Reply::Picture(image),
                                None => Reply::Missing,
                            },
                            _ => reply,
                        },
                        _ => reply,
                    }
                } else {
                    reply
                }
            },
            _ => reply,
        }
    }

    /// Whether the reply fits the request that is open.
    pub fn accepts(&self, reply: &Reply) -> (fits: bool)
        ensures
            fits == self@.accepts(reply@),
    {
        match self.request() {
            Some(request) => {
                let picture_wanted = match self.phase {
                    Phase::Running => self.pc < self.script.len() && matches!(
                        self.script[self.pc],
                        Step::ReadImage { .. }
                    ),
                    _ => false,
                };
                reply.answers(&request) && (picture_wanted || !matches!(reply, Reply::Picture(_)))
            },
            None => true,
        }
    }

    /// Takes the reply to the request that is open. The reply has to fit
    /// the request: the driver is taken to give back what a call is
    /// defined to give. Once the construction has ended a reply changes
    /// nothing.
    ///
    /// Where an image was asked for and its bytes come back, they are
    /// decoded first. The construction then goes on as on some picture with
    /// four bytes for every pixel, which it keeps, or as on a missing file:
    /// which of the two, and which picture, the decoder decides, but for a
    /// JPEG file in the lossless coding, which always counts as missing. A
    /// picture that is handed in decoded is taken as it is.
    pub fn advance(&mut self, reply: Reply)
        requires
            old(self)@.accepts(reply@),
        ensures
            if old(self)@.wants_picture() && reply@ is Bytes {
                &&& {
                    ||| final(self)@ == old(self)@.advance(ReplyView::Missing)
                    ||| {
                        &&& final(self)@.image matches Some(image)
                        &&& image.complete()
                        &&& final(self)@ == old(self)@.advance(ReplyView::Picture(image))
                    }
                }
                &&& lossless_jpeg(reply@->Bytes_0) ==> final(self)@ == old(self)@.advance(
                    ReplyView::Missing,
                )
            } else {
                final(self)@ == old(self)@.advance(reply@)
            },
    {
        let taken = self.read(reply);
        self.take(taken);
    }

    fn take(&mut self, reply: Reply)
        ensures
            final(self)@ == old(self)@.advance(reply@),
    {
        match self.phase {
            Phase::Running => {
                if self.pc < self.script.len() {
                    self.absorb(reply);
                }
            },
            Phase::LogLength(stage) => {
                let capacity: i32 = match reply {
                    Reply::Integer(length) => if length < 0 {
                        0
                    } else {
                        length
                    },
                    _ => 0,
                };
                self.phase = Phase::Log { stage, capacity };
            },
            Phase::Log { stage, .. } => {
                let log: Vec<u8> = match reply {
                    Reply::Bytes(log) => log,
                    _ => Vec::new(),
                };
                self.give_up(Error::ShaderCompileFailed { stage, log });
            },
            Phase::Unwinding => {
                match self.names.next_release() {
                    Some(slot) => {
                        self.names.set(slot, None);
                    },
                    None => {},
                }
            },
        }
    }

    /// How the construction ended: with the scene, or with the reason for
    /// which it was given up. Nothing while a request is open.
    pub fn finish(self) -> (outcome: Option<Result<SampleProps, Error>>)
        ensures
            match outcome {
                Some(Ok(props)) => self@.outcome() == Some(Ok::<SampleProps, ErrorView>(props)),
                Some(Err(error)) => self@.outcome() == Some(
                    Err::<SampleProps, ErrorView>(error@),
                ),
                None => self@.outcome() is None,
            },
    {
        let halted = match self.phase {
            Phase::Running => self.pc >= self.script.len(),
            Phase::Unwinding => self.names.next_release().is_none(),
            _ => false,
        };
        if !halted {
            return None;
        }
        match self.failure {
            Some(error) => Some(Err(error)),
            None => {
                let shader = Shader { program: self.names.name_of(Slot::Program) };
                let vao = self.names.name_of(Slot::VertexArray);
                let vbo = self.names.name_of(Slot::VertexBuffer);
                let ibo = self.names.name_of(Slot::IndexBuffer);
                let props = match self.sample {
                    Sample::SimpleTriangle => SampleProps::SimpleTriangle { shader, vao, vbo },
                    Sample::SimpleSquare => SampleProps::SimpleSquare {
                        shader,
                        vao,
                        vbo,
                        ibo,
                        color_channel: 0,
                        increment: STEP,
                    },
                    Sample::TexturedSquare => {
                        let id = self.names.name_of(Slot::Texture);
                        let texture = match &self.image {
                            Some(image) => Texture { id, width: image.width, height: image.height },
                            None => Texture { id, width: 0, height: 0 },
                        };
                        SampleProps::TexturedSquare { shader, vao, vbo, ibo, texture }
                    },
                };
                Some(Ok(props))
            },
        }
    }
}

/// The objects that are alive in the driver after one more request and its
/// reply, given those that were before: a name that a call gives back is one
/// more, an object that a call deletes is one less.
pub open spec fn ledger_step(
    live: Multiset<Object>,
    request: RequestView,
    reply: ReplyView,
) -> Multiset<Object> {
    match request {
        RequestView::Gpu(command) => match (command.yields(), reply) {
            (Yield::Name(kind), ReplyView::Name(name)) => live.insert(Object { kind, name }),
            _ => match command.deletes() {
                Some(object) => live.remove(object),
                None => live,
            },
        },
        RequestView::Asset { .. } => live,
    }
}

/// Where a construction has got to after a run of replies.
pub struct Run {
    pub model: Model,
    /// The objects that were made and not deleted so far.
    pub live: Multiset<Object>,
    /// Every reply came while a request was open, and fitted it.
    pub answered: bool,
}

/// The construction of `sample` from its start, with each request answered
/// by the next of `replies`.
pub open spec fn run(sample: Sample, replies: Seq<ReplyView>) -> Run
    decreases replies.len(),
{
    if replies.len() == 0 {
        Run { model: Model::start(sample), live: Multiset::empty(), answered: true }
    } else {
        let before = run(sample, replies.drop_last());
        let reply = replies.last();
        match before.model.request() {
            Some(request) => Run {
                model: before.model.advance(reply),
                live: ledger_step(before.live, request, reply),
                answered: before.answered && before.model.accepts(reply),
            },
            None => Run { answered: false, ..before },
        }
    }
}

impl Model {
    /// What holds of a construction at every point of a run: it follows
    /// the script of its scene, the image it has read has four bytes for
    /// every pixel, and while it has not given up, the slots that hold a
    /// name are those that the script has filled so far.
    pub open spec fn consistent(self) -> bool {
        &&& self.script == self.sample.script()
        &&& self.image matches Some(image) ==> image.complete()
        &&& self.pc <= self.script.len()
        &&& self.phase is Unwinding <==> self.failure is Some
        &&& !(self.phase is Unwinding) ==> filled_after(
            Some(Set::empty()),
            self.script.take(self.pc as int),
        ) == Some(self.names.filled())
    }
}

/// One step of a run keeps the construction consistent, and the names it
/// holds change as the objects in the driver do.
pub proof fn lemma_advance_accounts(model: Model, reply: ReplyView)
    requires
        model.consistent(),
        model.request() is Some,
        model.accepts(reply),
    ensures
        model.advance(reply).consistent(),
        model.advance(reply).names.held() == ledger_step(
            model.names.held(),
            model.request()->0,
            reply,
        ),
{
    let none = Some(Set::<Slot>::empty());
    let names = model.names;
    match model.phase {
        Phase::Running => {
            let done = model.pc as int;
            let step = model.script[done];
            lemma_script_sound(model.sample);
            lemma_filled_after_prefix(none, model.script, done + 1);
            lemma_filled_after_next(none, model.script, done);
            assert(seq![step].drop_last() =~= Seq::<StepView>::empty());
            reveal_with_fuel(filled_after, 2);
            match step {
                StepView::Generate(slot) => {
                    assert(!names.filled().contains(slot));
                    assert(names.get(slot) is None);
                    lemma_held_put_some(names, slot, reply->Name_0);
                },
                StepView::DeleteShader(stage) => {
                    assert(names.filled().contains(stage.slot()));
                    lemma_held_put_none(names, stage.slot());
                },
                _ => {},
            }
        },
        Phase::LogLength(_) => {},
        Phase::Log { .. } => {},
        Phase::Unwinding => {
            let slot = names.first_held()->0;
            lemma_held_put_none(names, slot);
        },
    }
}

/// At every point of a run in which each request was answered, the names
/// that the construction holds are those of the objects that were made and
/// not deleted.
pub proof fn lemma_run_accounts(sample: Sample, replies: Seq<ReplyView>)
    requires
        run(sample, replies).answered,
    ensures
        run(sample, replies).model.consistent(),
        run(sample, replies).model.sample == sample,
        run(sample, replies).live == run(sample, replies).model.names.held(),
    decreases replies.len(),
{
    if replies.len() == 0 {
        let model = Model::start(sample);
        assert(model.script.take(0) =~= Seq::<StepView>::empty());
        assert(model.names.filled() =~= Set::<Slot>::empty());
        assert(model.names.held() =~= Multiset::<Object>::empty());
    } else {
        let before = run(sample, replies.drop_last());
        lemma_run_accounts(sample, replies.drop_last());
        lemma_advance_accounts(before.model, replies.last());
    }
}

/// A scene that a run ends with is the scene that was asked for, and owns
/// exactly the objects that were made for it and not deleted on the way: no
/// object is missing from it, and none is left without an owner.
pub proof fn lemma_built_scene_owns_what_was_made(
    sample: Sample,
    replies: Seq<ReplyView>,
    props: SampleProps,
)
    requires
        run(sample, replies).answered,
        run(sample, replies).model.outcome() == Some(Ok::<SampleProps, ErrorView>(props)),
    ensures
        props.sample() == Some(sample),
        props.is_live(),
        props.wf(),
        props.handles() == run(sample, replies).live,
{
    lemma_run_accounts(sample, replies);
    lemma_script_sound(sample);
    let model = run(sample, replies).model;
    assert(model.script.take(model.pc as int) =~= model.script);
    assert(model.names.filled() == sample.slots());
    let names = model.names;
    assert(forall|slot: Slot| names.filled().contains(slot) <==> names.get(slot) is Some);
    assert(sample.slots().contains(Slot::Program));
    assert(sample.slots().contains(Slot::VertexArray));
    assert(sample.slots().contains(Slot::VertexBuffer));
    assert(!sample.slots().contains(Slot::VertexShader));
    assert(!sample.slots().contains(Slot::FragmentShader));
    assert(sample.slots().contains(Slot::IndexBuffer) <==> sample != Sample::SimpleTriangle);
    assert(sample.slots().contains(Slot::Texture) <==> sample == Sample::TexturedSquare);
    assert(props.handles() =~= names.held());
}

/// Building a scene and then destroying it leaves nothing behind: the
/// calls that destroy the scene delete exactly the objects that were made
/// and were still there.
pub proof fn lemma_built_then_dropped_leaves_nothing(
    sample: Sample,
    replies: Seq<ReplyView>,
    props: SampleProps,
)
    requires
        run(sample, replies).answered,
        run(sample, replies).model.outcome() == Some(Ok::<SampleProps, ErrorView>(props)),
    ensures
        props.is_live(),
        deleted(props.drop_commands()) == run(sample, replies).live,
{
    lemma_built_scene_owns_what_was_made(sample, replies, props);
    lemma_drop_releases_handles(props);
}

/// A run that ends with an error leaves no object behind: whatever was
/// made has been deleted.
pub proof fn lemma_failed_construction_leaks_nothing(
    sample: Sample,
    replies: Seq<ReplyView>,
    error: ErrorView,
)
    requires
        run(sample, replies).answered,
        run(sample, replies).model.outcome() == Some(Err::<SampleProps, ErrorView>(error)),
    ensures
        run(sample, replies).live == Multiset::<Object>::empty(),
{
    lemma_run_accounts(sample, replies);
    let names = run(sample, replies).model.names;
    assert(names.first_held() is None);
    assert(names.held() =~= Multiset::<Object>::empty());
}

/// A construction has a matrix set, or a buffer filled with integers, only
/// where the step of its script that it has come to says so, and then as
/// the step says.
pub proof fn lemma_request_follows_script(model: Model)
    ensures
        match model.request() {
            Some(RequestView::Gpu(CommandView::UniformMatrix4fv { name, matrix, .. })) => {
                &&& model.phase is Running
                &&& model.pc < model.script.len()
                &&& matrices_set(seq![model.script[model.pc as int]]) == seq![(name, matrix)]
            },
            Some(RequestView::Gpu(CommandView::BufferDataUint { target, data, .. })) => {
                &&& model.phase is Running
                &&& model.pc < model.script.len()
                &&& uints_uploaded(seq![model.script[model.pc as int]]) == seq![(target, data)]
            },
            _ => true,
        },
{
    reveal_with_fuel(matrices_set, 2);
    reveal_with_fuel(uints_uploaded, 2);
    if model.phase is Running && model.pc < model.script.len() {
        let step = model.script[model.pc as int];
        assert(seq![step].drop_last() =~= Seq::<StepView>::empty());
        match model.request() {
            Some(RequestView::Gpu(CommandView::UniformMatrix4fv { name, matrix, .. })) => {
                assert(matrices_set(seq![step]) =~= seq![(name, matrix)]);
            },
            Some(RequestView::Gpu(CommandView::BufferDataUint { target, data, .. })) => {
                assert(uints_uploaded(seq![step]) =~= seq![(target, data)]);
            },
            _ => {},
        }
    }
}

} // verus!
