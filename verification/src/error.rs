//! What can go wrong while a scene is built or bound.
use crate::shaders::ShaderType;
use vstd::prelude::*;

verus! {

/// A failure that the caller gets back as a value.
#[derive(Debug, PartialEq, Eq)]
pub enum Error {
    /// The driver refused to compile the shader of this stage; `log` is what
    /// it had to say.
    ShaderCompileFailed { stage: ShaderType, log: Vec<u8> },
    /// The file at `path` is missing, or is not an image that can be decoded.
    AssetNotFound { path: String },
    /// A texture was to be bound to a unit that does not exist.
    InvalidTextureSlot { slot: i32 },
}

/// An [`Error`] as a mathematical value.
pub enum ErrorView {
    ShaderCompileFailed { stage: ShaderType, log: Seq<u8> },
    AssetNotFound { path: Seq<char> },
    InvalidTextureSlot { slot: i32 },
}

impl View for Error {
    type V = ErrorView;

    open spec fn view(&self) -> ErrorView {
        match *self {
            Error::ShaderCompileFailed { stage, log } => ErrorView::ShaderCompileFailed {
                stage,
                log: log@,
            },
            Error::AssetNotFound { path } => ErrorView::AssetNotFound { path: path@ },
            Error::InvalidTextureSlot { slot } => ErrorView::InvalidTextureSlot { slot },
        }
    }
}

} // verus!
