//! Textures, and the images they are made from.
use crate::error::{Error, ErrorView};
use crate::gpu::{
    views, Command, CommandView, Ortho, CLAMP_TO_EDGE, LINEAR, TEXTURE0, TEXTURE_2D,
    TEXTURE_MAG_FILTER, TEXTURE_MIN_FILTER, TEXTURE_UNITS, TEXTURE_WRAP_S, TEXTURE_WRAP_T,
};
use crate::jpeg::{is_lossless_jpeg, lossless_jpeg};
use crate::script::{lines, matrices_set, uints_uploaded, Slot, Step, StepView};
use vstd::prelude::*;
use vstd::string::StringExecFns;

verus! {

/// Where texture images are kept.
pub open spec fn texture_dir() -> Seq<char> {
    "res/textures/"@
}

/// The path of the texture image called `name`.
pub open spec fn texture_path(name: Seq<char>) -> Seq<char> {
    texture_dir() + name
}

/// A picture as rows of pixels, four bytes to a pixel (red, green, blue,
/// alpha).
#[derive(Debug, PartialEq, Eq)]
pub struct Image {
    pub width: u32,
    pub height: u32,
    pub pixels: Vec<u8>,
}

/// An [`Image`] as a mathematical value.
pub struct ImageView {
    pub width: u32,
    pub height: u32,
    pub pixels: Seq<u8>,
}

impl View for Image {
    type V = ImageView;

    open spec fn view(&self) -> ImageView {
        ImageView { width: self.width, height: self.height, pixels: self.pixels@ }
    }
}

impl ImageView {
    /// There are exactly four bytes for each pixel.
    pub open spec fn complete(self) -> bool {
        self.pixels.len() == 4 * (self.width * self.height)
    }

    /// How many bytes a row of pixels takes.
    pub open spec fn row_bytes(self) -> int {
        4 * self.width
    }

    /// The bytes of the row with this index, rows counted from 0 in the
    /// order in which they are held.
    pub open spec fn row(self, index: int) -> Seq<u8> {
        self.pixels.subrange(index * self.row_bytes(), (index + 1) * self.row_bytes())
    }

    /// The last `count` rows, the last of them first.
    pub open spec fn last_rows_reversed(self, count: nat) -> Seq<u8>
        decreases count,
    {
        if count == 0 {
            Seq::empty()
        } else {
            self.last_rows_reversed((count - 1) as nat) + self.row(self.height - count)
        }
    }

    /// The image upside down: the same rows in the reverse order.
    pub open spec fn flipv(self) -> ImageView {
        ImageView { pixels: self.last_rows_reversed(self.height as nat), ..self }
    }

    /// The image that a texture takes of this picture: the picture upside
    /// down, and nothing where it has not four bytes for every pixel.
    pub open spec fn turned(self) -> Option<ImageView> {
        if self.complete() {
            Some(self.flipv())
        } else {
            None
        }
    }
}

/// `image::ImageError`, what the `image` crate gives when it cannot decode.
/// Nothing is known of what is in it.
#[verifier::external_type_specification]
#[verifier::external_body]
pub struct ExImageError(image::ImageError);

/// Decodes the file `bytes` by the format that the extension of `path`
/// names, and gives the picture in 8-bit RGBA, rows from the top one down.
/// The calls are `image::ImageFormat::from_path`,
/// `image::load_from_memory_with_format` and `DynamicImage::into_rgba8`; the
/// result is taken apart with `ImageBuffer::dimensions` and
/// `ImageBuffer::into_raw`.
///
/// A JPEG file in the lossless coding is not to be handed in: for some of
/// these the JPEG decoder gives two bytes a sample where one is expected,
/// and the copy of its output stops the program. Nothing is claimed of what
/// comes back: which pixels a decoder gives may differ from one machine to
/// the next. That the decoders come back from every other file is taken on
/// trust.
#[verifier::external_body]
fn decode_rgba(path: &str, bytes: &[u8]) -> Result<Image, image::ImageError>
    requires
        !lossless_jpeg(bytes@),
{
    let format = image::ImageFormat::from_path(path)?;
    let image = image::load_from_memory_with_format(bytes, format)?.into_rgba8();
    let (width, height) = image.dimensions();
    Ok(Image { width, height, pixels: image.into_raw() })
}

/// The last rows in reverse are as many bytes as the rows are.
pub proof fn lemma_last_rows_reversed_len(image: ImageView, count: nat)
    requires
        image.complete(),
        count <= image.height,
    ensures
        image.last_rows_reversed(count).len() == count * image.row_bytes(),
    decreases count,
{
    let row_bytes = image.row_bytes();
    if count > 0 {
        lemma_last_rows_reversed_len(image, (count - 1) as nat);
        let index = image.height - count;
        assert(0 <= index * row_bytes && (index + 1) * row_bytes <= image.height * row_bytes
            && (index + 1) * row_bytes - index * row_bytes == row_bytes && (count - 1) * row_bytes
            + row_bytes == count * row_bytes) by (nonlinear_arith)
            requires
                0 <= index < image.height,
                0 <= row_bytes,
                count >= 1,
        ;
        assert(image.height * row_bytes == 4 * (image.width * image.height)) by (nonlinear_arith)
            requires
                row_bytes == 4 * image.width,
        ;
    } else {
        assert(count * row_bytes == 0) by (nonlinear_arith)
            requires
                count == 0,
        ;
    }
}

/// An image turned upside down has as many bytes as before: four for
/// every pixel.
pub proof fn lemma_flipv_complete(image: ImageView)
    requires
        image.complete(),
    ensures
        image.flipv().complete(),
{
    lemma_last_rows_reversed_len(image, image.height as nat);
    assert(image.height * image.row_bytes() == 4 * (image.width * image.height))
        by (nonlinear_arith)
        requires
            image.row_bytes() == 4 * image.width,
    ;
}

impl Image {
    /// Lets an image through if it has four bytes for every pixel.
    pub fn checked(self) -> (r: Option<Image>)
        ensures
            r == if self@.complete() {
                Some(self)
            } else {
                None
            },
    {
        assert(self.width * self.height <= 0xFFFF_FFFF * 0xFFFF_FFFF) by (nonlinear_arith)
            requires
                0 <= self.width <= 0xFFFF_FFFF,
                0 <= self.height <= 0xFFFF_FFFF,
        ;
        let pixel_count: u64 = (self.width as u64) * (self.height as u64);
        let byte_count: usize = self.pixels.len();
        if byte_count % 4 == 0 && (byte_count / 4) as u64 == pixel_count {
            Some(self)
        } else {
            None
        }
    }

    /// Turns the image upside down.
    pub fn flipv(&self) -> (flipped: Image)
        requires
            self@.complete(),
        ensures
            flipped@ == self@.flipv(),
            flipped@.complete(),
    {
        let ghost image = self@;
        let ghost row_bytes = image.row_bytes();
        let length: usize = self.pixels.len();
        let mut pixels: Vec<u8> = Vec::new();
        if length == 0 {
            proof {
                lemma_last_rows_reversed_len(image, image.height as nat);
                assert(image.height * row_bytes == 4 * (image.width * image.height))
                    by (nonlinear_arith)
                    requires
                        row_bytes == 4 * image.width,
                ;
                assert(pixels@ =~= image.last_rows_reversed(image.height as nat));
            }
            return Image { width: self.width, height: self.height, pixels };
        }
        proof {
            assert(image.height >= 1 && row_bytes <= length && image.height * row_bytes == length)
                by (nonlinear_arith)
                requires
                    length == 4 * (image.width * image.height),
                    length > 0,
                    row_bytes == 4 * image.width,
                    0 <= image.width,
                    0 <= image.height,
            ;
        }
        let row_length: usize = 4 * (self.width as usize);
        let mut rows_left: u32 = self.height;
        let mut end: usize = length;
        while rows_left > 0
            invariant
                image == self@,
                row_bytes == image.row_bytes(),
                row_length == row_bytes,
                length == self.pixels@.len(),
                image.complete(),
                rows_left <= image.height,
                end == rows_left * row_bytes,
                end <= length,
                pixels@ == image.last_rows_reversed((image.height - rows_left) as nat),
            decreases rows_left,
        {
            proof {
                assert((rows_left - 1) * row_bytes == rows_left * row_bytes - row_bytes
                    && rows_left * row_bytes >= row_bytes) by (nonlinear_arith)
                    requires
                        rows_left >= 1,
                        row_bytes >= 0,
                ;
            }
            let start: usize = end - row_length;
            let ghost done = pixels@;
            let mut at: usize = start;
            while at < end
                invariant
                    start <= at <= end,
                    end <= self.pixels@.len(),
                    pixels@ == done + self.pixels@.subrange(start as int, at as int),
                decreases end - at,
            {
                pixels.push(self.pixels[at]);
                at = at + 1;
                assert(pixels@ =~= done + self.pixels@.subrange(start as int, at as int));
            }
            rows_left = rows_left - 1;
            end = start;
            proof {
                let count = (image.height - rows_left) as nat;
                assert(image.row(image.height - count) == self.pixels@.subrange(
                    start as int,
                    start + row_length,
                ));
            }
        }
        proof {
            lemma_last_rows_reversed_len(image, image.height as nat);
        }
        Image { width: self.width, height: self.height, pixels }
    }

    /// Makes of a decoded picture the image that a texture takes: the
    /// picture upside down, since the driver counts rows from the bottom.
    /// Gives nothing where the picture has not four bytes for every pixel.
    pub fn turned(self) -> (r: Option<Image>)
        ensures
            match r {
                Some(image) => Some(image@) == self@.turned(),
                None => self@.turned() is None,
            },
    {
        match self.checked() {
            Some(image) => Some(image.flipv()),
            None => None,
        }
    }

    /// Decodes the image file `bytes` that was read from `path`, and turns
    /// the picture upside down. A JPEG file in the lossless coding is not
    /// decoded and gives nothing. Whether any other file can be decoded,
    /// and to which pixels, is for the decoder to say; what comes back has
    /// four bytes for every pixel.
    pub fn decode(path: &str, bytes: &Vec<u8>) -> (r: Option<Image>)
        ensures
            lossless_jpeg(bytes@) ==> r is None,
            r matches Some(image) ==> image@.complete(),
    {
        if is_lossless_jpeg(bytes) {
            return None;
        }
        match decode_rgba(path, bytes.as_slice()) {
            Ok(image) => {
                proof {
                    if image@.complete() {
                        lemma_flipv_complete(image@);
                    }
                }
                image.turned()
            },
            Err(_) => None,
        }
    }
}

/// Loading a texture sets no matrix and fills no buffer.
pub proof fn lemma_load_script_plain(name: Seq<char>)
    ensures
        matrices_set(Texture::load_script(name)) == Seq::<(Seq<u8>, Ortho)>::empty(),
        uints_uploaded(Texture::load_script(name)) == Seq::<(u32, Seq<u32>)>::empty(),
{
    reveal_with_fuel(matrices_set, 11);
    reveal_with_fuel(uints_uploaded, 11);
}

/// A 2D texture that lives in the driver.
#[derive(Debug, PartialEq, Eq)]
pub struct Texture {
    pub id: u32,
    pub width: u32,
    pub height: u32,
}

impl Texture {
    /// The calls that bind the texture to unit `slot`.
    pub open spec fn bind_commands(self, slot: i32) -> Seq<CommandView> {
        seq![
            CommandView::ActiveTexture { texture: (TEXTURE0 + slot) as u32 },
            CommandView::BindTexture { target: TEXTURE_2D, texture: self.id },
        ]
    }

    /// The call that binds no texture.
    pub open spec fn unbind_commands(self) -> Seq<CommandView> {
        seq![CommandView::BindTexture { target: TEXTURE_2D, texture: 0 }]
    }

    /// The call that deletes the texture.
    pub open spec fn drop_commands(self) -> Seq<CommandView> {
        seq![CommandView::DeleteTexture { texture: self.id }]
    }

    /// The script that makes a texture of the image called `name`: read
    /// and decode the file, create the texture, set linear filtering and
    /// clamping to the edge, upload, unbind.
    pub open spec fn load_script(name: Seq<char>) -> Seq<StepView> {
        seq![
            StepView::ReadImage { path: texture_path(name) },
            StepView::Generate(Slot::Texture),
            StepView::BindTexture,
            StepView::Issue(
                CommandView::TexParameteri {
                    target: TEXTURE_2D,
                    pname: TEXTURE_MIN_FILTER,
                    param: LINEAR,
                },
            ),
            StepView::Issue(
                CommandView::TexParameteri {
                    target: TEXTURE_2D,
                    pname: TEXTURE_MAG_FILTER,
                    param: LINEAR,
                },
            ),
            StepView::Issue(
                CommandView::TexParameteri {
                    target: TEXTURE_2D,
                    pname: TEXTURE_WRAP_S,
                    param: CLAMP_TO_EDGE,
                },
            ),
            StepView::Issue(
                CommandView::TexParameteri {
                    target: TEXTURE_2D,
                    pname: TEXTURE_WRAP_T,
                    param: CLAMP_TO_EDGE,
                },
            ),
            StepView::TexImage2D,
            StepView::Issue(CommandView::BindTexture { target: TEXTURE_2D, texture: 0 }),
        ]
    }

    /// The script that makes a texture of the image called `name`.
    pub fn load(name: &str) -> (script: Vec<Step>)
        ensures
            lines(script@) == Texture::load_script(name@),
    {
        let path = String::from_str("res/textures/").concat(name);
        let script = vec![
            Step::ReadImage { path },
            Step::Generate(Slot::Texture),
            Step::BindTexture,
            Step::Issue(
                Command::TexParameteri {
                    target: TEXTURE_2D,
                    pname: TEXTURE_MIN_FILTER,
                    param: LINEAR,
                },
            ),
            Step::Issue(
                Command::TexParameteri {
                    target: TEXTURE_2D,
                    pname: TEXTURE_MAG_FILTER,
                    param: LINEAR,
                },
            ),
            Step::Issue(
                Command::TexParameteri {
                    target: TEXTURE_2D,
                    pname: TEXTURE_WRAP_S,
                    param: CLAMP_TO_EDGE,
                },
            ),
            Step::Issue(
                Command::TexParameteri {
                    target: TEXTURE_2D,
                    pname: TEXTURE_WRAP_T,
                    param: CLAMP_TO_EDGE,
                },
            ),
            Step::TexImage2D,
            Step::Issue(Command::BindTexture { target: TEXTURE_2D, texture: 0 }),
        ];
        assert(lines(script@) =~= Texture::load_script(name@));
        script
    }

    /// Binds the texture to unit `slot`, which must be one of the
    /// [`TEXTURE_UNITS`] units; no call is made for any other.
    pub fn bind(&self, slot: i32) -> (r: Result<Vec<Command>, Error>)
        ensures
            match r {
                Ok(commands) => {
                    &&& 0 <= slot < TEXTURE_UNITS
                    &&& views(commands@) == self.bind_commands(slot)
                },
                Err(error) => {
                    &&& !(0 <= slot < TEXTURE_UNITS)
                    &&& error@ == (ErrorView::InvalidTextureSlot { slot })
                },
            },
    {
        if slot >= 32 || slot < 0 {
            return Err(Error::InvalidTextureSlot { slot });
        }
        let commands = vec![
            Command::ActiveTexture { texture: TEXTURE0 + slot as u32 },
            Command::BindTexture { target: TEXTURE_2D, texture: self.id },
        ];
        assert(views(commands@) =~= self.bind_commands(slot));
        Ok(commands)
    }

    /// Binds no texture to the active unit.
    pub fn unbind(&self) -> (commands: Vec<Command>)
        ensures
            views(commands@) == self.unbind_commands(),
    {
        let commands = vec![Command::BindTexture { target: TEXTURE_2D, texture: 0 }];
        assert(views(commands@) =~= self.unbind_commands());
        commands
    }

    /// Deletes the texture.
    pub fn drop(&self) -> (commands: Vec<Command>)
        ensures
            views(commands@) == self.drop_commands(),
    {
        let commands = vec![Command::DeleteTexture { texture: self.id }];
        assert(views(commands@) =~= self.drop_commands());
        commands
    }

    /// The texture's name.
    pub fn id(&self) -> (id: u32)
        ensures
            id == self.id,
    {
        self.id
    }

    /// The width of the image, in pixels.
    pub fn width(&self) -> (width: u32)
        ensures
            width == self.width,
    {
        self.width
    }

    /// The height of the image, in pixels.
    pub fn height(&self) -> (height: u32)
        ensures
            height == self.height,
    {
        self.height
    }
}

} // verus!
