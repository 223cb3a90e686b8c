//! Images: their metadata, the rich message that carries one, and the
//! decoders that measure them.

use crate::failure::{outcome, TransportError};
use vstd::prelude::*;

verus! {

/// Metadata of an image: MIME type, height and width in pixels, size in
/// bytes.
#[derive(Clone, Debug, PartialEq, Eq)]
pub struct ImageInfo {
    pub mimetype: String,
    pub h: u32,
    pub w: u32,
    pub size: u64,
}

/// What contracts see of a [`ImageInfo`].
pub struct ImageInfoView {
    pub mimetype: Seq<char>,
    pub h: u32,
    pub w: u32,
    pub size: u64,
}

impl View for ImageInfo {
    type V = ImageInfoView;

    open spec fn view(&self) -> ImageInfoView {
        ImageInfoView { mimetype: self.mimetype@, h: self.h, w: self.w, size: self.size }
    }
}

impl ImageInfo {
    /// A copy of the metadata.
    pub fn duplicate(&self) -> (r: ImageInfo)
        ensures
            r@ == self@,
    {
        ImageInfo { mimetype: self.mimetype.clone(), h: self.h, w: self.w, size: self.size }
    }
}

/// A rich message: an uploaded image with its body text and metadata.
#[derive(Debug, PartialEq, Eq)]
pub struct ImageMessage {
    pub body: String,
    pub url: String,
    pub info: ImageInfo,
}

/// What contracts see of a [`ImageMessage`].
pub struct ImageMessageView {
    pub body: Seq<char>,
    pub url: Seq<char>,
    pub info: ImageInfoView,
}

impl View for ImageMessage {
    type V = ImageMessageView;

    open spec fn view(&self) -> ImageMessageView {
        ImageMessageView { body: self.body@, url: self.url@, info: self.info@ }
    }
}

/// Width and height of a decoded image, or the decoder's complaint.
#[derive(Debug, PartialEq, Eq)]
pub enum Measured {
    Size(u32, u32),
    Undecodable(String),
}

/// What contracts see of a [`Measured`].
pub enum MeasuredView {
    Size(u32, u32),
    Undecodable(Seq<char>),
}

impl View for Measured {
    type V = MeasuredView;

    open spec fn view(&self) -> MeasuredView {
        match *self {
            Measured::Size(w, h) => MeasuredView::Size(w, h),
            Measured::Undecodable(why) => MeasuredView::Undecodable(why@),
        }
    }
}

/// What the `image` crate makes of a buffer whose format it guesses from
/// its own table of leading bytes: width and height of the decoded picture,
/// or the text of its error.
pub uninterp spec fn guessed_image(data: Seq<u8>) -> MeasuredView;

/// What the `image` crate makes of a buffer read as JPEG.
pub uninterp spec fn jpeg_image(data: Seq<u8>) -> MeasuredView;

/// Calls `image::guess_format`, then `image::load_from_memory_with_format`
/// with the format that was guessed, and reads `width` and `height` off the
/// decoded picture. Neither call looks at the decoders or the format
/// detectors that a program may register with the crate at run time: the
/// guess goes by the crate's built-in table, and the format it yields is a
/// built-in one. The contract claims only that the outcome is a function of
/// the bytes.
#[verifier::external_body]
fn decode_guessed(data: &[u8]) -> (r: Measured)
    ensures
        r@ == guessed_image(data@),
{
    let decoded = match image::guess_format(data) {
        Ok(format) => image::load_from_memory_with_format(data, format),
        Err(e) => Err(e),
    };
    match decoded {
        Ok(picture) => Measured::Size(picture.width(), picture.height()),
        Err(e) => Measured::Undecodable(e.to_string()),
    }
}

/// Calls `image::load_from_memory_with_format` with the JPEG format and reads
/// `width` and `height` off the decoded picture. A format set by hand is a
/// built-in one, so nothing that a program may register with the crate is
/// looked at. The contract claims only that the outcome is a function of the
/// bytes.
#[verifier::external_body]
fn decode_jpeg(data: &[u8]) -> (r: Measured)
    ensures
        r@ == jpeg_image(data@),
{
    match image::load_from_memory_with_format(data, image::ImageFormat::Jpeg) {
        Ok(picture) => Measured::Size(picture.width(), picture.height()),
        Err(e) => Measured::Undecodable(e.to_string()),
    }
}

/// Measures an image of whatever format its bytes announce.
pub fn measure(data: &Vec<u8>) -> (r: Measured)
    ensures
        r@ == guessed_image(data@),
{
    decode_guessed(data.as_slice())
}

/// Measures an image that has to be a JPEG.
pub fn measure_jpeg(data: &Vec<u8>) -> (r: Measured)
    ensures
        r@ == jpeg_image(data@),
{
    decode_jpeg(data.as_slice())
}

/// The metadata of an image of `len` bytes, given what the decoder made of
/// it: the measure with the MIME type and the length, or the decoder's
/// complaint as an error.
pub open spec fn info_of(mimetype: Seq<char>, measured: MeasuredView, len: nat) -> Result<
    ImageInfoView,
    Seq<char>,
> {
    match measured {
        MeasuredView::Size(w, h) => Ok(ImageInfoView { mimetype, h, w, size: len as u64 }),
        MeasuredView::Undecodable(why) => Err(why),
    }
}

/// Builds the metadata of an image from what the decoder made of it.
pub fn describe(mimetype: &str, measured: Measured, len: usize) -> (r: Result<
    ImageInfo,
    TransportError,
>)
    ensures
        outcome(r) == info_of(mimetype@, measured@, len as nat),
{
    match measured {
        Measured::Size(w, h) => Ok(
            ImageInfo { mimetype: String::from_str(mimetype), h, w, size: len as u64 },
        ),
        Measured::Undecodable(why) => Err(TransportError::new(why)),
    }
}

/// Copies a payload.
pub fn copy_bytes(data: &Vec<u8>) -> (r: Vec<u8>)
    ensures
        r@ == data@,
{
    let r = data.clone();
    assert(r@ =~= data@);
    r
}

} // verus!
