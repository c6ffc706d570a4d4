//! The small picture of a sighting and its text form.
//!
//! A sighting's photo is a JPEG file under a fixed directory, named after the
//! sighting. Its thumbnail is that picture scaled to a small fixed size and
//! written as a JPEG again, and goes into a message as base64 text. The
//! caller reads the file and hands over its pixels; the `image` crate scales
//! and writes them, the `base64` crate writes the text.

use crate::message::{Message, MessageView, Sighting, SightingView};
use vstd::prelude::*;

verus! {

/// The width of a thumbnail, in pixels.
pub const THUMBNAIL_WIDTH: u32 = 24;

/// The height of a thumbnail, in pixels.
pub const THUMBNAIL_HEIGHT: u32 = 16;

/// The JPEG quality of a thumbnail, from 1 to 100.
pub const THUMBNAIL_QUALITY: u8 = 60;

/// How a picture is sampled when it is scaled.
#[derive(Clone, Copy, Debug, PartialEq, Eq)]
pub enum Filter {
    Nearest,
    Triangle,
    CatmullRom,
    Gaussian,
    Lanczos3,
}

/// The name of the file that holds a sighting's photo.
pub open spec fn photo_name(sighting: SightingView) -> Seq<char> {
    sighting.species + "_"@ + sighting.uuid + ".jpg"@
}

/// Where a sighting's photo is read from.
pub open spec fn photo_path(sighting: SightingView) -> Seq<char> {
    "sightings/"@ + photo_name(sighting)
}

/// Where `sighting`'s photo is read from: `sightings/<species>_<uuid>.jpg`.
pub fn photo_path_of(sighting: &Sighting) -> (path: String)
    ensures
        path@ == photo_path(sighting@),
{
    let mut path = String::from_str("sightings/");
    path.append(sighting.species.as_str());
    path.append("_");
    path.append(sighting.uuid.as_str());
    path.append(".jpg");
    assert(path@ =~= photo_path(sighting@));
    path
}

/// The base64 text of `bytes`, in the standard alphabet and padded, as the
/// `base64` crate writes it.
pub uninterp spec fn base64_of(bytes: Seq<u8>) -> Seq<char>;

/// Whether the base64 text of `count` bytes has a length that the machine
/// can hold.
pub open spec fn encodable(count: nat) -> bool {
    4 * (count / 3) + 4 <= usize::MAX
}

/// `base64::encode`. It stops the program where the text's length exceeds
/// the machine's range, which `requires` leaves out. The contract only names
/// the text.
#[verifier::external_body]
fn base64_text(bytes: &[u8]) -> (text: String)
    requires
        encodable(bytes@.len()),
    ensures
        text@ == base64_of(bytes@),
{
    base64::encode(bytes)
}

/// The longest side that a photo may have, in pixels: the longest that a
/// JPEG file can say.
pub const MAX_SIDE: u32 = 65535;

/// What the samples of a pixel are.
#[derive(Clone, Copy, Debug, PartialEq, Eq)]
pub enum Colour {
    /// One sample for each pixel: its brightness.
    Gray,
    /// Three samples for each pixel: red, green, blue.
    Rgb,
}

/// The number of samples for each pixel.
pub open spec fn channels(colour: Colour) -> nat {
    match colour {
        Colour::Gray => 1,
        Colour::Rgb => 3,
    }
}

/// A photo as its pixels: row after row from the top, each row from the
/// left, each pixel as its samples of eight bits.
#[derive(Debug, PartialEq, Eq)]
pub struct Photo {
    pub width: u32,
    pub height: u32,
    pub colour: Colour,
    pub samples: Vec<u8>,
}

/// The value of a `Photo`.
pub ghost struct PhotoView {
    pub width: nat,
    pub height: nat,
    pub colour: Colour,
    pub samples: Seq<u8>,
}

impl View for Photo {
    type V = PhotoView;

    open spec fn view(&self) -> PhotoView {
        PhotoView {
            width: self.width as nat,
            height: self.height as nat,
            colour: self.colour,
            samples: self.samples@,
        }
    }
}

impl PhotoView {
    /// Whether this is a picture: it has pixels, no side is longer than
    /// `MAX_SIDE`, and there are as many samples as its size asks for.
    pub open spec fn valid(self) -> bool {
        &&& 1 <= self.width <= MAX_SIDE
        &&& 1 <= self.height <= MAX_SIDE
        &&& self.samples.len() == self.width * self.height * channels(self.colour)
    }
}

/// The value of a photo that may be absent.
pub open spec fn photo_view(photo: Option<Photo>) -> Option<PhotoView> {
    match photo {
        Some(p) => Some(p@),
        None => None,
    }
}

impl Photo {
    /// Whether this is a picture, as `PhotoView::valid` says.
    pub fn is_valid(&self) -> (valid: bool)
        ensures
            valid == self@.valid(),
    {
        if self.width < 1 || self.width > MAX_SIDE || self.height < 1 || self.height > MAX_SIDE {
            return false;
        }
        let per_pixel: u64 = match self.colour {
            Colour::Gray => 1,
            Colour::Rgb => 3,
        };
        assert(self.width * self.height <= 65535 * 65535) by (nonlinear_arith)
            requires
                self.width <= 65535,
                self.height <= 65535,
        ;
        let pixels: u64 = (self.width as u64) * (self.height as u64);
        let wanted: u64 = pixels * per_pixel;
        assert(wanted == self.width * self.height * channels(self.colour));
        self.samples.len() as u64 == wanted
    }
}

/// The samples of `photo` scaled to exactly `width` by `height` with
/// `filter`, as `DynamicImage::resize_exact` gives them.
pub uninterp spec fn resampled(photo: PhotoView, width: nat, height: nat, filter: Filter) -> Seq<u8>;

/// The JPEG file that the `image` crate's `JpegEncoder` writes for `photo` at
/// `quality`: a file of a picture of the photo's width and height.
pub uninterp spec fn jpeg_of(photo: PhotoView, quality: u8) -> Seq<u8>;

/// The most pixels that a picture may have on the way through the scaling,
/// so that its buffers stay within the machine's range.
pub const MAX_PIXELS: u32 = 0x0400_0000;

/// `DynamicImage::resize_exact` on the picture that `ImageBuffer::from_raw`
/// makes of the photo's samples: the samples of the photo scaled to exactly
/// `width` by `height`, in the photo's colour. `from_raw` takes samples that
/// fill the picture, so the result is there for every photo that is a
/// picture. The scaling reads pixels by their place and makes one buffer of
/// the photo's width by `height` and one of `width` by `height`, so
/// `requires` leaves out what is no picture and what is too large. The
/// contract names the samples and says how many they are.
#[verifier::external_body]
fn resample(photo: &Photo, width: u32, height: u32, filter: Filter) -> (samples: Option<Vec<u8>>)
    requires
        photo@.valid(),
        width >= 1,
        height >= 1,
        photo.width * height <= MAX_PIXELS,
        width * height <= MAX_PIXELS,
    ensures
        samples is Some,
        samples->0@ == resampled(photo@, width as nat, height as nat, filter),
        samples->0@.len() == width * height * channels(photo.colour),
{
    let kind = match filter {
        Filter::Nearest => image::imageops::FilterType::Nearest,
        Filter::Triangle => image::imageops::FilterType::Triangle,
        Filter::CatmullRom => image::imageops::FilterType::CatmullRom,
        Filter::Gaussian => image::imageops::FilterType::Gaussian,
        Filter::Lanczos3 => image::imageops::FilterType::Lanczos3,
    };
    let (w, h, raw) = (photo.width, photo.height, photo.samples.clone());
    let picture = match photo.colour {
        Colour::Gray => image::DynamicImage::ImageLuma8(image::GrayImage::from_raw(w, h, raw)?),
        Colour::Rgb => image::DynamicImage::ImageRgb8(image::RgbImage::from_raw(w, h, raw)?),
    };
    Some(picture.resize_exact(width, height, kind).to_bytes())
}

/// `JpegEncoder::new_with_quality` and `JpegEncoder::encode`, which
/// `DynamicImage::write_to` calls too: the JPEG file of `photo`. The encoder
/// takes the quality from 1 to 100 and brings it into that range otherwise.
/// It fails only for a side longer than `MAX_SIDE` and for colours other
/// than these two, and it stops the program where the samples are too few;
/// `requires` leaves all three out. The contract only names the bytes.
#[verifier::external_body]
fn write_jpeg(photo: &Photo, quality: u8) -> (bytes: Vec<u8>)
    requires
        photo@.valid(),
    ensures
        bytes@ == jpeg_of(photo@, quality),
{
    let colour = match photo.colour {
        Colour::Gray => image::ColorType::L8,
        Colour::Rgb => image::ColorType::Rgb8,
    };
    let mut out = Vec::new();
    let written = image::codecs::jpeg::JpegEncoder::new_with_quality(&mut out, quality)
        .encode(&photo.samples, photo.width, photo.height, colour);
    match written {
        Ok(()) => out,
        Err(_) => Vec::new(),
    }
}

/// The thumbnail of a photo: the photo scaled to exactly `THUMBNAIL_WIDTH`
/// by `THUMBNAIL_HEIGHT` with a Gaussian filter, in the photo's colour, as a
/// JPEG file of quality `THUMBNAIL_QUALITY`. `None` for what is no picture.
pub open spec fn thumbnail_of(photo: PhotoView) -> Option<Seq<u8>> {
    if photo.valid() {
        Some(
            jpeg_of(
                PhotoView {
                    width: THUMBNAIL_WIDTH as nat,
                    height: THUMBNAIL_HEIGHT as nat,
                    colour: photo.colour,
                    samples: resampled(
                        photo,
                        THUMBNAIL_WIDTH as nat,
                        THUMBNAIL_HEIGHT as nat,
                        Filter::Gaussian,
                    ),
                },
                THUMBNAIL_QUALITY,
            ),
        )
    } else {
        None
    }
}

/// Makes the thumbnail of `photo`, as `thumbnail_of` says: a JPEG file of a
/// picture of `THUMBNAIL_WIDTH` by `THUMBNAIL_HEIGHT` pixels for every photo
/// that is a picture, whatever its size, and `None` for what is none.
pub fn thumbnail(photo: &Photo) -> (thumb: Option<Vec<u8>>)
    ensures
        picture_view(thumb) == thumbnail_of(photo@),
{
    if photo.is_valid() {
        assert(photo.width * THUMBNAIL_HEIGHT <= MAX_PIXELS) by (nonlinear_arith)
            requires
                photo.width <= 65535,
        ;
        let scaled = resample(photo, THUMBNAIL_WIDTH, THUMBNAIL_HEIGHT, Filter::Gaussian);
        let small = Photo {
            width: THUMBNAIL_WIDTH,
            height: THUMBNAIL_HEIGHT,
            colour: photo.colour,
            samples: scaled.unwrap(),
        };
        Some(write_jpeg(&small, THUMBNAIL_QUALITY))
    } else {
        None
    }
}

/// The value of a thumbnail that may be absent.
pub open spec fn picture_view(picture: Option<Vec<u8>>) -> Option<Seq<u8>> {
    match picture {
        Some(bytes) => Some(bytes@),
        None => None,
    }
}

/// The text that stands for a picture in a message: its base64 text, and
/// the empty text for an absent picture or one too long to encode.
pub open spec fn picture_text(picture: Option<Seq<u8>>) -> Seq<char> {
    match picture {
        Some(bytes) => if encodable(bytes.len()) {
            base64_of(bytes)
        } else {
            Seq::empty()
        },
        None => Seq::empty(),
    }
}

/// The text that stands for `picture` in a message.
pub fn picture_text_of(picture: &Option<Vec<u8>>) -> (text: String)
    ensures
        text@ == picture_text(picture_view(*picture)),
{
    match picture {
        Some(bytes) => {
            if bytes.len() / 3 <= (usize::MAX - 4) / 4 {
                base64_text(bytes.as_slice())
            } else {
                String::new()
            }
        },
        None => String::new(),
    }
}

/// The response that carries `picture`.
pub fn picture_response(picture: &Option<Vec<u8>>) -> (response: Message)
    ensures
        response@ == (MessageView::ImageResponse {
            base64: picture_text(picture_view(*picture)),
        }),
{
    Message::ImageResponse { base64: picture_text_of(picture) }
}

} // verus!
