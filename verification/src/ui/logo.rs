use vstd::prelude::*;

verus! {

/// What decoding `bytes` as a PNG and converting the image to 8-bit RGBA
/// gives: its width, its height and its raw pixel bytes; `None` where the
/// decoder fails.
pub uninterp spec fn png_rgba8(bytes: Seq<u8>) -> Option<(u32, u32, Seq<u8>)>;

/// The text, by `ImageError`'s `Display`, of the error that decoding `bytes`
/// as a PNG fails with.
pub uninterp spec fn png_error_text(bytes: Seq<u8>) -> Seq<char>;

/// Calls `image::load_from_memory_with_format(bytes, ImageFormat::Png)`,
/// then `DynamicImage::into_rgba8`, and takes the buffer apart with
/// `ImageBuffer::dimensions` and `ImageBuffer::into_raw`; an error is turned
/// into its text by `ImageError`'s `Display` impl.
///
/// Claimed: on success the width, height and bytes are `png_rgba8(bytes@)`,
/// and the bytes are exactly four per pixel: the decoder's buffer is
/// allocated at the decoder's total size and other colour types are converted
/// pixel by pixel into a buffer of that size; on failure `png_rgba8(bytes@)`
/// is `None` and the text is `png_error_text(bytes@)`. The decoder, the
/// conversion and the error's formatting are deterministic, with the default
/// limits, so the same bytes give the same outcome.
#[verifier::external_body]
fn decode_png_rgba8(bytes: &[u8]) -> (r: Result<(u32, u32, Vec<u8>), String>)
    ensures
        match r {
            Ok(parts) => {
                &&& png_rgba8(bytes@) == Some((parts.0, parts.1, parts.2@))
                &&& parts.2.len() == 4 * parts.0 * parts.1
            },
            Err(text) => {
                &&& png_rgba8(bytes@) is None
                &&& text@ == png_error_text(bytes@)
            },
        },
{
    match image::load_from_memory_with_format(bytes, image::ImageFormat::Png) {
        Ok(image) => {
            let rgba = image.into_rgba8();
            let (width, height) = rgba.dimensions();
            Ok((width, height, rgba.into_raw()))
        },
        Err(error) => Err(error.to_string()),
    }
}

/// A decoded image as plain values.
pub struct LogoView {
    pub width: u32,
    pub height: u32,
    pub pixels: Seq<u8>,
}

/// An image: `width` by `height` pixels, four bytes (red, green, blue,
/// alpha) per pixel, row after row.
pub struct Logo {
    width: u32,
    height: u32,
    pixels: Vec<u8>,
}

/// Why an image could not be decoded, in the decoder's words.
#[derive(Debug)]
pub struct LogoError {
    pub message: String,
}

impl View for Logo {
    type V = LogoView;

    closed spec fn view(&self) -> LogoView {
        LogoView { width: self.width, height: self.height, pixels: self.pixels@ }
    }
}

impl LogoView {
    /// The pixel bytes are four for each pixel.
    pub open spec fn wf(self) -> bool {
        self.pixels.len() == 4 * self.width * self.height
    }
}

impl Logo {
    /// An image from its size and its RGBA bytes; `None` where the bytes are
    /// not exactly four per pixel.
    pub fn from_rgba8(width: u32, height: u32, pixels: Vec<u8>) -> (r: Option<Logo>)
        ensures
            match r {
                Some(logo) => logo@ == (LogoView { width, height, pixels: pixels@ }),
                None => !(LogoView { width, height, pixels: pixels@ }).wf(),
            },
            r matches Some(logo) ==> logo@.wf(),
    {
        let w: u128 = width as u128;
        let h: u128 = height as u128;
        assert(4 * w * h <= 4 * (u32::MAX as int) * (u32::MAX as int)) by (nonlinear_arith)
            requires
                w <= u32::MAX,
                h <= u32::MAX,
        ;
        let needed: u128 = 4 * w * h;
        if (pixels.len() as u128) != needed {
            None
        } else {
            Some(Logo { width, height, pixels })
        }
    }

    /// Decodes the bytes of a PNG file into RGBA pixels.
    pub fn decode(png: &[u8]) -> (r: Result<Logo, LogoError>)
        ensures
            match r {
                Ok(logo) => png_rgba8(png@) == Some((logo@.width, logo@.height, logo@.pixels)),
                Err(error) => png_rgba8(png@) is None && error.message@ == png_error_text(png@),
            },
            r matches Ok(logo) ==> logo@.wf(),
    {
        match decode_png_rgba8(png) {
            Ok((width, height, pixels)) => {
                match Logo::from_rgba8(width, height, pixels) {
                    Some(logo) => Ok(logo),
                    // never taken: the decoded buffer holds four bytes per pixel
                    None => Err(LogoError { message: String::new() }),
                }
            },
            Err(text) => Err(LogoError { message: text }),
        }
    }

    /// The width and height of the image, in pixels.
    pub fn size(&self) -> (s: (u32, u32))
        ensures
            s == (self@.width, self@.height),
    {
        (self.width, self.height)
    }

    /// The pixel bytes.
    pub fn pixels(&self) -> (p: &Vec<u8>)
        ensures
            p@ == self@.pixels,
    {
        &self.pixels
    }

    /// The pixel bytes, taking the image apart.
    pub fn into_pixels(self) -> (p: Vec<u8>)
        ensures
            p@ == self@.pixels,
    {
        self.pixels
    }
}

} // verus!
