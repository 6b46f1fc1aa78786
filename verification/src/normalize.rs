//! From a captured four-channel raster to the encoded image that the
//! recognition engine takes.

use vstd::prelude::*;

verus! {

/// Why a captured raster could not be turned into an encoded image.
#[derive(Clone, Copy, Debug, PartialEq, Eq, Structural)]
pub enum NormalizeError {
    /// The pixel buffer does not consist of whole four-byte pixels.
    BufferSizeMismatch,
    /// The pixels could not be put into the raster container.
    EncodeFailed,
}

/// A raster as the clipboard hands it out: four bytes per pixel, the fourth
/// being the alpha channel.
#[derive(Debug, PartialEq, Eq)]
pub struct CapturedImage {
    pub width: usize,
    pub height: usize,
    pub bytes: Vec<u8>,
}

/// A three-channel raster in its lossless container format.
#[derive(Debug, PartialEq, Eq)]
pub struct EncodedImage {
    pub bytes: Vec<u8>,
}

/// A captured raster as a value: its dimensions and its bytes.
pub struct Raster {
    pub width: usize,
    pub height: usize,
    pub pixels: Seq<u8>,
}

impl View for CapturedImage {
    type V = Raster;

    open spec fn view(&self) -> Raster {
        Raster { width: self.width, height: self.height, pixels: self.bytes@ }
    }
}

impl View for EncodedImage {
    type V = Seq<u8>;

    open spec fn view(&self) -> Seq<u8> {
        self.bytes@
    }
}

/// The first three bytes of every four-byte group of `pixels`, in order.
pub open spec fn without_alpha(pixels: Seq<u8>) -> Seq<u8> {
    Seq::new((pixels.len() / 4 * 3) as nat, |i: int| pixels[i / 3 * 4 + i % 3])
}

/// The PNG file that the `image` crate writes for an 8-bit RGB raster of the
/// given size, or `None` where it writes none.
pub uninterp spec fn png_encoding(width: u32, height: u32, rgb: Seq<u8>) -> Option<Seq<u8>>;

/// What `normalize` returns for a pixel buffer and its dimensions.
pub open spec fn normalized(pixels: Seq<u8>, width: usize, height: usize) -> Result<
    Seq<u8>,
    NormalizeError,
> {
    if pixels.len() % 4 != 0 {
        Err(NormalizeError::BufferSizeMismatch)
    } else if width > u32::MAX || height > u32::MAX || width * height != pixels.len() / 4 {
        Err(NormalizeError::EncodeFailed)
    } else {
        encoded_or_failed(png_encoding(width as u32, height as u32, without_alpha(pixels)))
    }
}

/// What the outcome of container encoding means for normalization.
pub open spec fn encoded_or_failed(encoded: Option<Seq<u8>>) -> Result<Seq<u8>, NormalizeError> {
    match encoded {
        Some(bytes) => Ok(bytes),
        None => Err(NormalizeError::EncodeFailed),
    }
}

/// The view of a normalization result.
pub open spec fn result_view(r: Result<EncodedImage, NormalizeError>) -> Result<
    Seq<u8>,
    NormalizeError,
> {
    match r {
        Ok(image) => Ok(image@),
        Err(e) => Err(e),
    }
}

/// Without its alpha channel a buffer of whole pixels has three quarters of
/// its length, and each colour byte of each pixel stands where it stood,
/// three bytes a pixel in place of four.
pub proof fn without_alpha_keeps_colour(pixels: Seq<u8>, pixel: int, channel: int)
    requires
        pixels.len() % 4 == 0,
        0 <= pixel < pixels.len() / 4,
        0 <= channel < 3,
    ensures
        without_alpha(pixels).len() * 4 == pixels.len() * 3,
        without_alpha(pixels)[3 * pixel + channel] == pixels[4 * pixel + channel],
{
    assert((3 * pixel + channel) / 3 == pixel);
    assert((3 * pixel + channel) % 3 == channel);
}

/// Drops the alpha channel: keeps the first three bytes of every pixel.
/// Fails, with no output, exactly when the buffer is not made of whole
/// four-byte pixels.
pub fn strip_alpha(pixels: &[u8]) -> (r: Result<Vec<u8>, NormalizeError>)
    ensures
        pixels@.len() % 4 == 0 ==> r is Ok && r->Ok_0@ == without_alpha(pixels@),
        pixels@.len() % 4 == 0 ==> r->Ok_0@.len() * 4 == pixels@.len() * 3,
        pixels@.len() % 4 != 0 ==> r == Err::<Vec<u8>, NormalizeError>(
            NormalizeError::BufferSizeMismatch,
        ),
{
    let n: usize = pixels.len();
    if n % 4 != 0 {
        return Err(NormalizeError::BufferSizeMismatch);
    }
    let groups: usize = n / 4;
    let mut rgb: Vec<u8> = Vec::new();
    let mut g: usize = 0;
    while g < groups
        invariant
            g <= groups,
            groups == n / 4,
            n == pixels@.len(),
            rgb@.len() == 3 * g,
            forall|j: int| 0 <= j < 3 * g ==> rgb@[j] == pixels@[j / 3 * 4 + j % 3],
        decreases groups - g,
    {
        rgb.push(pixels[4 * g]);
        rgb.push(pixels[4 * g + 1]);
        rgb.push(pixels[4 * g + 2]);
        g += 1;
    }
    assert(rgb@ =~= without_alpha(pixels@));
    Ok(rgb)
}

/// Calls `image::RgbImage::from_raw` and `image::DynamicImage::write_to` with
/// `image::ImageFormat::Png` on a buffer in memory. The contract claims that
/// what comes back is the encoding that those calls give for this size and
/// these bytes, the same each time, and that a raster without width or
/// without height is refused. A buffer of another length than three bytes a
/// pixel is kept out: the encoder stops on it.
#[verifier::external_body]
fn encode_png(width: u32, height: u32, rgb: Vec<u8>) -> (r: Option<Vec<u8>>)
    requires
        rgb@.len() == 3 * (width * height),
    ensures
        match r {
            Some(bytes) => png_encoding(width, height, rgb@) == Some(bytes@),
            None => png_encoding(width, height, rgb@) is None,
        },
        width == 0 || height == 0 ==> r is None,
{
    let raster = image::RgbImage::from_raw(width, height, rgb)?;
    let mut out = std::io::Cursor::new(Vec::new());
    image::DynamicImage::ImageRgb8(raster).write_to(&mut out, image::ImageFormat::Png).ok()?;
    Some(out.into_inner())
}

/// The normalization result for an outcome of container encoding: the bytes
/// as the encoded image, or `EncodeFailed` where there are none.
pub fn finish_encoding(encoded: Option<Vec<u8>>) -> (r: Result<EncodedImage, NormalizeError>)
    ensures
        result_view(r) == encoded_or_failed(
            match encoded {
                Some(bytes) => Some(bytes@),
                None => None,
            },
        ),
{
    match encoded {
        Some(bytes) => Ok(EncodedImage { bytes }),
        None => Err(NormalizeError::EncodeFailed),
    }
}

/// Turns a captured raster into the encoded three-channel image.
///
/// A buffer that is not made of whole pixels gives `BufferSizeMismatch`.
/// Dimensions that do not describe the buffer, or that the container cannot
/// hold (none at all among them), give `EncodeFailed`. Otherwise the result
/// is the container encoding of the pixels without their alpha channel.
pub fn normalize(pixels: &[u8], width: usize, height: usize) -> (r: Result<
    EncodedImage,
    NormalizeError,
>)
    ensures
        result_view(r) == normalized(pixels@, width, height),
        pixels@.len() % 4 != 0 <==> r == Err::<EncodedImage, NormalizeError>(
            NormalizeError::BufferSizeMismatch,
        ),
        width == 0 || height == 0 ==> r is Err,
{
    let groups: usize = pixels.len() / 4;
    let rgb = match strip_alpha(pixels) {
        Ok(rgb) => rgb,
        Err(e) => {
            return Err(e);
        },
    };
    if width > 0xFFFF_FFFF || height > 0xFFFF_FFFF {
        return Err(NormalizeError::EncodeFailed);
    }
    match width.checked_mul(height) {
        Some(count) => {
            if count != groups {
                return Err(NormalizeError::EncodeFailed);
            }
        },
        None => {
            return Err(NormalizeError::EncodeFailed);
        },
    }
    assert(rgb@.len() == 3 * (width * height));
    assert((width as u32) * (height as u32) == width * height);
    finish_encoding(encode_png(width as u32, height as u32, rgb))
}

/// Normalizes a captured image by its own dimensions.
pub fn normalize_image(image: &CapturedImage) -> (r: Result<EncodedImage, NormalizeError>)
    ensures
        result_view(r) == normalized(image@.pixels, image@.width, image@.height),
{
    normalize(image.bytes.as_slice(), image.width, image.height)
}

} // verus!
