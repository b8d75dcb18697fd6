//! The codec boundary: decoding a byte stream into a pixel buffer and
//! encoding a pixel buffer into a target bitstream.
//!
//! The codecs themselves are outside crates; each call goes through one
//! trusted wrapper whose contract names what the call returns.  A decoded
//! image is carried as an opaque `image::DynamicImage`; its content is
//! spoken of through `image_model`: width, height, and the RGBA bytes the
//! buffer expands to.

use vstd::prelude::*;

verus! {

#[verifier::external_type_specification]
#[verifier::external_body]
pub struct ExDynamicImage(image::DynamicImage);

/// The mathematical content of a decoded image: width, height, and the
/// bytes of its RGBA expansion, row-major, four bytes per pixel.
pub type ImageModel = (nat, nat, Seq<u8>);

/// The content of an opaque decoded image.
pub uninterp spec fn image_model(img: image::DynamicImage) -> ImageModel;

/// What decoding a byte stream yields: the model of the decoded image, or
/// `None` when the bytes are not a decodable image.  Decoding is a function
/// of the bytes alone.
pub uninterp spec fn image_decoded(bytes: Seq<u8>) -> Option<ImageModel>;

/// What the JPEG encoder produces from an image and a quality setting, or
/// `None` when encoding fails.  The JPEG encoder reads every colour variant
/// through its RGBA expansion, so the outcome is a function of the model.
pub uninterp spec fn jpeg_encoding(m: ImageModel, quality: u8) -> Option<Seq<u8>>;

/// What the lossless PNG encoder produces from raw RGBA bytes and
/// dimensions.
pub uninterp spec fn png_lossless_encoding(rgba: Seq<u8>, width: nat, height: nat) -> Option<
    Seq<u8>,
>;

/// What the PNG encoder produces from raw RGB bytes and dimensions.
pub uninterp spec fn rgb_png_encoding(rgb: Seq<u8>, width: nat, height: nat) -> Option<Seq<u8>>;

/// What the lossless WebP encoder produces from raw RGBA bytes and
/// dimensions.
pub uninterp spec fn webp_lossless_encoding(rgba: Seq<u8>, width: nat, height: nat) -> Option<
    Seq<u8>,
>;

/// What the AVIF encoder produces from raw RGBA bytes, dimensions, and a
/// quality setting.
pub uninterp spec fn avif_encoding(rgba: Seq<u8>, width: nat, height: nat, quality: u8) -> Option<
    Seq<u8>,
>;

/// The size under which a losslessly encoded image is certain to decode
/// again: the decoder caps its allocations at 512 MiB by default, and an
/// image of at most 16,777,216 pixels (4096 by 4096) needs well under half
/// of that across its output and working buffers.  The lossless round-trip
/// clauses are stated under this bound.
pub open spec fn within_decode_limits(width: nat, height: nat) -> bool {
    width * height <= 0x100_0000
}

/// Relies on `image::load_from_memory`: decodes a byte stream in any of the
/// formats the `image` crate knows (PNG, JPEG, WebP, GIF, BMP, ...) into a
/// pixel buffer; the result is a function of the bytes alone.
#[verifier::external_body]
pub fn decode_image_bytes(data: &Vec<u8>) -> (r: Result<image::DynamicImage, String>)
    ensures
        r matches Ok(img) ==> image_decoded(data@) == Some(image_model(img)),
        r is Err ==> image_decoded(data@) is None,
{
    image::load_from_memory(data.as_slice()).map_err(|e| e.to_string())
}

/// Relies on `image::DynamicImage::to_rgba8` and
/// `image::ImageBuffer::into_raw`: the RGBA expansion of the pixel buffer,
/// four bytes per pixel, row-major.
#[verifier::external_body]
pub fn rgba_bytes(img: &image::DynamicImage) -> (r: Vec<u8>)
    ensures
        r@ == image_model(*img).2,
        r@.len() == 4 * image_model(*img).0 * image_model(*img).1,
{
    img.to_rgba8().into_raw()
}

/// Relies on `image::DynamicImage::width` and `height`.
#[verifier::external_body]
pub fn image_dimensions(img: &image::DynamicImage) -> (r: (u32, u32))
    ensures
        r.0 == image_model(*img).0,
        r.1 == image_model(*img).1,
{
    (img.width(), img.height())
}

/// Relies on `image::codecs::jpeg::JpegEncoder::new_with_quality` and
/// `encode_image`: a lossy JPEG bitstream driven by the 0-100 quality
/// setting; the encoder reads the image through its RGBA expansion, so the
/// outcome is a function of the pixel buffer and the quality alone.  A JPEG
/// bitstream is never empty (it opens with the two-byte start-of-image
/// marker).
#[verifier::external_body]
pub fn encode_jpeg(img: &image::DynamicImage, quality: u8) -> (r: Result<Vec<u8>, String>)
    ensures
        r matches Ok(b) ==> jpeg_encoding(image_model(*img), quality) == Some(b@) && b@.len() > 0,
        r is Err ==> jpeg_encoding(image_model(*img), quality) is None,
{
    let mut out = std::io::Cursor::new(Vec::new());
    let mut enc = image::codecs::jpeg::JpegEncoder::new_with_quality(&mut out, quality);
    match enc.encode_image(img) {
        Ok(()) => Ok(out.into_inner()),
        Err(e) => Err(e.to_string()),
    }
}

/// Relies on `image::RgbaImage::from_raw` (`Some` when the buffer covers
/// the dimensions, four bytes per pixel; a longer tail is ignored) and on
/// `ImageBuffer::write_to` with `ImageFormat::Png`: a lossless RGBA PNG
/// bitstream, a function of the RGBA bytes and the dimensions alone.  A PNG
/// bitstream is never empty (it opens with the eight-byte signature).  PNG
/// stores the samples exactly and the PNG decoder of the same crate
/// recovers them, so when the image fits the decoder's allocation cap, a
/// decode of the produced bytes yields the same dimensions and RGBA bytes.
#[verifier::external_body]
pub fn encode_png_lossless(rgba: &Vec<u8>, width: u32, height: u32) -> (r: Result<Vec<u8>, String>)
    ensures
        r matches Ok(b) ==> png_lossless_encoding(rgba@, width as nat, height as nat) == Some(b@)
            && b@.len() > 0,
        r matches Ok(b) ==> ((rgba@.len() == 4 * (width as nat) * (height as nat)
            && within_decode_limits(width as nat, height as nat)) ==> image_decoded(b@) == Some(
            (width as nat, height as nat, rgba@),
        )),
        r is Err ==> png_lossless_encoding(rgba@, width as nat, height as nat) is None,
{
    let img = match image::RgbaImage::from_raw(width, height, rgba.clone()) {
        Some(img) => img,
        None => return Err("pixel buffer does not cover the dimensions".to_string()),
    };
    let mut out = std::io::Cursor::new(Vec::new());
    match img.write_to(&mut out, image::ImageFormat::Png) {
        Ok(()) => Ok(out.into_inner()),
        Err(e) => Err(e.to_string()),
    }
}

/// Relies on `image::RgbImage::from_raw` (`Some` when the buffer covers
/// the dimensions, three bytes per pixel; a longer tail is ignored) and on
/// `ImageBuffer::write_to` with `ImageFormat::Png`; the outcome is a
/// function of the RGB bytes and the dimensions alone, and a produced PNG
/// bitstream is never empty.
#[verifier::external_body]
pub fn encode_rgb_png(rgb: &Vec<u8>, width: u32, height: u32) -> (r: Result<Vec<u8>, String>)
    ensures
        r matches Ok(b) ==> rgb_png_encoding(rgb@, width as nat, height as nat) == Some(b@)
            && b@.len() > 0,
        r is Err ==> rgb_png_encoding(rgb@, width as nat, height as nat) is None,
{
    let img = match image::RgbImage::from_raw(width, height, rgb.clone()) {
        Some(img) => img,
        None => return Err("pixel buffer does not cover the dimensions".to_string()),
    };
    let mut out = std::io::Cursor::new(Vec::new());
    match img.write_to(&mut out, image::ImageFormat::Png) {
        Ok(()) => Ok(out.into_inner()),
        Err(e) => Err(e.to_string()),
    }
}

/// Relies on `webpx::EncoderConfig::new_lossless` and `encode_rgba`, with
/// the `exact` flag set so the RGB values under fully transparent pixels
/// are kept too: the VP8L encoding then stores every sample exactly, and
/// the WebP decoder behind `image::load_from_memory` recovers them.  The
/// encoder accepts a buffer longer than the dimensions need and encodes
/// only its first four bytes per pixel, so the round trip is stated for a
/// buffer of exactly that length, and under the decoder's allocation cap:
/// a decode of the produced bytes then yields the same dimensions and RGBA
/// expansion.  A WebP bitstream is never empty (it opens with the
/// twelve-byte RIFF header).
#[verifier::external_body]
pub fn encode_webp_lossless(rgba: &Vec<u8>, width: u32, height: u32) -> (r: Result<
    Vec<u8>,
    String,
>)
    ensures
        r matches Ok(b) ==> webp_lossless_encoding(rgba@, width as nat, height as nat) == Some(b@)
            && b@.len() > 0,
        r matches Ok(b) ==> ((rgba@.len() == 4 * (width as nat) * (height as nat)
            && within_decode_limits(width as nat, height as nat)) ==> image_decoded(b@) == Some(
            (width as nat, height as nat, rgba@),
        )),
        r is Err ==> webp_lossless_encoding(rgba@, width as nat, height as nat) is None,
{
    let cfg = webpx::EncoderConfig::new_lossless().exact(true);
    match cfg.encode_rgba(rgba.as_slice(), width, height, webpx::Unstoppable) {
        Ok(b) => Ok(b),
        Err(e) => Err(e.to_string()),
    }
}

/// Relies on `image::RgbaImage::from_raw` (`Some` when the buffer covers
/// the dimensions; a longer tail is ignored),
/// `image::codecs::avif::AvifEncoder::new_with_speed_quality` (speed 4, the
/// crate's own default) and `ImageBuffer::write_with_encoder`: an AVIF
/// bitstream driven by the 1-100 quality setting.  The encoder's thread
/// count is pinned to one — left unset, the AV1 tile layout would follow
/// the machine's CPU count — so the bitstream is a deterministic function
/// of the RGBA bytes, the dimensions and the quality.  An AVIF bitstream is
/// never empty (it opens with the `ftyp` box).
#[verifier::external_body]
pub fn encode_avif(rgba: &Vec<u8>, width: u32, height: u32, quality: u8) -> (r: Result<
    Vec<u8>,
    String,
>)
    requires
        1 <= quality <= 100,
    ensures
        r matches Ok(b) ==> avif_encoding(rgba@, width as nat, height as nat, quality) == Some(b@)
            && b@.len() > 0,
        r is Err ==> avif_encoding(rgba@, width as nat, height as nat, quality) is None,
{
    let img = match image::RgbaImage::from_raw(width, height, rgba.clone()) {
        Some(img) => img,
        None => return Err("pixel buffer does not cover the dimensions".to_string()),
    };
    let mut out = std::io::Cursor::new(Vec::new());
    let enc = image::codecs::avif::AvifEncoder::new_with_speed_quality(&mut out, 4, quality)
        .with_num_threads(Some(1));
    match img.write_with_encoder(enc) {
        Ok(()) => Ok(out.into_inner()),
        Err(e) => Err(e.to_string()),
    }
}

/// The lossless fidelity law for PNG: encoding RGBA pixels losslessly and
/// decoding the result reproduces the dimensions and the pixel content
/// exactly, for every image inside the decoder's allocation cap.  `None`
/// comes only when the encoder itself refused the buffer.
pub fn reencode_lossless_png(rgba: &Vec<u8>, width: u32, height: u32) -> (r: Option<
    image::DynamicImage,
>)
    requires
        rgba@.len() == 4 * (width as nat) * (height as nat),
        within_decode_limits(width as nat, height as nat),
    ensures
        r matches Some(d) ==> image_model(d) == (width as nat, height as nat, rgba@),
        r is None ==> png_lossless_encoding(rgba@, width as nat, height as nat) is None,
{
    match encode_png_lossless(rgba, width, height) {
        Ok(bytes) => match decode_image_bytes(&bytes) {
            Ok(d) => Some(d),
            Err(_) => {
                proof {
                    assert(false);
                }
                None
            },
        },
        Err(_) => None,
    }
}

/// The lossless fidelity law for WebP: encoding RGBA pixels losslessly and
/// decoding the result reproduces the dimensions and the pixel content
/// exactly, for every image inside the decoder's allocation cap.  `None`
/// comes only when the encoder itself refused the buffer.
pub fn reencode_lossless_webp(rgba: &Vec<u8>, width: u32, height: u32) -> (r: Option<
    image::DynamicImage,
>)
    requires
        rgba@.len() == 4 * (width as nat) * (height as nat),
        within_decode_limits(width as nat, height as nat),
    ensures
        r matches Some(d) ==> image_model(d) == (width as nat, height as nat, rgba@),
        r is None ==> webp_lossless_encoding(rgba@, width as nat, height as nat) is None,
{
    match encode_webp_lossless(rgba, width, height) {
        Ok(bytes) => match decode_image_bytes(&bytes) {
            Ok(d) => Some(d),
            Err(_) => {
                proof {
                    assert(false);
                }
                None
            },
        },
        Err(_) => None,
    }
}

/// One palette entry handed back by the caller-side quantization step.
#[derive(Clone, Copy, Debug, PartialEq, Eq, Structural)]
pub struct PaletteColor {
    pub r: u8,
    pub g: u8,
    pub b: u8,
    pub a: u8,
}

/// The RGB expansion of a palette-indexed image: for each index, the three
/// colour channels of its palette entry, in order.
pub open spec fn expand_palette_spec(palette: Seq<PaletteColor>, indices: Seq<u8>) -> Seq<u8>
    decreases indices.len(),
{
    if indices.len() == 0 {
        Seq::empty()
    } else {
        let c = palette[indices.last() as int];
        expand_palette_spec(palette, indices.drop_last()) + seq![c.r, c.g, c.b]
    }
}

proof fn lemma_expand_palette_len(palette: Seq<PaletteColor>, indices: Seq<u8>)
    ensures
        expand_palette_spec(palette, indices).len() == 3 * indices.len(),
    decreases indices.len(),
{
    if indices.len() > 0 {
        lemma_expand_palette_len(palette, indices.drop_last());
    }
}

/// Expands a palette-indexed image to plain RGB bytes.  `None` exactly when
/// some index points outside the palette.
pub fn expand_palette(palette: &Vec<PaletteColor>, indices: &Vec<u8>) -> (r: Option<Vec<u8>>)
    ensures
        r matches Some(v) ==> v@ == expand_palette_spec(palette@, indices@) && v@.len() == 3
            * indices@.len() && forall|i: int|
            0 <= i < indices@.len() ==> indices@[i] < palette@.len(),
        r is None ==> exists|i: int| 0 <= i < indices@.len() && indices@[i] >= palette@.len(),
{
    let mut out: Vec<u8> = Vec::new();
    let mut i: usize = 0;
    while i < indices.len()
        invariant
            i <= indices@.len(),
            forall|j: int| 0 <= j < i ==> indices@[j] < palette@.len(),
            out@ == expand_palette_spec(palette@, indices@.take(i as int)),
        decreases indices@.len() - i,
    {
        let idx = indices[i] as usize;
        if idx >= palette.len() {
            return None;
        }
        let c = palette[idx];
        out.push(c.r);
        out.push(c.g);
        out.push(c.b);
        proof {
            assert(indices@.take(i + 1).drop_last() =~= indices@.take(i as int));
            assert(indices@.take(i + 1).last() == indices@[i as int]);
            assert(out@ =~= expand_palette_spec(palette@, indices@.take(i + 1)));
        }
        i = i + 1;
    }
    proof {
        assert(indices@.take(indices@.len() as int) =~= indices@);
        lemma_expand_palette_len(palette@, indices@);
    }
    Some(out)
}

} // verus!
