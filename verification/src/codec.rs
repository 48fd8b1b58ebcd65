use vstd::prelude::*;

use crate::errors::ImageError;
use crate::paths::spec_lower;
use crate::plan::ThumbnailSpec;

verus! {

// The codec's in-memory pixel buffer, carried through opaquely.
#[verifier::external_type_specification]
#[verifier::external_body]
pub struct ExDynamicImage(image::DynamicImage);

// The codec's identifier for an image file format, carried through opaquely.
#[verifier::external_type_specification]
#[verifier::external_body]
pub struct ExImageFormat(image::ImageFormat);

/// The dimensions of the image that the codec decodes from `bytes`, when
/// it decodes one at all. Decoding guesses the format from the bytes, so
/// the outcome depends on the bytes alone.
pub uninterp spec fn decoded_dims(bytes: Seq<u8>) -> Option<(u32, u32)>;

/// The dimensions of the codec's aspect-preserving resize of an image of
/// dimensions `width` by `height` into the box `box_width` by `box_height`.
pub uninterp spec fn thumb_dims(width: u32, height: u32, box_width: u32, box_height: u32) -> (
    u32,
    u32,
);

/// Whether the codec's extension-to-format lookup knows a format for
/// `ext`: a function of the extension alone.
pub uninterp spec fn ext_format_known(ext: Seq<char>) -> bool;

/// The bytes the codec encodes, in the format `ext` names, from the image
/// decoded from `src` and resized into the box `box_width` by
/// `box_height`; nothing when the encoder refuses. The whole pipeline runs
/// in memory, so the outcome is a function of these arguments alone.
pub uninterp spec fn thumb_encoding(
    src: Seq<u8>,
    box_width: u32,
    box_height: u32,
    ext: Seq<char>,
) -> Option<Seq<u8>>;

/// The extensions this module can map to an encoding format, up to ASCII
/// case.
pub open spec fn spec_known_format(ext: Seq<char>) -> bool {
    ||| spec_lower(ext) == "jpg"@
    ||| spec_lower(ext) == "jpeg"@
    ||| spec_lower(ext) == "png"@
    ||| spec_lower(ext) == "gif"@
}

/// Aspect-ratio preservation in integer form: the cross products of the
/// two dimension pairs differ by no more than one rounding step on each
/// axis, so `w : h` equals `sw : sh` up to that rounding.
pub open spec fn aspect_close(sw: int, sh: int, w: int, h: int) -> bool {
    -(sw + sh) <= w * sh - h * sw <= sw + sh
}

/// When generation from `bytes` into the box succeeds: the bytes decode,
/// the extension names a format, and the encoder accepts the resized
/// image. All three are functions of the arguments, so success is too.
pub open spec fn spec_generates(
    bytes: Seq<u8>,
    box_width: u32,
    box_height: u32,
    ext: Seq<char>,
) -> bool {
    &&& decoded_dims(bytes) is Some
    &&& ext_format_known(ext)
    &&& thumb_encoding(bytes, box_width, box_height, ext) is Some
}

/// A decoded image with the dimensions the codec reported for it and, in
/// ghost form, where its pixels come from: the bytes it was decoded from,
/// and the box it was since resized into, if any. Construction is private
/// to this module, whose functions keep all four faithful to the pixel
/// data.
pub struct PixelBuf {
    img: image::DynamicImage,
    pub width: u32,
    pub height: u32,
    pub src: Ghost<Seq<u8>>,
    pub resize_box: Ghost<Option<(u32, u32)>>,
}

/// The codec's identifier for an encoding format, remembering in ghost
/// form the extension that named it. Construction is private to this
/// module, so the identifier is always the lookup's answer for that
/// extension.
pub struct EncodeFormat {
    fmt: image::ImageFormat,
    pub ext: Ghost<Seq<char>>,
}

/// Relies on image::load_from_memory: it decodes the bytes into a pixel
/// buffer, guessing the format from the bytes alone, and on the width and
/// height accessors, which report the decoded dimensions.
#[verifier::external_body]
fn decode_image(bytes: &Vec<u8>) -> (r: Result<PixelBuf, String>)
    ensures
        match r {
            Ok(p) => decoded_dims(bytes@) == Some((p.width, p.height)) && p.src@ == bytes@
                && p.resize_box@ is None,
            Err(_) => decoded_dims(bytes@) is None,
        },
{
    match image::load_from_memory(bytes.as_slice()) {
        Ok(img) => {
            let width = img.width();
            let height = img.height();
            Ok(PixelBuf { img, width, height, src: Ghost(bytes@), resize_box: Ghost(None) })
        },
        Err(e) => Err(e.to_string()),
    }
}

/// Relies on DynamicImage::thumbnail: it preserves aspect ratio up to
/// round-to-nearest on each axis and scales to the largest size that fits
/// within the given bounds, each output dimension at least 1 and at most
/// its bound; the output dimensions are a function of the input
/// dimensions and the bounds alone.
#[verifier::external_body]
fn resize_to_fit(p: &PixelBuf, box_width: u32, box_height: u32) -> (r: PixelBuf)
    requires
        box_width >= 1,
        box_height >= 1,
        p.resize_box@ is None,
    ensures
        (r.width, r.height) == thumb_dims(p.width, p.height, box_width, box_height),
        1 <= r.width <= box_width,
        1 <= r.height <= box_height,
        aspect_close(p.width as int, p.height as int, r.width as int, r.height as int),
        r.src@ == p.src@,
        r.resize_box@ == Some((box_width, box_height)),
{
    let img = p.img.thumbnail(box_width, box_height);
    let width = img.width();
    let height = img.height();
    PixelBuf { img, width, height, src: p.src, resize_box: Ghost(Some((box_width, box_height))) }
}

/// Relies on ImageFormat::from_extension: it matches the extension ASCII
/// case-insensitively, mapping jpg and jpeg to the JPEG format, png to
/// PNG and gif to GIF, and its answer depends on the extension alone.
#[verifier::external_body]
fn format_from_extension(ext: &str) -> (r: Option<EncodeFormat>)
    ensures
        r is Some <==> ext_format_known(ext@),
        r matches Some(f) ==> f.ext@ == ext@,
        spec_known_format(ext@) ==> r is Some,
{
    match image::ImageFormat::from_extension(ext) {
        Some(fmt) => Some(EncodeFormat { fmt, ext: Ghost(ext@) }),
        None => None,
    }
}

/// Relies on DynamicImage::write_to: it encodes the pixel buffer into the
/// in-memory writer in the given format, or reports the encoder's error;
/// encoding in memory depends on the pixels and the format alone, which
/// this module's private construction ties to the recorded source bytes,
/// resize box and extension.
#[verifier::external_body]
fn encode_image(p: &PixelBuf, format: &EncodeFormat) -> (r: Result<Vec<u8>, String>)
    requires
        p.resize_box@ is Some,
    ensures
        match r {
            Ok(b) => thumb_encoding(
                p.src@,
                p.resize_box@->Some_0.0,
                p.resize_box@->Some_0.1,
                format.ext@,
            ) == Some(b@),
            Err(_) => thumb_encoding(
                p.src@,
                p.resize_box@->Some_0.0,
                p.resize_box@->Some_0.1,
                format.ext@,
            ) is None,
        },
{
    let mut cursor = std::io::Cursor::new(Vec::new());
    match p.img.write_to(&mut cursor, format.fmt) {
        Ok(()) => Ok(cursor.into_inner()),
        Err(e) => Err(e.to_string()),
    }
}

/// The thumbnail generated from one source image: the encoded bytes and
/// the dimensions the codec reported for the resized image.
#[derive(Debug)]
pub struct ThumbnailImage {
    pub bytes: Vec<u8>,
    pub width: u32,
    pub height: u32,
}

/// Turns the bytes of one source image into the bytes of its thumbnail:
/// decode, resize into the bounding box preserving aspect ratio, and
/// encode again in the format the source extension names. It succeeds
/// exactly when the bytes decode, the extension names a format, and the
/// encoder accepts the resized image, and then returns the encoding of
/// that image, whose dimensions fit the box and keep the source's aspect
/// ratio up to rounding; otherwise it reports which of the three steps
/// refused.
pub fn make_thumbnail_bytes(bytes: &Vec<u8>, ext: &str, spec: &ThumbnailSpec) -> (r: Result<
    ThumbnailImage,
    ImageError,
>)
    requires
        spec.well_formed(),
    ensures
        r is Ok <==> spec_generates(bytes@, spec.max_width, spec.max_height, ext@),
        r matches Ok(t) ==> ({
            &&& decoded_dims(bytes@) matches Some(d)
            &&& (t.width, t.height) == thumb_dims(d.0, d.1, spec.max_width, spec.max_height)
            &&& 1 <= t.width <= spec.max_width
            &&& 1 <= t.height <= spec.max_height
            &&& aspect_close(d.0 as int, d.1 as int, t.width as int, t.height as int)
            &&& Some(t.bytes@) == thumb_encoding(bytes@, spec.max_width, spec.max_height, ext@)
        }),
        decoded_dims(bytes@) is None <==> (r matches Err(e) && e matches ImageError::DecodeFailed(
            _,
        )),
        decoded_dims(bytes@) is Some && !ext_format_known(ext@) ==> r == Err::<
            ThumbnailImage,
            ImageError,
        >(ImageError::UnsupportedExtension),
        decoded_dims(bytes@) is Some && ext_format_known(ext@) && thumb_encoding(
            bytes@,
            spec.max_width,
            spec.max_height,
            ext@,
        ) is None ==> (r matches Err(e) && e matches ImageError::WriteFailed(_)),
        spec_known_format(ext@) ==> !(r matches Err(e) && e
            matches ImageError::UnsupportedExtension),
{
    let p = match decode_image(bytes) {
        Err(cause) => {
            return Err(ImageError::DecodeFailed(cause));
        },
        Ok(p) => p,
    };
    let small = resize_to_fit(&p, spec.max_width, spec.max_height);
    let format = match format_from_extension(ext) {
        None => {
            return Err(ImageError::UnsupportedExtension);
        },
        Some(f) => f,
    };
    match encode_image(&small, &format) {
        Err(cause) => Err(ImageError::WriteFailed(cause)),
        Ok(out) => Ok(ThumbnailImage { bytes: out, width: small.width, height: small.height }),
    }
}

} // verus!
