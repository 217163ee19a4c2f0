//! Key images: from the `data:` URL that the host sends to the 64x64 JPEG
//! stream that a display key shows, and the commands of an image update.
use vstd::prelude::*;

use crate::commands::{push_keep_reporting, restores_reporting, spec_keep_reporting, TransportCommand};
use crate::mappings::{opendeck_to_device, spec_opendeck_to_device};

verus! {

/// Side length of a key image in pixels.
pub const KEY_IMAGE_SIZE: u32 = 64;

/// JPEG quality of key images (the one the vendor SDK uses).
pub const KEY_IMAGE_QUALITY: u8 = 90;

/// An RGB image: `width` x `height` pixels, row by row, three bytes each.
#[derive(Clone, Debug)]
pub struct RgbPixels {
    pub width: u32,
    pub height: u32,
    pub data: Vec<u8>,
}

/// The media subtype and the decoded body of a `data:` URL.
#[derive(Clone, Debug)]
pub struct DataUrlContent {
    pub subtype: String,
    pub body: Vec<u8>,
}

/// What the `data-url` crate makes of a text: the subtype of its media type
/// and its decoded body, or `None` when the text is no `data:` URL or its
/// base64 body is invalid.
pub uninterp spec fn data_url_content(input: Seq<char>) -> Option<(Seq<char>, Seq<u8>)>;

/// The JPEG stream that `image`'s `JpegEncoder` writes for an RGB image of
/// the given size and quality, or `None` when it reports an error.
pub uninterp spec fn jpeg_encoding(width: u32, height: u32, rgb: Seq<u8>, quality: u8) -> Option<
    Seq<u8>,
>;

/// Processes a `data:` URL with `data_url::DataUrl::process` and decodes its
/// body with `decode_to_vec`; the subtype is read from `mime_type`.
#[verifier::external_body]
pub(crate) fn decode_data_url(input: &str) -> (r: Option<DataUrlContent>)
    ensures
        match r {
            Some(c) => data_url_content(input@) == Some((c.subtype@, c.body@)),
            None => data_url_content(input@) is None,
        },
{
    let url = data_url::DataUrl::process(input).ok()?;
    let (body, _fragment) = url.decode_to_vec().ok()?;
    Some(DataUrlContent { subtype: url.mime_type().subtype.clone(), body })
}

/// Whether `image` decodes a JPEG stream (`load_from_memory_with_format`).
/// Success or failure depends on the bytes alone.
pub uninterp spec fn jpeg_decodes(bytes: Seq<u8>) -> bool;

/// `image`'s JPEG decoder, converted to RGB, may yield an image of this size
/// and these pixels for `bytes`. This is a relation, not a function: the
/// decoder picks SIMD code paths by the processor it runs on, so the pixels
/// may differ between machines; what is claimed is only that the pixels
/// come from these bytes.
pub uninterp spec fn jpeg_decode_outcome(bytes: Seq<u8>, width: u32, height: u32, rgb: Seq<u8>) -> bool;

/// `image::imageops::resize` with the Lanczos3 filter may turn the RGB image
/// `rgb` of `width` x `height` into `out` of `new_width` x `new_height`. A
/// relation, not a function: the filter evaluates `sin` of the platform's
/// math library, so the pixels may differ between platforms.
pub uninterp spec fn lanczos_outcome(
    width: u32,
    height: u32,
    rgb: Seq<u8>,
    new_width: u32,
    new_height: u32,
    out: Seq<u8>,
) -> bool;

/// Decodes a JPEG stream with `image::load_from_memory_with_format` and
/// converts it to RGB (`to_rgb8`): it succeeds exactly when the bytes
/// decode, and its pixels are a decoder outcome for the bytes that covers
/// the image.
#[verifier::external_body]
pub(crate) fn decode_jpeg(bytes: &[u8]) -> (r: Option<RgbPixels>)
    ensures
        r is Some <==> jpeg_decodes(bytes@),
        r matches Some(img) ==> img.data@.len() >= img.width * img.height * 3
            && jpeg_decode_outcome(bytes@, img.width, img.height, img.data@),
{
    let decoded = image::load_from_memory_with_format(bytes, image::ImageFormat::Jpeg).ok()?;
    let rgb = decoded.to_rgb8();
    Some(RgbPixels { width: rgb.width(), height: rgb.height(), data: rgb.into_raw() })
}

/// An image is well formed when its buffer covers its pixels.
pub open spec fn covers(img: RgbPixels) -> bool {
    img.data@.len() >= img.width * img.height * 3
}

/// The byte of channel `c` of pixel (`x`, `y`) in a row-major RGB buffer.
pub open spec fn pixel_byte(data: Seq<u8>, width: int, x: int, y: int, c: int) -> u8 {
    data[(y * width + x) * 3 + c]
}

/// `out` (`out_width` x `out_height`) is the image `src` (`width` x
/// `height`) turned 90 degrees clockwise: its width is the height of `src`,
/// and its pixel (`x`, `y`) is the pixel (`y`, `height - 1 - x`) of `src`.
pub open spec fn is_rotated_clockwise(
    width: u32,
    height: u32,
    src: Seq<u8>,
    out_width: u32,
    out_height: u32,
    out: Seq<u8>,
) -> bool {
    &&& out_width == height
    &&& out_height == width
    &&& out.len() == out_width * out_height * 3
    &&& forall|x: int, y: int, c: int|
        0 <= x < out_width && 0 <= y < out_height && 0 <= c < 3 ==> #[trigger] pixel_byte(
            out,
            out_width as int,
            x,
            y,
            c,
        ) == pixel_byte(src, width as int, y, height - 1 - x, c)
}

/// Turns an RGB image 90 degrees clockwise with `image`'s
/// `DynamicImage::rotate90` (and `to_rgb8`, which copies an RGB image).
#[verifier::external_body]
pub(crate) fn rotate_clockwise(img: &RgbPixels) -> (out: RgbPixels)
    requires
        covers(*img),
    ensures
        is_rotated_clockwise(img.width, img.height, img.data@, out.width, out.height, out.data@),
{
    let buf = image::RgbImage::from_raw(img.width, img.height, img.data.clone()).unwrap();
    let rotated = image::DynamicImage::ImageRgb8(buf).rotate90().to_rgb8();
    RgbPixels { width: rotated.width(), height: rotated.height(), data: rotated.into_raw() }
}

/// Resizes an RGB image with `image::imageops::resize` and the Lanczos3
/// filter: the result has the asked size and is a resize outcome of the
/// given image.
#[verifier::external_body]
pub(crate) fn resize_lanczos(img: &RgbPixels, width: u32, height: u32) -> (out: RgbPixels)
    requires
        covers(*img),
    ensures
        out.width == width,
        out.height == height,
        out.data@.len() == width * height * 3,
        lanczos_outcome(img.width, img.height, img.data@, width, height, out.data@),
{
    let buf = image::RgbImage::from_raw(img.width, img.height, img.data.clone()).unwrap();
    let resized = image::imageops::resize(&buf, width, height, image::imageops::FilterType::Lanczos3);
    RgbPixels { width, height, data: resized.into_raw() }
}

/// Encodes an RGB image as JPEG with `image::codecs::jpeg::JpegEncoder`
/// (`new_with_quality`, then `encode` with the RGB8 colour type). The
/// encoder refuses only sizes outside 1 to 65535 (writing to a vector does
/// not fail).
#[verifier::external_body]
pub(crate) fn encode_jpeg(img: &RgbPixels, quality: u8) -> (r: Option<Vec<u8>>)
    requires
        img.data@.len() == img.width * img.height * 3,
    ensures
        r is Some <==> (1 <= img.width <= 65535 && 1 <= img.height <= 65535),
        match r {
            Some(bytes) => jpeg_encoding(img.width, img.height, img.data@, quality) == Some(bytes@),
            None => jpeg_encoding(img.width, img.height, img.data@, quality) is None,
        },
{
    let mut out = Vec::new();
    let mut encoder = image::codecs::jpeg::JpegEncoder::new_with_quality(&mut out, quality);
    match encoder.encode(&img.data, img.width, img.height, image::ColorType::Rgb8.into()) {
        Ok(()) => Some(out),
        Err(_) => None,
    }
}

/// Why a key image could not be prepared.
#[derive(PartialEq, Eq, Structural, Clone, Copy, Debug)]
pub enum KeyImageError {
    /// The text is no `data:` URL, or its body is no valid base64.
    DataUrl,
    /// The body is no JPEG image.
    Decode,
    /// The resized image could not be encoded.
    Encode,
}

/// Encodes a resized key image: it fails exactly for sizes outside 1 to
/// 65535.
pub fn encode_key_image(resized: &RgbPixels) -> (r: Result<Vec<u8>, KeyImageError>)
    requires
        resized.data@.len() == resized.width * resized.height * 3,
    ensures
        r is Ok <==> (1 <= resized.width <= 65535 && 1 <= resized.height <= 65535),
        match r {
            Ok(bytes) => jpeg_encoding(
                resized.width,
                resized.height,
                resized.data@,
                KEY_IMAGE_QUALITY,
            ) == Some(bytes@),
            Err(e) => e == KeyImageError::Encode && jpeg_encoding(
                resized.width,
                resized.height,
                resized.data@,
                KEY_IMAGE_QUALITY,
            ) is None,
        },
{
    match encode_jpeg(resized, KEY_IMAGE_QUALITY) {
        Some(bytes) => Ok(bytes),
        None => Err(KeyImageError::Encode),
    }
}

/// Turns a decoded image to the orientation of the keys: 90 degrees
/// clockwise.
pub fn orient_key_image(decoded: &RgbPixels) -> (out: RgbPixels)
    requires
        covers(*decoded),
    ensures
        is_rotated_clockwise(
            decoded.width,
            decoded.height,
            decoded.data@,
            out.width,
            out.height,
            out.data@,
        ),
{
    rotate_clockwise(decoded)
}

/// Scales an image to the 64x64 pixels of a key.
pub fn scale_key_image(img: &RgbPixels) -> (out: RgbPixels)
    requires
        covers(*img),
    ensures
        out.width == KEY_IMAGE_SIZE,
        out.height == KEY_IMAGE_SIZE,
        out.data@.len() == 64 * 64 * 3,
        lanczos_outcome(img.width, img.height, img.data@, 64, 64, out.data@),
{
    resize_lanczos(img, KEY_IMAGE_SIZE, KEY_IMAGE_SIZE)
}

/// `jpeg` is the key image of the RGB image `rgb` (`width` x `height`):
/// the image turned 90 degrees clockwise, resized to 64x64 with Lanczos3,
/// encoded as JPEG at quality 90.
pub open spec fn is_key_image_of(width: u32, height: u32, rgb: Seq<u8>, jpeg: Seq<u8>) -> bool {
    exists|rot: Seq<u8>, scaled: Seq<u8>|
        #![trigger lanczos_outcome(height, width, rot, 64, 64, scaled)]
        is_rotated_clockwise(width, height, rgb, height, width, rot) && lanczos_outcome(
            height,
            width,
            rot,
            64,
            64,
            scaled,
        ) && scaled.len() == 64 * 64 * 3 && jpeg_encoding(64, 64, scaled, KEY_IMAGE_QUALITY)
            == Some(jpeg)
}

/// Turns a decoded image into the JPEG stream of a key: rotated 90 degrees
/// clockwise, resized to 64x64, encoded at quality 90. This always succeeds.
pub fn key_image_from_pixels(decoded: &RgbPixels) -> (r: Result<Vec<u8>, KeyImageError>)
    requires
        covers(*decoded),
    ensures
        r matches Ok(bytes) && is_key_image_of(decoded.width, decoded.height, decoded.data@, bytes@),
{
    let rotated = orient_key_image(decoded);
    assert(covers(rotated));
    let resized = scale_key_image(&rotated);
    let r = encode_key_image(&resized);
    proof {
        if let Ok(ref bytes) = r {
            assert(lanczos_outcome(decoded.height, decoded.width, rotated.data@, 64, 64, resized.data@));
            assert(is_key_image_of(decoded.width, decoded.height, decoded.data@, bytes@));
        }
    }
    r
}

/// A `data:` URL of media subtype `jpeg`.
pub open spec fn is_jpeg_url(url: Seq<char>) -> bool {
    data_url_content(url) matches Some((subtype, _)) && subtype == "jpeg"@
}

/// The decoded body of a `data:` URL.
pub open spec fn url_body(url: Seq<char>) -> Seq<u8> {
    data_url_content(url).unwrap().1
}

/// `jpeg` is the key image of a decoder outcome of the body of `url`.
pub open spec fn renders_to(url: Seq<char>, jpeg: Seq<u8>) -> bool {
    exists|width: u32, height: u32, rgb: Seq<u8>|
        #[trigger] jpeg_decode_outcome(url_body(url), width, height, rgb) && rgb.len() >= width
            * height * 3 && is_key_image_of(width, height, rgb, jpeg)
}

/// Prepares the key image of a `data:` URL:
/// - `Err(DataUrl)` exactly when the text is no valid `data:` URL;
/// - `Ok(None)` when its media subtype is not `jpeg` (the image is then left
///   alone);
/// - `Err(Decode)` when the body does not decode as JPEG;
/// - otherwise the key image of the decoded body.
pub fn render_key_image(url: &str) -> (r: Result<Option<Vec<u8>>, KeyImageError>)
    ensures
        data_url_content(url@) is None <==> r == Err::<Option<Vec<u8>>, KeyImageError>(
            KeyImageError::DataUrl,
        ),
        data_url_content(url@) is Some && !is_jpeg_url(url@) ==> r == Ok::<
            Option<Vec<u8>>,
            KeyImageError,
        >(None),
        is_jpeg_url(url@) && !jpeg_decodes(url_body(url@)) ==> r == Err::<
            Option<Vec<u8>>,
            KeyImageError,
        >(KeyImageError::Decode),
        is_jpeg_url(url@) && jpeg_decodes(url_body(url@)) ==> (r matches Ok(Some(bytes))
            && renders_to(url@, bytes@)),
{
    let content = match decode_data_url(url) {
        Some(c) => c,
        None => return Err(KeyImageError::DataUrl),
    };
    if content.subtype != String::from_str("jpeg") {
        return Ok(None);
    }
    let decoded = match decode_jpeg(content.body.as_slice()) {
        Some(img) => img,
        None => return Err(KeyImageError::Decode),
    };
    match key_image_from_pixels(&decoded) {
        Ok(bytes) => {
            assert(jpeg_decode_outcome(url_body(url@), decoded.width, decoded.height, decoded.data@));
            Ok(Some(bytes))
        },
        Err(e) => Err(e),
    }
}

/// A key image update: the commands to issue, and the JPEG stream that a
/// `SetKeyImageStream` command among them sends.
#[derive(Clone, Debug)]
pub struct ImageUpdate {
    pub jpeg: Vec<u8>,
    pub commands: Vec<TransportCommand>,
}

/// The commands of an image update for a key `position` (if any) and an
/// image, which is absent (`None`), was no JPEG (`Some(None)`), or is the
/// JPEG stream for the key (`Some(Some(..))`):
/// - an image that was no JPEG changes nothing, not even the report setup;
/// - an image for a known key is streamed and the screens refreshed;
/// - no image for a known key clears that key;
/// - no position and no image clears all keys;
/// - in every other case the key images stay;
/// and each update ends by restoring raw reporting.
pub open spec fn spec_image_update_commands(position: Option<u8>, image: Option<Option<Seq<u8>>>) -> Seq<
    TransportCommand,
> {
    match (position, image) {
        (Some(_), Some(None)) => seq![],
        (Some(p), Some(Some(_))) => match spec_opendeck_to_device(p) {
            Some(key) => seq![TransportCommand::SetKeyImageStream(key), TransportCommand::Refresh]
                + spec_keep_reporting(),
            None => spec_keep_reporting(),
        },
        (Some(p), None) => match spec_opendeck_to_device(p) {
            Some(key) => seq![TransportCommand::ClearKey(key), TransportCommand::Refresh]
                + spec_keep_reporting(),
            None => spec_keep_reporting(),
        },
        (None, None) => seq![TransportCommand::ClearAllKeys, TransportCommand::Refresh]
            + spec_keep_reporting(),
        (None, Some(_)) => spec_keep_reporting(),
    }
}

/// Builds the update for a key position and a prepared image.
pub fn image_update(position: Option<u8>, image: Option<Option<Vec<u8>>>) -> (u: ImageUpdate)
    ensures
        u.commands@ == spec_image_update_commands(
            position,
            match image {
                Some(Some(j)) => Some(Some(j@)),
                Some(None) => Some(None),
                None => None,
            },
        ),
        image matches Some(Some(j)) ==> u.jpeg@ == j@,
{
    let mut commands: Vec<TransportCommand> = Vec::new();
    let mut jpeg: Vec<u8> = Vec::new();
    match (position, image) {
        (Some(_), Some(None)) => {
            assert(commands@ =~= seq![]);
            return ImageUpdate { jpeg, commands };
        },
        (Some(p), Some(Some(bytes))) => {
            jpeg = bytes;
            if let Some(key) = opendeck_to_device(p) {
                commands.push(TransportCommand::SetKeyImageStream(key));
                commands.push(TransportCommand::Refresh);
            }
        },
        (Some(p), None) => {
            if let Some(key) = opendeck_to_device(p) {
                commands.push(TransportCommand::ClearKey(key));
                commands.push(TransportCommand::Refresh);
            }
        },
        (None, None) => {
            commands.push(TransportCommand::ClearAllKeys);
            commands.push(TransportCommand::Refresh);
        },
        (None, Some(prepared)) => {
            if let Some(bytes) = prepared {
                jpeg = bytes;
            }
        },
    }
    let ghost before = commands@;
    push_keep_reporting(&mut commands);
    assert(commands@ == before + spec_keep_reporting());
    proof {
        if before.len() == 0 {
            assert(before + spec_keep_reporting() =~= spec_keep_reporting());
        }
    }
    ImageUpdate { jpeg, commands }
}

/// Handles an image event of the host: prepares the image when there is a
/// key position and an image, then builds the update. Errors of the image
/// preparation are returned as they are.
pub fn set_image(position: Option<u8>, image: Option<&str>) -> (r: Result<ImageUpdate, KeyImageError>)
    ensures
        position is None || image is None ==> (r matches Ok(u) && u.commands@
            == spec_image_update_commands(
            position,
            match image {
                Some(_) => Some(Some(Seq::empty())),
                None => None,
            },
        )),
        position is Some && image is Some ==> {
            let url = image.unwrap()@;
            &&& data_url_content(url) is None ==> r == Err::<ImageUpdate, KeyImageError>(
                KeyImageError::DataUrl,
            )
            &&& (data_url_content(url) is Some && !is_jpeg_url(url)) ==> (r matches Ok(u)
                && u.commands@.len() == 0)
            &&& (is_jpeg_url(url) && !jpeg_decodes(url_body(url))) ==> r == Err::<
                ImageUpdate,
                KeyImageError,
            >(KeyImageError::Decode)
            &&& (is_jpeg_url(url) && jpeg_decodes(url_body(url))) ==> (r matches Ok(u)
                && u.commands@ == spec_image_update_commands(position, Some(Some(u.jpeg@)))
                && renders_to(url, u.jpeg@))
        },
{
    match (position, image) {
        (Some(p), Some(url)) => {
            match render_key_image(url) {
                Ok(rendered) => Ok(image_update(Some(p), Some(rendered))),
                Err(e) => Err(e),
            }
        },
        (_, Some(_)) => Ok(image_update(position, Some(Some(Vec::new())))),
        (_, None) => Ok(image_update(position, None)),
    }
}

/// Image events for a knob are not for a display key.
pub fn accepts_image_event(controller: Option<&str>) -> (r: bool)
    ensures
        r == !(controller matches Some(c) && c@ == "Encoder"@),
{
    match controller {
        Some(c) => c.to_owned() != String::from_str("Encoder"),
        None => true,
    }
}

/// Every image update restores raw reporting at its end, except the one for
/// an image that was no JPEG, which sends nothing at all.
pub proof fn lemma_image_updates_restore_reporting(position: Option<u8>, image: Option<Option<Seq<u8>>>)
    ensures
        (position matches Some(_) && image == Some(None::<Seq<u8>>)) ==> spec_image_update_commands(
            position,
            image,
        ).len() == 0,
        !(position is Some && image == Some(None::<Seq<u8>>)) ==> restores_reporting(
            spec_image_update_commands(position, image),
        ),
{
    crate::commands::lemma_host_sequences_restore_reporting();
    let s = spec_image_update_commands(position, image);
    let k = spec_keep_reporting();
    if !(position is Some && image == Some(None::<Seq<u8>>)) && s != k {
        assert(s.len() == 5);
        assert(s.skip(2) =~= k);
        assert(s[2] == k[0]);
        assert(s[3] == k[1]);
    }
}

} // verus!
