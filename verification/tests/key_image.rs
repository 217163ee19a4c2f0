use opendeck_k1pro::commands::{keep_reporting_commands, TransportCommand};
use opendeck_k1pro::key_image::{
    accepts_image_event, encode_key_image, image_update, key_image_from_pixels, orient_key_image,
    render_key_image, scale_key_image, set_image, KeyImageError, RgbPixels,
};

fn decode(bytes: &[u8]) -> RgbPixels {
    let img = image::load_from_memory_with_format(bytes, image::ImageFormat::Jpeg).unwrap().to_rgb8();
    RgbPixels { width: img.width(), height: img.height(), data: img.into_raw() }
}

fn jpeg_of(width: u32, height: u32) -> Vec<u8> {
    let mut data = Vec::new();
    for y in 0..height {
        for x in 0..width {
            data.extend_from_slice(&[(x * 20) as u8, (y * 30) as u8, 128]);
        }
    }
    let mut out = Vec::new();
    image::codecs::jpeg::JpegEncoder::new_with_quality(&mut out, 95)
        .encode(&data, width, height, image::ColorType::Rgb8.into())
        .unwrap();
    out
}

fn data_url(mime: &str, body: &[u8]) -> String {
    let mut url = format!("data:{},", mime);
    for b in body {
        url.push_str(&format!("%{:02X}", b));
    }
    url
}

#[test]
fn data_urls_are_decoded() {
    assert_eq!(render_key_image("data:image/jpeg;base64,AAEC"), Err(KeyImageError::Decode));
    assert_eq!(render_key_image("data:,Hello%20World!"), Ok(None));
    assert_eq!(render_key_image("data:image/png;base64,AAEC"), Ok(None));
    assert_eq!(render_key_image("http://example.com/a.jpg"), Err(KeyImageError::DataUrl));
    assert_eq!(render_key_image("data:image/jpeg;base64"), Err(KeyImageError::DataUrl));
    assert_eq!(render_key_image("data:image/jpeg;base64,A"), Err(KeyImageError::DataUrl));
    let b64 = base64_of(&jpeg_of(10, 10));
    assert!(render_key_image(&format!("data:image/jpeg;base64,{}", b64)).unwrap().is_some());
}

fn base64_of(bytes: &[u8]) -> String {
    const TABLE: &[u8; 64] = b"ABCDEFGHIJKLMNOPQRSTUVWXYZabcdefghijklmnopqrstuvwxyz0123456789+/";
    let mut out = String::new();
    for chunk in bytes.chunks(3) {
        let b = [chunk[0], *chunk.get(1).unwrap_or(&0), *chunk.get(2).unwrap_or(&0)];
        let n = ((b[0] as u32) << 16) | ((b[1] as u32) << 8) | b[2] as u32;
        for i in 0..4 {
            if i <= chunk.len() {
                out.push(TABLE[((n >> (18 - 6 * i)) & 63) as usize] as char);
            } else {
                out.push('=');
            }
        }
    }
    out
}

#[test]
fn rotation_turns_pixels_clockwise() {
    // 3 wide, 2 high; pixel (x, y) has red = 10 * y + x.
    let mut data = Vec::new();
    for y in 0..2u8 {
        for x in 0..3u8 {
            data.extend_from_slice(&[10 * y + x, 0, 0]);
        }
    }
    let img = RgbPixels { width: 3, height: 2, data };
    let out = orient_key_image(&img);
    assert_eq!((out.width, out.height), (2, 3));
    let reds: Vec<u8> = out.data.chunks(3).map(|p| p[0]).collect();
    // Pixel (x, y) of the result is pixel (y, 1 - x) of the source.
    assert_eq!(reds, vec![10, 0, 11, 1, 12, 2]);
}

#[test]
fn key_images_are_64_pixel_jpegs() {
    let decoded = decode(&jpeg_of(40, 24));
    let rotated = orient_key_image(&decoded);
    assert_eq!((rotated.width, rotated.height), (24, 40));
    let resized = scale_key_image(&rotated);
    assert_eq!((resized.width, resized.height), (64, 64));
    assert_eq!(resized.data.len(), 64 * 64 * 3);
    let jpeg = encode_key_image(&resized).unwrap();
    let back = decode(&jpeg);
    assert_eq!((back.width, back.height), (64, 64));
    let direct = key_image_from_pixels(&decoded).unwrap();
    assert_eq!(direct, jpeg);
}

#[test]
fn rendering_follows_the_media_type() {
    let body = jpeg_of(16, 32);
    let url = data_url("image/jpeg", &body);
    let jpeg = render_key_image(&url).unwrap().unwrap();
    assert_eq!(jpeg, key_image_from_pixels(&decode(&body)).unwrap());
    assert_eq!(&jpeg[..2], &[0xFF, 0xD8]);
    let shown = decode(&jpeg);
    assert_eq!((shown.width, shown.height), (64, 64));
    assert_eq!(render_key_image(&data_url("image/png", &[1, 2, 3])), Ok(None));
    assert_eq!(render_key_image("not a data url"), Err(KeyImageError::DataUrl));
    assert_eq!(render_key_image(&data_url("image/jpeg", b"garbage")), Err(KeyImageError::Decode));
}

#[test]
fn image_updates_by_position_and_image() {
    let keep = keep_reporting_commands();
    let mut expected = vec![TransportCommand::SetKeyImageStream(0x03), TransportCommand::Refresh];
    expected.extend(keep.clone());
    let u = image_update(Some(1), Some(Some(vec![9, 9])));
    assert_eq!(u.commands, expected);
    assert_eq!(u.jpeg, vec![9, 9]);

    assert!(image_update(Some(1), Some(None)).commands.is_empty());
    assert_eq!(image_update(Some(9), Some(Some(vec![1]))).commands, keep);

    let mut clear = vec![TransportCommand::ClearKey(0x02), TransportCommand::Refresh];
    clear.extend(keep.clone());
    assert_eq!(image_update(Some(5), None).commands, clear);
    assert_eq!(image_update(Some(6), None).commands, keep);

    let mut clear_all = vec![TransportCommand::ClearAllKeys, TransportCommand::Refresh];
    clear_all.extend(keep.clone());
    assert_eq!(image_update(None, None).commands, clear_all);
    assert_eq!(image_update(None, Some(Some(vec![1]))).commands, keep);
}

#[test]
fn set_image_events() {
    let url = data_url("image/jpeg", &jpeg_of(8, 8));
    let u = set_image(Some(0), Some(&url)).unwrap();
    assert_eq!(u.commands[0], TransportCommand::SetKeyImageStream(0x05));
    assert_eq!(&u.jpeg[..2], &[0xFF, 0xD8]);
    assert!(set_image(Some(0), Some(&data_url("image/png", &[0]))).unwrap().commands.is_empty());
    assert_eq!(set_image(Some(0), Some("data:")).unwrap_err(), KeyImageError::DataUrl);
    assert_eq!(set_image(None, Some("whatever")).unwrap().commands, keep_reporting_commands());
    assert_eq!(set_image(None, None).unwrap().commands[0], TransportCommand::ClearAllKeys);
    assert!(!accepts_image_event(Some("Encoder")));
    assert!(accepts_image_event(Some("Keypad")));
    assert!(accepts_image_event(None));
}

#[test]
fn empty_images_cannot_be_encoded() {
    let empty = RgbPixels { width: 0, height: 0, data: Vec::new() };
    assert_eq!(encode_key_image(&empty), Err(KeyImageError::Encode));
}
