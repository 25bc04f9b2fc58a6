use ray_tracer::encode::png_result;
use ray_tracer::encode::PngError;
use ray_tracer::image::Image;
use ray_tracer::vector::Vector3;

fn v(x: f64, y: f64, z: f64) -> Vector3<f64> {
    Vector3::new(x, y, z)
}

fn parts(v: Vector3<f64>) -> (f64, f64, f64) {
    (v.x(), v.y(), v.z())
}

fn to_byte(x: f64) -> u8 {
    x as u8
}

#[test]
fn new_image_is_black() {
    let image: Image<f64> = Image::new((3, 2));
    assert_eq!(image.shape, (3, 2));
    assert_eq!(image.pixels.len(), 6);
    for p in image.pixels.iter() {
        assert_eq!(parts(*p), (0.0, 0.0, 0.0));
    }
}

#[test]
fn pixels_are_stored_row_by_row() {
    let mut image: Image<f64> = Image::new((3, 2));
    image.set(1, 0, v(1.0, 2.0, 3.0));
    image.set(2, 1, v(4.0, 5.0, 6.0));
    assert_eq!(parts(image.pixels[1]), (1.0, 2.0, 3.0));
    assert_eq!(parts(image.pixels[5]), (4.0, 5.0, 6.0));
    assert_eq!(parts(image.get(1, 0)), (1.0, 2.0, 3.0));
    assert_eq!(parts(image.get(2, 1)), (4.0, 5.0, 6.0));
    assert_eq!(parts(image.get(0, 0)), (0.0, 0.0, 0.0));
}

#[test]
fn flattening_goes_pixel_by_pixel_and_channel_by_channel() {
    let mut image: Image<f64> = Image::new((2, 1));
    image.set(0, 0, v(1.0, 2.0, 3.0));
    image.set(1, 0, v(4.0, 5.0, 6.0));
    assert_eq!(image.as_flattened(&to_byte), vec![1, 2, 3, 4, 5, 6]);
}

#[test]
fn the_sink_clamps_to_the_byte_range() {
    let mut image: Image<f64> = Image::new((1, 1));
    image.set(0, 0, v(-3.0, 255.9, 1000.0));
    assert_eq!(image.as_flattened(&to_byte), vec![0, 255, 255]);
}

#[test]
fn png_starts_with_the_signature_and_the_header() {
    let mut image: Image<f64> = Image::new((2, 3));
    image.set(1, 2, v(10.0, 20.0, 30.0));
    let data = image.as_flattened(&to_byte);
    let bytes = image.to_png(&to_byte).unwrap();
    assert_ne!(bytes, data);
    assert_eq!(&bytes[..8], &[137, 80, 78, 71, 13, 10, 26, 10]);
    // IHDR: length 13, then width 2, height 3, depth 8, colour type 2
    assert_eq!(&bytes[8..16], &[0, 0, 0, 13, b'I', b'H', b'D', b'R']);
    assert_eq!(&bytes[16..26], &[0, 0, 0, 2, 0, 0, 0, 3, 8, 2]);
    assert_eq!(&bytes[bytes.len() - 8..bytes.len() - 4], b"IEND");
}

#[test]
fn png_carries_gamma_and_chromaticities() {
    let image: Image<f64> = Image::new((1, 1));
    let bytes = image.to_png(&to_byte).unwrap();
    let find = |tag: &[u8]| bytes.windows(4).position(|w| w == tag).unwrap();
    let gama = find(b"gAMA");
    assert_eq!(&bytes[gama + 4..gama + 8], &45454u32.to_be_bytes());
    let chrm = find(b"cHRM");
    let expected = [31270u32, 32900, 64000, 33000, 30000, 60000, 15000, 6000];
    for (k, value) in expected.iter().enumerate() {
        assert_eq!(&bytes[chrm + 4 + 4 * k..chrm + 8 + 4 * k], &value.to_be_bytes());
    }
}

#[test]
fn png_decodes_to_the_pixels() {
    let mut image: Image<f64> = Image::new((2, 2));
    image.set(0, 0, v(255.0, 0.0, 0.0));
    image.set(1, 0, v(0.0, 255.0, 0.0));
    image.set(0, 1, v(0.0, 0.0, 255.0));
    image.set(1, 1, v(1.0, 2.0, 3.0));
    let bytes = image.to_png(&to_byte).unwrap();
    let decoder = png::Decoder::new(std::io::Cursor::new(bytes));
    let mut reader = decoder.read_info().unwrap();
    let mut buffer = vec![0u8; reader.output_buffer_size()];
    let info = reader.next_frame(&mut buffer).unwrap();
    assert_eq!((info.width, info.height), (2, 2));
    assert_eq!(&buffer[..info.buffer_size()], &[255, 0, 0, 0, 255, 0, 0, 0, 255, 1, 2, 3]);
}

#[test]
fn image_without_pixels_is_refused_by_the_encoder() {
    let image: Image<f64> = Image::new((0, 4));
    assert_eq!(image.to_png(&to_byte), Err(PngError::Encoder));
    let flat: Image<f64> = Image::new((4, 0));
    assert_eq!(flat.to_png(&to_byte), Err(PngError::Encoder));
}

#[test]
fn encoder_errors_become_the_library_error() {
    assert_eq!(png_result(Err(png::EncodingError::LimitsExceeded)), Err(PngError::Encoder));
    assert_eq!(png_result(Ok(vec![1, 2, 3])), Ok(vec![1, 2, 3]));
}

#[test]
fn image_wider_than_a_png_can_be_is_refused() {
    let wide: Image<f64> = Image::new((u32::MAX as usize + 1, 0));
    assert_eq!(wide.to_png(&to_byte), Err(PngError::TooLarge));
    let high: Image<f64> = Image::new((0, u32::MAX as usize + 1));
    assert_eq!(high.to_png(&to_byte), Err(PngError::TooLarge));
}
