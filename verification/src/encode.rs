use crate::image::channels;
use crate::image::Image;
use crate::scalar::Scalar;
use vstd::prelude::*;

verus! {

/// The error type of the `png` crate's encoder, `png::EncodingError`. Nothing
/// is claimed of its values.
#[verifier::external_type_specification]
#[verifier::external_body]
pub struct ExEncodingError(png::EncodingError);

/// Why an image could not be made into a PNG file.
#[derive(Debug, Clone, Copy, PartialEq, Eq, Structural)]
pub enum PngError {
    /// The width or the height does not fit in 32 bits.
    TooLarge,
    /// The encoder refused the image or failed.
    Encoder,
}

/// Gamma of the source system, in units of 1/100000: 1 / 2.2, rounded down.
pub const SOURCE_GAMMA: u32 = 45454;

/// Chromaticities of the source system in units of 1/100000: `x` and `y` of
/// the white point, then of red, green and blue.
pub open spec fn source_chromaticities() -> Seq<(u32, u32)> {
    seq![(31270u32, 32900u32), (64000u32, 33000u32), (30000u32, 60000u32), (15000u32, 6000u32)]
}

/// The bytes of the PNG file that the encoder of the `png` crate writes for an
/// image of `width` by `height` pixels with 8-bit RGB samples `data`, a gAMA
/// chunk of `gamma` and a cHRM chunk of `chroma`; `None` where the encoder
/// returns an error.
pub uninterp spec fn png_bytes(
    width: u32,
    height: u32,
    gamma: u32,
    chroma: Seq<(u32, u32)>,
    data: Seq<u8>,
) -> Option<Seq<u8>>;

/// Runs `png::Encoder` into a buffer in memory: `Encoder::new`, colour type
/// RGB, bit depth eight, `set_source_gamma`, `set_source_chromaticities`,
/// `write_header`, `Writer::write_image_data` and `Writer::finish`. The
/// contract only names what comes back; it claims that the same arguments
/// give the same bytes, and nothing of the bytes themselves.
#[verifier::external_body]
fn encode_rgb(width: u32, height: u32, gamma: u32, chroma: &[(u32, u32); 4], data: &Vec<u8>) -> (r:
    Result<Vec<u8>, png::EncodingError>)
    requires
        data@.len() == 3 * width * height,
    ensures
        match r {
            Ok(bytes) => png_bytes(width, height, gamma, chroma@, data@) == Some(bytes@),
            Err(_) => png_bytes(width, height, gamma, chroma@, data@) is None,
        },
{
    let mut out: Vec<u8> = Vec::new();
    let point = |k: usize| (png::ScaledFloat::from_scaled(chroma[k].0), png::ScaledFloat::from_scaled(chroma[k].1));
    let mut encoder = png::Encoder::new(&mut out, width, height);
    encoder.set_color(png::ColorType::Rgb);
    encoder.set_depth(png::BitDepth::Eight);
    encoder.set_source_gamma(png::ScaledFloat::from_scaled(gamma));
    let (white, red, green, blue) = (point(0), point(1), point(2), point(3));
    encoder.set_source_chromaticities(png::SourceChromaticities { white, red, green, blue });
    let mut writer = encoder.write_header()?;
    writer.write_image_data(data)?;
    writer.finish()?;
    Ok(out)
}

/// What the encoder returned, with its error replaced by this library's.
pub fn png_result(encoded: Result<Vec<u8>, png::EncodingError>) -> (r: Result<Vec<u8>, PngError>)
    ensures
        match encoded {
            Ok(bytes) => r == Ok::<Vec<u8>, PngError>(bytes),
            Err(_) => r == Err::<Vec<u8>, PngError>(PngError::Encoder),
        },
{
    match encoded {
        Ok(bytes) => Ok(bytes),
        Err(_) => Err(PngError::Encoder),
    }
}

/// `data` holds, channel by channel, what `quantize` may make of the channels
/// of `pixels`.
pub open spec fn quantized<T, F: Fn(T) -> u8>(
    quantize: &F,
    pixels: Seq<crate::vector::Vector3<T>>,
    data: Seq<u8>,
) -> bool {
    &&& data.len() == 3 * pixels.len()
    &&& forall|k: int|
        0 <= k < data.len() ==> quantize.ensures((channels(pixels)[k],), #[trigger] data[k])
}

impl<T: Scalar> Image<T> {
    /// The image as the bytes of a PNG file with 8-bit RGB samples. Every
    /// channel is made into a byte by `quantize`; rows are written from the
    /// top, and the file carries the gamma and the chromaticities of the
    /// source system.
    pub fn to_png<F: Fn(T) -> u8>(&self, quantize: &F) -> (r: Result<Vec<u8>, PngError>)
        requires
            self.well_formed(),
            forall|x: T| #[trigger] quantize.requires((x,)),
        ensures
            (self.shape.0 > u32::MAX || self.shape.1 > u32::MAX) ==> r == Err::<Vec<u8>, PngError>(
                PngError::TooLarge,
            ),
            (self.shape.0 <= u32::MAX && self.shape.1 <= u32::MAX) ==> exists|data: Seq<u8>|
                {
                    &&& #[trigger] quantized(quantize, self.pixels@, data)
                    &&& match png_bytes(
                        self.shape.0 as u32,
                        self.shape.1 as u32,
                        SOURCE_GAMMA,
                        source_chromaticities(),
                        data,
                    ) {
                        Some(bytes) => r is Ok && r.unwrap()@ == bytes,
                        None => r == Err::<Vec<u8>, PngError>(PngError::Encoder),
                    }
                },
    {
        if self.shape.0 > 0xffff_ffff || self.shape.1 > 0xffff_ffff {
            return Err(PngError::TooLarge);
        }
        let data = self.as_flattened(quantize);
        let chroma: [(u32, u32); 4] = [(31270, 32900), (64000, 33000), (30000, 60000), (15000, 6000)];
        assert(chroma@ =~= source_chromaticities());
        assert(quantized(quantize, self.pixels@, data@));
        assert(data@.len() == 3 * (self.shape.0 as u32) * (self.shape.1 as u32)) by (nonlinear_arith)
            requires
                data@.len() == 3 * (self.shape.0 * self.shape.1),
                self.shape.0 <= u32::MAX,
                self.shape.1 <= u32::MAX,
        ;
        let encoded = encode_rgb(
            self.shape.0 as u32,
            self.shape.1 as u32,
            SOURCE_GAMMA,
            &chroma,
            &data,
        );
        png_result(encoded)
    }
}

} // verus!
