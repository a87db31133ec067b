//! Trusted boundary around the external image decoder and OCR engine.
//!
//! Everything in this module either declares an external type or wraps a
//! single step of the external pipeline behind a contract that Verus
//! believes without proof. The verified request handler in
//! `crate::pipeline` is proved against these contracts alone.

use vstd::prelude::*;

verus! {

#[verifier::external_type_specification]
#[verifier::external_body]
pub struct ExOcrEngine(ocrs::OcrEngine);

#[verifier::external_type_specification]
#[verifier::external_body]
pub struct ExOcrInput(ocrs::OcrInput);

#[verifier::external_type_specification]
#[verifier::external_body]
pub struct ExModel(rten::Model);

#[verifier::external_type_specification]
#[verifier::external_body]
pub struct ExRotatedRect(rten_imageproc::RotatedRect);

/// Whether `data` parses as a serialized inference model. Names the
/// success of `rten::Model::load`, which depends on the bytes alone.
pub uninterp spec fn model_parses(data: Seq<u8>) -> bool;

/// A decoded image: `height` rows of `width` pixels, three bytes per
/// pixel (red, green, blue), rows stored top to bottom with the channels
/// interleaved.
pub struct DecodedImage {
    pub width: u32,
    pub height: u32,
    pub pixels: Vec<u8>,
}

impl DecodedImage {
    /// The buffer holds exactly three bytes per pixel, and the pixel
    /// count stays within the decoder's 512 MiB allocation cap.
    pub open spec fn wf(self) -> bool {
        &&& self.pixels@.len() == 3 * (self.width as int) * (self.height as int)
        &&& (self.width as int) * (self.height as int) <= 0x2000_0000
    }
}

/// What decoding `bytes` as a PNG yields: `None` when the bytes are
/// rejected, otherwise the image as 8-bit RGB rows. Names the result of
/// `image::load_from_memory_with_format` with the PNG format, converted
/// to RGB8: under the decoder's fixed default limits it is a function of
/// the bytes alone, in every process and on every machine, and
/// `DecodedImage` is a record of plain values.
pub uninterp spec fn png_decoded(bytes: Seq<u8>) -> Option<DecodedImage>;

/// Relies on `image::load_from_memory_with_format`: it returns `Ok`
/// exactly when the bytes are a decodable PNG. The decoded image is
/// converted to 8-bit RGB; the image crate documents the RGB8 buffer as
/// `width * height * 3` bytes in row-major, channel-interleaved order,
/// and its default decoding limits cap any allocation at 512 MiB, which
/// bounds the pixel count. A decoded PNG always has at least one pixel:
/// the png decoder rejects an image with a zero dimension outright.
#[verifier::external_body]
pub(crate) fn decode_png(bytes: &Vec<u8>) -> (r: Option<DecodedImage>)
    ensures
        r == png_decoded(bytes@),
        r matches Some(img) ==> img.wf() && (img.width as int) * (img.height as int) > 0,
{
    match image::load_from_memory_with_format(bytes, image::ImageFormat::Png) {
        Ok(decoded) => {
            let rgb = decoded.into_rgb8();
            let (width, height) = rgb.dimensions();
            Some(DecodedImage { width, height, pixels: rgb.into_raw() })
        },
        Err(_) => None,
    }
}

/// Relies on `rten::Model::load`: it parses a serialized model from a
/// byte buffer, succeeding or failing on the bytes alone. The error's
/// detail is dropped here; the caller reports which model failed.
#[verifier::external_body]
pub(crate) fn load_model(data: Vec<u8>) -> (r: Option<rten::Model>)
    ensures
        r is Some <==> model_parses(data@),
{
    rten::Model::load(data).ok()
}

/// Relies on `ocrs::OcrEngine::new`: it builds an engine around one
/// detection and one recognition model, here with greedy decoding, debug
/// logging on, and the default alphabet, as the service is configured.
/// Construction can fail if a model lacks the expected inputs, so nothing
/// is promised of the outcome.
#[verifier::external_body]
pub(crate) fn new_engine(detection: rten::Model, recognition: rten::Model) -> (r: Option<
    ocrs::OcrEngine,
>) {
    ocrs::OcrEngine::new(ocrs::OcrEngineParams {
        detection_model: Some(detection),
        recognition_model: Some(recognition),
        debug: true,
        decode_method: ocrs::DecodeMethod::Greedy,
        alphabet: None,
        allowed_chars: None,
    }).ok()
}

/// Relies on `ocrs::ImageSource::from_bytes` and
/// `ocrs::OcrEngine::prepare_input`. `from_bytes` accepts any buffer
/// whose length is a multiple of a positive `width * height` (three
/// channels here, per `DecodedImage::wf`), and `prepare_input` itself
/// always succeeds (its body wraps the normalized tensor in `Ok`), so
/// preparation is only refused for an image with no pixels. The
/// well-formedness bound keeps `width * height` within `u32`, which
/// `from_bytes` computes.
#[verifier::external_body]
pub(crate) fn prepare_input(engine: &ocrs::OcrEngine, img: &DecodedImage) -> (r: Option<
    ocrs::OcrInput,
>)
    requires
        img.wf(),
    ensures
        (img.width as int) * (img.height as int) > 0 ==> r is Some,
{
    match ocrs::ImageSource::from_bytes(&img.pixels, (img.width, img.height)) {
        Ok(source) => engine.prepare_input(source).ok(),
        Err(_) => None,
    }
}

/// Relies on `ocrs::OcrEngine::detect_words`: it returns the bounding
/// rectangles of the candidate words it found, or fails when the engine
/// holds no detection model or inference fails; which of these happens
/// depends on the engine's models, so nothing is promised of the outcome.
#[verifier::external_body]
pub(crate) fn detect_words(engine: &ocrs::OcrEngine, input: &ocrs::OcrInput) -> (r: Option<
    Vec<rten_imageproc::RotatedRect>,
>) {
    engine.detect_words(input).ok()
}

/// Relies on `ocrs::OcrEngine::find_text_lines`: it groups word
/// rectangles into lines in reading order and cannot fail. Every returned
/// line holds at least one word rectangle: each group the layout analysis
/// builds starts from one word.
#[verifier::external_body]
pub(crate) fn find_text_lines(
    engine: &ocrs::OcrEngine,
    input: &ocrs::OcrInput,
    words: &Vec<rten_imageproc::RotatedRect>,
) -> (r: Vec<Vec<rten_imageproc::RotatedRect>>)
    ensures
        forall|i: int| 0 <= i < r@.len() ==> r@[i]@.len() > 0,
{
    engine.find_text_lines(input, words)
}

/// Relies on `ocrs::OcrEngine::recognize_text`: it recognizes each input
/// line and returns one entry per line, in input order, `None` where a
/// line produced no text. It panics on a line with no word rectangles,
/// so those inputs are required away. Each recognized line is rendered to
/// its string form here (`ocrs::TextLine`'s display form), one entry at a
/// time.
#[verifier::external_body]
pub(crate) fn recognize_text(
    engine: &ocrs::OcrEngine,
    input: &ocrs::OcrInput,
    lines: &Vec<Vec<rten_imageproc::RotatedRect>>,
) -> (r: Option<Vec<Option<String>>>)
    requires
        forall|i: int| 0 <= i < lines@.len() ==> lines@[i]@.len() > 0,
    ensures
        r matches Some(texts) ==> texts@.len() == lines@.len(),
{
    match engine.recognize_text(input, lines) {
        Ok(results) => Some(results.into_iter().map(|line| line.map(|l| l.to_string())).collect()),
        Err(_) => None,
    }
}

} // verus!
