//! The request handler and the startup path.
//!
//! `init_engine` loads the two model artifacts and builds the engine once,
//! before any request is served; `process_image` handles one request body
//! from raw bytes to a structured response. Both are verified against the
//! trusted contracts in `crate::ocr`.

use crate::ocr;
use crate::text;
use vstd::prelude::*;

verus! {

/// Why startup was refused. Startup is all-or-nothing: the process must
/// not begin serving unless both models loaded and the engine was built.
#[derive(Clone, Copy, Debug, PartialEq, Eq, Structural)]
pub enum StartupError {
    /// The detection model data did not parse.
    DetectionModel,
    /// The recognition model data did not parse.
    RecognitionModel,
    /// Both models parsed but the engine refused them.
    Engine,
}

/// Load both models and build the engine, in the order the service starts
/// up: detection model first, then recognition model, then the engine.
/// The result is `Ok` only if every step succeeded, so a caller that
/// refuses to serve on `Err` never serves with a half-initialized engine.
pub fn init_engine(detection_data: Vec<u8>, recognition_data: Vec<u8>) -> (r: Result<
    ocrs::OcrEngine,
    StartupError,
>)
    ensures
        (r matches Err(e) && e == StartupError::DetectionModel) <==> !ocr::model_parses(
            detection_data@,
        ),
        (r matches Err(e) && e == StartupError::RecognitionModel) <==> (ocr::model_parses(
            detection_data@,
        ) && !ocr::model_parses(recognition_data@)),
        r is Ok ==> ocr::model_parses(detection_data@) && ocr::model_parses(recognition_data@),
{
    let detection = match ocr::load_model(detection_data) {
        Some(m) => m,
        None => {
            return Err(StartupError::DetectionModel);
        },
    };
    let recognition = match ocr::load_model(recognition_data) {
        Some(m) => m,
        None => {
            return Err(StartupError::RecognitionModel);
        },
    };
    match ocr::new_engine(detection, recognition) {
        Some(engine) => Ok(engine),
        None => Err(StartupError::Engine),
    }
}

/// The outcome of handling one request body.
#[derive(Debug)]
pub enum RequestOutcome {
    /// The image was processed; the payload is the formatted text.
    Recognized(String),
    /// The body was not a decodable PNG image.
    BadImage,
    /// Word detection failed.
    DetectFailed,
    /// The decoded image could not be prepared for inference. The
    /// handler proves it never returns this: preparation cannot fail
    /// for a decoded PNG, which always has at least one pixel.
    PrepareFailed,
    /// Text recognition failed.
    RecognizeFailed,
}

impl RequestOutcome {
    /// The HTTP status this outcome answers with: success, a client
    /// error for a rejected body or failed detection, a server error
    /// for a failed internal stage.
    pub open spec fn spec_status(self) -> u16 {
        match self {
            RequestOutcome::Recognized(_) => 200,
            RequestOutcome::BadImage => 400,
            RequestOutcome::DetectFailed => 400,
            RequestOutcome::PrepareFailed => 500,
            RequestOutcome::RecognizeFailed => 500,
        }
    }

    /// The response body: the recognized text on success, a short fixed
    /// message otherwise.
    pub open spec fn spec_body(self) -> Seq<char> {
        match self {
            RequestOutcome::Recognized(t) => t@,
            RequestOutcome::BadImage => "Failed to load image"@,
            RequestOutcome::DetectFailed => "Failed to detect words"@,
            RequestOutcome::PrepareFailed => "Failed to prepare input"@,
            RequestOutcome::RecognizeFailed => "Failed to recognize text"@,
        }
    }

    /// The HTTP status code of this outcome.
    pub fn status(&self) -> (s: u16)
        ensures
            s == self.spec_status(),
    {
        match self {
            RequestOutcome::Recognized(_) => 200,
            RequestOutcome::BadImage => 400,
            RequestOutcome::DetectFailed => 400,
            RequestOutcome::PrepareFailed => 500,
            RequestOutcome::RecognizeFailed => 500,
        }
    }

    /// The response body text of this outcome.
    pub fn body_text(&self) -> (b: String)
        ensures
            b@ == self.spec_body(),
    {
        match self {
            RequestOutcome::Recognized(t) => t.clone(),
            RequestOutcome::BadImage => "Failed to load image".to_owned(),
            RequestOutcome::DetectFailed => "Failed to detect words".to_owned(),
            RequestOutcome::PrepareFailed => "Failed to prepare input".to_owned(),
            RequestOutcome::RecognizeFailed => "Failed to recognize text".to_owned(),
        }
    }
}

/// Handle one request body: decode it as a PNG, run the engine's
/// detect, group and recognize stages, and format the recognized lines
/// in engine order, joined by newlines.
///
/// The body is rejected as `BadImage` exactly when it is not a decodable
/// PNG, and that rejection answers with status 400 and the fixed
/// message; every other outcome, success too, can only arise from a
/// decodable body. Input preparation cannot fail for a decoded PNG, so
/// `PrepareFailed` is never returned. A failure leaves the engine
/// untouched, and a verified function never panics, so one bad request
/// cannot take the listener down.
pub fn process_image(engine: &ocrs::OcrEngine, body: &Vec<u8>) -> (r: RequestOutcome)
    ensures
        r is BadImage <==> ocr::png_decoded(body@) is None,
        ocr::png_decoded(body@) is None ==> r.spec_status() == 400 && r.spec_body()
            == "Failed to load image"@,
        !(r is PrepareFailed),
{
    let img = match ocr::decode_png(body) {
        Some(img) => img,
        None => {
            return RequestOutcome::BadImage;
        },
    };
    let input = match ocr::prepare_input(engine, &img) {
        Some(input) => input,
        None => {
            return RequestOutcome::PrepareFailed;
        },
    };
    let words = match ocr::detect_words(engine, &input) {
        Some(words) => words,
        None => {
            return RequestOutcome::DetectFailed;
        },
    };
    let lines = ocr::find_text_lines(engine, &input, &words);
    let texts = match ocr::recognize_text(engine, &input, &lines) {
        Some(texts) => texts,
        None => {
            return RequestOutcome::RecognizeFailed;
        },
    };
    RequestOutcome::Recognized(text::format_text_output(&texts))
}

} // verus!
