use ocr_service::{init_engine, process_image, RequestOutcome, StartupError};

/// An engine with no models loaded: construction succeeds, decoding still
/// runs, and word detection fails at request time.
fn modeless_engine() -> ocrs::OcrEngine {
    ocrs::OcrEngine::new(ocrs::OcrEngineParams {
        detection_model: None,
        recognition_model: None,
        debug: false,
        decode_method: ocrs::DecodeMethod::Greedy,
        alphabet: None,
        allowed_chars: None,
    })
    .expect("engine without models should build")
}

/// A small all-black PNG image, encoded in memory.
fn tiny_png() -> Vec<u8> {
    let img = image::DynamicImage::new_rgb8(8, 8);
    let mut buf: Vec<u8> = Vec::new();
    img.write_to(&mut std::io::Cursor::new(&mut buf), image::ImageFormat::Png)
        .expect("encoding a small PNG should succeed");
    buf
}

#[test]
fn garbage_body_is_rejected_with_client_error() {
    let engine = modeless_engine();
    let body: Vec<u8> = b"this is not a png".to_vec();
    let outcome = process_image(&engine, &body);
    assert!(matches!(outcome, RequestOutcome::BadImage));
    assert_eq!(outcome.status(), 400);
    assert_eq!(outcome.body_text(), "Failed to load image");
}

#[test]
fn empty_body_is_rejected_with_client_error() {
    let engine = modeless_engine();
    let body: Vec<u8> = Vec::new();
    let outcome = process_image(&engine, &body);
    assert!(matches!(outcome, RequestOutcome::BadImage));
    assert_eq!(outcome.status(), 400);
}

#[test]
fn rejection_is_deterministic_across_repeated_requests() {
    let engine = modeless_engine();
    let body: Vec<u8> = vec![0x89, 0x50, 0x4e, 0x47, 0x00];
    let first = process_image(&engine, &body);
    let second = process_image(&engine, &body);
    assert!(matches!(first, RequestOutcome::BadImage));
    assert!(matches!(second, RequestOutcome::BadImage));
    assert_eq!(first.body_text(), second.body_text());
}

#[test]
fn non_png_image_format_is_rejected() {
    let engine = modeless_engine();
    let img = image::DynamicImage::new_rgb8(8, 8);
    let mut body: Vec<u8> = Vec::new();
    img.write_to(&mut std::io::Cursor::new(&mut body), image::ImageFormat::Jpeg)
        .expect("encoding a small JPEG should succeed");
    let outcome = process_image(&engine, &body);
    assert!(matches!(outcome, RequestOutcome::BadImage));
    assert_eq!(outcome.status(), 400);
}

#[test]
fn truncated_png_is_rejected() {
    let engine = modeless_engine();
    let mut body = tiny_png();
    body.truncate(body.len() / 2);
    let outcome = process_image(&engine, &body);
    assert!(matches!(outcome, RequestOutcome::BadImage));
    assert_eq!(outcome.status(), 400);
}

#[test]
fn valid_png_reaches_detection_stage() {
    let engine = modeless_engine();
    let body = tiny_png();
    let outcome = process_image(&engine, &body);
    assert!(matches!(outcome, RequestOutcome::DetectFailed));
    assert_eq!(outcome.status(), 400);
    assert_eq!(outcome.body_text(), "Failed to detect words");
}

#[test]
fn detection_failure_keeps_engine_usable() {
    let engine = modeless_engine();
    let first = process_image(&engine, &tiny_png());
    assert!(matches!(first, RequestOutcome::DetectFailed));
    let second = process_image(&engine, &b"junk".to_vec());
    assert!(matches!(second, RequestOutcome::BadImage));
    let third = process_image(&engine, &tiny_png());
    assert!(matches!(third, RequestOutcome::DetectFailed));
}

#[test]
fn outcome_status_classes() {
    assert_eq!(RequestOutcome::Recognized("hi".to_string()).status(), 200);
    assert_eq!(RequestOutcome::BadImage.status(), 400);
    assert_eq!(RequestOutcome::DetectFailed.status(), 400);
    assert_eq!(RequestOutcome::PrepareFailed.status(), 500);
    assert_eq!(RequestOutcome::RecognizeFailed.status(), 500);
}

#[test]
fn outcome_bodies() {
    assert_eq!(
        RequestOutcome::Recognized("line one\nline two".to_string()).body_text(),
        "line one\nline two"
    );
    assert_eq!(RequestOutcome::BadImage.body_text(), "Failed to load image");
    assert_eq!(RequestOutcome::DetectFailed.body_text(), "Failed to detect words");
    assert_eq!(RequestOutcome::PrepareFailed.body_text(), "Failed to prepare input");
    assert_eq!(RequestOutcome::RecognizeFailed.body_text(), "Failed to recognize text");
}

#[test]
fn startup_fails_on_malformed_detection_model() {
    let result = init_engine(vec![1, 2, 3, 4], vec![5, 6, 7, 8]);
    assert_eq!(result.err(), Some(StartupError::DetectionModel));
}

#[test]
fn startup_fails_on_empty_detection_model() {
    let result = init_engine(Vec::new(), Vec::new());
    assert_eq!(result.err(), Some(StartupError::DetectionModel));
}
