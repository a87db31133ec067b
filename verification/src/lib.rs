//! A verified core for a small OCR web service.
//!
//! The service accepts a PNG image over HTTP, runs it through an external
//! text-detection and text-recognition engine, and answers with the
//! recognized lines joined by newlines. The request-handling control flow,
//! the response formatting and the startup decisions live here and are
//! verified; the HTTP listener and the model download live in the
//! surrounding application.

pub mod ocr;
pub mod pipeline;
pub mod text;

pub use pipeline::{init_engine, process_image, RequestOutcome, StartupError};
pub use text::format_text_output;
