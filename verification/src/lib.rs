//! Scanning of text for sensitive patterns.
//!
//! A request names patterns, either built-in detectors or literal regular
//! expressions, and carries the texts to scan. The engine reports every
//! match as a labeled span, in the order of the texts and, within a text,
//! in the order of the patterns.

pub mod detection;
pub mod engine;
pub mod matcher;
pub mod patterns;
pub mod text;

pub use detection::{credit_card_detector, email_address_detector, regex_match, ssn_detector};
pub use detection::{shape_detections, DetectionResponse, PatternCompileError};
pub use detection::EXACT_SCORE_PERCENT;
pub use engine::{handle_text_contents, scan_content};
pub use engine::{DetectionRequest, DetectorParams, RequestError};
pub use matcher::Span;
pub use patterns::{custom, lookup, resolve, RegexDetection};
