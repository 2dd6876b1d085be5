//! The built-in detectors and the resolution of a requested identifier.

use crate::text::str_eq;
use vstd::prelude::*;

verus! {

/// Matches a local part, `@`, a domain and a top-level label of two letters
/// or more.
pub const EMAIL_PATTERN: &'static str = r"[A-Za-z0-9._%+-]+@[A-Za-z0-9.-]+\.[A-Za-z]{2,}";

/// Matches the digit groups of a US social security number, written with
/// dashes, dots, spaces or nothing between them, between word boundaries.
pub const SSN_PATTERN: &'static str =
    r"\b(?:([0-9]{5})-([0-9]{4})|([0-9]{3})-([0-9]{6})|(([0-9]{3})-([0-9]{2})-([0-9]{4}))|[0-9]{9}|([0-9]{3})[- .]([0-9]{2})[- .]([0-9]{4}))\b";

/// Matches digit sequences that begin like the numbers of the major card
/// issuers, grouped by dashes or spaces or not at all, between word
/// boundaries.
pub const CREDIT_CARD_PATTERN: &'static str =
    r"\b((4\d{3})|(5[0-5]\d{2})|(6\d{3})|(1\d{3})|(3\d{3}))[- ]?(\d{3,4})[- ]?(\d{3,4})[- ]?(\d{3,5})\b";

/// A pattern together with the classification of what it finds.
#[derive(Clone, Debug, PartialEq, Eq)]
pub struct RegexDetection {
    pub regex: String,
    pub detection_type: String,
    pub detection: String,
}

/// What a `RegexDetection` holds, as sequences of characters.
pub struct PatternView {
    pub regex: Seq<char>,
    pub detection_type: Seq<char>,
    pub detection: Seq<char>,
}

impl View for RegexDetection {
    type V = PatternView;

    open spec fn view(&self) -> PatternView {
        PatternView {
            regex: self.regex@,
            detection_type: self.detection_type@,
            detection: self.detection@,
        }
    }
}

impl DeepView for RegexDetection {
    type V = PatternView;

    open spec fn deep_view(&self) -> PatternView {
        self@
    }
}

/// The built-in detector of e-mail addresses.
pub open spec fn email_spec() -> PatternView {
    PatternView { regex: EMAIL_PATTERN@, detection_type: "pii"@, detection: "EmailAddress"@ }
}

/// The built-in detector of social security numbers.
pub open spec fn ssn_spec() -> PatternView {
    PatternView { regex: SSN_PATTERN@, detection_type: "pii"@, detection: "SocialSecurity"@ }
}

/// The built-in detector of credit card numbers.
pub open spec fn credit_card_spec() -> PatternView {
    PatternView { regex: CREDIT_CARD_PATTERN@, detection_type: "pii"@, detection: "CreditCard"@ }
}

/// The built-in detector that the registry holds under `id`, if any.
pub open spec fn lookup_spec(id: Seq<char>) -> Option<PatternView> {
    if id == "email"@ {
        Some(email_spec())
    } else if id == "ssn"@ {
        Some(ssn_spec())
    } else if id == "credit-card"@ {
        Some(credit_card_spec())
    } else {
        None
    }
}

/// An identifier taken as a pattern of its own.
pub open spec fn custom_spec(id: Seq<char>) -> PatternView {
    PatternView { regex: id, detection_type: "custom"@, detection: "custom"@ }
}

/// What a requested identifier stands for: the built-in detector of that
/// name, or else the identifier itself as a pattern.
pub open spec fn resolve_spec(id: Seq<char>) -> PatternView {
    match lookup_spec(id) {
        Some(builtin) => builtin,
        None => custom_spec(id),
    }
}

/// The built-in detector of e-mail addresses.
pub fn email_detection() -> (detection: RegexDetection)
    ensures
        detection@ == email_spec(),
{
    RegexDetection {
        regex: EMAIL_PATTERN.to_owned(),
        detection_type: "pii".to_owned(),
        detection: "EmailAddress".to_owned(),
    }
}

/// The built-in detector of social security numbers.
pub fn ssn_detection() -> (detection: RegexDetection)
    ensures
        detection@ == ssn_spec(),
{
    RegexDetection {
        regex: SSN_PATTERN.to_owned(),
        detection_type: "pii".to_owned(),
        detection: "SocialSecurity".to_owned(),
    }
}

/// The built-in detector of credit card numbers.
pub fn credit_card_detection() -> (detection: RegexDetection)
    ensures
        detection@ == credit_card_spec(),
{
    RegexDetection {
        regex: CREDIT_CARD_PATTERN.to_owned(),
        detection_type: "pii".to_owned(),
        detection: "CreditCard".to_owned(),
    }
}

/// Looks `id` up among the reserved names `email`, `ssn` and `credit-card`.
pub fn lookup(id: &str) -> (found: Option<RegexDetection>)
    ensures
        found.deep_view() == lookup_spec(id@),
{
    if str_eq(id, "email") {
        Some(email_detection())
    } else if str_eq(id, "ssn") {
        Some(ssn_detection())
    } else if str_eq(id, "credit-card") {
        Some(credit_card_detection())
    } else {
        None
    }
}

/// Takes `id` itself as the pattern, classified as `custom`.
pub fn custom(id: &str) -> (detection: RegexDetection)
    ensures
        detection@ == custom_spec(id@),
{
    RegexDetection {
        regex: id.to_owned(),
        detection_type: "custom".to_owned(),
        detection: "custom".to_owned(),
    }
}

/// Resolves a requested identifier: a reserved name gives its built-in
/// detector, anything else is a literal pattern.
pub fn resolve(id: &str) -> (detection: RegexDetection)
    ensures
        detection@ == resolve_spec(id@),
{
    match lookup(id) {
        Some(builtin) => builtin,
        None => custom(id),
    }
}

} // verus!
