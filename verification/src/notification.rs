//! How a pipeline run can end, and what the user is told about it.

use crate::normalize::NormalizeError;
use crate::recognition::RecognitionError;
use vstd::prelude::*;
use vstd::string::*;

verus! {

/// The ways in which a run ends well.
#[derive(Clone, Copy, Debug, PartialEq, Eq, Structural)]
pub enum Success {
    /// Text was found and written to the clipboard.
    TextWritten,
    /// The engine ran and found no text; the clipboard is left alone.
    EmptyResult,
}

/// The ways in which a run fails.
#[derive(Clone, Copy, Debug, PartialEq, Eq, Structural)]
pub enum Failure {
    /// The clipboard held no raster image.
    NoImage,
    /// The captured image could not be normalized.
    Normalize(NormalizeError),
    /// The engine gave no text.
    Recognition(RecognitionError),
}

/// The terminal state of a run.
#[derive(Clone, Copy, Debug, PartialEq, Eq, Structural)]
pub enum Outcome {
    Succeeded(Success),
    Failed(Failure),
}

/// The notifications that the user can see.
#[derive(Clone, Copy, Debug, PartialEq, Eq, Structural)]
pub enum NotificationKind {
    TextCopied,
    NoTextFound,
    NoImage,
    ProcessingFailed,
    ModelDataMissing,
    EngineFailure,
}

/// A notification as the operating system shows it.
#[derive(Debug, PartialEq, Eq)]
pub struct Notification {
    pub title: String,
    pub body: String,
}

/// The one notification that belongs to a terminal state. Both ways in which
/// normalization fails are shown alike.
pub open spec fn kind_of(outcome: Outcome) -> NotificationKind {
    match outcome {
        Outcome::Succeeded(Success::TextWritten) => NotificationKind::TextCopied,
        Outcome::Succeeded(Success::EmptyResult) => NotificationKind::NoTextFound,
        Outcome::Failed(Failure::NoImage) => NotificationKind::NoImage,
        Outcome::Failed(Failure::Normalize(_)) => NotificationKind::ProcessingFailed,
        Outcome::Failed(Failure::Recognition(RecognitionError::ModelDataMissing)) =>
            NotificationKind::ModelDataMissing,
        Outcome::Failed(Failure::Recognition(RecognitionError::EngineFailure)) =>
            NotificationKind::EngineFailure,
    }
}

/// The title of every notification.
pub open spec fn title_text() -> Seq<char> {
    "AutoOCR"@
}

/// The body of each notification.
pub open spec fn body_text(kind: NotificationKind) -> Seq<char> {
    match kind {
        NotificationKind::TextCopied => "Text copied to clipboard!"@,
        NotificationKind::NoTextFound => "OCR finished, but no text found."@,
        NotificationKind::NoImage => "No image on the clipboard."@,
        NotificationKind::ProcessingFailed => "The clipboard image could not be processed."@,
        NotificationKind::ModelDataMissing => "OCR Failed. Check tessdata folder."@,
        NotificationKind::EngineFailure => "OCR Failed. The recognition engine reported an error."@,
    }
}

/// The notification kind for a terminal state.
pub fn notification_kind(outcome: Outcome) -> (kind: NotificationKind)
    ensures
        kind == kind_of(outcome),
{
    match outcome {
        Outcome::Succeeded(Success::TextWritten) => NotificationKind::TextCopied,
        Outcome::Succeeded(Success::EmptyResult) => NotificationKind::NoTextFound,
        Outcome::Failed(Failure::NoImage) => NotificationKind::NoImage,
        Outcome::Failed(Failure::Normalize(_)) => NotificationKind::ProcessingFailed,
        Outcome::Failed(Failure::Recognition(RecognitionError::ModelDataMissing)) =>
            NotificationKind::ModelDataMissing,
        Outcome::Failed(Failure::Recognition(RecognitionError::EngineFailure)) =>
            NotificationKind::EngineFailure,
    }
}

/// The title and body shown for a notification kind.
pub fn notification_for(kind: NotificationKind) -> (n: Notification)
    ensures
        n.title@ == title_text(),
        n.body@ == body_text(kind),
{
    let body = match kind {
        NotificationKind::TextCopied => String::from_str("Text copied to clipboard!"),
        NotificationKind::NoTextFound => String::from_str("OCR finished, but no text found."),
        NotificationKind::NoImage => String::from_str("No image on the clipboard."),
        NotificationKind::ProcessingFailed => String::from_str(
            "The clipboard image could not be processed.",
        ),
        NotificationKind::ModelDataMissing => String::from_str("OCR Failed. Check tessdata folder."),
        NotificationKind::EngineFailure => String::from_str(
            "OCR Failed. The recognition engine reported an error.",
        ),
    };
    Notification { title: String::from_str("AutoOCR"), body }
}

/// Distinct terminal states of distinct kinds are told apart: success with
/// text, success without, and each cause of failure that asks something
/// else of the user have notifications of their own.
pub proof fn notifications_tell_outcomes_apart(a: Outcome, b: Outcome)
    requires
        kind_of(a) == kind_of(b),
    ensures
        a == b || (a is Failed && b is Failed && a->Failed_0 is Normalize && b->Failed_0 is Normalize),
{
}

} // verus!
