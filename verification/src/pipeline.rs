//! The capture pipeline: one run per activation, from the clipboard image
//! to the text on the clipboard and the notification.
//!
//! The pipeline decides and the program acts. Each step takes the stage the
//! run is in and what the program last saw, and gives the next stage and
//! what the program is to do next. Normalizing the image and cleaning up the
//! recognized text happen within the step that receives them.

use crate::normalize::{
    normalize_image, normalized, CapturedImage, EncodedImage, NormalizeError, Raster,
};
use crate::notification::{
    kind_of, notification_kind, Failure, NotificationKind, Outcome, Success,
};
use crate::recognition::RecognitionError;
use crate::text::{
    is_blank, is_white_space, trim, trimmed, trimmed_is_empty_iff_blank, trimmed_is_the_core,
};
use vstd::prelude::*;

verus! {

/// Where a run stands.
#[derive(Clone, Copy, Debug, PartialEq, Eq, Structural)]
pub enum Stage {
    /// No run yet.
    Idle,
    /// The clipboard image was asked for.
    Capturing,
    /// The encoded image was handed to the engine.
    Recognizing,
    /// The run is over.
    Finished(Outcome),
}

/// What the program reports to the pipeline.
#[derive(Debug, PartialEq, Eq)]
pub enum Event {
    /// An activation was honoured.
    Activated,
    /// The clipboard was read: its raster image, if it held one.
    Captured(Option<CapturedImage>),
    /// The engine was run: its text, or why there is none.
    Recognized(Result<String, RecognitionError>),
}

/// What the pipeline asks of the program.
#[derive(Debug, PartialEq, Eq)]
pub enum Action {
    /// Nothing: the event does not belong to the stage and was ignored.
    Nothing,
    /// Read the raster image on the clipboard and report it.
    ReadClipboard,
    /// Run the engine on this image and report what it gave.
    Recognize(EncodedImage),
    /// The run is over: put `clipboard_text` on the clipboard if there is
    /// one, leave the clipboard alone if not, and show the notification.
    Conclude { clipboard_text: Option<String>, notify: NotificationKind },
}

/// An event as a value.
pub enum EventModel {
    Activated,
    Captured(Option<Raster>),
    Recognized(Result<Seq<char>, RecognitionError>),
}

/// An action as a value.
pub enum ActionModel {
    Nothing,
    ReadClipboard,
    Recognize(Seq<u8>),
    Conclude { clipboard_text: Option<Seq<char>>, notify: NotificationKind },
}

impl View for Event {
    type V = EventModel;

    open spec fn view(&self) -> EventModel {
        match *self {
            Event::Activated => EventModel::Activated,
            Event::Captured(None) => EventModel::Captured(None),
            Event::Captured(Some(image)) => EventModel::Captured(Some(image@)),
            Event::Recognized(Ok(text)) => EventModel::Recognized(Ok(text@)),
            Event::Recognized(Err(e)) => EventModel::Recognized(Err(e)),
        }
    }
}

impl View for Action {
    type V = ActionModel;

    open spec fn view(&self) -> ActionModel {
        match *self {
            Action::Nothing => ActionModel::Nothing,
            Action::ReadClipboard => ActionModel::ReadClipboard,
            Action::Recognize(image) => ActionModel::Recognize(image@),
            Action::Conclude { clipboard_text: None, notify } => ActionModel::Conclude {
                clipboard_text: None,
                notify,
            },
            Action::Conclude { clipboard_text: Some(text), notify } => ActionModel::Conclude {
                clipboard_text: Some(text@),
                notify,
            },
        }
    }
}

/// The end of a run with the given outcome: the stage, and the action that
/// shows the outcome's notification and writes `clipboard_text`, if any.
pub open spec fn concluded(outcome: Outcome, clipboard_text: Option<Seq<char>>) -> (
    Stage,
    ActionModel,
) {
    (Stage::Finished(outcome), ActionModel::Conclude { clipboard_text, notify: kind_of(outcome) })
}

/// The step after the clipboard was read.
pub open spec fn captured_step(image: Option<Raster>) -> (Stage, ActionModel) {
    match image {
        None => concluded(Outcome::Failed(Failure::NoImage), None),
        Some(raster) => normalized_step(normalized(raster.pixels, raster.width, raster.height)),
    }
}

/// The step after the captured image was normalized.
pub open spec fn normalized_step(encoded: Result<Seq<u8>, NormalizeError>) -> (Stage, ActionModel) {
    match encoded {
        Ok(bytes) => (Stage::Recognizing, ActionModel::Recognize(bytes)),
        Err(e) => concluded(Outcome::Failed(Failure::Normalize(e)), None),
    }
}

/// The step after the engine was run.
pub open spec fn recognized_step(result: Result<Seq<char>, RecognitionError>) -> (
    Stage,
    ActionModel,
) {
    match result {
        Err(e) => concluded(Outcome::Failed(Failure::Recognition(e)), None),
        Ok(text) => if trimmed(text).len() == 0 {
            concluded(Outcome::Succeeded(Success::EmptyResult), None)
        } else {
            concluded(Outcome::Succeeded(Success::TextWritten), Some(trimmed(text)))
        },
    }
}

/// The pipeline's transition function. An activation starts a run from rest
/// and from any finished run; the clipboard's answer is taken while
/// capturing, the engine's while recognizing. Any other event leaves the
/// stage as it is and asks for nothing.
pub open spec fn step(stage: Stage, event: EventModel) -> (Stage, ActionModel) {
    match (stage, event) {
        (Stage::Idle, EventModel::Activated) => (Stage::Capturing, ActionModel::ReadClipboard),
        (Stage::Finished(_), EventModel::Activated) => (
            Stage::Capturing,
            ActionModel::ReadClipboard,
        ),
        (Stage::Capturing, EventModel::Captured(image)) => captured_step(image),
        (Stage::Recognizing, EventModel::Recognized(result)) => recognized_step(result),
        _ => (stage, ActionModel::Nothing),
    }
}

/// Ends a run.
fn conclude(outcome: Outcome, clipboard_text: Option<String>) -> (next: (Stage, Action))
    ensures
        next.0 == Stage::Finished(outcome),
        next.1@ == (ActionModel::Conclude {
            clipboard_text: match clipboard_text {
                Some(text) => Some(text@),
                None => None,
            },
            notify: kind_of(outcome),
        }),
{
    (Stage::Finished(outcome), Action::Conclude { clipboard_text, notify: notification_kind(outcome) })
}

/// Continues a run with the outcome of normalization: the encoded image
/// goes to the engine, a failure ends the run.
pub fn after_normalize(encoded: Result<EncodedImage, NormalizeError>) -> (next: (Stage, Action))
    ensures
        (next.0, next.1@) == normalized_step(crate::normalize::result_view(encoded)),
{
    match encoded {
        Ok(image) => (Stage::Recognizing, Action::Recognize(image)),
        Err(e) => conclude(Outcome::Failed(Failure::Normalize(e)), None),
    }
}

/// Continues a run with what the clipboard held: without an image the run
/// ends, and the engine is not asked; an image is normalized.
pub fn after_capture(image: Option<CapturedImage>) -> (next: (Stage, Action))
    ensures
        (next.0, next.1@) == captured_step(
            match image {
                Some(captured) => Some(captured@),
                None => None,
            },
        ),
{
    match image {
        None => conclude(Outcome::Failed(Failure::NoImage), None),
        Some(captured) => after_normalize(normalize_image(&captured)),
    }
}

/// Ends a run with what the engine gave: a failure is reported; text is
/// trimmed and, unless nothing is left of it, written to the clipboard.
pub fn after_recognition(result: Result<String, RecognitionError>) -> (next: (Stage, Action))
    ensures
        (next.0, next.1@) == recognized_step(crate::recognition::recognition_view(result)),
{
    match result {
        Err(e) => conclude(Outcome::Failed(Failure::Recognition(e)), None),
        Ok(text) => {
            let cleaned = trim(text.as_str());
            if cleaned.as_str().unicode_len() == 0 {
                conclude(Outcome::Succeeded(Success::EmptyResult), None)
            } else {
                conclude(Outcome::Succeeded(Success::TextWritten), Some(cleaned))
            }
        },
    }
}

/// Takes one step of the pipeline.
pub fn advance(stage: Stage, event: Event) -> (next: (Stage, Action))
    ensures
        (next.0, next.1@) == step(stage, event@),
{
    match event {
        Event::Activated => match stage {
            Stage::Idle => (Stage::Capturing, Action::ReadClipboard),
            Stage::Finished(_) => (Stage::Capturing, Action::ReadClipboard),
            _ => (stage, Action::Nothing),
        },
        Event::Captured(image) => match stage {
            Stage::Capturing => after_capture(image),
            _ => (stage, Action::Nothing),
        },
        Event::Recognized(result) => match stage {
            Stage::Recognizing => after_recognition(result),
            _ => (stage, Action::Nothing),
        },
    }
}

/// A clipboard without an image ends the run as `NoImage`, with no clipboard
/// write; and in no stage does that report make the pipeline ask for the
/// engine.
pub proof fn no_image_never_reaches_the_engine(stage: Stage)
    ensures
        step(Stage::Capturing, EventModel::Captured(None)) == concluded(
            Outcome::Failed(Failure::NoImage),
            None,
        ),
        !(step(stage, EventModel::Captured(None)).1 is Recognize),
        step(stage, EventModel::Captured(None)).1 is Conclude ==> step(
            stage,
            EventModel::Captured(None),
        ).1->clipboard_text is None,
{
}

/// Recognized text that is all whitespace ends the run as `EmptyResult`,
/// with no clipboard write.
pub proof fn blank_text_is_an_empty_result(text: Seq<char>)
    requires
        is_blank(text),
    ensures
        step(Stage::Recognizing, EventModel::Recognized(Ok(text))) == concluded(
            Outcome::Succeeded(Success::EmptyResult),
            None,
        ),
{
    trimmed_is_empty_iff_blank(text);
}

/// Recognized text with whitespace around a core that neither begins nor
/// ends with whitespace ends the run with exactly that core written to the
/// clipboard.
pub proof fn padded_text_is_written_trimmed(pre: Seq<char>, core: Seq<char>, post: Seq<char>)
    requires
        is_blank(pre),
        is_blank(post),
        core.len() > 0,
        !is_white_space(core[0]),
        !is_white_space(core.last()),
    ensures
        step(Stage::Recognizing, EventModel::Recognized(Ok(pre + core + post))) == concluded(
            Outcome::Succeeded(Success::TextWritten),
            Some(core),
        ),
{
    trimmed_is_the_core(pre, core, post);
}

/// The clipboard is written only at the end of a run that found text, and
/// then with text that is not empty.
pub proof fn clipboard_is_written_only_with_text(stage: Stage, event: EventModel)
    ensures
        match step(stage, event).1 {
            ActionModel::Conclude { clipboard_text: Some(text), .. } => {
                &&& text.len() > 0
                &&& step(stage, event).0 == Stage::Finished(
                    Outcome::Succeeded(Success::TextWritten),
                )
            },
            _ => true,
        },
{
}

/// Every end of a run shows the one notification of its terminal state.
pub proof fn every_end_is_notified(stage: Stage, event: EventModel)
    ensures
        match step(stage, event) {
            (Stage::Finished(outcome), ActionModel::Conclude { notify, .. }) => notify == kind_of(
                outcome,
            ),
            (Stage::Finished(_), action) => action is Nothing && stage == step(stage, event).0,
            (_, action) => !(action is Conclude),
        },
{
}

/// Every run ends: after the activation, whatever the clipboard holds, the
/// run is either over at once or waits for the engine, and whatever the
/// engine gives then ends it.
pub proof fn every_run_finishes(image: Option<Raster>, result: Result<Seq<char>, RecognitionError>)
    ensures
        step(Stage::Idle, EventModel::Activated).0 == Stage::Capturing,
        ({
            let captured = step(Stage::Capturing, EventModel::Captured(image));
            ||| captured.0 is Finished
            ||| (captured.0 == Stage::Recognizing && captured.1 is Recognize && step(
                captured.0,
                EventModel::Recognized(result),
            ).0 is Finished)
        }),
{
}

/// No outcome disables the pipeline: after any finished run the next
/// activation starts a new one.
pub proof fn finished_run_can_start_again(outcome: Outcome)
    ensures
        step(Stage::Finished(outcome), EventModel::Activated) == (
            Stage::Capturing,
            ActionModel::ReadClipboard,
        ),
{
}

} // verus!
