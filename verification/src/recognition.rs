//! The narrow contract around the recognition engine: which languages it is
//! asked for, and what its reports mean.

use vstd::prelude::*;
use vstd::string::*;

verus! {

/// Why recognition gave no text.
#[derive(Clone, Copy, Debug, PartialEq, Eq, Structural)]
pub enum RecognitionError {
    /// The model data directory is absent, or the engine could not start
    /// with the languages asked for.
    ModelDataMissing,
    /// The engine started and then failed.
    EngineFailure,
}

/// What the program saw of the engine during one run, in the order in which
/// the engine can fail.
#[derive(Debug, PartialEq, Eq)]
pub enum EngineReport {
    /// The model data directory does not exist.
    ModelDirAbsent,
    /// The engine did not start with the model data and languages given.
    InitFailed,
    /// The engine did not take the encoded image.
    ImageRejected,
    /// The engine took the image and produced no text.
    TextUnavailable,
    /// The engine's text, as it came.
    Text(String),
}

/// The recognition result that a report stands for: without model data or
/// without a started engine the model data is missing; any later failure is
/// the engine's; text is handed on unchanged.
pub open spec fn report_meaning(report: EngineReport) -> Result<Seq<char>, RecognitionError> {
    match report {
        EngineReport::ModelDirAbsent => Err(RecognitionError::ModelDataMissing),
        EngineReport::InitFailed => Err(RecognitionError::ModelDataMissing),
        EngineReport::ImageRejected => Err(RecognitionError::EngineFailure),
        EngineReport::TextUnavailable => Err(RecognitionError::EngineFailure),
        EngineReport::Text(text) => Ok(text@),
    }
}

/// The view of a recognition result.
pub open spec fn recognition_view(r: Result<String, RecognitionError>) -> Result<
    Seq<char>,
    RecognitionError,
> {
    match r {
        Ok(text) => Ok(text@),
        Err(e) => Err(e),
    }
}

/// The identifiers of the language packs asked for at every run.
pub open spec fn language_pack_ids() -> Seq<Seq<char>> {
    seq!["eng"@, "deu"@, "hin"@, "pol"@, "rus"@]
}

/// The identifiers joined by `+`, the form in which the engine takes them.
pub open spec fn joined(ids: Seq<Seq<char>>) -> Seq<char>
    decreases ids.len(),
{
    if ids.len() == 0 {
        Seq::empty()
    } else if ids.len() == 1 {
        ids[0]
    } else {
        joined(ids.drop_last()) + seq!['+'] + ids.last()
    }
}

/// The views of the identifiers in `ids`.
pub open spec fn ids_of(ids: Seq<String>) -> Seq<Seq<char>> {
    Seq::new(ids.len(), |i: int| ids[i]@)
}

/// Turns an engine report into the recognition result that it stands for.
pub fn recognition_result(report: EngineReport) -> (r: Result<String, RecognitionError>)
    ensures
        recognition_view(r) == report_meaning(report),
{
    match report {
        EngineReport::ModelDirAbsent => Err(RecognitionError::ModelDataMissing),
        EngineReport::InitFailed => Err(RecognitionError::ModelDataMissing),
        EngineReport::ImageRejected => Err(RecognitionError::EngineFailure),
        EngineReport::TextUnavailable => Err(RecognitionError::EngineFailure),
        EngineReport::Text(text) => Ok(text),
    }
}

/// The fixed language packs.
pub fn language_pack() -> (ids: Vec<String>)
    ensures
        ids_of(ids@) == language_pack_ids(),
{
    let mut ids: Vec<String> = Vec::new();
    ids.push(String::from_str("eng"));
    ids.push(String::from_str("deu"));
    ids.push(String::from_str("hin"));
    ids.push(String::from_str("pol"));
    ids.push(String::from_str("rus"));
    assert(ids_of(ids@) =~= language_pack_ids());
    ids
}

/// Joins language identifiers by `+`.
pub fn language_selector(ids: &Vec<String>) -> (selector: String)
    ensures
        selector@ == joined(ids_of(ids@)),
{
    let mut selector = String::new();
    let mut i: usize = 0;
    while i < ids.len()
        invariant
            i <= ids@.len(),
            selector@ == joined(ids_of(ids@).take(i as int)),
        decreases ids@.len() - i,
    {
        proof {
            let next = ids_of(ids@).take(i + 1);
            assert(next.drop_last() =~= ids_of(ids@).take(i as int));
            assert(next.last() == ids@[i as int]@);
            if i == 0 {
                assert(selector@ + ids@[0]@ =~= ids@[0]@);
            }
        }
        if i > 0 {
            selector.append("+");
            proof {
                reveal_strlit("+");
                assert("+"@ =~= seq!['+']);
            }
        }
        selector.append(ids[i].as_str());
        i += 1;
    }
    assert(ids_of(ids@).take(ids@.len() as int) =~= ids_of(ids@));
    selector
}

} // verus!
