//! Script step kinds, keyed by the step ids of the FileMaker XML.
use vstd::prelude::*;

use crate::text::str_eq;

verus! {

/// The kind of a script step.
#[derive(Debug, Clone, Copy, PartialEq, Eq, Structural)]
pub enum ScriptStep {
    Unknown,
    PerformScript,
    GoToPreviousField,
    GoToNextField,
    GoToLayout,
    NewRecordRequest,
    DuplicateRecordRequest,
    DeleteRecordRequest,
    DeleteAllRecords,
    GoToRecordRequestPage,
    GoToField,
    CheckRecord,
    CheckFoundSet,
    UnsortRecords,
    EnterFindMode,
    ShowAllRecords,
    ModifyLastFind,
    OmitRecord,
    OmitMultipleRecords,
    ShowOmittedOnly,
    PerformFind,
    OpenHelp,
    OpenManageDatabase,
    ExitApplication,
    SelectAll,
    EnterBrowseMode,
    IfStart,
    Else,
    IfEnd,
    LoopStart,
    ExitLoopIf,
    LoopEnd,
    CommitRecordRequests,
    SetFieldData,
    FixWindow,
    NewFile,
    AllowUserAbort,
    SetErrorRecording,
    OpenScriptWorkspace,
    Comment,
    HaltScript,
    ReplaceFieldContents,
    Beep,
    SetUseSystemFormats,
    GoToPortalRow,
    CopyRecordRequest,
    FlushCacheToDisk,
    ExitScript,
    OpenSettings,
    CorrectWord,
    SpellingOptions,
    SelectDictionaries,
    EditUserDictionary,
    OpenManageValueLists,
    OpenSharing,
    OpenFileOptions,
    AllowFormattingBar,
    OpenHosts,
    CloseWindow,
    NewWindow,
    IfElse,
    ConstrainFoundSet,
    ExtendFoundSet,
    OpenFindReplace,
    OpenManageDataSources,
    SetVariable,
    GoToObject,
    OpenEditSavedFinds,
    OpenManageLayouts,
    OpenManageContainers,
    OpenManageThemes,
    RefreshObject,
    ClosePopover,
    UploadToServer,
    OpenMyApps,
}

/// The step kind that the id `id` (in decimal) stands for; ids that are not known are `Unknown`.
pub open spec fn script_step_of(id: Seq<char>) -> ScriptStep {
    if id == "1"@ { ScriptStep::PerformScript }
    else if id == "4"@ { ScriptStep::GoToPreviousField }
    else if id == "5"@ { ScriptStep::GoToNextField }
    else if id == "6"@ { ScriptStep::GoToLayout }
    else if id == "7"@ { ScriptStep::NewRecordRequest }
    else if id == "8"@ { ScriptStep::DuplicateRecordRequest }
    else if id == "9"@ { ScriptStep::DeleteRecordRequest }
    else if id == "10"@ { ScriptStep::DeleteAllRecords }
    else if id == "16"@ { ScriptStep::GoToRecordRequestPage }
    else if id == "17"@ { ScriptStep::GoToField }
    else if id == "19"@ { ScriptStep::CheckRecord }
    else if id == "20"@ { ScriptStep::CheckFoundSet }
    else if id == "21"@ { ScriptStep::UnsortRecords }
    else if id == "22"@ { ScriptStep::EnterFindMode }
    else if id == "23"@ { ScriptStep::ShowAllRecords }
    else if id == "24"@ { ScriptStep::ModifyLastFind }
    else if id == "25"@ { ScriptStep::OmitRecord }
    else if id == "26"@ { ScriptStep::OmitMultipleRecords }
    else if id == "27"@ { ScriptStep::ShowOmittedOnly }
    else if id == "28"@ { ScriptStep::PerformFind }
    else if id == "32"@ { ScriptStep::OpenHelp }
    else if id == "38"@ { ScriptStep::OpenManageDatabase }
    else if id == "44"@ { ScriptStep::ExitApplication }
    else if id == "50"@ { ScriptStep::SelectAll }
    else if id == "55"@ { ScriptStep::EnterBrowseMode }
    else if id == "68"@ { ScriptStep::IfStart }
    else if id == "69"@ { ScriptStep::Else }
    else if id == "70"@ { ScriptStep::IfEnd }
    else if id == "71"@ { ScriptStep::LoopStart }
    else if id == "72"@ { ScriptStep::ExitLoopIf }
    else if id == "73"@ { ScriptStep::LoopEnd }
    else if id == "75"@ { ScriptStep::CommitRecordRequests }
    else if id == "76"@ { ScriptStep::SetFieldData }
    else if id == "79"@ { ScriptStep::FixWindow }
    else if id == "82"@ { ScriptStep::NewFile }
    else if id == "85"@ { ScriptStep::AllowUserAbort }
    else if id == "86"@ { ScriptStep::SetErrorRecording }
    else if id == "88"@ { ScriptStep::OpenScriptWorkspace }
    else if id == "89"@ { ScriptStep::Comment }
    else if id == "90"@ { ScriptStep::HaltScript }
    else if id == "91"@ { ScriptStep::ReplaceFieldContents }
    else if id == "93"@ { ScriptStep::Beep }
    else if id == "94"@ { ScriptStep::SetUseSystemFormats }
    else if id == "99"@ { ScriptStep::GoToPortalRow }
    else if id == "101"@ { ScriptStep::CopyRecordRequest }
    else if id == "102"@ { ScriptStep::FlushCacheToDisk }
    else if id == "103"@ { ScriptStep::ExitScript }
    else if id == "105"@ { ScriptStep::OpenSettings }
    else if id == "106"@ { ScriptStep::CorrectWord }
    else if id == "107"@ { ScriptStep::SpellingOptions }
    else if id == "108"@ { ScriptStep::SelectDictionaries }
    else if id == "109"@ { ScriptStep::EditUserDictionary }
    else if id == "112"@ { ScriptStep::OpenManageValueLists }
    else if id == "113"@ { ScriptStep::OpenSharing }
    else if id == "114"@ { ScriptStep::OpenFileOptions }
    else if id == "115"@ { ScriptStep::AllowFormattingBar }
    else if id == "118"@ { ScriptStep::OpenHosts }
    else if id == "121"@ { ScriptStep::CloseWindow }
    else if id == "122"@ { ScriptStep::NewWindow }
    else if id == "125"@ { ScriptStep::IfElse }
    else if id == "126"@ { ScriptStep::ConstrainFoundSet }
    else if id == "127"@ { ScriptStep::ExtendFoundSet }
    else if id == "129"@ { ScriptStep::OpenFindReplace }
    else if id == "140"@ { ScriptStep::OpenManageDataSources }
    else if id == "141"@ { ScriptStep::SetVariable }
    else if id == "145"@ { ScriptStep::GoToObject }
    else if id == "149"@ { ScriptStep::OpenEditSavedFinds }
    else if id == "151"@ { ScriptStep::OpenManageLayouts }
    else if id == "156"@ { ScriptStep::OpenManageContainers }
    else if id == "165"@ { ScriptStep::OpenManageThemes }
    else if id == "167"@ { ScriptStep::RefreshObject }
    else if id == "169"@ { ScriptStep::ClosePopover }
    else if id == "172"@ { ScriptStep::UploadToServer }
    else if id == "183"@ { ScriptStep::OpenMyApps }
    else { ScriptStep::Unknown }
}

/// The step kind of a step id given in decimal.
pub fn id_to_script_step(id: &str) -> (step: ScriptStep)
    ensures
        step == script_step_of(id@),
{
    if str_eq(id, "1") { ScriptStep::PerformScript }
    else if str_eq(id, "4") { ScriptStep::GoToPreviousField }
    else if str_eq(id, "5") { ScriptStep::GoToNextField }
    else if str_eq(id, "6") { ScriptStep::GoToLayout }
    else if str_eq(id, "7") { ScriptStep::NewRecordRequest }
    else if str_eq(id, "8") { ScriptStep::DuplicateRecordRequest }
    else if str_eq(id, "9") { ScriptStep::DeleteRecordRequest }
    else if str_eq(id, "10") { ScriptStep::DeleteAllRecords }
    else if str_eq(id, "16") { ScriptStep::GoToRecordRequestPage }
    else if str_eq(id, "17") { ScriptStep::GoToField }
    else if str_eq(id, "19") { ScriptStep::CheckRecord }
    else if str_eq(id, "20") { ScriptStep::CheckFoundSet }
    else if str_eq(id, "21") { ScriptStep::UnsortRecords }
    else if str_eq(id, "22") { ScriptStep::EnterFindMode }
    else if str_eq(id, "23") { ScriptStep::ShowAllRecords }
    else if str_eq(id, "24") { ScriptStep::ModifyLastFind }
    else if str_eq(id, "25") { ScriptStep::OmitRecord }
    else if str_eq(id, "26") { ScriptStep::OmitMultipleRecords }
    else if str_eq(id, "27") { ScriptStep::ShowOmittedOnly }
    else if str_eq(id, "28") { ScriptStep::PerformFind }
    else if str_eq(id, "32") { ScriptStep::OpenHelp }
    else if str_eq(id, "38") { ScriptStep::OpenManageDatabase }
    else if str_eq(id, "44") { ScriptStep::ExitApplication }
    else if str_eq(id, "50") { ScriptStep::SelectAll }
    else if str_eq(id, "55") { ScriptStep::EnterBrowseMode }
    else if str_eq(id, "68") { ScriptStep::IfStart }
    else if str_eq(id, "69") { ScriptStep::Else }
    else if str_eq(id, "70") { ScriptStep::IfEnd }
    else if str_eq(id, "71") { ScriptStep::LoopStart }
    else if str_eq(id, "72") { ScriptStep::ExitLoopIf }
    else if str_eq(id, "73") { ScriptStep::LoopEnd }
    else if str_eq(id, "75") { ScriptStep::CommitRecordRequests }
    else if str_eq(id, "76") { ScriptStep::SetFieldData }
    else if str_eq(id, "79") { ScriptStep::FixWindow }
    else if str_eq(id, "82") { ScriptStep::NewFile }
    else if str_eq(id, "85") { ScriptStep::AllowUserAbort }
    else if str_eq(id, "86") { ScriptStep::SetErrorRecording }
    else if str_eq(id, "88") { ScriptStep::OpenScriptWorkspace }
    else if str_eq(id, "89") { ScriptStep::Comment }
    else if str_eq(id, "90") { ScriptStep::HaltScript }
    else if str_eq(id, "91") { ScriptStep::ReplaceFieldContents }
    else if str_eq(id, "93") { ScriptStep::Beep }
    else if str_eq(id, "94") { ScriptStep::SetUseSystemFormats }
    else if str_eq(id, "99") { ScriptStep::GoToPortalRow }
    else if str_eq(id, "101") { ScriptStep::CopyRecordRequest }
    else if str_eq(id, "102") { ScriptStep::FlushCacheToDisk }
    else if str_eq(id, "103") { ScriptStep::ExitScript }
    else if str_eq(id, "105") { ScriptStep::OpenSettings }
    else if str_eq(id, "106") { ScriptStep::CorrectWord }
    else if str_eq(id, "107") { ScriptStep::SpellingOptions }
    else if str_eq(id, "108") { ScriptStep::SelectDictionaries }
    else if str_eq(id, "109") { ScriptStep::EditUserDictionary }
    else if str_eq(id, "112") { ScriptStep::OpenManageValueLists }
    else if str_eq(id, "113") { ScriptStep::OpenSharing }
    else if str_eq(id, "114") { ScriptStep::OpenFileOptions }
    else if str_eq(id, "115") { ScriptStep::AllowFormattingBar }
    else if str_eq(id, "118") { ScriptStep::OpenHosts }
    else if str_eq(id, "121") { ScriptStep::CloseWindow }
    else if str_eq(id, "122") { ScriptStep::NewWindow }
    else if str_eq(id, "125") { ScriptStep::IfElse }
    else if str_eq(id, "126") { ScriptStep::ConstrainFoundSet }
    else if str_eq(id, "127") { ScriptStep::ExtendFoundSet }
    else if str_eq(id, "129") { ScriptStep::OpenFindReplace }
    else if str_eq(id, "140") { ScriptStep::OpenManageDataSources }
    else if str_eq(id, "141") { ScriptStep::SetVariable }
    else if str_eq(id, "145") { ScriptStep::GoToObject }
    else if str_eq(id, "149") { ScriptStep::OpenEditSavedFinds }
    else if str_eq(id, "151") { ScriptStep::OpenManageLayouts }
    else if str_eq(id, "156") { ScriptStep::OpenManageContainers }
    else if str_eq(id, "165") { ScriptStep::OpenManageThemes }
    else if str_eq(id, "167") { ScriptStep::RefreshObject }
    else if str_eq(id, "169") { ScriptStep::ClosePopover }
    else if str_eq(id, "172") { ScriptStep::UploadToServer }
    else if str_eq(id, "183") { ScriptStep::OpenMyApps }
    else { ScriptStep::Unknown }
}

} // verus!
