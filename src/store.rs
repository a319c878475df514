use vstd::prelude::*;

use crate::json::{decode_settings, from_json, is_settings_document, to_json, JsonValue};
use crate::settings::{default_view, Settings, SettingsView};

verus! {

/// Why a settings operation failed, with the underlying system or parser text.
#[derive(Debug)]
pub enum SettingsError {
    /// The per-user configuration directory could not be resolved.
    ConfigDir(String),
    /// The configuration directory did not exist and could not be created.
    CreateDir(String),
    /// The settings file exists but could not be read.
    Read(String),
    /// The settings file is not JSON, or not a settings document.
    Parse(String),
    /// The settings document could not be turned into text.
    Serialize(String),
    /// The settings file could not be written.
    Write(String),
    /// The settings file could not be deleted.
    Delete(String),
}

impl SettingsError {
    pub open spec fn prefix(&self) -> Seq<char> {
        match self {
            SettingsError::ConfigDir(_) => "Failed to get config directory: "@,
            SettingsError::CreateDir(_) => "Failed to create config directory: "@,
            SettingsError::Read(_) => "Failed to read settings file: "@,
            SettingsError::Parse(_) => "Failed to parse settings: "@,
            SettingsError::Serialize(_) => "Failed to serialize settings: "@,
            SettingsError::Write(_) => "Failed to write settings file: "@,
            SettingsError::Delete(_) => "Failed to delete settings file: "@,
        }
    }

    pub open spec fn detail(&self) -> Seq<char> {
        match self {
            SettingsError::ConfigDir(e) => e@,
            SettingsError::CreateDir(e) => e@,
            SettingsError::Read(e) => e@,
            SettingsError::Parse(e) => e@,
            SettingsError::Serialize(e) => e@,
            SettingsError::Write(e) => e@,
            SettingsError::Delete(e) => e@,
        }
    }

    /// The human-readable text handed to the GUI: a fixed description of the
    /// step that failed, then the underlying text.
    pub fn message(&self) -> (r: String)
        ensures
            r@ == self.prefix() + self.detail(),
    {
        match self {
            SettingsError::ConfigDir(e) => String::from_str("Failed to get config directory: ").concat(
                e.as_str(),
            ),
            SettingsError::CreateDir(e) => String::from_str(
                "Failed to create config directory: ",
            ).concat(e.as_str()),
            SettingsError::Read(e) => String::from_str("Failed to read settings file: ").concat(
                e.as_str(),
            ),
            SettingsError::Parse(e) => String::from_str("Failed to parse settings: ").concat(
                e.as_str(),
            ),
            SettingsError::Serialize(e) => String::from_str("Failed to serialize settings: ").concat(
                e.as_str(),
            ),
            SettingsError::Write(e) => String::from_str("Failed to write settings file: ").concat(
                e.as_str(),
            ),
            SettingsError::Delete(e) => String::from_str("Failed to delete settings file: ").concat(
                e.as_str(),
            ),
        }
    }
}

/// What became of the configuration directory before a read or a write.
#[derive(Debug)]
pub enum ConfigDir {
    /// The directory could not be resolved.
    Unresolved(String),
    /// The directory was missing and creating it failed.
    CreateFailed(String),
    /// The directory exists.
    Ready,
}

/// What was found at `settings.json` inside a ready configuration directory.
#[derive(Debug)]
pub enum FileState {
    Missing,
    Unreadable(String),
    /// The file's text is not JSON; the parser's message.
    Unparsable(String),
    /// The file's text parsed as this JSON value.
    Document(JsonValue),
}

/// What came of writing a settings document to `settings.json`.
#[derive(Debug)]
pub enum WriteOutcome {
    Written,
    SerializeFailed(String),
    WriteFailed(String),
}

/// What came of removing `settings.json`.
#[derive(Debug)]
pub enum Removal {
    /// The configuration directory could not be resolved.
    Unresolved(String),
    /// There was no file to remove.
    NoFile,
    Removed,
    Failed(String),
}

/// The settings a read yields, when it yields any.
pub open spec fn get_view(dir: ConfigDir, file: FileState) -> Option<SettingsView> {
    match dir {
        ConfigDir::Ready => match file {
            FileState::Missing => Some(default_view()),
            FileState::Document(v) => decode_settings(v),
            _ => None,
        },
        _ => None,
    }
}

/// The settings a reset yields, when it succeeds.
pub open spec fn reset_view(removal: Removal) -> Option<SettingsView> {
    match removal {
        Removal::NoFile | Removal::Removed => Some(default_view()),
        _ => None,
    }
}

/// Loads the settings: the defaults when no file exists (nothing is written),
/// else the document in the file. Every failure is reported, none falls back to
/// the defaults.
pub fn get_settings(dir: ConfigDir, file: FileState) -> (r: Result<Settings, SettingsError>)
    ensures
        r is Ok <==> get_view(dir, file) is Some,
        r is Ok ==> r->Ok_0@ == get_view(dir, file).unwrap(),
        dir matches ConfigDir::Unresolved(e) ==> r == Err::<Settings, SettingsError>(
            SettingsError::ConfigDir(e),
        ),
        dir matches ConfigDir::CreateFailed(e) ==> r == Err::<Settings, SettingsError>(
            SettingsError::CreateDir(e),
        ),
        dir is Ready ==> (file matches FileState::Unreadable(e) ==> r == Err::<
            Settings,
            SettingsError,
        >(SettingsError::Read(e))),
        dir is Ready ==> (file matches FileState::Unparsable(e) ==> r == Err::<
            Settings,
            SettingsError,
        >(SettingsError::Parse(e))),
        dir is Ready && file is Document && r is Err ==> r->Err_0 is Parse,
{
    match dir {
        ConfigDir::Unresolved(e) => Err(SettingsError::ConfigDir(e)),
        ConfigDir::CreateFailed(e) => Err(SettingsError::CreateDir(e)),
        ConfigDir::Ready => match file {
            FileState::Missing => Ok(Settings::default()),
            FileState::Unreadable(e) => Err(SettingsError::Read(e)),
            FileState::Unparsable(e) => Err(SettingsError::Parse(e)),
            FileState::Document(v) => match from_json(&v) {
                Ok(s) => Ok(s),
                Err(e) => Err(SettingsError::Parse(e)),
            },
        },
    }
}

/// The document to write for `settings`, once the directory is ready. The
/// whole file is replaced with it; nothing is validated or merged.
pub fn save_document(dir: ConfigDir, settings: &Settings) -> (r: Result<JsonValue, SettingsError>)
    ensures
        r is Ok <==> dir is Ready,
        r is Ok ==> is_settings_document(r->Ok_0, settings@),
        dir matches ConfigDir::Unresolved(e) ==> r == Err::<JsonValue, SettingsError>(
            SettingsError::ConfigDir(e),
        ),
        dir matches ConfigDir::CreateFailed(e) ==> r == Err::<JsonValue, SettingsError>(
            SettingsError::CreateDir(e),
        ),
{
    match dir {
        ConfigDir::Unresolved(e) => Err(SettingsError::ConfigDir(e)),
        ConfigDir::CreateFailed(e) => Err(SettingsError::CreateDir(e)),
        ConfigDir::Ready => Ok(to_json(settings)),
    }
}

/// The result of a save, from what came of writing the document.
pub fn save_result(outcome: WriteOutcome) -> (r: Result<(), SettingsError>)
    ensures
        r is Ok <==> outcome is Written,
        outcome matches WriteOutcome::SerializeFailed(e) ==> r == Err::<(), SettingsError>(
            SettingsError::Serialize(e),
        ),
        outcome matches WriteOutcome::WriteFailed(e) ==> r == Err::<(), SettingsError>(
            SettingsError::Write(e),
        ),
{
    match outcome {
        WriteOutcome::Written => Ok(()),
        WriteOutcome::SerializeFailed(e) => Err(SettingsError::Serialize(e)),
        WriteOutcome::WriteFailed(e) => Err(SettingsError::Write(e)),
    }
}

/// Resets the settings: the defaults, whether or not a file was there to
/// remove. No file is written.
pub fn reset_settings(removal: Removal) -> (r: Result<Settings, SettingsError>)
    ensures
        r is Ok <==> reset_view(removal) is Some,
        r is Ok ==> r->Ok_0@ == default_view(),
        removal matches Removal::Unresolved(e) ==> r == Err::<Settings, SettingsError>(
            SettingsError::ConfigDir(e),
        ),
        removal matches Removal::Failed(e) ==> r == Err::<Settings, SettingsError>(
            SettingsError::Delete(e),
        ),
{
    match removal {
        Removal::Unresolved(e) => Err(SettingsError::ConfigDir(e)),
        Removal::NoFile => Ok(Settings::default()),
        Removal::Removed => Ok(Settings::default()),
        Removal::Failed(e) => Err(SettingsError::Delete(e)),
    }
}

/// Reading a missing file gives exactly the defaults.
pub proof fn lemma_missing_file_gives_defaults()
    ensures
        get_view(ConfigDir::Ready, FileState::Missing) == Some(default_view()),
{
}

/// What a save writes, read back, is the saved settings unchanged.
pub proof fn lemma_save_then_get(v: JsonValue, m: SettingsView)
    requires
        is_settings_document(v, m),
    ensures
        get_view(ConfigDir::Ready, FileState::Document(v)) == Some(m),
{
    crate::json::lemma_round_trip(v, m);
}

/// A reset that removed the file gives the defaults, and so does the read
/// that follows it, which finds no file.
pub proof fn lemma_reset_then_get()
    ensures
        reset_view(Removal::Removed) == Some(default_view()),
        get_view(ConfigDir::Ready, FileState::Missing) == Some(default_view()),
{
}

} // verus!
