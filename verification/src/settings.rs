//! The daemon's settings, their built-in defaults, and the fallback to them.

use crate::text::join3;
use vstd::prelude::*;

verus! {

/// The file that the settings are read from.
pub const SETTINGS_FILE: &'static str = "palangrotte.toml";

/// Everything the daemon can be told: where its files are, whom to alert, and
/// how decoy files are named and sized.
#[derive(Debug)]
pub struct Settings {
    pub folders_file: String,
    pub log_file: String,
    pub keyword: String,
    pub service_url: String,
    pub canary_file_names: Vec<String>,
    pub canary_file_extensions: Vec<String>,
    pub min_canary_files: u32,
    pub max_canary_files: u32,
    pub min_canary_file_size: u64,
    pub max_canary_file_size: u64,
    pub notification_title: String,
    pub notification_message: String,
}

/// `Settings` with every text as a sequence of characters.
pub struct SettingsView {
    pub folders_file: Seq<char>,
    pub log_file: Seq<char>,
    pub keyword: Seq<char>,
    pub service_url: Seq<char>,
    pub canary_file_names: Seq<Seq<char>>,
    pub canary_file_extensions: Seq<Seq<char>>,
    pub min_canary_files: u32,
    pub max_canary_files: u32,
    pub min_canary_file_size: u64,
    pub max_canary_file_size: u64,
    pub notification_title: Seq<char>,
    pub notification_message: Seq<char>,
}

impl View for Settings {
    type V = SettingsView;

    open spec fn view(&self) -> SettingsView {
        SettingsView {
            folders_file: self.folders_file@,
            log_file: self.log_file@,
            keyword: self.keyword@,
            service_url: self.service_url@,
            canary_file_names: self.canary_file_names.deep_view(),
            canary_file_extensions: self.canary_file_extensions.deep_view(),
            min_canary_files: self.min_canary_files,
            max_canary_files: self.max_canary_files,
            min_canary_file_size: self.min_canary_file_size,
            max_canary_file_size: self.max_canary_file_size,
            notification_title: self.notification_title@,
            notification_message: self.notification_message@,
        }
    }
}

impl SettingsView {
    /// Whether a batch of decoy files can be drawn: both ranges hold a value,
    /// both pools hold a word, and the largest size is one that a buffer can
    /// have.
    pub open spec fn seedable(self) -> bool {
        &&& self.min_canary_files <= self.max_canary_files
        &&& self.min_canary_file_size <= self.max_canary_file_size
        &&& self.max_canary_file_size <= usize::MAX
        &&& self.canary_file_names.len() > 0
        &&& self.canary_file_extensions.len() > 0
    }
}

/// The names that decoy files are given where the settings name none.
pub open spec fn default_file_names() -> Seq<Seq<char>> {
    seq![
        "passwords"@,
        "documentation"@,
        "factures"@,
        "confidentiel"@,
        "profils"@,
        "budget"@,
        "personnel"@,
        "secret"@,
        "plans"@,
        "groupes"@,
        "autorisations"@,
        "private"@,
        "confidential"@,
        "secret_keys"@,
    ]
}

/// The extensions of decoy files where the settings name none.
pub open spec fn default_file_extensions() -> Seq<Seq<char>> {
    seq!["txt"@, "pdf"@, "docx"@, "xlsx"@, "pptx"@, "jpg"@, "png"@]
}

/// The built-in settings.
pub open spec fn default_settings() -> SettingsView {
    SettingsView {
        folders_file: "folders.enc"@,
        log_file: "plgrt.log"@,
        keyword: "mustuflux"@,
        service_url: "https://jerome.bousquie.fr/palangrotte/index.php"@,
        canary_file_names: default_file_names(),
        canary_file_extensions: default_file_extensions(),
        min_canary_files: 2,
        max_canary_files: 5,
        min_canary_file_size: 12288,
        max_canary_file_size: 122880,
        notification_title: "Security Alert"@,
        notification_message: "A canary file has been modified. The system is shutting down."@,
    }
}

/// The built-in settings allow a batch of decoy files to be drawn.
pub proof fn lemma_default_settings_seedable()
    ensures
        default_settings().seedable(),
{
}

/// The words as owned texts, in their order.
fn owned_words(words: &[&'static str]) -> (res: Vec<String>)
    ensures
        res.deep_view() == words@.map_values(|w: &'static str| w@),
{
    let mut res: Vec<String> = Vec::new();
    let mut i: usize = 0;
    while i < words.len()
        invariant
            i <= words@.len(),
            res@.len() == i,
            forall|j: int| 0 <= j < i ==> (#[trigger] res@[j])@ == words@[j]@,
        decreases words@.len() - i,
    {
        res.push(words[i].to_owned());
        i += 1;
    }
    res
}

impl Default for Settings {
    /// Creates a new `Settings` instance with default values.
    fn default() -> (res: Settings)
        ensures
            res@ == default_settings(),
    {
        let names = [
            "passwords",
            "documentation",
            "factures",
            "confidentiel",
            "profils",
            "budget",
            "personnel",
            "secret",
            "plans",
            "groupes",
            "autorisations",
            "private",
            "confidential",
            "secret_keys",
        ];
        let extensions = ["txt", "pdf", "docx", "xlsx", "pptx", "jpg", "png"];
        let res = Settings {
            folders_file: "folders.enc".to_owned(),
            log_file: "plgrt.log".to_owned(),
            keyword: "mustuflux".to_owned(),
            service_url: "https://jerome.bousquie.fr/palangrotte/index.php".to_owned(),
            canary_file_names: owned_words(names.as_slice()),
            canary_file_extensions: owned_words(extensions.as_slice()),
            min_canary_files: 2,
            max_canary_files: 5,
            min_canary_file_size: 12288,
            max_canary_file_size: 122880,
            notification_title: "Security Alert".to_owned(),
            notification_message:
                "A canary file has been modified. The system is shutting down.".to_owned(),
        };
        assert(res@.canary_file_names =~= default_file_names());
        assert(res@.canary_file_extensions =~= default_file_extensions());
        res
    }
}

impl Settings {
    /// Whether a batch of decoy files can be drawn from these settings.
    pub fn is_seedable(&self) -> (res: bool)
        ensures
            res == self@.seedable(),
    {
        self.min_canary_files <= self.max_canary_files
            && self.min_canary_file_size <= self.max_canary_file_size
            && self.max_canary_file_size <= usize::MAX as u64
            && self.canary_file_names.len() > 0
            && self.canary_file_extensions.len() > 0
    }
}

/// What reading the settings file came to.
#[derive(Debug)]
pub enum SettingsSource {
    /// The file could not be read.
    Missing,
    /// The file was read and is no valid settings file, for the reason given.
    Unparsable(String),
    /// The file held these settings.
    Parsed(Settings),
}

/// The warning for a settings file that could not be read.
pub open spec fn missing_warning() -> Seq<char> {
    "Warning: Could not read palangrotte.toml. Using default settings."@
}

/// The warning for a settings file that could not be parsed.
pub open spec fn unparsable_warning(error: Seq<char>) -> Seq<char> {
    "Warning: Could not parse palangrotte.toml: "@ + error + ". Using default settings."@
}

/// Loads the settings: those of the settings file where it was read and
/// parsed, and else the built-in ones, with a warning to print. The fallback
/// is never an error.
pub fn load_settings(source: SettingsSource) -> (res: (Settings, Option<String>))
    ensures
        match source {
            SettingsSource::Parsed(settings) => res.0 == settings && res.1 is None,
            SettingsSource::Unparsable(error) => {
                &&& res.0@ == default_settings()
                &&& res.1 matches Some(warning)
                &&& warning@ == unparsable_warning(error@)
            },
            SettingsSource::Missing => {
                &&& res.0@ == default_settings()
                &&& res.1 matches Some(warning)
                &&& warning@ == missing_warning()
            },
        },
{
    match source {
        SettingsSource::Parsed(settings) => (settings, None),
        SettingsSource::Unparsable(error) => {
            let warning = join3(
                "Warning: Could not parse palangrotte.toml: ",
                error.as_str(),
                ". Using default settings.",
            );
            (Settings::default(), Some(warning))
        },
        SettingsSource::Missing => {
            let warning = "Warning: Could not read palangrotte.toml. Using default settings.";
            (Settings::default(), Some(warning.to_owned()))
        },
    }
}

} // verus!
