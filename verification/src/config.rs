//! The persisted configuration: the install root that the user chose, if any.

use crate::error::ManagerError;
use crate::locations::data_local_dir;
use crate::text::views;
use vstd::prelude::*;

verus! {

/// The name of the directory, below the platform's application-data
/// directory, that holds the manager's files.
pub open spec fn app_dir_name() -> Seq<char> {
    "wow-addon-manager"@
}

/// The configuration of the manager.
#[derive(Debug, Clone)]
pub struct AppConfig {
    /// The install root that overrides the platform's defaults, if set.
    pub wow_addons_path: Option<String>,
}

impl View for AppConfig {
    type V = Option<Seq<char>>;

    open spec fn view(&self) -> Option<Seq<char>> {
        match self.wow_addons_path {
            Some(path) => Some(path@),
            None => None,
        }
    }
}

impl AppConfig {
    /// The configuration without an override.
    pub fn new() -> (config: AppConfig)
        ensures
            config@ is None,
    {
        AppConfig { wow_addons_path: None }
    }
}

/// What a read of the configuration file comes to: the decoded override, or
/// none where the file is missing, unreadable or malformed.
pub open spec fn loaded_config(decoded: Option<AppConfig>) -> Option<Seq<char>> {
    match decoded {
        Some(found) => found@,
        None => None,
    }
}

/// The configuration that a read of its file gives: what was decoded, or the
/// default where the file is missing, unreadable or malformed. A failed read
/// is never an error.
pub fn load_config(decoded: Option<AppConfig>) -> (config: AppConfig)
    ensures
        config@ == loaded_config(decoded),
{
    match decoded {
        Some(found) => found,
        None => AppConfig::new(),
    }
}

/// The configuration to save when the user chooses `path` as install root.
/// A path that does not exist on disk is refused and nothing is to be saved.
pub fn set_wow_path(path: String, exists: bool, config: AppConfig) -> (updated: Result<
    AppConfig,
    ManagerError,
>)
    ensures
        exists ==> (updated matches Ok(saved) && saved@ == Some(path@)),
        !exists ==> (updated matches Err(ManagerError::PathNotFound { message }) && message@
            == "The selected folder does not exist."@),
{
    if !exists {
        return Err(
            ManagerError::PathNotFound {
                message: String::from_str("The selected folder does not exist."),
            },
        );
    }
    let mut config = config;
    config.wow_addons_path = Some(path);
    Ok(config)
}

/// How a write of the configuration file ended, as the manager reports it:
/// a failed write is a `ConfigIo` error with the detail as its message.
pub fn config_saved(outcome: Result<(), String>) -> (end: Result<(), ManagerError>)
    ensures
        outcome is Ok ==> end is Ok,
        outcome matches Err(detail) ==> (end matches Err(ManagerError::ConfigIo { message })
            && message@ == detail@),
{
    match outcome {
        Ok(_) => Ok(()),
        Err(detail) => Err(ManagerError::ConfigIo { message: detail }),
    }
}

/// The directory that the manager's files are kept under: the platform's
/// application-data directory, or the current directory where there is none.
pub open spec fn data_root(data_dir: Option<Seq<char>>) -> Seq<char> {
    match data_dir {
        Some(dir) => dir,
        None => "."@,
    }
}

/// The components of the path of the file `file_name` of the manager.
pub open spec fn store_path(data_dir: Option<Seq<char>>, file_name: Seq<char>) -> Seq<Seq<char>> {
    seq![data_root(data_dir), app_dir_name(), file_name]
}

/// The character sequence of a directory that may be missing.
pub open spec fn dir_view(data_dir: Option<String>) -> Option<Seq<char>> {
    match data_dir {
        Some(dir) => Some(dir@),
        None => None,
    }
}

/// The path of the file `file_name` of the manager, as the components to
/// join: the file lies in the manager's directory below `data_dir`, the
/// platform's application-data directory, or below the current directory
/// where the platform has none.
pub fn store_file(data_dir: Option<String>, file_name: &str) -> (path: Vec<String>)
    ensures
        views(path@) == store_path(dir_view(data_dir), file_name@),
{
    let root = match data_dir {
        Some(dir) => dir,
        None => String::from_str("."),
    };
    let mut path: Vec<String> = Vec::new();
    path.push(root);
    path.push(String::from_str("wow-addon-manager"));
    path.push(String::from_str(file_name));
    assert(views(path@) =~= store_path(dir_view(data_dir), file_name@));
    path
}

/// The path of the configuration file, as the components to join:
/// `config.json` in the manager's directory below the application-data
/// directory that the platform gives at the time of the call.
pub fn get_config_path() -> (path: Vec<String>)
    ensures
        exists|data_dir: Option<Seq<char>>|
            views(path@) == #[trigger] store_path(data_dir, "config.json"@),
{
    let data_dir = data_local_dir();
    let path = store_file(data_dir, "config.json");
    assert(views(path@) == store_path(dir_view(data_dir), "config.json"@));
    path
}

} // verus!
