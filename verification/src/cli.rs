//! The command line of `vx`, and the choice of the command that elevates
//! privileges.

use vstd::prelude::*;
use crate::host::{effective_uid, on_path, uid_is_root};

verus! {

/// The parsed command line.
#[derive(Debug)]
pub struct Args {
    /// The command to execute.
    pub command: Command,
}

/// Options of `vx add`.
#[derive(Debug)]
pub struct AddArgs {
    /// One or more packages to install.
    pub packages: Vec<String>,
    /// Force reinstallation.
    pub force: bool,
    /// Assume yes to confirmation prompts.
    pub yes: bool,
    /// Perform a dry run to show what would be installed.
    pub dry_run: bool,
    /// Use fzf (if available) to select package(s) to install.
    pub fzf: bool,
}

/// Options of `vx upgrade`.
#[derive(Debug)]
pub struct UpgradeArgs {
    /// Perform a dry run to show what would be upgraded.
    pub dry_run: bool,
    /// Assume yes to confirmation prompts.
    pub yes: bool,
}

/// Options of `vx update`.
#[derive(Debug)]
pub struct UpdateArgs {
    /// Perform a dry run to show what would be updated.
    pub dry_run: bool,
    /// Assume yes to confirmation prompts.
    pub yes: bool,
}

/// Options of `vx remove`.
#[derive(Debug)]
pub struct RemoveArgs {
    /// One or more packages to remove.
    pub packages: Vec<String>,
    /// Assume yes to confirmation prompts.
    pub yes: bool,
    /// Perform a dry run to show what would be removed.
    pub dry_run: bool,
}

/// Options of `vx clean`.
#[derive(Debug)]
pub struct CleanArgs {
    /// Remove orphaned packages.
    pub orphans: bool,
    /// Clean the cache of outdated packages.
    pub cache: bool,
    /// Perform a dry run to show what would be removed.
    pub dry_run: bool,
    /// Assume yes to confirmation prompts.
    pub yes: bool,
}

/// Options of `vx find`.
#[derive(Debug)]
pub struct FindArgs {
    /// The query string to search for (required unless `fzf` is set).
    pub query: Option<String>,
    /// Use fzf (if available) to interactively select package(s) from the
    /// search results.
    pub fzf: bool,
}

/// Options of `vx pin`.
#[derive(Debug)]
pub struct PinArgs {
    /// One or more packages to pin.
    pub packages: Vec<String>,
}

/// Options of `vx unpin`.
#[derive(Debug)]
pub struct UnpinArgs {
    /// One or more packages to unpin.
    pub packages: Vec<String>,
}

/// The commands of `vx`.
#[derive(Debug)]
pub enum Command {
    /// Sync the XBPS repositories.
    Sync,
    /// Install packages.
    Add(AddArgs),
    /// Upgrade all packages to their latest versions using existing repo data.
    Upgrade(UpgradeArgs),
    /// Perform a sync and full system update.
    Update(UpdateArgs),
    /// Remove package(s).
    Remove(RemoveArgs),
    /// Cleans orphaned packages and outdated packages in the cache.
    Clean(CleanArgs),
    /// Find a package using a query string.
    Find(FindArgs),
    /// Marks package(s) as manually installed so the clean command doesn't
    /// try to remove it.
    Pin(PinArgs),
    /// Unpin manually pinned package(s).
    Unpin(UnpinArgs),
    /// List packages.
    List(ListArgs),
    /// Manage repositories.
    Repo(RepoCommand),
}

/// The kinds of package listing.
#[derive(Debug)]
pub enum ListCommand {
    /// Lists all packages on the system.
    All,
    /// List manually installed packages.
    Manual,
    /// List orphaned packages.
    Orphans,
}

/// Options of `vx list`.
#[derive(Debug)]
pub struct ListArgs {
    /// Enable verbose messages.
    pub verbose: bool,
    /// Optional query string.
    pub query: Option<String>,
    /// Pipe the listing through fzf.
    pub fzf: bool,
    /// The type of listing to perform.
    pub command: ListCommand,
}

/// The repository commands.
#[derive(Debug)]
pub enum RepoCommand {
    Add(RepoAddArgs),
    Remove(RepoActionArgs),
    List(RepoListArgs),
    Enable(RepoActionArgs),
    Disable(RepoActionArgs),
}

/// Options of `vx repo add`.
#[derive(Debug)]
pub struct RepoAddArgs {
    /// The friendly name for the repo. Used for other repo actions and easy
    /// identification.
    pub name: String,
    /// The actual repository URL.
    pub url: String,
    /// Add the repository in a disabled state (default is enabled).
    pub disabled: bool,
}

/// Options of the repository commands that name one repository.
#[derive(Debug)]
pub struct RepoActionArgs {
    /// The name of the repository to operate on.
    pub name: String,
}

/// Options of `vx repo list`.
#[derive(Debug)]
pub struct RepoListArgs {
    /// Enable verbose messages showing the repository names, URLs, and
    /// enabled/disabled status.
    pub verbose: bool,
    /// Don't show enabled repositories.
    pub no_enabled: bool,
    /// Don't show disabled repositories.
    pub no_disabled: bool,
}

/// The elevation command chosen from what was found on the search path:
/// `doas` is preferred over `sudo`.
pub open spec fn elevation_choice(doas_found: bool, sudo_found: bool) -> Option<Seq<char>> {
    if doas_found {
        Some("doas"@)
    } else if sudo_found {
        Some("sudo"@)
    } else {
        None
    }
}

/// Picks the elevation command, given whether `doas` and `sudo` were found.
pub fn choose_elevation(doas_found: bool, sudo_found: bool) -> (r: Option<String>)
    ensures
        match r {
            Some(c) => elevation_choice(doas_found, sudo_found) == Some(c@),
            None => elevation_choice(doas_found, sudo_found) is None,
        },
{
    if doas_found {
        Some(String::from_str("doas"))
    } else if sudo_found {
        Some(String::from_str("sudo"))
    } else {
        None
    }
}

/// The elevation commands to look for, in order of preference: `doas`,
/// then `sudo`.
pub fn elevation_candidates() -> (r: (String, String))
    ensures
        r.0@ == "doas"@,
        r.1@ == "sudo"@,
{
    (String::from_str("doas"), String::from_str("sudo"))
}

/// Looks on the search path for the elevation commands that
/// `elevation_candidates` names, the preferred one first, and picks one.
/// Returns the pick, whether the preferred command (`doas`) was found, and
/// whether the other (`sudo`) was found; the other is looked for only when
/// the preferred one is missing, and counts as not found otherwise. What is
/// found depends on the machine; the pick is always `elevation_choice` of
/// what was found.
pub fn detect_elevation_cmd() -> (r: (Option<String>, bool, bool))
    ensures
        match r.0 {
            Some(c) => elevation_choice(r.1, r.2) == Some(c@),
            None => elevation_choice(r.1, r.2) is None,
        },
        r.1 ==> !r.2,
{
    let (preferred, fallback) = elevation_candidates();
    let doas_found = on_path(preferred.as_str());
    let sudo_found = if doas_found {
        false
    } else {
        on_path(fallback.as_str())
    };
    (choose_elevation(doas_found, sudo_found), doas_found, sudo_found)
}

/// The privilege command: the one the user set (through the environment
/// variable `VX_PRIVILEGE_COMMAND`, read by the caller) wins; else the one
/// detected on the search path.
pub fn privilege_command(user_choice: Option<String>) -> (r: Option<String>)
    ensures
        user_choice is Some ==> r == user_choice,
        user_choice is None ==> match r {
            Some(c) => c@ == "doas"@ || c@ == "sudo"@,
            None => true,
        },
{
    match user_choice {
        Some(c) => Some(c),
        None => {
            let (pick, _doas_found, _sudo_found) = detect_elevation_cmd();
            pick
        },
    }
}

/// The start of an elevated command line: the privilege command, then the
/// program it runs.
pub fn elevate(privilege: &str, program: &str) -> (r: Vec<String>)
    ensures
        r.deep_view() == seq![privilege@, program@],
{
    let mut v: Vec<String> = Vec::new();
    v.push(String::from_str(privilege));
    v.push(String::from_str(program));
    assert(v.deep_view() =~= seq![privilege@, program@]);
    v
}

/// Whether a process running with effective user id `uid` runs as root,
/// which `vx` refuses.
pub fn is_root_uid(uid: u32) -> (root: bool)
    ensures
        root == (uid == 0),
{
    uid_is_root(uid)
}

/// The effective user id of this process, and whether `vx` must stop
/// because it is root (id 0). Which id is read depends on the process.
pub fn refuse_root() -> (r: (u32, bool))
    ensures
        r.1 == (r.0 == 0),
{
    let uid = effective_uid();
    (uid, is_root_uid(uid))
}

} // verus!
