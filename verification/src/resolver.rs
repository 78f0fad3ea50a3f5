//! Where addons are installed: the user's override if it exists, else the
//! first of the platform's conventional locations that exists.
//!
//! Resolution is a function of the configuration and of what exists on disk
//! at the time of the call; nothing is cached between calls.

use crate::config::AppConfig;
use crate::error::ManagerError;
use crate::locations::home_dir;
use crate::text::{chars_of, views};
use vstd::prelude::*;

verus! {

/// The operating systems whose conventional install locations are known.
#[derive(Debug, Clone, Copy, PartialEq, Eq, Structural)]
pub enum Platform {
    MacOs,
    Windows,
    Other,
}

/// A candidate location together with whether it was found on disk.
#[derive(Debug, Clone)]
pub struct PathProbe {
    pub path: String,
    pub exists: bool,
}

/// What a [`PathProbe`] is in contracts.
pub struct PathProbeView {
    pub path: Seq<char>,
    pub exists: bool,
}

impl View for PathProbe {
    type V = PathProbeView;

    open spec fn view(&self) -> PathProbeView {
        PathProbeView { path: self.path@, exists: self.exists }
    }
}

/// The views of a sequence of probes.
pub open spec fn probes(candidates: Seq<PathProbe>) -> Seq<PathProbeView> {
    candidates.map_values(|p: PathProbe| p@)
}

/// The first candidate that exists, in the order of the list.
pub open spec fn first_existing(candidates: Seq<PathProbeView>) -> Option<Seq<char>>
    decreases candidates.len(),
{
    if candidates.len() == 0 {
        None
    } else if candidates[0].exists {
        Some(candidates[0].path)
    } else {
        first_existing(candidates.drop_first())
    }
}

/// The install root: the override where one is set and exists, else the
/// first existing candidate, else none.
pub open spec fn resolved(
    override_path: Option<Seq<char>>,
    override_exists: bool,
    candidates: Seq<PathProbeView>,
) -> Option<Seq<char>> {
    match override_path {
        Some(path) if override_exists => Some(path),
        _ => first_existing(candidates),
    }
}

/// The message of a failed resolution.
pub open spec fn not_found_text() -> Seq<char> {
    "WoW AddOns folder not found. Please set the path manually."@
}

/// The path of `child`, a relative path, below the directory `base`, with
/// `/` as separator: none is added to an empty base or after a base that
/// ends in one.
pub open spec fn joined(base: Seq<char>, child: Seq<char>) -> Seq<char> {
    if base.len() == 0 || base.last() == '/' {
        base + child
    } else {
        base + "/"@ + child
    }
}

/// The conventional install locations of `platform`, most likely first.
/// `home` is the user's home directory, where the platform gives one; without
/// it the per-user location of macOS is the empty path, which never exists.
pub open spec fn candidates_of(platform: Platform, home: Option<Seq<char>>) -> Seq<Seq<char>> {
    match platform {
        Platform::MacOs => seq![
            "/Applications/World of Warcraft/_retail_/Interface/AddOns"@,
            match home {
                Some(dir) => joined(dir, "Applications/World of Warcraft/_retail_/Interface/AddOns"@),
                None => Seq::empty(),
            },
        ],
        Platform::Windows => seq![
            "C:\\Program Files (x86)\\World of Warcraft\\_retail_\\Interface\\AddOns"@,
            "C:\\Program Files\\World of Warcraft\\_retail_\\Interface\\AddOns"@,
        ],
        Platform::Other => Seq::empty(),
    }
}

/// Resolver precedence: an override that is set and exists is the install
/// root, whichever candidates exist as well.
pub proof fn lemma_override_takes_precedence(path: Seq<char>, candidates: Seq<PathProbeView>)
    ensures
        resolved(Some(path), true, candidates) == Some(path),
{
}

/// Resolver fallback: without an override, or with one that does not exist,
/// the install root is the candidate at the least index that exists.
pub proof fn lemma_fallback_is_first_existing(
    override_path: Option<Seq<char>>,
    override_exists: bool,
    candidates: Seq<PathProbeView>,
    index: int,
)
    requires
        override_path is None || !override_exists,
        0 <= index < candidates.len(),
        candidates[index].exists,
        forall|k: int| 0 <= k < index ==> !(#[trigger] candidates[k]).exists,
    ensures
        resolved(override_path, override_exists, candidates) == Some(candidates[index].path),
    decreases index,
{
    if index > 0 {
        let rest = candidates.drop_first();
        assert(!candidates[0].exists);
        assert forall|k: int| 0 <= k < index - 1 implies !(#[trigger] rest[k]).exists by {
            assert(rest[k] == candidates[k + 1]);
        }
        lemma_fallback_is_first_existing(None, false, rest, index - 1);
    }
}

/// Without an override that exists and without a candidate that exists,
/// there is no install root.
pub proof fn lemma_nothing_exists_nothing_resolves(
    override_path: Option<Seq<char>>,
    override_exists: bool,
    candidates: Seq<PathProbeView>,
)
    requires
        override_path is None || !override_exists,
        forall|k: int| 0 <= k < candidates.len() ==> !(#[trigger] candidates[k]).exists,
    ensures
        resolved(override_path, override_exists, candidates) is None,
    decreases candidates.len(),
{
    if candidates.len() > 0 {
        let rest = candidates.drop_first();
        assert(!candidates[0].exists);
        assert forall|k: int| 0 <= k < rest.len() implies !(#[trigger] rest[k]).exists by {
            assert(rest[k] == candidates[k + 1]);
        }
        lemma_nothing_exists_nothing_resolves(None, false, rest);
    }
}

/// Joins `child` to `base`; see [`joined`].
fn join(base: &str, child: &str) -> (path: String)
    ensures
        path@ == joined(base@, child@),
{
    let chars = chars_of(base);
    let path = String::from_str(base);
    if chars.len() == 0 || chars[chars.len() - 1] == '/' {
        path.concat(child)
    } else {
        path.concat("/").concat(child)
    }
}

/// The conventional install locations of `platform`, in the order in which
/// they are tried.
pub fn default_candidates(platform: Platform, home: Option<&str>) -> (candidates: Vec<String>)
    ensures
        views(candidates@) == candidates_of(
            platform,
            match home {
                Some(dir) => Some(dir@),
                None => None,
            },
        ),
{
    let mut candidates: Vec<String> = Vec::new();
    match platform {
        Platform::MacOs => {
            candidates.push(
                String::from_str("/Applications/World of Warcraft/_retail_/Interface/AddOns"),
            );
            let per_user = match home {
                Some(dir) => join(dir, "Applications/World of Warcraft/_retail_/Interface/AddOns"),
                None => String::new(),
            };
            candidates.push(per_user);
        },
        Platform::Windows => {
            candidates.push(
                String::from_str(
                    "C:\\Program Files (x86)\\World of Warcraft\\_retail_\\Interface\\AddOns",
                ),
            );
            candidates.push(
                String::from_str("C:\\Program Files\\World of Warcraft\\_retail_\\Interface\\AddOns"),
            );
        },
        Platform::Other => {},
    }
    assert(views(candidates@) =~= candidates_of(
        platform,
        match home {
            Some(dir) => Some(dir@),
            None => None,
        },
    ));
    candidates
}

/// The conventional install locations of `platform` for the user's home
/// directory as the platform gives it at the time of the call. The home
/// directory is only looked up where a location depends on it.
pub fn candidate_paths(platform: Platform) -> (candidates: Vec<String>)
    ensures
        exists|home: Option<Seq<char>>|
            views(candidates@) == #[trigger] candidates_of(platform, home),
{
    let home = match platform {
        Platform::MacOs => home_dir(),
        _ => None,
    };
    match home {
        Some(dir) => {
            let candidates = default_candidates(platform, Some(dir.as_str()));
            assert(views(candidates@) == candidates_of(platform, Some(dir@)));
            candidates
        },
        None => {
            let candidates = default_candidates(platform, None);
            assert(views(candidates@) == candidates_of(platform, None));
            candidates
        },
    }
}

/// Resolves the install root from the configuration and from what was found
/// on disk: `override_exists` says whether the configured override exists,
/// and each candidate comes with whether it does. The override wins where it
/// is set and exists; else the first existing candidate is taken; where
/// nothing exists the result is the `PathNotFound` error that asks the user
/// to set the path.
pub fn get_wow_addons_path(
    config: &AppConfig,
    override_exists: bool,
    candidates: &Vec<PathProbe>,
) -> (root: Result<String, ManagerError>)
    ensures
        match resolved(config@, override_exists, probes(candidates@)) {
            Some(path) => root matches Ok(found) && found@ == path,
            None => root matches Err(ManagerError::PathNotFound { message }) && message@
                == not_found_text(),
        },
{
    if override_exists {
        if let Some(path) = &config.wow_addons_path {
            return Ok(path.clone());
        }
    }
    let ghost all = probes(candidates@);
    let mut i: usize = 0;
    assert(all.skip(0) == all);
    while i < candidates.len()
        invariant
            i <= candidates.len(),
            all == probes(candidates@),
            resolved(config@, override_exists, all) == first_existing(all),
            first_existing(all) == first_existing(all.skip(i as int)),
        decreases candidates.len() - i,
    {
        assert(all.skip(i as int)[0] == all[i as int]);
        assert(all.skip(i as int).drop_first() == all.skip(i + 1));
        if candidates[i].exists {
            return Ok(candidates[i].path.clone());
        }
        i += 1;
    }
    Err(
        ManagerError::PathNotFound {
            message: String::from_str("WoW AddOns folder not found. Please set the path manually."),
        },
    )
}

/// The install root as shown to the user; see [`get_wow_addons_path`].
pub fn get_wow_path(config: &AppConfig, override_exists: bool, candidates: &Vec<PathProbe>) -> (root:
    Result<String, ManagerError>)
    ensures
        match resolved(config@, override_exists, probes(candidates@)) {
            Some(path) => root matches Ok(found) && found@ == path,
            None => root matches Err(ManagerError::PathNotFound { message }) && message@
                == not_found_text(),
        },
{
    get_wow_addons_path(config, override_exists, candidates)
}

} // verus!
