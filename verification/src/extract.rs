//! The extraction of a downloaded archive, as a plan: which directories to
//! create and which files to write below the addon's directory. The plan is
//! made from the archive alone; carrying it out is left to the caller.

use crate::archive::{
    archive_error, archive_len, archive_source, entry_data, entry_error, entry_name, open_archive,
    zip_entry_count, zip_entry_data, zip_entry_name, Counted,
};
use crate::error::{ManagerError, ManagerErrorView};
use crate::path::{lemma_extraction_stays_inside, plain, relative_safe_path, resolve, safe_path};
use crate::resolver::Platform;
use crate::text::{split, split_on, views};
use vstd::prelude::*;

verus! {

/// The name of the directory that wraps an archive's content: the last
/// segment of the repository identifier, followed by `-main/`.
pub open spec fn prefix_of_repo(repo: Seq<char>) -> Seq<char> {
    split(repo, '/').last() + "-main/"@
}

/// The directory name under which the archive of `repo` wraps its content.
pub fn expected_prefix(repo: &str) -> (prefix: String)
    ensures
        prefix@ == prefix_of_repo(repo@),
{
    let parts = split_on(repo, '/');
    let last = parts[parts.len() - 1].clone();
    last.concat("-main/")
}

/// One change to make below the addon's directory.
#[derive(Debug, Clone)]
pub enum ExtractAction {
    /// Create the directory at `path`, with its parents.
    CreateDir { path: Vec<String> },
    /// Create the parents of `path` and write `data` to a new file there.
    WriteFile { path: Vec<String>, data: Vec<u8> },
}

/// What an [`ExtractAction`] is in contracts.
pub enum ExtractActionView {
    CreateDir { path: Seq<Seq<char>> },
    WriteFile { path: Seq<Seq<char>>, data: Seq<u8> },
}

impl View for ExtractAction {
    type V = ExtractActionView;

    open spec fn view(&self) -> ExtractActionView {
        match self {
            ExtractAction::CreateDir { path } => ExtractActionView::CreateDir { path: views(path@) },
            ExtractAction::WriteFile { path, data } => ExtractActionView::WriteFile {
                path: views(path@),
                data: data@,
            },
        }
    }
}

impl ExtractActionView {
    /// The components of the place that the action changes.
    pub open spec fn path(self) -> Seq<Seq<char>> {
        match self {
            ExtractActionView::CreateDir { path } => path,
            ExtractActionView::WriteFile { path, data: _ } => path,
        }
    }
}

/// The views of a sequence of actions.
pub open spec fn action_views(actions: Seq<ExtractAction>) -> Seq<ExtractActionView> {
    actions.map_values(|a: ExtractAction| a@)
}

/// What the extraction of an archive comes to.
pub enum Planned {
    /// The changes to make, in the order of the archive's entries.
    Actions(Seq<ExtractActionView>),
    /// The bytes are no archive, or an entry of it cannot be opened; with
    /// what the reader says of it.
    BadArchive(Seq<char>),
    /// The content of an entry that is to be written cannot be read; with
    /// what the reader says of it.
    BadEntry(Seq<char>),
}

/// What the first `count` entries of the zip archive `bytes` come to on
/// `platform`: each entry that [`safe_path`] places adds one action, a
/// directory to create or a file to write with the entry's content; every
/// other entry adds nothing. The first entry that cannot be opened, or whose
/// content is wanted and cannot be read, decides the outcome.
pub open spec fn planned_entries(
    platform: Platform,
    bytes: Seq<u8>,
    prefix: Seq<char>,
    count: nat,
) -> Planned
    decreases count,
{
    if count == 0 {
        Planned::Actions(Seq::empty())
    } else {
        let index = (count - 1) as nat;
        match planned_entries(platform, bytes, prefix, index) {
            Planned::Actions(actions) => match zip_entry_name(bytes, index) {
                Err(text) => Planned::BadArchive(text),
                Ok(name) => match safe_path(platform, name, prefix) {
                    None => Planned::Actions(actions),
                    Some(place) => if place.is_dir {
                        Planned::Actions(
                            actions.push(ExtractActionView::CreateDir { path: place.components }),
                        )
                    } else {
                        match zip_entry_data(bytes, index) {
                            Err(text) => Planned::BadEntry(text),
                            Ok(data) => Planned::Actions(
                                actions.push(
                                    ExtractActionView::WriteFile { path: place.components, data },
                                ),
                            ),
                        }
                    },
                },
            },
            failed => failed,
        }
    }
}

/// What the extraction of the zip archive `bytes` comes to on `platform`.
pub open spec fn planned(platform: Platform, bytes: Seq<u8>, prefix: Seq<char>) -> Planned {
    match zip_entry_count(bytes) {
        Err(text) => Planned::BadArchive(text),
        Ok(count) => planned_entries(platform, bytes, prefix, count),
    }
}

/// Extraction safety, for a whole archive: an entry whose name does not
/// start with the expected prefix adds nothing to what is written.
pub proof fn lemma_foreign_entry_adds_nothing(
    platform: Platform,
    bytes: Seq<u8>,
    prefix: Seq<char>,
    index: nat,
)
    requires
        zip_entry_name(bytes, index) matches Ok(name) && !prefix.is_prefix_of(name),
    ensures
        planned_entries(platform, bytes, prefix, index + 1) == planned_entries(
            platform,
            bytes,
            prefix,
            index,
        ),
{
}

/// Traversal safety, for a whole archive: every planned action changes a
/// place strictly below the destination directory, whatever the entries of
/// the archive are called. Each component of its path is one that the
/// platform reads as a single name.
pub proof fn lemma_plan_stays_inside(
    platform: Platform,
    bytes: Seq<u8>,
    prefix: Seq<char>,
    count: nat,
    destination: Seq<Seq<char>>,
)
    requires
        planned_entries(platform, bytes, prefix, count) is Actions,
    ensures
        forall|k: int|
            0 <= k < planned_entries(platform, bytes, prefix, count)->Actions_0.len() ==> {
                let path = (#[trigger] planned_entries(
                    platform,
                    bytes,
                    prefix,
                    count,
                )->Actions_0[k]).path();
                &&& forall|i: int| 0 <= i < path.len() ==> plain(platform, #[trigger] path[i])
                &&& resolve(destination, path) == destination + path
                &&& destination.is_prefix_of(resolve(destination, path))
                &&& resolve(destination, path).len() > destination.len()
            },
    decreases count,
{
    if count > 0 {
        let index = (count - 1) as nat;
        lemma_plan_stays_inside(platform, bytes, prefix, index, destination);
        let name = zip_entry_name(bytes, index)->Ok_0;
        if safe_path(platform, name, prefix) is Some {
            lemma_extraction_stays_inside(platform, name, prefix, destination);
        }
    }
}

/// Opens `archive_bytes` as a zip archive and plans its extraction under
/// `prefix` on `platform`: the directories to create and the files to write
/// below the addon's directory, in the order of the archive's entries.
/// Nothing on disk is touched. Bytes that are no archive and entries that
/// cannot be opened give an `Archive` error; an entry that is to be written
/// and whose content cannot be read gives an `Extraction` error; the message
/// of either is what the archive reader says.
pub fn plan_extraction(archive_bytes: Vec<u8>, prefix: &str, platform: Platform) -> (plan: Result<
    Vec<ExtractAction>,
    ManagerError,
>)
    ensures
        match planned(platform, archive_bytes@, prefix@) {
            Planned::Actions(actions) => plan matches Ok(found) && action_views(found@) == actions,
            Planned::BadArchive(text) => plan matches Err(failure) && failure@
                == (ManagerErrorView::Archive { message: text }),
            Planned::BadEntry(text) => plan matches Err(failure) && failure@
                == (ManagerErrorView::Extraction { message: text }),
        },
{
    let ghost bytes = archive_bytes@;
    let mut archive = match open_archive(archive_bytes) {
        Ok(archive) => archive,
        Err(text) => {
            return Err(archive_error(text));
        },
    };
    let count: usize = archive_len(&archive);
    let mut actions: Vec<ExtractAction> = Vec::new();
    let mut index: usize = 0;
    assert(action_views(actions@) == Seq::<ExtractActionView>::empty());
    while index < count
        invariant
            index <= count,
            bytes == archive_bytes@,
            archive_source(archive) == bytes,
            zip_entry_count(bytes) == Counted::Ok(count as nat),
            planned_entries(platform, bytes, prefix@, index as nat) == Planned::Actions(
                action_views(actions@),
            ),
        decreases count - index,
    {
        let ghost before = actions@;
        let name = match entry_name(&mut archive, index) {
            Ok(name) => name,
            Err(text) => {
                assert(planned_entries(platform, bytes, prefix@, (index + 1) as nat)
                    == Planned::BadArchive(text@));
                proof {
                    lemma_failure_is_final(
                        platform,
                        bytes,
                        prefix@,
                        (index + 1) as nat,
                        count as nat,
                    );
                }
                return Err(archive_error(text));
            },
        };
        match relative_safe_path(name.as_str(), prefix, platform) {
            None => {},
            Some(place) => {
                if place.is_dir {
                    let action = ExtractAction::CreateDir { path: place.components };
                    actions.push(action);
                    assert(action_views(actions@) == action_views(before).push(action@));
                } else {
                    let data = match entry_data(&mut archive, index) {
                        Ok(data) => data,
                        Err(text) => {
                            assert(planned_entries(platform, bytes, prefix@, (index + 1) as nat)
                                == Planned::BadEntry(text@));
                            proof {
                                lemma_failure_is_final(
                                    platform,
                                    bytes,
                                    prefix@,
                                    (index + 1) as nat,
                                    count as nat,
                                );
                            }
                            return Err(entry_error(text));
                        },
                    };
                    let action = ExtractAction::WriteFile { path: place.components, data };
                    actions.push(action);
                    assert(action_views(actions@) == action_views(before).push(action@));
                }
            },
        }
        index += 1;
    }
    Ok(actions)
}

/// Once an entry has failed, later entries do not change the outcome.
proof fn lemma_failure_is_final(
    platform: Platform,
    bytes: Seq<u8>,
    prefix: Seq<char>,
    failed_at: nat,
    count: nat,
)
    requires
        failed_at <= count,
        !(planned_entries(platform, bytes, prefix, failed_at) is Actions),
    ensures
        planned_entries(platform, bytes, prefix, count) == planned_entries(
            platform,
            bytes,
            prefix,
            failed_at,
        ),
    decreases count,
{
    if count > failed_at {
        lemma_failure_is_final(platform, bytes, prefix, failed_at, (count - 1) as nat);
    }
}

} // verus!
