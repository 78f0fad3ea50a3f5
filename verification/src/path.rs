//! Where an archive entry may be written.
//!
//! An archive wraps its content in one top-level directory. Only entries
//! under that directory are extracted, and the place of each is derived from
//! what follows the directory's name, never from the entry's raw name. What
//! follows is walked segment by segment as the platform at hand would read
//! it: an entry is refused only where that walk leaves the addon's
//! directory, and the place of every other entry is a list of plain names,
//! so that following it from the addon's directory can only descend.

use crate::resolver::Platform;
use crate::text::{
    chars_of, lemma_split_pieces_lack_separators, lemma_split_without_separator, split_either,
    split_on_either, views,
};
use vstd::prelude::*;

verus! {

/// The separator that `platform` reads besides `/`: the backslash on
/// Windows, and none but `/` itself elsewhere.
pub open spec fn second_separator(platform: Platform) -> char {
    if platform == Platform::Windows {
        '\\'
    } else {
        '/'
    }
}

/// Whether `platform` reads `c` as the end of a path component.
pub open spec fn is_separator(platform: Platform, c: char) -> bool {
    c == '/' || c == second_separator(platform)
}

/// A letter from `a` to `z` or from `A` to `Z`.
pub open spec fn ascii_letter(c: char) -> bool {
    ('a' <= c && c <= 'z') || ('A' <= c && c <= 'Z')
}

/// Whether `platform` reads `segment` as starting anew at a drive: on
/// Windows, a letter followed by a colon; nowhere else.
pub open spec fn drive_form(platform: Platform, segment: Seq<char>) -> bool {
    platform == Platform::Windows && segment.len() >= 2 && ascii_letter(segment[0]) && segment[1]
        == ':'
}

/// The component `.`.
pub open spec fn is_current_dir(segment: Seq<char>) -> bool {
    segment.len() == 1 && segment[0] == '.'
}

/// The component `..`.
pub open spec fn is_parent_dir(segment: Seq<char>) -> bool {
    segment.len() == 2 && segment[0] == '.' && segment[1] == '.'
}

/// A segment that names nothing and is passed over: empty, or `.`.
pub open spec fn skippable(segment: Seq<char>) -> bool {
    segment.len() == 0 || is_current_dir(segment)
}

/// A segment that `platform` reads as the name of one file or directory
/// directly inside its parent.
pub open spec fn plain(platform: Platform, segment: Seq<char>) -> bool {
    &&& segment.len() > 0
    &&& !is_current_dir(segment)
    &&& !is_parent_dir(segment)
    &&& !drive_form(platform, segment)
    &&& forall|k: int| 0 <= k < segment.len() ==> !is_separator(platform, #[trigger] segment[k])
}

/// The names that lead to where `segments` end up when they are followed
/// from a directory, or `None` where following them leaves that directory.
/// Empty segments and `.` stay where they are, `..` goes back up by one name
/// and leaves the directory where no name is left, a drive leaves it at
/// once, and every other segment goes down by its name.
pub open spec fn walk(platform: Platform, segments: Seq<Seq<char>>) -> Option<Seq<Seq<char>>>
    decreases segments.len(),
{
    if segments.len() == 0 {
        Some(Seq::empty())
    } else {
        match walk(platform, segments.drop_last()) {
            None => None,
            Some(so_far) => {
                let segment = segments.last();
                if skippable(segment) {
                    Some(so_far)
                } else if is_parent_dir(segment) {
                    if so_far.len() == 0 {
                        None
                    } else {
                        Some(so_far.drop_last())
                    }
                } else if drive_form(platform, segment) {
                    None
                } else {
                    Some(so_far.push(segment))
                }
            },
        }
    }
}

/// Where an archive entry goes, relative to the addon's directory.
#[derive(Debug, Clone)]
pub struct RelativePath {
    /// The names to descend through, outermost first; never empty.
    pub components: Vec<String>,
    /// Whether the entry denotes a directory rather than a file.
    pub is_dir: bool,
}

/// What a [`RelativePath`] is in contracts.
pub struct RelativePathView {
    pub components: Seq<Seq<char>>,
    pub is_dir: bool,
}

impl View for RelativePath {
    type V = RelativePathView;

    open spec fn view(&self) -> RelativePathView {
        RelativePathView { components: views(self.components@), is_dir: self.is_dir }
    }
}

/// The segments of what follows `prefix` in `name`, as `platform` reads
/// them.
pub open spec fn segments_of(platform: Platform, name: Seq<char>, prefix: Seq<char>) -> Seq<
    Seq<char>,
> {
    split_either(name.skip(prefix.len() as int), '/', second_separator(platform))
}

/// The place of the entry `name` under the addon's directory, or `None` where
/// the entry is not extracted. That is so for an entry outside `prefix`, for
/// the wrapping directory itself, for an entry whose walk leaves the addon's
/// directory, and for one that ends up at the addon's directory itself and
/// so names nothing in it. Every other entry is placed at the names that its
/// walk gives, and is a directory where its name ends in `/`.
pub open spec fn safe_path(platform: Platform, name: Seq<char>, prefix: Seq<char>) -> Option<
    RelativePathView,
> {
    if !prefix.is_prefix_of(name) || name.len() == prefix.len() {
        None
    } else {
        match walk(platform, segments_of(platform, name, prefix)) {
            Some(components) if components.len() > 0 => Some(
                RelativePathView { components, is_dir: name.last() == '/' },
            ),
            _ => None,
        }
    }
}

/// Where a path ends up when `relative` is followed from `base`, one
/// component at a time: `..` goes up, `.` and the empty component stay,
/// every other component goes down.
pub open spec fn resolve(base: Seq<Seq<char>>, relative: Seq<Seq<char>>) -> Seq<Seq<char>>
    decreases relative.len(),
{
    if relative.len() == 0 {
        base
    } else {
        let so_far = resolve(base, relative.drop_last());
        let component = relative.last();
        if is_parent_dir(component) {
            if so_far.len() > 0 {
                so_far.drop_last()
            } else {
                so_far
            }
        } else if skippable(component) {
            so_far
        } else {
            so_far.push(component)
        }
    }
}

/// Following plain components only ever descends.
pub proof fn lemma_plain_components_descend(
    platform: Platform,
    base: Seq<Seq<char>>,
    relative: Seq<Seq<char>>,
)
    requires
        forall|i: int| 0 <= i < relative.len() ==> plain(platform, #[trigger] relative[i]),
    ensures
        resolve(base, relative) == base + relative,
    decreases relative.len(),
{
    if relative.len() > 0 {
        lemma_plain_components_descend(platform, base, relative.drop_last());
        assert(plain(platform, relative.last()));
        assert(base + relative == (base + relative.drop_last()).push(relative.last()));
    } else {
        assert(base + relative == base);
    }
}

/// A walk through segments without separators gives plain names only.
proof fn lemma_walk_gives_plain(platform: Platform, segments: Seq<Seq<char>>)
    requires
        forall|i: int, k: int|
            0 <= i < segments.len() && 0 <= k < segments[i].len() ==> !is_separator(
                platform,
                #[trigger] segments[i][k],
            ),
    ensures
        walk(platform, segments) matches Some(names) ==> forall|j: int|
            0 <= j < names.len() ==> plain(platform, #[trigger] names[j]),
    decreases segments.len(),
{
    if segments.len() > 0 {
        let front = segments.drop_last();
        assert forall|i: int, k: int| 0 <= i < front.len() && 0 <= k < front[i].len() implies
            !is_separator(platform, #[trigger] front[i][k]) by {
            assert(front[i] == segments[i]);
        }
        lemma_walk_gives_plain(platform, front);
        if walk(platform, segments) is Some {
            let so_far = walk(platform, front)->0;
            let segment = segments.last();
            assert(segment == segments[segments.len() - 1]);
            let names = walk(platform, segments)->0;
            assert forall|j: int| 0 <= j < names.len() implies plain(
                platform,
                #[trigger] names[j],
            ) by {
                if j < so_far.len() {
                    assert(names[j] == so_far[j]);
                } else {
                    assert(names[j] == segment);
                    assert forall|k: int| 0 <= k < segment.len() implies !is_separator(
                        platform,
                        #[trigger] segment[k],
                    ) by {
                        assert(segment[k] == segments[segments.len() - 1][k]);
                    }
                }
            }
        }
    }
}

/// Once a walk has left the directory, it does not come back.
proof fn lemma_walk_failure_is_final(platform: Platform, segments: Seq<Seq<char>>, upto: int)
    requires
        0 <= upto <= segments.len(),
        walk(platform, segments.take(upto)) is None,
    ensures
        walk(platform, segments) is None,
    decreases segments.len(),
{
    if upto < segments.len() {
        assert(segments.drop_last().take(upto) == segments.take(upto));
        lemma_walk_failure_is_final(platform, segments.drop_last(), upto);
    } else {
        assert(segments.take(upto) == segments);
    }
}

/// Every component of an extracted path is plain, and there is at least one.
pub proof fn lemma_safe_path_is_plain(platform: Platform, name: Seq<char>, prefix: Seq<char>)
    requires
        safe_path(platform, name, prefix) is Some,
    ensures
        safe_path(platform, name, prefix)->0.components.len() > 0,
        forall|i: int|
            0 <= i < safe_path(platform, name, prefix)->0.components.len() ==> plain(
                platform,
                #[trigger] safe_path(platform, name, prefix)->0.components[i],
            ),
{
    lemma_split_pieces_lack_separators(
        name.skip(prefix.len() as int),
        '/',
        second_separator(platform),
    );
    lemma_walk_gives_plain(platform, segments_of(platform, name, prefix));
}

/// Traversal safety: whatever an entry is called, the place it is extracted
/// to lies strictly below the destination directory. Each of its components
/// is one that the platform reads as a single name, and following them from
/// `destination` appends them and never climbs out.
pub proof fn lemma_extraction_stays_inside(
    platform: Platform,
    name: Seq<char>,
    prefix: Seq<char>,
    destination: Seq<Seq<char>>,
)
    requires
        safe_path(platform, name, prefix) is Some,
    ensures
        ({
            let components = safe_path(platform, name, prefix)->0.components;
            let target = resolve(destination, components);
            &&& forall|i: int| 0 <= i < components.len() ==> plain(platform, #[trigger] components[i])
            &&& target == destination + components
            &&& destination.is_prefix_of(target)
            &&& target.len() > destination.len()
        }),
{
    let components = safe_path(platform, name, prefix)->0.components;
    lemma_safe_path_is_plain(platform, name, prefix);
    lemma_plain_components_descend(platform, destination, components);
    assert((destination + components).subrange(0, destination.len() as int) == destination);
}

/// Extraction safety: an entry whose name does not start with the expected
/// prefix is never extracted.
pub proof fn lemma_outside_prefix_is_skipped(platform: Platform, name: Seq<char>, prefix: Seq<char>)
    requires
        !prefix.is_prefix_of(name),
    ensures
        safe_path(platform, name, prefix) is None,
{
}

/// A walk through plain names keeps every one of them.
proof fn lemma_walk_keeps_plain(platform: Platform, segments: Seq<Seq<char>>)
    requires
        forall|i: int| 0 <= i < segments.len() ==> plain(platform, #[trigger] segments[i]),
    ensures
        walk(platform, segments) == Some(segments),
    decreases segments.len(),
{
    if segments.len() > 0 {
        let front = segments.drop_last();
        assert forall|i: int| 0 <= i < front.len() implies plain(platform, #[trigger] front[i]) by {
            assert(front[i] == segments[i]);
        }
        lemma_walk_keeps_plain(platform, front);
        assert(plain(platform, segments.last()));
        assert(front.push(segments.last()) == segments);
    }
}

/// Nothing is lost: an entry under the prefix whose remainder is made of
/// plain names, with a final `/` if it is a directory, is extracted to
/// exactly these names.
pub proof fn lemma_ordinary_entry_is_kept(
    platform: Platform,
    name: Seq<char>,
    prefix: Seq<char>,
    names: Seq<Seq<char>>,
)
    requires
        prefix.is_prefix_of(name),
        names.len() > 0,
        forall|i: int| 0 <= i < names.len() ==> plain(platform, #[trigger] names[i]),
        segments_of(platform, name, prefix) == names || segments_of(platform, name, prefix)
            == names.push(Seq::empty()),
    ensures
        safe_path(platform, name, prefix) == Some(
            RelativePathView { components: names, is_dir: name.last() == '/' },
        ),
{
    let rest = name.skip(prefix.len() as int);
    lemma_walk_keeps_plain(platform, names);
    if rest.len() == 0 {
        assert(segments_of(platform, name, prefix) == seq![Seq::<char>::empty()]);
        assert(segments_of(platform, name, prefix)[0].len() == 0);
        assert(names[0].len() > 0);
        if segments_of(platform, name, prefix) == names.push(Seq::empty()) {
            assert(names.push(Seq::<char>::empty()).len() >= 2);
        }
    }
    if segments_of(platform, name, prefix) == names.push(Seq::empty()) {
        assert(names.push(Seq::<char>::empty()).drop_last() == names);
    }
}

/// Nothing is lost, in the simplest form: a file directly under the prefix
/// whose name the platform reads as one plain name is extracted under that
/// name, whatever other characters the name holds.
pub proof fn lemma_single_name_is_kept(platform: Platform, prefix: Seq<char>, file_name: Seq<char>)
    requires
        plain(platform, file_name),
    ensures
        safe_path(platform, prefix + file_name, prefix) == Some(
            RelativePathView { components: seq![file_name], is_dir: false },
        ),
{
    let name = prefix + file_name;
    assert(name.subrange(0, prefix.len() as int) == prefix);
    assert(name.skip(prefix.len() as int) == file_name);
    assert forall|k: int| 0 <= k < file_name.len() implies file_name[k] != '/' && file_name[k]
        != second_separator(platform) by {
        assert(!is_separator(platform, file_name[k]));
    }
    lemma_split_without_separator(file_name, '/', second_separator(platform));
    assert(name.last() == file_name.last());
    assert(!is_separator(platform, file_name[file_name.len() - 1]));
    lemma_ordinary_entry_is_kept(platform, name, prefix, seq![file_name]);
}

/// Whether `text` starts with `prefix`.
fn starts_with(text: &Vec<char>, prefix: &Vec<char>) -> (yes: bool)
    ensures
        yes == prefix@.is_prefix_of(text@),
{
    if prefix.len() > text.len() {
        return false;
    }
    let mut i: usize = 0;
    while i < prefix.len()
        invariant
            i <= prefix.len() <= text.len(),
            forall|k: int| 0 <= k < i ==> text@[k] == prefix@[k],
        decreases prefix.len() - i,
    {
        if text[i] != prefix[i] {
            assert(text@.subrange(0, prefix@.len() as int)[i as int] != prefix@[i as int]);
            return false;
        }
        i += 1;
    }
    assert(text@.subrange(0, prefix@.len() as int) =~= prefix@);
    true
}

/// Whether a segment is passed over.
fn is_skippable(segment: &Vec<char>) -> (yes: bool)
    ensures
        yes == skippable(segment@),
{
    segment.len() == 0 || (segment.len() == 1 && segment[0] == '.')
}

/// Whether a segment is `..`.
fn is_parent(segment: &Vec<char>) -> (yes: bool)
    ensures
        yes == is_parent_dir(segment@),
{
    segment.len() == 2 && segment[0] == '.' && segment[1] == '.'
}

/// Whether a segment starts anew at a drive; see [`drive_form`].
fn is_drive_form(platform: Platform, segment: &Vec<char>) -> (yes: bool)
    ensures
        yes == drive_form(platform, segment@),
{
    match platform {
        Platform::Windows => {
            if segment.len() < 2 {
                return false;
            }
            let letter: char = segment[0];
            let is_letter = ('a' <= letter && letter <= 'z') || ('A' <= letter && letter <= 'Z');
            is_letter && segment[1] == ':'
        },
        _ => false,
    }
}

/// The separator that `platform` reads besides `/`; see
/// [`second_separator`].
fn other_separator(platform: Platform) -> (sep: char)
    ensures
        sep == second_separator(platform),
{
    match platform {
        Platform::Windows => '\\',
        _ => '/',
    }
}

/// Decides whether the archive entry `entry_name` is extracted on
/// `platform` and, if so, where below the addon's directory. Entries
/// outside `prefix`, the wrapping directory itself, entries that would
/// leave the addon's directory and entries that name nothing in it give
/// `None`; every other entry is placed at the names that follow the prefix,
/// with `.` and empty segments passed over and `..` taken back.
pub fn relative_safe_path(entry_name: &str, prefix: &str, platform: Platform) -> (path: Option<
    RelativePath,
>)
    ensures
        path matches Some(p) ==> safe_path(platform, entry_name@, prefix@) == Some(p@),
        path is None ==> safe_path(platform, entry_name@, prefix@) is None,
{
    let name = chars_of(entry_name);
    let lead = chars_of(prefix);
    if !starts_with(&name, &lead) {
        return None;
    }
    if name.len() == lead.len() {
        return None;
    }
    let rest = entry_name.substring_char(lead.len(), name.len());
    assert(rest@ == entry_name@.skip(prefix@.len() as int));
    let segments = split_on_either(rest, '/', other_separator(platform));
    let ghost all = views(segments@);
    let mut components: Vec<String> = Vec::new();
    let mut j: usize = 0;
    assert(all.take(0) == Seq::<Seq<char>>::empty());
    while j < segments.len()
        invariant
            j <= segments.len(),
            all == views(segments@),
            all == segments_of(platform, entry_name@, prefix@),
            prefix@.is_prefix_of(entry_name@),
            entry_name@.len() != prefix@.len(),
            walk(platform, all.take(j as int)) == Some(views(components@)),
        decreases segments.len() - j,
    {
        let segment = chars_of(segments[j].as_str());
        let ghost old_components = components@;
        proof {
            assert(all.take(j + 1).drop_last() == all.take(j as int));
            assert(all.take(j + 1).last() == all[j as int]);
            assert(segment@ == all[j as int]);
        }
        if is_skippable(&segment) {
        } else if is_parent(&segment) {
            if components.len() == 0 {
                proof {
                    lemma_walk_failure_is_final(platform, all, j + 1);
                }
                return None;
            }
            components.pop();
            assert(views(components@) == views(old_components).drop_last());
        } else if is_drive_form(platform, &segment) {
            proof {
                lemma_walk_failure_is_final(platform, all, j + 1);
            }
            return None;
        } else {
            let component = segments[j].clone();
            components.push(component);
            assert(views(components@) == views(old_components).push(component@));
        }
        j += 1;
    }
    assert(all.take(segments.len() as int) == all);
    if components.len() == 0 {
        return None;
    }
    let is_dir = name[name.len() - 1] == '/';
    Some(RelativePath { components, is_dir })
}

} // verus!
