//! The two sweeps over a whole site: deleting everything that is listed and
//! uploading everything under a local directory. Each is a sequence of
//! single requests; this module decides which.

use vstd::prelude::*;
use vstd::string::StringExecFns;
use crate::listing::{listing_view, ListEntry, ListEntryView};
use crate::text::{replace_char, replaced, same_text, texts_view};

verus! {

/// The file that a sweep leaves in place: the service refuses to remove a
/// site's front page.
pub const KEPT_FILE: &'static str = "index.html";

/// The path of a file that a sweep deletes: that of any file but the front
/// page at the top of the site.
pub open spec fn swept_file(entry: ListEntryView) -> Option<Seq<char>> {
    match entry {
        ListEntryView::File { path, .. } => if path == KEPT_FILE@ {
            None
        } else {
            Some(path)
        },
        ListEntryView::Directory { .. } => None,
    }
}

/// The path of a directory that a sweep deletes: that of any directory.
pub open spec fn swept_directory(entry: ListEntryView) -> Option<Seq<char>> {
    match entry {
        ListEntryView::File { .. } => None,
        ListEntryView::Directory { path, .. } => Some(path),
    }
}

/// The paths of the files that a sweep over `listing` deletes, in the order
/// of the listing.
pub open spec fn swept_files(listing: Seq<ListEntryView>) -> Seq<Seq<char>> {
    listing.filter_map(|entry: ListEntryView| swept_file(entry))
}

/// The paths of the directories that a sweep over `listing` deletes, in the
/// order of the listing.
pub open spec fn swept_directories(listing: Seq<ListEntryView>) -> Seq<Seq<char>> {
    listing.filter_map(|entry: ListEntryView| swept_directory(entry))
}

/// The paths that a sweep over `listing` deletes, one request each and in
/// this order: first the files, then the directories.
pub open spec fn deletions(listing: Seq<ListEntryView>) -> Seq<Seq<char>> {
    swept_files(listing) + swept_directories(listing)
}

/// The path under which a sweep deletes `entry` as a file, if it does.
fn file_to_delete(entry: &ListEntry) -> (path: Option<String>)
    ensures
        path is Some <==> swept_file(entry@) is Some,
        path matches Some(p) ==> swept_file(entry@) == Some(p@),
{
    match entry {
        ListEntry::File { path, .. } => {
            if same_text(path.as_str(), KEPT_FILE) {
                None
            } else {
                Some(path.clone())
            }
        },
        ListEntry::Directory { .. } => None,
    }
}

/// The path under which a sweep deletes `entry` as a directory, if it does.
fn directory_to_delete(entry: &ListEntry) -> (path: Option<String>)
    ensures
        path is Some <==> swept_directory(entry@) is Some,
        path matches Some(p) ==> swept_directory(entry@) == Some(p@),
{
    match entry {
        ListEntry::File { .. } => None,
        ListEntry::Directory { path, .. } => Some(path.clone()),
    }
}

/// The files that a sweep over `listing` deletes.
pub fn files_to_delete(listing: &[ListEntry]) -> (paths: Vec<String>)
    ensures
        texts_view(paths@) == swept_files(listing_view(listing@)),
{
    let ghost all = listing_view(listing@);
    let ghost pick = |entry: ListEntryView| swept_file(entry);
    let mut paths: Vec<String> = Vec::new();
    let mut i: usize = 0;
    assert(all.take(0).filter_map(pick) =~= Seq::empty());
    assert(texts_view(paths@) =~= Seq::empty());
    while i < listing.len()
        invariant
            i <= listing.len(),
            all == listing_view(listing@),
            pick == |entry: ListEntryView| swept_file(entry),
            texts_view(paths@) == all.take(i as int).filter_map(pick),
        decreases listing.len() - i,
    {
        proof {
            all.lemma_filter_map_take_succ(pick, i as int);
        }
        let ghost before = paths@;
        match file_to_delete(&listing[i]) {
            Some(path) => {
                paths.push(path);
                assert(texts_view(paths@) =~= texts_view(before).push(path@));
            },
            None => {},
        }
        i += 1;
    }
    assert(all.take(i as int) =~= all);
    paths
}

/// The directories that a sweep over `listing` deletes.
pub fn directories_to_delete(listing: &[ListEntry]) -> (paths: Vec<String>)
    ensures
        texts_view(paths@) == swept_directories(listing_view(listing@)),
{
    let ghost all = listing_view(listing@);
    let ghost pick = |entry: ListEntryView| swept_directory(entry);
    let mut paths: Vec<String> = Vec::new();
    let mut i: usize = 0;
    assert(all.take(0).filter_map(pick) =~= Seq::empty());
    assert(texts_view(paths@) =~= Seq::empty());
    while i < listing.len()
        invariant
            i <= listing.len(),
            all == listing_view(listing@),
            pick == |entry: ListEntryView| swept_directory(entry),
            texts_view(paths@) == all.take(i as int).filter_map(pick),
        decreases listing.len() - i,
    {
        proof {
            all.lemma_filter_map_take_succ(pick, i as int);
        }
        let ghost before = paths@;
        match directory_to_delete(&listing[i]) {
            Some(path) => {
                paths.push(path);
                assert(texts_view(paths@) =~= texts_view(before).push(path@));
            },
            None => {},
        }
        i += 1;
    }
    assert(all.take(i as int) =~= all);
    paths
}

/// The paths that a sweep over `listing` deletes, one request each and in
/// this order. The plan is fixed by the listing: no request's outcome
/// changes which requests follow.
pub fn delete_all_plan(listing: &[ListEntry]) -> (paths: Vec<String>)
    ensures
        texts_view(paths@) == deletions(listing_view(listing@)),
{
    let mut paths = files_to_delete(listing);
    let mut directories = directories_to_delete(listing);
    let ghost files = paths@;
    let ghost rest = directories@;
    paths.append(&mut directories);
    assert(texts_view(paths@) =~= texts_view(files) + texts_view(rest));
    paths
}

/// A sweep never deletes the front page: none of the files it deletes has
/// the path of `KEPT_FILE`.
pub proof fn lemma_sweep_keeps_front_page(listing: Seq<ListEntryView>)
    ensures
        forall|i: int|
            0 <= i < swept_files(listing).len() ==> (#[trigger] swept_files(listing)[i])
                != KEPT_FILE@,
    decreases listing.len(),
{
    if listing.len() > 0 {
        lemma_sweep_keeps_front_page(listing.drop_last());
        let before = swept_files(listing.drop_last());
        assert(swept_files(listing) == match swept_file(listing.last()) {
            Some(path) => before + seq![path],
            None => before,
        });
    }
}

/// A sweep deletes every directory of the listing: the path of each is
/// among the paths that the sweep deletes, whatever stands around it.
pub proof fn lemma_sweep_takes_every_directory(listing: Seq<ListEntryView>, at: int)
    requires
        0 <= at < listing.len(),
        listing[at] is Directory,
    ensures
        swept_directories(listing).contains(listing[at].path()),
        deletions(listing).contains(listing[at].path()),
    decreases listing.len(),
{
    let found = swept_directories(listing);
    if at == listing.len() - 1 {
        assert(found.last() == listing[at].path());
    } else {
        lemma_sweep_takes_every_directory(listing.drop_last(), at);
        let before = swept_directories(listing.drop_last());
        let k = choose|k: int| 0 <= k < before.len() && before[k] == listing[at].path();
        assert(found[k] == listing[at].path());
    }
    let k = choose|k: int| 0 <= k < found.len() && found[k] == listing[at].path();
    assert(deletions(listing)[swept_files(listing).len() + k] == listing[at].path());
}

/// The steps that the sweeps are made of. Uploading a directory reads
/// what is under it and uploads each file; deleting a site lists it and
/// deletes each entry.
#[derive(Debug, Clone, Copy, PartialEq, Eq, Structural)]
pub enum SweepStep {
    /// Walking the local directory, or reading one file under it.
    Read,
    /// Uploading one file.
    Upload,
    /// Listing the site.
    List,
    /// Deleting one file or directory.
    Delete,
}

/// What a sweep does once a step has failed.
#[derive(Debug, Clone, Copy, PartialEq, Eq, Structural)]
pub enum AfterFailure {
    /// The sweep ends with the failure; nothing further is tried.
    Stop,
    /// The failure is passed over and the sweep takes its next step.
    GoOn,
}

/// What a sweep does once `step` has failed. Only a deletion that failed
/// is passed over: what it was to remove may be gone already, with a
/// directory deleted before it. Any other failure ends the sweep.
pub open spec fn after_failure_of(step: SweepStep) -> AfterFailure {
    match step {
        SweepStep::Delete => AfterFailure::GoOn,
        SweepStep::Read | SweepStep::Upload | SweepStep::List => AfterFailure::Stop,
    }
}

/// What a sweep does once `step` has failed.
pub fn after_failure(step: SweepStep) -> (next: AfterFailure)
    ensures
        next == after_failure_of(step),
{
    match step {
        SweepStep::Delete => AfterFailure::GoOn,
        SweepStep::Read | SweepStep::Upload | SweepStep::List => AfterFailure::Stop,
    }
}

/// What is said of a file that a sweep could not delete.
pub open spec fn failure_notice_of(path: Seq<char>) -> Seq<char> {
    "Failed to delete `"@ + path + "`"@
}

/// What is said of a file that a sweep could not delete. The sweep goes on
/// all the same; of a directory that stays nothing is said.
pub fn failure_notice(path: &str) -> (notice: String)
    ensures
        notice@ == failure_notice_of(path@),
{
    String::from_str("Failed to delete `").concat(path).concat("`")
}

/// The path on the site of a local path given relative to the root of an
/// upload: the same, with every backslash a slash.
pub open spec fn remote_path_of(relative: Seq<char>) -> Seq<char> {
    replaced(relative, '\\', '/')
}

/// A remote path is as long as the local one, holds no backslash, and is
/// the local path itself where that holds none.
pub proof fn lemma_remote_path_uses_slashes(relative: Seq<char>)
    ensures
        remote_path_of(relative).len() == relative.len(),
        forall|i: int| 0 <= i < relative.len() ==> remote_path_of(relative)[i] != '\\',
        (forall|i: int| 0 <= i < relative.len() ==> relative[i] != '\\') ==> remote_path_of(
            relative,
        ) == relative,
{
    if forall|i: int| 0 <= i < relative.len() ==> relative[i] != '\\' {
        assert(remote_path_of(relative) =~= relative);
    }
}

/// The path on the site of a local path given relative to the root of an
/// upload.
pub fn remote_path(relative: &str) -> (path: String)
    ensures
        path@ == remote_path_of(relative@),
{
    replace_char(relative, '\\', '/')
}

/// Where a sweep uploads what it finds at `relative`: nowhere if it is a
/// directory, to its remote path if it is a file.
pub fn upload_target(relative: &str, is_directory: bool) -> (target: Option<String>)
    ensures
        target is None <==> is_directory,
        target matches Some(path) ==> path@ == remote_path_of(relative@),
{
    if is_directory {
        None
    } else {
        Some(remote_path(relative))
    }
}

} // verus!
