//! Turning the entries of a directory walk into the list of files to work on.
use vstd::prelude::*;
use crate::paths::{file_name_is, has_file_name};

verus! {

/// One item that a recursive directory walk yielded, in the walk's order.
pub enum WalkEntry {
    /// An entry that could be read: its path, and whether it is a regular file.
    Found { path: String, is_file: bool },
    /// An entry that could not be read, at this depth below the root (0 is the
    /// root itself).
    Unreadable { depth: usize },
}

/// Why no file list could be produced.
#[derive(Debug, PartialEq, Eq, Structural)]
pub enum WalkError {
    /// The root directory itself could not be opened.
    RootUnreadable,
}

/// The files to work on, and how many unreadable entries were passed over.
pub struct Selection {
    pub files: Vec<String>,
    pub skipped: usize,
}

/// The entry is a regular file that is neither the running program nor the helper.
pub open spec fn is_task_entry(e: WalkEntry, self_name: Seq<char>, helper_name: Seq<char>) -> bool {
    match e {
        WalkEntry::Found { path, is_file } => is_file && !has_file_name(path@, self_name)
            && !has_file_name(path@, helper_name),
        WalkEntry::Unreadable { .. } => false,
    }
}

pub open spec fn entry_path(e: WalkEntry) -> Seq<char> {
    match e {
        WalkEntry::Found { path, .. } => path@,
        WalkEntry::Unreadable { .. } => Seq::empty(),
    }
}

/// The paths of the task entries of `es`, in order.
pub open spec fn selected(es: Seq<WalkEntry>, self_name: Seq<char>, helper_name: Seq<char>) -> Seq<Seq<char>>
    decreases es.len(),
{
    if es.len() == 0 {
        Seq::empty()
    } else {
        let rest = selected(es.drop_last(), self_name, helper_name);
        if is_task_entry(es.last(), self_name, helper_name) {
            rest.push(entry_path(es.last()))
        } else {
            rest
        }
    }
}

/// The number of unreadable entries of `es`.
pub open spec fn unreadable_count(es: Seq<WalkEntry>) -> nat
    decreases es.len(),
{
    if es.len() == 0 {
        0
    } else {
        unreadable_count(es.drop_last()) + if es.last() is Unreadable { 1nat } else { 0nat }
    }
}

pub open spec fn is_root_failure(e: WalkEntry) -> bool {
    match e {
        WalkEntry::Unreadable { depth } => depth == 0,
        WalkEntry::Found { .. } => false,
    }
}

/// Some entry of `es` reports the root itself as unreadable.
pub open spec fn root_unreadable(es: Seq<WalkEntry>) -> bool {
    exists|i: int| 0 <= i < es.len() && is_root_failure(#[trigger] es[i])
}

pub open spec fn views(v: Seq<String>) -> Seq<Seq<char>> {
    v.map_values(|s: String| s@)
}

/// The files that a walk yielding `entries` has to work on: every regular file,
/// in walk order, except those named `self_name` or `helper_name`. Fails when
/// the root could not be opened; other unreadable entries are counted and
/// passed over.
pub fn select_tasks(entries: &Vec<WalkEntry>, self_name: &str, helper_name: &str) -> (r: Result<
    Selection,
    WalkError,
>)
    ensures
        r is Err <==> root_unreadable(entries@),
        r matches Ok(sel) ==> views(sel.files@) == selected(entries@, self_name@, helper_name@)
            && sel.skipped == unreadable_count(entries@),
{
    let mut files: Vec<String> = Vec::new();
    let mut skipped: usize = 0;
    let mut i: usize = 0;
    while i < entries.len()
        invariant
            i <= entries@.len(),
            views(files@) == selected(entries@.take(i as int), self_name@, helper_name@),
            skipped == unreadable_count(entries@.take(i as int)),
            skipped <= i,
            forall|j: int| 0 <= j < i ==> !is_root_failure(#[trigger] entries@[j]),
        decreases entries@.len() - i,
    {
        let ghost before = files@;
        assert(entries@.take(i + 1).drop_last() =~= entries@.take(i as int));
        match &entries[i] {
            WalkEntry::Found { path, is_file } => {
                if *is_file && !file_name_is(path.as_str(), self_name) && !file_name_is(
                    path.as_str(),
                    helper_name,
                ) {
                    files.push(path.clone());
                    assert(views(files@) =~= views(before).push(path@));
                }
            },
            WalkEntry::Unreadable { depth } => {
                if *depth == 0 {
                    return Err(WalkError::RootUnreadable);
                }
                skipped = skipped + 1;
            },
        }
        i = i + 1;
    }
    assert(entries@.take(i as int) =~= entries@);
    Ok(Selection { files, skipped })
}

/// Every path in the selection is a regular file that the walk found, and none
/// is named like the running program or the helper, whatever its depth.
pub proof fn lemma_selection_excludes_program_and_helper(
    es: Seq<WalkEntry>,
    self_name: Seq<char>,
    helper_name: Seq<char>,
)
    ensures
        forall|k: int|
            0 <= k < selected(es, self_name, helper_name).len() ==> {
                let p = #[trigger] selected(es, self_name, helper_name)[k];
                &&& !has_file_name(p, self_name)
                &&& !has_file_name(p, helper_name)
                &&& exists|i: int|
                    0 <= i < es.len() && is_task_entry(es[i], self_name, helper_name)
                        && #[trigger] entry_path(es[i]) == p
            },
    decreases es.len(),
{
    if es.len() > 0 {
        let rest = es.drop_last();
        lemma_selection_excludes_program_and_helper(rest, self_name, helper_name);
        let sel = selected(es, self_name, helper_name);
        assert forall|k: int| 0 <= k < sel.len() implies {
            let p = #[trigger] sel[k];
            &&& !has_file_name(p, self_name)
            &&& !has_file_name(p, helper_name)
            &&& exists|i: int|
                0 <= i < es.len() && is_task_entry(es[i], self_name, helper_name)
                    && #[trigger] entry_path(es[i]) == p
        } by {
            let rsel = selected(rest, self_name, helper_name);
            if k < rsel.len() {
                assert(sel[k] == rsel[k]);
                let i = choose|i: int|
                    0 <= i < rest.len() && is_task_entry(rest[i], self_name, helper_name)
                        && #[trigger] entry_path(rest[i]) == rsel[k];
                assert(es[i] == rest[i]);
            } else {
                assert(es[es.len() - 1] == es.last());
            }
        }
    }
}

} // verus!
