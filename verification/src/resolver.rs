//! What the screen shows, as functions of the session's state: the lists
//! of the active tab and the detail of the current selection. Every render
//! derives both afresh from one snapshot of the state.

use vstd::prelude::*;

use crate::config::{AiConfig, CommitConfig};
use crate::diff::{
    lemma_paths_where_nonempty, lemma_paths_where_source, lemma_position_is, lemma_position_of,
    paths_where, position_of, unique_paths, DiffEntry,
};
use crate::response::{commit_messages, prefix_lines, CommitSuggestion, Response};
use crate::tabs::{SelectedTab, TabContentView, TabListView};

verus! {

/// The suggestions of a stored successful reply.
pub open spec fn commits_of(response: Option<Response>) -> Option<Seq<CommitSuggestion>> {
    match response {
        Some(reply) => match reply.result {
            Ok(schema) => Some(schema.commits@),
            Err(_) => None,
        },
        None => None,
    }
}

/// The model configured for the active provider; empty where the provider
/// is not registered.
pub open spec fn model_name(ai: AiConfig) -> Seq<char> {
    match ai.active() {
        Some(settings) => settings.model@,
        None => Seq::empty(),
    }
}

/// The line shown while a request is outstanding.
pub open spec fn waiting_text(ai: AiConfig) -> Seq<char> {
    "Awaiting response from "@ + ai.provider.label() + " using "@ + model_name(ai)
}

/// The line shown before any request has been sent.
pub open spec fn prompt_text(ai: AiConfig) -> Seq<char> {
    "Press 'p' to send a request to "@ + model_name(ai)
}

/// The lists of a tab.
///
/// On the diffs tab the main list holds the paths of the files that are not
/// truncated and the second list, present only where it is not empty, those
/// of the truncated ones. On the commits tab the main list holds the prefix
/// line of each suggestion of a successful reply; without such a reply the
/// list and its title are empty.
pub open spec fn list_for(
    tab: SelectedTab,
    files: Seq<DiffEntry>,
    response: Option<Response>,
    commit_cfg: CommitConfig,
) -> TabListView {
    match tab {
        SelectedTab::Diffs => {
            let truncated = paths_where(files, true);
            TabListView {
                main: paths_where(files, false),
                secondary: if truncated.len() > 0 {
                    Some(truncated)
                } else {
                    None
                },
                main_title: "Files"@,
                secondary_title: if truncated.len() > 0 {
                    Some("Truncated"@)
                } else {
                    None
                },
            }
        },
        SelectedTab::Commits => match commits_of(response) {
            Some(commits) => TabListView {
                main: prefix_lines(
                    commits,
                    commit_cfg.capitalize_prefix,
                    commit_cfg.include_scope,
                ),
                secondary: None,
                main_title: "Commits"@,
                secondary_title: None,
            },
            None => TabListView {
                main: Seq::empty(),
                secondary: None,
                main_title: Seq::empty(),
                secondary_title: None,
            },
        },
    }
}

/// The cursor points into a list of the given length.
pub open spec fn in_range(cursor: Option<usize>, len: nat) -> bool {
    cursor matches Some(i) && i < len
}

/// The detail of the current selection.
///
/// On the diffs tab the cursor is read against the list of paths that are
/// not truncated, and the file is then looked up by that path. On the
/// commits tab a failure is shown whatever the cursor is.
pub open spec fn content_for(
    tab: SelectedTab,
    files: Seq<DiffEntry>,
    response: Option<Response>,
    cursor: Option<usize>,
    is_loading: bool,
    ai: AiConfig,
) -> TabContentView {
    match tab {
        SelectedTab::Diffs => {
            let shown = paths_where(files, false);
            if in_range(cursor, shown.len()) {
                let entry = files[position_of(files, shown[cursor.unwrap() as int])];
                if entry.should_truncate {
                    TabContentView::Description("Truncated File"@)
                } else {
                    TabContentView::Diff(entry.hunks@)
                }
            } else {
                TabContentView::Description("Select a file to view its diffs"@)
            }
        },
        SelectedTab::Commits => match response {
            Some(reply) => match reply.result {
                Err(message) => TabContentView::Description(message@),
                Ok(schema) => if in_range(cursor, schema.commits@.len()) {
                    TabContentView::Response(schema.commits@[cursor.unwrap() as int])
                } else {
                    TabContentView::Description("Select a Commit to View"@)
                },
            },
            None => if is_loading {
                TabContentView::Description(waiting_text(ai))
            } else {
                TabContentView::Description(prompt_text(ai))
            },
        },
    }
}

/// The index in `files` of the entry that a removal at the cursor deletes:
/// the first entry with the path that the cursor selects in the list of
/// paths that are not truncated. `None` off the diffs tab and where the
/// cursor selects nothing.
pub open spec fn removal_target(
    tab: SelectedTab,
    files: Seq<DiffEntry>,
    cursor: Option<usize>,
) -> Option<int> {
    let shown = paths_where(files, false);
    if tab == SelectedTab::Diffs && in_range(cursor, shown.len()) {
        Some(position_of(files, shown[cursor.unwrap() as int]))
    } else {
        None
    }
}

/// The files after a removal at the cursor.
pub open spec fn after_remove(
    tab: SelectedTab,
    files: Seq<DiffEntry>,
    cursor: Option<usize>,
) -> Seq<DiffEntry> {
    match removal_target(tab, files, cursor) {
        Some(p) => files.remove(p),
        None => files,
    }
}

/// `entry` with its truncation flag flipped.
pub open spec fn flipped(entry: DiffEntry) -> DiffEntry {
    DiffEntry { should_truncate: !entry.should_truncate, ..entry }
}

/// The files after the truncation flag is toggled at the cursor. The
/// cursor is taken as an index into `files` itself, not into the list of
/// paths that are shown.
pub open spec fn after_toggle(
    tab: SelectedTab,
    files: Seq<DiffEntry>,
    cursor: Option<usize>,
) -> Seq<DiffEntry> {
    if tab == SelectedTab::Diffs && in_range(cursor, files.len()) {
        let i = cursor.unwrap() as int;
        files.update(i, flipped(files[i]))
    } else {
        files
    }
}

/// The messages of the commits that applying makes: those of the
/// suggestions of a successful reply, in order, off the diffs tab.
pub open spec fn batch_for(
    tab: SelectedTab,
    response: Option<Response>,
    capitalize_prefix: bool,
    include_scope: bool,
) -> Option<Seq<Seq<char>>> {
    match commits_of(response) {
        Some(commits) if tab != SelectedTab::Diffs => Some(
            commit_messages(commits, capitalize_prefix, include_scope),
        ),
        _ => None,
    }
}

/// A path that the cursor selects on the diffs tab is the path of a file
/// in the set, so the lookup by path finds an entry.
pub proof fn lemma_shown_path_found(files: Seq<DiffEntry>, i: int)
    requires
        0 <= i < paths_where(files, false).len(),
    ensures
        0 <= position_of(files, paths_where(files, false)[i]) < files.len(),
        files[position_of(files, paths_where(files, false)[i])].path@ == paths_where(
            files,
            false,
        )[i],
{
    let path = paths_where(files, false)[i];
    lemma_paths_where_source(files, false, i);
    lemma_position_of(files, path);
}

/// Where no two files share a path, deleting the file that position `i` of
/// the shown list selects takes exactly that position out of the shown
/// list and leaves the list of truncated paths as it was.
pub proof fn lemma_remove_shown(files: Seq<DiffEntry>, i: int)
    requires
        unique_paths(files),
        0 <= i < paths_where(files, false).len(),
    ensures
        paths_where(files.remove(position_of(files, paths_where(files, false)[i])), false)
            == paths_where(files, false).remove(i),
        paths_where(files.remove(position_of(files, paths_where(files, false)[i])), true)
            == paths_where(files, true),
    decreases files.len(),
{
    let shown = paths_where(files, false);
    let path = shown[i];
    lemma_shown_path_found(files, i);
    lemma_position_of(files, path);
    let p = position_of(files, path);
    let n = files.len() as int;
    let init = files.drop_last();
    let last = files.last();
    let shown_init = paths_where(init, false);
    assert(unique_paths(init)) by {
        assert forall|a: int, b: int| 0 <= a < b < init.len() implies (#[trigger] init[a]).path@
            != (#[trigger] init[b]).path@ by {
            assert(init[a] == files[a]);
            assert(init[b] == files[b]);
        }
    }
    if i < shown_init.len() {
        lemma_paths_where_source(init, false, i);
        let k = choose|k: int|
            0 <= k < init.len() && (#[trigger] init[k]).should_truncate == false && init[k].path@
                == shown_init[i];
        assert(files[k] == init[k]);
        assert(shown_init[i] == path);
        assert(k == p) by {
            if k != p {
                assert(files[k].path@ == files[p].path@);
            }
        }
        assert(init[p] == files[p]);
        assert forall|j: int| 0 <= j < p implies (#[trigger] init[j]).path@ != path by {
            assert(init[j] == files[j]);
        }
        lemma_position_is(init, path, p);
        lemma_remove_shown(init, i);
        let after = files.remove(p);
        assert(after.drop_last() =~= init.remove(p));
        assert(after.last() == last);
        assert(paths_where(after, false) =~= shown.remove(i));
        assert(paths_where(after, true) =~= paths_where(files, true));
    } else {
        assert(!last.should_truncate);
        assert(path == last.path@);
        assert(p == n - 1) by {
            if p != n - 1 {
                assert(files[p].path@ == files[n - 1].path@);
            }
        }
        assert(files.remove(p) =~= init);
        assert(shown.remove(i) =~= shown_init);
    }
}

/// Where no two files share a path, the detail on the diffs tab for a
/// cursor inside the shown list is the hunks of a file that is not
/// truncated and whose path is the list's item at the cursor.
pub proof fn law_detail_matches_list(
    files: Seq<DiffEntry>,
    response: Option<Response>,
    cursor: Option<usize>,
    is_loading: bool,
    ai: AiConfig,
    commit_cfg: CommitConfig,
)
    requires
        unique_paths(files),
        in_range(cursor, list_for(SelectedTab::Diffs, files, response, commit_cfg).main.len()),
    ensures
        exists|p: int|
            0 <= p < files.len() && !(#[trigger] files[p]).should_truncate && files[p].path@
                == list_for(SelectedTab::Diffs, files, response, commit_cfg).main[cursor.unwrap() as int]
                && content_for(SelectedTab::Diffs, files, response, cursor, is_loading, ai)
                == TabContentView::Diff(files[p].hunks@),
{
    law_remove_selected(files, cursor);
    let p = removal_target(SelectedTab::Diffs, files, cursor).unwrap();
    assert(!files[p].should_truncate);
}

/// On the diffs tab the main list is the paths of the files that are not
/// truncated, in their order in the set, and the second list is present
/// exactly where some file is truncated; it then holds the truncated
/// files' paths under the title "Truncated".
pub proof fn law_diffs_list(
    files: Seq<DiffEntry>,
    response: Option<Response>,
    commit_cfg: CommitConfig,
)
    ensures
        list_for(SelectedTab::Diffs, files, response, commit_cfg).main == paths_where(
            files,
            false,
        ),
        list_for(SelectedTab::Diffs, files, response, commit_cfg).secondary is Some <==> exists|
            k: int,
        |
            0 <= k < files.len() && (#[trigger] files[k]).should_truncate,
        list_for(SelectedTab::Diffs, files, response, commit_cfg).secondary matches Some(list)
            ==> list == paths_where(files, true) && list_for(
            SelectedTab::Diffs,
            files,
            response,
            commit_cfg,
        ).secondary_title == Some("Truncated"@),
{
    if paths_where(files, true).len() > 0 {
        lemma_paths_where_source(files, true, 0);
    }
    if exists|k: int| 0 <= k < files.len() && (#[trigger] files[k]).should_truncate {
        let k = choose|k: int| 0 <= k < files.len() && (#[trigger] files[k]).should_truncate;
        lemma_paths_where_nonempty(files, true, k);
    }
}

/// Where no two files share a path, a removal on the diffs tab with the
/// cursor inside the list of shown paths deletes exactly one file: the one
/// that is not truncated and has the selected path. The set gets shorter
/// by one and every other file stays, in order. With no cursor, or one
/// outside that list, nothing is removed.
pub proof fn law_remove_selected(files: Seq<DiffEntry>, cursor: Option<usize>)
    requires
        unique_paths(files),
    ensures
        !in_range(cursor, paths_where(files, false).len()) ==> after_remove(
            SelectedTab::Diffs,
            files,
            cursor,
        ) == files,
        in_range(cursor, paths_where(files, false).len()) ==> {
            let p = removal_target(SelectedTab::Diffs, files, cursor).unwrap();
            let after = after_remove(SelectedTab::Diffs, files, cursor);
            &&& 0 <= p < files.len()
            &&& !files[p].should_truncate
            &&& files[p].path@ == paths_where(files, false)[cursor.unwrap() as int]
            &&& after.len() == files.len() - 1
            &&& paths_where(after, false) == paths_where(files, false).remove(
                cursor.unwrap() as int,
            )
            &&& paths_where(after, true) == paths_where(files, true)
            &&& forall|j: int| 0 <= j < p ==> after[j] == files[j]
            &&& forall|j: int| p <= j < after.len() ==> after[j] == files[j + 1]
            &&& forall|j: int| 0 <= j < after.len() ==> (#[trigger] after[j]).path@ != files[p].path@
        },
{
    if in_range(cursor, paths_where(files, false).len()) {
        let i = cursor.unwrap() as int;
        let path = paths_where(files, false)[i];
        lemma_paths_where_source(files, false, i);
        lemma_position_of(files, path);
        let p = position_of(files, path);
        let k = choose|k: int|
            0 <= k < files.len() && (#[trigger] files[k]).should_truncate == false
                && files[k].path@ == path;
        assert(k == p) by {
            if k != p {
                assert(files[k].path@ == files[p].path@);
            }
        }
        lemma_remove_shown(files, i);
        let after = files.remove(p);
        assert forall|j: int| 0 <= j < after.len() implies (#[trigger] after[j]).path@
            != files[p].path@ by {
            if j < p {
                assert(after[j] == files[j]);
            } else {
                assert(after[j] == files[j + 1]);
            }
        }
    }
}

/// Removing at the cursor keeps the paths of the set distinct.
pub proof fn lemma_remove_keeps_unique(tab: SelectedTab, files: Seq<DiffEntry>, cursor: Option<usize>)
    requires
        unique_paths(files),
    ensures
        unique_paths(after_remove(tab, files, cursor)),
{
    match removal_target(tab, files, cursor) {
        Some(p) => {
            lemma_shown_path_found(files, cursor.unwrap() as int);
            let after = files.remove(p);
            assert forall|i: int, j: int| 0 <= i < j < after.len() implies (#[trigger] after[i]).path@
                != (#[trigger] after[j]).path@ by {
                let si = if i < p { i } else { i + 1 };
                let sj = if j < p { j } else { j + 1 };
                assert(after[i] == files[si]);
                assert(after[j] == files[sj]);
            }
        },
        None => {},
    }
}

/// Toggling at the cursor keeps the paths of the set distinct.
pub proof fn lemma_toggle_keeps_unique(tab: SelectedTab, files: Seq<DiffEntry>, cursor: Option<usize>)
    requires
        unique_paths(files),
    ensures
        unique_paths(after_toggle(tab, files, cursor)),
{
    let after = after_toggle(tab, files, cursor);
    assert forall|i: int, j: int| 0 <= i < j < after.len() implies (#[trigger] after[i]).path@
        != (#[trigger] after[j]).path@ by {
        assert(after[i].path@ == files[i].path@);
        assert(after[j].path@ == files[j].path@);
    }
}

/// On the commits tab a stored failure is shown as it is, whatever the
/// cursor, the files, the busy flag and the configuration are.
pub proof fn law_failure_shown(
    files: Seq<DiffEntry>,
    response: Response,
    cursor: Option<usize>,
    is_loading: bool,
    ai: AiConfig,
)
    requires
        response.result is Err,
    ensures
        content_for(SelectedTab::Commits, files, Some(response), cursor, is_loading, ai)
            == TabContentView::Description(response.result->Err_0@),
{
}

} // verus!
