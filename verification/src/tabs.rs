//! What a tab shows: a list on the left, one detail on the right.

use vstd::prelude::*;

use crate::diff::Hunk;
use crate::response::CommitSuggestion;

verus! {

/// Which tab is in front.
#[derive(Clone, Copy, Debug, PartialEq, Eq)]
pub enum SelectedTab {
    Diffs,
    Commits,
}

/// The characters of each string, in order.
pub open spec fn strings_view(strings: Seq<String>) -> Seq<Seq<char>> {
    Seq::new(strings.len(), |i: int| strings[i]@)
}

/// The lists of a tab: the main one with its title and, where there is
/// one, a second list with its own title.
#[derive(Clone, Debug, PartialEq, Eq)]
pub struct TabList {
    pub main: Vec<String>,
    pub secondary: Option<Vec<String>>,
    pub main_title: String,
    pub secondary_title: Option<String>,
}

/// A `TabList` as plain sequences of characters.
pub ghost struct TabListView {
    pub main: Seq<Seq<char>>,
    pub secondary: Option<Seq<Seq<char>>>,
    pub main_title: Seq<char>,
    pub secondary_title: Option<Seq<char>>,
}

impl View for TabList {
    type V = TabListView;

    open spec fn view(&self) -> TabListView {
        TabListView {
            main: strings_view(self.main@),
            secondary: match self.secondary {
                Some(list) => Some(strings_view(list@)),
                None => None,
            },
            main_title: self.main_title@,
            secondary_title: match self.secondary_title {
                Some(title) => Some(title@),
                None => None,
            },
        }
    }
}

/// The detail of the current selection.
#[derive(Clone, Debug, PartialEq, Eq)]
pub enum TabContent {
    /// The hunks of the selected file.
    Diff(Vec<Hunk>),
    /// The selected suggestion.
    Response(CommitSuggestion),
    /// A line of text in place of either.
    Description(String),
}

/// A `TabContent` with its hunks as a sequence and its text as characters.
pub ghost enum TabContentView {
    Diff(Seq<Hunk>),
    Response(CommitSuggestion),
    Description(Seq<char>),
}

impl View for TabContent {
    type V = TabContentView;

    open spec fn view(&self) -> TabContentView {
        match *self {
            TabContent::Diff(hunks) => TabContentView::Diff(hunks@),
            TabContent::Response(commit) => TabContentView::Response(commit),
            TabContent::Description(text) => TabContentView::Description(text@),
        }
    }
}

} // verus!
