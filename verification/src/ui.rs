//! Widget state owned by the session: the active tab, the list cursor and
//! the busy indicator. The cursor and the indicator are the widget
//! libraries' own state types; what they hold is named here and every
//! access goes through one of the small functions below.

use ratatui::widgets::ListState;
use throbber_widgets_tui::ThrobberState;
use vstd::prelude::*;

use crate::tabs::SelectedTab;

verus! {

#[verifier::external_type_specification]
#[verifier::external_body]
pub struct ExListState(ratatui::widgets::ListState);

#[verifier::external_type_specification]
#[verifier::external_body]
pub struct ExThrobberState(throbber_widgets_tui::ThrobberState);

/// The index that a `ListState` holds as selected, if any.
pub uninterp spec fn list_selected(state: ListState) -> Option<usize>;

/// The animation index that a `ThrobberState` holds.
pub uninterp spec fn throbber_index(state: ThrobberState) -> i8;

/// `ListState::default`: believed to hold no selection.
#[verifier::external_body]
pub(crate) fn new_list_state() -> (state: ListState)
    ensures
        list_selected(state) == None::<usize>,
{
    ListState::default()
}

/// `ListState::selected`: believed to return the held selection.
#[verifier::external_body]
pub(crate) fn selected(state: &ListState) -> (index: Option<usize>)
    ensures
        index == list_selected(*state),
{
    state.selected()
}

/// `ListState::select`: believed to make `index` the held selection.
#[verifier::external_body]
pub(crate) fn select(state: &mut ListState, index: Option<usize>)
    ensures
        list_selected(*final(state)) == index,
{
    state.select(index)
}

/// `ThrobberState::default`: believed to start at index 0.
#[verifier::external_body]
pub(crate) fn new_throbber_state() -> (state: ThrobberState)
    ensures
        throbber_index(state) == 0,
{
    ThrobberState::default()
}

/// `ThrobberState::calc_next`: believed to add one to the index, and to
/// restart from 0 where the addition would overflow.
#[verifier::external_body]
pub(crate) fn calc_next(state: &mut ThrobberState)
    ensures
        throbber_index(*final(state)) == if throbber_index(*old(state)) == i8::MAX {
            0i8
        } else {
            (throbber_index(*old(state)) + 1) as i8
        },
{
    state.calc_next()
}

/// Tab, cursor and busy indicator.
pub struct UI {
    pub selected_tab: SelectedTab,
    pub selected_state: ListState,
    pub throbber_state: ThrobberState,
}

impl UI {
    /// The cursor: the selected index in the visible list, if any.
    pub open spec fn cursor(&self) -> Option<usize> {
        list_selected(self.selected_state)
    }

    /// The frame of the busy indicator's animation.
    pub open spec fn spinner(&self) -> i8 {
        throbber_index(self.throbber_state)
    }

    /// Starts on the diffs tab with nothing selected.
    pub fn new() -> (ui: UI)
        ensures
            ui.selected_tab == SelectedTab::Diffs,
            ui.cursor() == None::<usize>,
            ui.spinner() == 0,
    {
        UI {
            selected_tab: SelectedTab::Diffs,
            selected_state: new_list_state(),
            throbber_state: new_throbber_state(),
        }
    }
}

} // verus!
