//! The session: the one owner of the files, the stored reply, the cursor
//! and the active tab, with the operations that user input maps to.

use vstd::prelude::*;
use vstd::string::*;

use crate::config::Config;
use crate::diff::{duplicate_hunks, same_entries, DiffSet};
use crate::request::{Dispatch, Request};
use crate::resolver::{
    after_remove, after_toggle, batch_for, content_for, lemma_remove_keeps_unique,
    lemma_shown_path_found, lemma_toggle_keeps_unique, list_for,
};
use crate::response::{messages_view, GaiCommit, Response};
use crate::tabs::{strings_view, SelectedTab, TabContent, TabList};
use crate::ui::{calc_next, select, selected, UI};

verus! {

/// The stage of the session's life.
#[derive(Clone, Copy, Debug, PartialEq, Eq)]
pub enum State {
    Running,
}

/// What a key press can ask for.
#[derive(Clone, Copy, Debug, PartialEq, Eq)]
pub enum Action {
    ScrollUp,
    ScrollDown,
    FocusLeft,
    FocusRight,
    Enter,
    NextTab,
    PreviousTab,
    SendRequest,
    ApplyCommits,
    RemoveCurrentSelected,
    TruncateCurrentSelected,
    Quit,
    DiffTab,
    OpenAITab,
    ClaudeTab,
    GeminiTab,
}

/// What one render pass draws: both derived from the same state.
#[derive(Debug)]
pub struct Screen {
    pub list: TabList,
    pub content: TabContent,
    pub is_loading: bool,
}

/// The session.
pub struct App {
    pub running: bool,
    pub state: State,
    pub cfg: Config,
    pub gai: DiffSet,
    pub ui: UI,
    pub request: Request,
    pub response: Option<Response>,
    pub is_loading: bool,
    pub applied_commits: bool,
}

impl App {
    /// The lists that the session shows now.
    pub open spec fn list(&self) -> crate::tabs::TabListView {
        list_for(self.ui.selected_tab, self.gai.files@, self.response, self.cfg.gai.commit_config)
    }

    /// The detail that the session shows now.
    pub open spec fn content(&self) -> crate::tabs::TabContentView {
        content_for(
            self.ui.selected_tab,
            self.gai.files@,
            self.response,
            self.ui.cursor(),
            self.is_loading,
            self.cfg.ai,
        )
    }

    /// The detail can be derived: it names the active provider's model
    /// only on the commits tab while no reply is stored, and the provider
    /// must then be registered.
    pub open spec fn can_show_content(&self) -> bool {
        self.ui.selected_tab == SelectedTab::Commits && self.response is None
            ==> self.cfg.ai.active() is Some
    }

    /// `dispatch` holds the active provider, its settings as registered,
    /// and the session's files and flags as they are.
    pub open spec fn hands_out(&self, dispatch: Dispatch) -> bool {
        &&& dispatch.provider == self.cfg.ai.provider
        &&& Some(dispatch.provider_cfg) == self.cfg.ai.active()
        &&& same_entries(dispatch.gai.files@, self.gai.files@)
        &&& dispatch.gai.capitalize_prefix == self.gai.capitalize_prefix
        &&& dispatch.gai.include_scope == self.gai.include_scope
    }

    /// A running session on the diffs tab with nothing selected, not busy,
    /// nothing applied.
    pub fn new(request: Request, cfg: Config, gai: DiffSet, response: Option<Response>) -> (app:
        App)
        ensures
            app.running,
            app.state == State::Running,
            app.cfg == cfg,
            app.gai == gai,
            app.request == request,
            app.response == response,
            !app.is_loading,
            !app.applied_commits,
            app.ui.selected_tab == SelectedTab::Diffs,
            app.ui.cursor() == None::<usize>,
            app.ui.spinner() == 0,
    {
        App {
            running: true,
            state: State::Running,
            cfg,
            gai,
            ui: UI::new(),
            request,
            response,
            is_loading: false,
            applied_commits: false,
        }
    }

    /// Derives the lists and the detail from the state as it is, then
    /// selects the first item where the main list is not empty and nothing
    /// is selected. The detail is the one of the cursor before that.
    pub fn run(&mut self) -> (screen: Screen)
        requires
            old(self).can_show_content(),
        ensures
            screen.list@ == old(self).list(),
            screen.content@ == old(self).content(),
            screen.is_loading == old(self).is_loading,
            final(self).ui.cursor() == if old(self).list().main.len() > 0 && old(
                self,
            ).ui.cursor() is None {
                Some(0usize)
            } else {
                old(self).ui.cursor()
            },
            *final(self) == (App {
                ui: UI { selected_state: final(self).ui.selected_state, ..old(self).ui },
                ..*old(self)
            }),
    {
        let list = self.get_list();
        let content = self.get_content();
        if !list.main.is_empty() && selected(&self.ui.selected_state).is_none() {
            select(&mut self.ui.selected_state, Some(0));
        }
        Screen { list, content, is_loading: self.is_loading }
    }

    /// Moves the busy indicator one frame on: the index after the current
    /// one, and 0 after the largest.
    pub fn on_tick(&mut self)
        ensures
            final(self).ui.spinner() == if old(self).ui.spinner() == i8::MAX {
                0i8
            } else {
                (old(self).ui.spinner() + 1) as i8
            },
            *final(self) == (App {
                ui: UI { throbber_state: final(self).ui.throbber_state, ..old(self).ui },
                ..*old(self)
            }),
    {
        calc_next(&mut self.ui.throbber_state);
    }

    /// Starts a request unless one is outstanding.
    ///
    /// While the session is busy nothing changes and nothing is handed
    /// out. Otherwise the session becomes busy and hands out the active
    /// provider, its settings and the files as they are now.
    pub fn send_request(&mut self) -> (dispatch: Option<Dispatch>)
        requires
            !old(self).is_loading ==> old(self).cfg.ai.active() is Some,
        ensures
            old(self).is_loading ==> dispatch is None && *final(self) == *old(self),
            !old(self).is_loading ==> *final(self) == (App { is_loading: true, ..*old(self) }),
            !old(self).is_loading ==> dispatch is Some && old(self).hands_out(dispatch.unwrap()),
    {
        if self.is_loading {
            return None;
        }
        let provider = self.cfg.ai.provider;
        let provider_cfg = self.cfg.ai.providers.get(provider).unwrap().duplicate();
        self.is_loading = true;
        Some(Dispatch { provider, provider_cfg, gai: self.gai.snapshot() })
    }

    /// Stores a reply in place of any earlier one and ends the busy state.
    pub fn display_response(&mut self, resp: Response)
        ensures
            *final(self) == (App { response: Some(resp), is_loading: false, ..*old(self) }),
    {
        self.response = Some(resp);
        self.is_loading = false;
    }

    /// The commits to make from the stored suggestions, in order, under
    /// the repository's two formatting flags. `None` on the diffs tab and
    /// where no successful reply is stored.
    pub fn apply_commits(&self) -> (batch: Option<Vec<GaiCommit>>)
        ensures
            match batch {
                Some(commits) => Some(messages_view(commits@)),
                None => None,
            } == batch_for(
                self.ui.selected_tab,
                self.response,
                self.gai.capitalize_prefix,
                self.gai.include_scope,
            ),
    {
        match self.ui.selected_tab {
            SelectedTab::Diffs => None,
            SelectedTab::Commits => {
                match &self.response {
                    Some(Response { result: Ok(schema) }) => {
                        let mut commits: Vec<GaiCommit> = Vec::new();
                        let mut i: usize = 0;
                        while i < schema.commits.len()
                            invariant
                                i <= schema.commits.len(),
                                commits.len() == i,
                                forall|j: int|
                                    0 <= j < i ==> (#[trigger] commits[j]).message@
                                        == crate::response::commit_message(
                                        schema.commits[j],
                                        self.gai.capitalize_prefix,
                                        self.gai.include_scope,
                                    ),
                            decreases schema.commits.len() - i,
                        {
                            commits.push(
                                GaiCommit::from_response(
                                    &schema.commits[i],
                                    self.gai.capitalize_prefix,
                                    self.gai.include_scope,
                                ),
                            );
                            i += 1;
                        }
                        assert(messages_view(commits@) =~= crate::response::commit_messages(
                            schema.commits@,
                            self.gai.capitalize_prefix,
                            self.gai.include_scope,
                        ));
                        Some(commits)
                    },
                    _ => None,
                }
            },
        }
    }

    /// On the diffs tab, deletes the file that the cursor selects in the
    /// list of shown paths: the first file of the set with that path.
    /// Nothing changes on the other tab, without a cursor, or with one
    /// outside that list. The cursor stays as it is.
    pub fn remove_selected(&mut self)
        ensures
            final(self).gai.files@ == after_remove(
                old(self).ui.selected_tab,
                old(self).gai.files@,
                old(self).ui.cursor(),
            ),
            *final(self) == (App {
                gai: DiffSet { files: final(self).gai.files, ..old(self).gai },
                ..*old(self)
            }),
            old(self).gai.wf() ==> final(self).gai.wf(),
    {
        proof {
            if self.gai.wf() {
                lemma_remove_keeps_unique(
                    self.ui.selected_tab,
                    self.gai.files@,
                    self.ui.cursor(),
                );
            }
        }
        match self.ui.selected_tab {
            SelectedTab::Diffs => {
                let shown = self.gai.paths(false);
                assert(strings_view(shown@).len() == shown.len());
                match selected(&self.ui.selected_state) {
                    Some(i) => {
                        if i < shown.len() {
                            assert(strings_view(shown@)[i as int] == shown[i as int]@);
                            proof {
                                lemma_shown_path_found(self.gai.files@, i as int);
                            }
                            match self.gai.position(&shown[i]) {
                                Some(p) => {
                                    self.gai.files.remove(p);
                                },
                                None => {},
                            }
                        }
                    },
                    None => {},
                }
            },
            SelectedTab::Commits => {},
        }
    }

    /// On the diffs tab, flips the truncation flag of the file whose index
    /// in the set is the cursor. The cursor is not read against the list
    /// of shown paths here. Nothing changes on the other tab, without a
    /// cursor, or with one past the end of the set.
    pub fn truncate_selected(&mut self)
        ensures
            final(self).gai.files@ == after_toggle(
                old(self).ui.selected_tab,
                old(self).gai.files@,
                old(self).ui.cursor(),
            ),
            *final(self) == (App {
                gai: DiffSet { files: final(self).gai.files, ..old(self).gai },
                ..*old(self)
            }),
            old(self).gai.wf() ==> final(self).gai.wf(),
    {
        proof {
            if self.gai.wf() {
                lemma_toggle_keeps_unique(
                    self.ui.selected_tab,
                    self.gai.files@,
                    self.ui.cursor(),
                );
            }
        }
        match self.ui.selected_tab {
            SelectedTab::Diffs => {
                match selected(&self.ui.selected_state) {
                    Some(i) => {
                        if i < self.gai.files.len() {
                            let mut entry = self.gai.files.remove(i);
                            entry.should_truncate = !entry.should_truncate;
                            self.gai.files.insert(i, entry);
                            assert(final(self).gai.files@ =~= after_toggle(
                                old(self).ui.selected_tab,
                                old(self).gai.files@,
                                old(self).ui.cursor(),
                            ));
                        }
                    },
                    None => {},
                }
            },
            SelectedTab::Commits => {},
        }
    }

    /// The lists of the active tab.
    pub fn get_list(&self) -> (list: TabList)
        ensures
            list@ == self.list(),
    {
        match self.ui.selected_tab {
            SelectedTab::Diffs => {
                let main = self.gai.paths(false);
                let truncated = self.gai.paths(true);
                assert(strings_view(truncated@).len() == truncated.len());
                if truncated.is_empty() {
                    TabList {
                        main,
                        secondary: None,
                        main_title: "Files".to_owned(),
                        secondary_title: None,
                    }
                } else {
                    TabList {
                        main,
                        secondary: Some(truncated),
                        main_title: "Files".to_owned(),
                        secondary_title: Some("Truncated".to_owned()),
                    }
                }
            },
            SelectedTab::Commits => {
                match &self.response {
                    Some(Response { result: Ok(schema) }) => {
                        let commit_cfg = self.cfg.gai.commit_config;
                        let mut main: Vec<String> = Vec::new();
                        let mut i: usize = 0;
                        while i < schema.commits.len()
                            invariant
                                i <= schema.commits.len(),
                                main.len() == i,
                                forall|j: int|
                                    0 <= j < i ==> (#[trigger] main[j])@
                                        == crate::response::prefix_line(
                                        schema.commits[j],
                                        commit_cfg.capitalize_prefix,
                                        commit_cfg.include_scope,
                                    ),
                            decreases schema.commits.len() - i,
                        {
                            main.push(
                                schema.commits[i].get_commit_prefix(
                                    commit_cfg.capitalize_prefix,
                                    commit_cfg.include_scope,
                                ),
                            );
                            i += 1;
                        }
                        assert(strings_view(main@) =~= crate::response::prefix_lines(
                            schema.commits@,
                            commit_cfg.capitalize_prefix,
                            commit_cfg.include_scope,
                        ));
                        TabList {
                            main,
                            secondary: None,
                            main_title: "Commits".to_owned(),
                            secondary_title: None,
                        }
                    },
                    _ => {
                        let list = TabList {
                            main: Vec::new(),
                            secondary: None,
                            main_title: String::new(),
                            secondary_title: None,
                        };
                        assert(strings_view(list.main@) =~= Seq::<Seq<char>>::empty());
                        list
                    },
                }
            },
        }
    }

    /// The detail of the current selection.
    pub fn get_content(&self) -> (content: TabContent)
        requires
            self.can_show_content(),
        ensures
            content@ == self.content(),
    {
        match self.ui.selected_tab {
            SelectedTab::Diffs => {
                let shown = self.gai.paths(false);
                assert(strings_view(shown@).len() == shown.len());
                match selected(&self.ui.selected_state) {
                    Some(i) => {
                        if i < shown.len() {
                            assert(strings_view(shown@)[i as int] == shown[i as int]@);
                            proof {
                                lemma_shown_path_found(self.gai.files@, i as int);
                            }
                            match self.gai.position(&shown[i]) {
                                Some(p) => {
                                    let entry = &self.gai.files[p];
                                    if entry.should_truncate {
                                        TabContent::Description("Truncated File".to_owned())
                                    } else {
                                        TabContent::Diff(duplicate_hunks(&entry.hunks))
                                    }
                                },
                                None => TabContent::Description(
                                    "Select a file to view its diffs".to_owned(),
                                ),
                            }
                        } else {
                            TabContent::Description("Select a file to view its diffs".to_owned())
                        }
                    },
                    None => TabContent::Description("Select a file to view its diffs".to_owned()),
                }
            },
            SelectedTab::Commits => {
                match &self.response {
                    Some(reply) => {
                        match &reply.result {
                            Err(message) => TabContent::Description(message.clone()),
                            Ok(schema) => {
                                match selected(&self.ui.selected_state) {
                                    Some(i) => {
                                        if i < schema.commits.len() {
                                            TabContent::Response(schema.commits[i].duplicate())
                                        } else {
                                            TabContent::Description(
                                                "Select a Commit to View".to_owned(),
                                            )
                                        }
                                    },
                                    None => TabContent::Description(
                                        "Select a Commit to View".to_owned(),
                                    ),
                                }
                            },
                        }
                    },
                    None => {
                        let provider = self.cfg.ai.provider;
                        let settings = self.cfg.ai.providers.get(provider).unwrap();
                        if self.is_loading {
                            let mut text = "Awaiting response from ".to_owned();
                            text.append(provider.name());
                            text.append(" using ");
                            text.append(settings.model.as_str());
                            TabContent::Description(text)
                        } else {
                            let mut text = "Press 'p' to send a request to ".to_owned();
                            text.append(settings.model.as_str());
                            TabContent::Description(text)
                        }
                    },
                }
            },
        }
    }
}

} // verus!
