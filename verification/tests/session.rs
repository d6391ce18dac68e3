use gai::app::{Action, App, State};
use gai::config::{
    AiConfig, CommitConfig, Config, GaiConfig, Provider, ProviderRegistry, ProviderSettings,
};
use gai::diff::{DiffEntry, DiffSet, Hunk};
use gai::request::Request;
use gai::response::{CommitSuggestion, GaiCommit, Prefix, Response, ResponseSchema};
use gai::tabs::{SelectedTab, TabContent};

fn settings(model: &str) -> ProviderSettings {
    ProviderSettings {
        model: model.to_owned(),
        api_key: String::new(),
        endpoint: "https://example.invalid/v1".to_owned(),
    }
}

fn config(model: &str) -> Config {
    Config {
        ai: AiConfig {
            provider: Provider::OpenAI,
            providers: ProviderRegistry { openai: Some(settings(model)), claude: None, gemini: None },
        },
        gai: GaiConfig {
            commit_config: CommitConfig { capitalize_prefix: false, include_scope: true },
        },
    }
}

fn hunks_of(path: &str) -> Vec<Hunk> {
    vec![
        Hunk { header: format!("@@ -1,2 +1,3 @@ {}", path), text: "+added\n-removed\n".to_owned() },
        Hunk { header: "@@ -10 +11 @@".to_owned(), text: " context\n".to_owned() },
    ]
}

fn entry(path: &str, should_truncate: bool) -> DiffEntry {
    DiffEntry { path: path.to_owned(), hunks: hunks_of(path), should_truncate }
}

fn diff_set(entries: Vec<DiffEntry>) -> DiffSet {
    DiffSet { files: entries, capitalize_prefix: true, include_scope: false }
}

fn suggestion(prefix: Prefix, scope: &str, subject: &str, body: &str) -> CommitSuggestion {
    CommitSuggestion {
        prefix,
        scope: scope.to_owned(),
        subject: subject.to_owned(),
        body: body.to_owned(),
    }
}

fn two_suggestions() -> Vec<CommitSuggestion> {
    vec![
        suggestion(Prefix::Feat, "ui", "add a tab bar", "Tabs switch with the arrow keys."),
        suggestion(Prefix::Fix, "", "keep the cursor in range", ""),
    ]
}

fn success() -> Response {
    Response { result: Ok(ResponseSchema { commits: two_suggestions() }) }
}

fn failure(message: &str) -> Response {
    Response { result: Err(message.to_owned()) }
}

fn session(entries: Vec<DiffEntry>, response: Option<Response>) -> App {
    App::new(Request::default(), config("gpt-x"), diff_set(entries), response)
}

fn paths(app: &App) -> Vec<String> {
    app.gai.files.iter().map(|f| f.path.clone()).collect()
}

fn strings(items: &[&str]) -> Vec<String> {
    items.iter().map(|s| s.to_string()).collect()
}

#[test]
fn new_session_starts_idle_on_the_diffs_tab() {
    let app = session(vec![entry("a.rs", false)], None);
    assert!(app.running);
    assert_eq!(app.state, State::Running);
    assert!(!app.is_loading);
    assert!(!app.applied_commits);
    assert_eq!(app.ui.selected_tab, SelectedTab::Diffs);
    assert_eq!(app.ui.selected_state.selected(), None);
    assert_eq!(app.ui.throbber_state.index(), 0);
    assert_eq!(app.response, None);
    assert_eq!(app.request, Request::default());
    assert_eq!(paths(&app), strings(&["a.rs"]));
}

#[test]
fn diffs_tab_splits_files_by_truncation() {
    let mut app = session(vec![entry("a.rs", false), entry("b.rs", true)], None);
    let list = app.get_list();
    assert_eq!(list.main, strings(&["a.rs"]));
    assert_eq!(list.secondary, Some(strings(&["b.rs"])));
    assert_eq!(list.main_title, "Files");
    assert_eq!(list.secondary_title, Some("Truncated".to_owned()));

    app.ui.selected_state.select(Some(0));
    assert_eq!(app.get_content(), TabContent::Diff(hunks_of("a.rs")));
}

#[test]
fn diffs_tab_without_truncated_files_has_no_second_list() {
    let app = session(vec![entry("a.rs", false), entry("b.rs", false), entry("c.rs", false)], None);
    let list = app.get_list();
    assert_eq!(list.main, strings(&["a.rs", "b.rs", "c.rs"]));
    assert_eq!(list.secondary, None);
    assert_eq!(list.secondary_title, None);
    assert_eq!(list.main_title, "Files");
}

#[test]
fn diffs_tab_keeps_the_order_of_the_set_in_both_lists() {
    let app = session(
        vec![
            entry("e.rs", true),
            entry("d.rs", false),
            entry("c.rs", true),
            entry("b.rs", false),
            entry("a.rs", false),
        ],
        None,
    );
    let list = app.get_list();
    assert_eq!(list.main, strings(&["d.rs", "b.rs", "a.rs"]));
    assert_eq!(list.secondary, Some(strings(&["e.rs", "c.rs"])));
}

#[test]
fn diffs_tab_with_no_files_is_empty() {
    let app = session(Vec::new(), None);
    let list = app.get_list();
    assert!(list.main.is_empty());
    assert_eq!(list.secondary, None);
    assert_eq!(list.main_title, "Files");
    assert_eq!(
        app.get_content(),
        TabContent::Description("Select a file to view its diffs".to_owned())
    );
}

#[test]
fn diffs_detail_without_a_valid_cursor_asks_to_select() {
    let mut app = session(vec![entry("a.rs", false), entry("b.rs", true)], None);
    let ask = TabContent::Description("Select a file to view its diffs".to_owned());
    assert_eq!(app.get_content(), ask);
    // One file is shown, so index 1 is outside the list though the set
    // holds two files.
    app.ui.selected_state.select(Some(1));
    assert_eq!(app.get_content(), ask);
    app.ui.selected_state.select(Some(usize::MAX));
    assert_eq!(app.get_content(), ask);
}

#[test]
fn diffs_detail_reads_the_cursor_against_the_shown_list() {
    let mut app = session(vec![entry("a.rs", true), entry("b.rs", false), entry("c.rs", false)], None);
    app.ui.selected_state.select(Some(0));
    assert_eq!(app.get_content(), TabContent::Diff(hunks_of("b.rs")));
    app.ui.selected_state.select(Some(1));
    assert_eq!(app.get_content(), TabContent::Diff(hunks_of("c.rs")));
}

#[test]
fn diffs_detail_looks_the_file_up_by_path() {
    // Two entries share a path, which a well-formed set never has: the
    // lookup by path then reaches the first of them, a truncated one.
    let mut app = session(vec![entry("a.rs", true), entry("a.rs", false)], None);
    app.ui.selected_state.select(Some(0));
    assert_eq!(app.get_content(), TabContent::Description("Truncated File".to_owned()));
}

#[test]
fn commits_tab_lists_prefix_lines() {
    let mut app = session(vec![entry("a.rs", false)], Some(success()));
    app.ui.selected_tab = SelectedTab::Commits;
    let list = app.get_list();
    assert_eq!(list.main, strings(&["feat(ui)", "fix"]));
    assert_eq!(list.secondary, None);
    assert_eq!(list.main_title, "Commits");
    assert_eq!(list.secondary_title, None);
}

#[test]
fn commits_tab_follows_the_display_flags() {
    let mut app = session(Vec::new(), Some(success()));
    app.ui.selected_tab = SelectedTab::Commits;
    app.cfg.gai.commit_config = CommitConfig { capitalize_prefix: true, include_scope: false };
    assert_eq!(app.get_list().main, strings(&["Feat", "Fix"]));
    app.cfg.gai.commit_config = CommitConfig { capitalize_prefix: true, include_scope: true };
    assert_eq!(app.get_list().main, strings(&["Feat(ui)", "Fix"]));
}

#[test]
fn commits_tab_without_a_successful_reply_is_empty() {
    let mut app = session(vec![entry("a.rs", false)], None);
    app.ui.selected_tab = SelectedTab::Commits;
    let list = app.get_list();
    assert!(list.main.is_empty());
    assert_eq!(list.main_title, "");
    assert_eq!(list.secondary, None);
    assert_eq!(list.secondary_title, None);

    app.display_response(failure("rate limited"));
    let list = app.get_list();
    assert!(list.main.is_empty());
    assert_eq!(list.main_title, "");
}

#[test]
fn commits_detail_shows_the_selected_suggestion() {
    let mut app = session(Vec::new(), Some(success()));
    app.ui.selected_tab = SelectedTab::Commits;
    app.ui.selected_state.select(Some(1));
    assert_eq!(app.get_content(), TabContent::Response(two_suggestions()[1].clone()));
    app.ui.selected_state.select(Some(0));
    assert_eq!(app.get_content(), TabContent::Response(two_suggestions()[0].clone()));
    app.ui.selected_state.select(Some(5));
    assert_eq!(app.get_content(), TabContent::Description("Select a Commit to View".to_owned()));
    app.ui.selected_state.select(None);
    assert_eq!(app.get_content(), TabContent::Description("Select a Commit to View".to_owned()));
}

#[test]
fn commits_detail_before_any_request_names_the_model() {
    let mut app = session(Vec::new(), None);
    app.ui.selected_tab = SelectedTab::Commits;
    assert_eq!(
        app.get_content(),
        TabContent::Description("Press 'p' to send a request to gpt-x".to_owned())
    );
}

#[test]
fn commits_detail_while_waiting_names_provider_and_model() {
    let mut app = session(Vec::new(), None);
    app.ui.selected_tab = SelectedTab::Commits;
    assert!(app.send_request().is_some());
    assert_eq!(
        app.get_content(),
        TabContent::Description("Awaiting response from OpenAI using gpt-x".to_owned())
    );

    app.cfg.ai.provider = Provider::Gemini;
    app.cfg.ai.providers.gemini = Some(settings("flash"));
    assert_eq!(
        app.get_content(),
        TabContent::Description("Awaiting response from Gemini using flash".to_owned())
    );
    app.cfg.ai.provider = Provider::Claude;
    app.cfg.ai.providers.claude = Some(settings("haiku"));
    assert_eq!(
        app.get_content(),
        TabContent::Description("Awaiting response from Anthropic using haiku".to_owned())
    );
}

#[test]
fn commits_detail_shows_a_failure_whatever_the_cursor() {
    let mut app = session(vec![entry("a.rs", false)], Some(failure("connection refused")));
    app.ui.selected_tab = SelectedTab::Commits;
    let shown = TabContent::Description("connection refused".to_owned());
    for cursor in [None, Some(0), Some(1), Some(7), Some(usize::MAX)] {
        app.ui.selected_state.select(cursor);
        assert_eq!(app.get_content(), shown);
    }
    app.is_loading = true;
    assert_eq!(app.get_content(), shown);
}

#[test]
fn send_request_hands_out_a_snapshot_and_sets_the_busy_flag() {
    let mut app = session(vec![entry("a.rs", false), entry("b.rs", true)], None);
    let dispatch = app.send_request().expect("an idle session starts a request");
    assert!(app.is_loading);
    assert_eq!(dispatch.provider, Provider::OpenAI);
    assert_eq!(dispatch.provider_cfg, settings("gpt-x"));
    assert_eq!(dispatch.gai, diff_set(vec![entry("a.rs", false), entry("b.rs", true)]));

    // What was handed out does not follow later changes.
    app.ui.selected_state.select(Some(0));
    app.remove_selected();
    assert_eq!(paths(&app), strings(&["b.rs"]));
    assert_eq!(dispatch.gai.files.len(), 2);
}

#[test]
fn send_request_while_busy_changes_nothing() {
    let mut app = session(vec![entry("a.rs", false)], Some(failure("earlier")));
    assert!(app.send_request().is_some());
    assert!(app.send_request().is_none());
    assert!(app.is_loading);
    assert_eq!(app.response, Some(failure("earlier")));
    assert_eq!(paths(&app), strings(&["a.rs"]));
    assert!(app.send_request().is_none());
    assert!(app.is_loading);
}

#[test]
fn send_request_while_busy_does_not_look_the_provider_up() {
    let mut app = session(Vec::new(), None);
    app.cfg.ai.providers.openai = None;
    app.is_loading = true;
    assert!(app.send_request().is_none());
    assert!(app.is_loading);
}

#[test]
fn display_response_stores_the_reply_and_ends_the_busy_state() {
    let mut app = session(Vec::new(), None);
    assert!(app.send_request().is_some());
    app.display_response(success());
    assert!(!app.is_loading);
    assert_eq!(app.response, Some(success()));

    // A later reply takes the place of the earlier one, busy or not.
    app.display_response(failure("timeout"));
    assert!(!app.is_loading);
    assert_eq!(app.response, Some(failure("timeout")));
    assert!(app.send_request().is_some());
    app.display_response(success());
    assert_eq!(app.response, Some(success()));
    assert!(!app.is_loading);
}

#[test]
fn remove_selected_deletes_the_file_at_the_shown_position() {
    let mut app = session(vec![entry("a.rs", true), entry("b.rs", false), entry("c.rs", false)], None);
    app.ui.selected_state.select(Some(1));
    app.remove_selected();
    assert_eq!(app.gai.files, vec![entry("a.rs", true), entry("b.rs", false)]);
    // The cursor is left where it was.
    assert_eq!(app.ui.selected_state.selected(), Some(1));
    // It now points past the one shown path: nothing more is removed.
    app.remove_selected();
    assert_eq!(app.gai.files.len(), 2);
    app.ui.selected_state.select(Some(0));
    app.remove_selected();
    assert_eq!(app.gai.files, vec![entry("a.rs", true)]);
    app.remove_selected();
    assert_eq!(app.gai.files, vec![entry("a.rs", true)]);
}

#[test]
fn remove_selected_without_a_target_changes_nothing() {
    let mut app = session(vec![entry("a.rs", false), entry("b.rs", true)], None);
    app.remove_selected();
    assert_eq!(app.gai.files.len(), 2);
    app.ui.selected_state.select(Some(1));
    app.remove_selected();
    assert_eq!(app.gai.files.len(), 2);
    app.ui.selected_state.select(Some(9));
    app.remove_selected();
    assert_eq!(app.gai.files.len(), 2);
    app.ui.selected_tab = SelectedTab::Commits;
    app.ui.selected_state.select(Some(0));
    app.remove_selected();
    assert_eq!(app.gai.files, vec![entry("a.rs", false), entry("b.rs", true)]);
}

#[test]
fn truncate_selected_flips_the_flag_at_the_raw_index() {
    let mut app = session(vec![entry("a.rs", false), entry("b.rs", false), entry("c.rs", false)], None);
    app.ui.selected_state.select(Some(0));
    app.truncate_selected();
    assert_eq!(app.get_list().main, strings(&["b.rs", "c.rs"]));
    assert_eq!(app.get_list().secondary, Some(strings(&["a.rs"])));
    // The cursor now shows "b.rs", but the flag that flips is that of the
    // file at index 0 of the set, "a.rs".
    assert_eq!(app.get_content(), TabContent::Diff(hunks_of("b.rs")));
    app.truncate_selected();
    assert_eq!(app.gai.files, vec![entry("a.rs", false), entry("b.rs", false), entry("c.rs", false)]);
    assert_eq!(app.get_list().secondary, None);

    app.ui.selected_state.select(Some(2));
    app.truncate_selected();
    assert_eq!(app.gai.files, vec![entry("a.rs", false), entry("b.rs", false), entry("c.rs", true)]);
}

#[test]
fn truncate_selected_without_a_target_changes_nothing() {
    let before = vec![entry("a.rs", false), entry("b.rs", true)];
    let mut app = session(before.clone(), None);
    app.truncate_selected();
    assert_eq!(app.gai.files, before);
    app.ui.selected_state.select(Some(2));
    app.truncate_selected();
    assert_eq!(app.gai.files, before);
    app.ui.selected_tab = SelectedTab::Commits;
    app.ui.selected_state.select(Some(0));
    app.truncate_selected();
    assert_eq!(app.gai.files, before);
}

#[test]
fn apply_commits_builds_the_batch_in_order() {
    let mut app = session(vec![entry("a.rs", false)], Some(success()));
    app.ui.selected_tab = SelectedTab::Commits;
    let batch = app.apply_commits().expect("a successful reply on the commits tab");
    assert_eq!(
        batch,
        vec![
            GaiCommit {
                message: "Feat: add a tab bar\n\nTabs switch with the arrow keys.".to_owned()
            },
            GaiCommit { message: "Fix: keep the cursor in range".to_owned() },
        ]
    );
    // Asking again gives the same batch again.
    assert_eq!(app.apply_commits(), Some(batch));

    app.gai.capitalize_prefix = false;
    app.gai.include_scope = true;
    let batch = app.apply_commits().expect("a successful reply on the commits tab");
    assert_eq!(batch[0].message, "feat(ui): add a tab bar\n\nTabs switch with the arrow keys.");
    assert_eq!(batch[1].message, "fix: keep the cursor in range");
}

#[test]
fn apply_commits_needs_the_commits_tab_and_a_successful_reply() {
    let mut app = session(vec![entry("a.rs", false)], Some(success()));
    assert_eq!(app.apply_commits(), None);
    app.ui.selected_tab = SelectedTab::Commits;
    app.display_response(failure("bad gateway"));
    assert_eq!(app.apply_commits(), None);
    app.response = None;
    assert_eq!(app.apply_commits(), None);
    app.display_response(Response { result: Ok(ResponseSchema { commits: Vec::new() }) });
    assert_eq!(app.apply_commits(), Some(Vec::new()));
}

#[test]
fn prefix_line_and_message_formats() {
    let full = suggestion(Prefix::Refactor, "core", "split the resolver", "Two functions.");
    assert_eq!(full.get_commit_prefix(false, false), "refactor");
    assert_eq!(full.get_commit_prefix(true, false), "Refactor");
    assert_eq!(full.get_commit_prefix(false, true), "refactor(core)");
    assert_eq!(full.get_commit_prefix(true, true), "Refactor(core)");
    assert_eq!(
        GaiCommit::from_response(&full, true, true).message,
        "Refactor(core): split the resolver\n\nTwo functions."
    );
    let bare = suggestion(Prefix::Docs, "", "describe the tabs", "");
    assert_eq!(bare.get_commit_prefix(false, true), "docs");
    assert_eq!(GaiCommit::from_response(&bare, false, true).message, "docs: describe the tabs");
    let words = [
        (Prefix::Feat, "feat", "Feat"),
        (Prefix::Fix, "fix", "Fix"),
        (Prefix::Refactor, "refactor", "Refactor"),
        (Prefix::Style, "style", "Style"),
        (Prefix::Test, "test", "Test"),
        (Prefix::Docs, "docs", "Docs"),
        (Prefix::Build, "build", "Build"),
        (Prefix::Ci, "ci", "Ci"),
        (Prefix::Chore, "chore", "Chore"),
    ];
    for (prefix, lower, upper) in words {
        assert_eq!(prefix.as_str(false), lower);
        assert_eq!(prefix.as_str(true), upper);
    }
}

#[test]
fn run_selects_the_first_item_after_deriving_the_detail() {
    let mut app = session(vec![entry("a.rs", false), entry("b.rs", true)], None);
    let screen = app.run();
    assert_eq!(screen.list.main, strings(&["a.rs"]));
    assert_eq!(screen.list.secondary, Some(strings(&["b.rs"])));
    assert!(!screen.is_loading);
    // The detail is that of the cursor before the first item was selected.
    assert_eq!(
        screen.content,
        TabContent::Description("Select a file to view its diffs".to_owned())
    );
    assert_eq!(app.ui.selected_state.selected(), Some(0));
    let screen = app.run();
    assert_eq!(screen.content, TabContent::Diff(hunks_of("a.rs")));
    assert_eq!(app.ui.selected_state.selected(), Some(0));
}

#[test]
fn run_keeps_a_cursor_and_an_empty_list_as_they_are() {
    let mut app = session(vec![entry("a.rs", false), entry("b.rs", false)], None);
    app.ui.selected_state.select(Some(1));
    let screen = app.run();
    assert_eq!(screen.content, TabContent::Diff(hunks_of("b.rs")));
    assert_eq!(app.ui.selected_state.selected(), Some(1));

    let mut empty = session(Vec::new(), None);
    let screen = empty.run();
    assert!(screen.list.main.is_empty());
    assert_eq!(empty.ui.selected_state.selected(), None);

    let mut busy = session(Vec::new(), None);
    busy.ui.selected_tab = SelectedTab::Commits;
    assert!(busy.send_request().is_some());
    let screen = busy.run();
    assert!(screen.is_loading);
    assert_eq!(busy.ui.selected_state.selected(), None);
}

#[test]
fn on_tick_advances_the_busy_indicator() {
    let mut app = session(Vec::new(), None);
    app.on_tick();
    assert_eq!(app.ui.throbber_state.index(), 1);
    app.on_tick();
    assert_eq!(app.ui.throbber_state.index(), 2);
    for _ in 2..127 {
        app.on_tick();
    }
    assert_eq!(app.ui.throbber_state.index(), 127);
    app.on_tick();
    assert_eq!(app.ui.throbber_state.index(), 0);
    assert_eq!(app.ui.selected_state.selected(), None);
    assert_eq!(app.ui.selected_tab, SelectedTab::Diffs);
}

#[test]
fn position_and_paths_of_a_diff_set() {
    let set = diff_set(vec![entry("a.rs", false), entry("b.rs", true), entry("c.rs", false)]);
    assert_eq!(set.paths(false), strings(&["a.rs", "c.rs"]));
    assert_eq!(set.paths(true), strings(&["b.rs"]));
    assert_eq!(set.position(&"a.rs".to_owned()), Some(0));
    assert_eq!(set.position(&"c.rs".to_owned()), Some(2));
    assert_eq!(set.position(&"d.rs".to_owned()), None);
    assert_eq!(set.snapshot(), set);
}

#[test]
fn registry_lookup_by_provider() {
    let registry = ProviderRegistry {
        openai: None,
        claude: Some(settings("sonnet")),
        gemini: Some(settings("flash")),
    };
    assert_eq!(registry.get(Provider::OpenAI), None);
    assert_eq!(registry.get(Provider::Claude), Some(&settings("sonnet")));
    assert_eq!(registry.get(Provider::Gemini), Some(&settings("flash")));
    assert_eq!(Provider::OpenAI.name(), "OpenAI");
    assert_eq!(Provider::Claude.name(), "Anthropic");
    assert_eq!(Provider::Gemini.name(), "Gemini");
}

#[test]
fn actions_are_distinct_values() {
    assert_ne!(Action::ScrollUp, Action::ScrollDown);
    assert_eq!(Action::SendRequest, Action::SendRequest);
    assert_ne!(Action::DiffTab, Action::OpenAITab);
}
