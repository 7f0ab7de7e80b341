//! The state of one session of the panel, and what the operator's actions
//! do to it.

use crate::command::{is_prompt, message_text, Command, CommandView, TranslationErrorView};
use crate::groups::ScanError;
use crate::hook::HookType;
use crate::page::{translate, Page, PageKind, PageView};
use crate::scheduler::{RefreshScheduler, SchedulerState, STARTUP_TICK};
use crate::text::{clone_strings, decode_lossy, format_vec_str, joined, lossy_text};
use vstd::prelude::*;

verus! {

/// Everything the panel remembers while it is open. `H` is the handle of a
/// scan for groups.
///
/// The exclusions and the two flags belong to the session, not to a page:
/// a page takes them over when the operator opens it, so they survive a
/// change from one page to another. The picked files of a push belong to
/// the push page alone.
#[derive(Debug)]
pub struct TemplateApp<H> {
    /// The page that is open.
    pub page: Page,
    /// The groups the operator selected, in the order of selection. Empty
    /// means all groups.
    pub groups: Vec<String>,
    /// The groups found by the last scan that succeeded; `None` until one
    /// did.
    pub found_groups: Option<Vec<String>>,
    /// The groups to leave out.
    pub exclude: Vec<String>,
    /// Whether files in the way are overridden.
    pub force: bool,
    /// Whether files in the way are taken into the repository.
    pub adopt: bool,
    /// The free-text prompt line.
    pub label: String,
    /// The output log. Text is only ever appended to it.
    pub output: String,
    /// The path of the hook script that is open in the editor.
    pub opened_hook: Option<String>,
    /// The text of the hook script that is open in the editor.
    pub code: String,
    /// The files that were last dropped onto the window.
    pub dropped_files: Vec<String>,
    /// The files a newly opened push page starts with.
    pub push_files: Option<Vec<String>>,
    /// The stage of the next new hook script.
    pub new_hook_type: HookType,
    /// When to scan for groups again.
    pub refresh: RefreshScheduler<H>,
}

/// What a [`TemplateApp`] holds, with every string as its characters and
/// the scheduler as its count and whether a scan is under way.
pub struct SessionView {
    pub page: PageView,
    pub groups: Seq<Seq<char>>,
    pub found_groups: Option<Seq<Seq<char>>>,
    pub exclude: Seq<Seq<char>>,
    pub force: bool,
    pub adopt: bool,
    pub label: Seq<char>,
    pub output: Seq<char>,
    pub opened_hook: Option<Seq<char>>,
    pub code: Seq<char>,
    pub dropped_files: Seq<Seq<char>>,
    pub push_files: Option<Seq<Seq<char>>>,
    pub new_hook_type: HookType,
    pub refresh: SchedulerState,
}

impl<H> View for TemplateApp<H> {
    type V = SessionView;

    open spec fn view(&self) -> SessionView {
        SessionView {
            page: self.page@,
            groups: self.groups.deep_view(),
            found_groups: self.found_groups.deep_view(),
            exclude: self.exclude.deep_view(),
            force: self.force,
            adopt: self.adopt,
            label: self.label@,
            output: self.output@,
            opened_hook: self.opened_hook.deep_view(),
            code: self.code@,
            dropped_files: self.dropped_files.deep_view(),
            push_files: self.push_files.deep_view(),
            new_hook_type: self.new_hook_type,
            refresh: self.refresh@,
        }
    }
}

/// The session that a panel starts with when nothing was saved: the help
/// page, nothing selected, nothing found, an empty log.
pub open spec fn initial_session() -> SessionView {
    SessionView {
        page: PageView::Help,
        groups: Seq::empty(),
        found_groups: None,
        exclude: Seq::empty(),
        force: false,
        adopt: false,
        label: Seq::empty(),
        output: Seq::empty(),
        opened_hook: None,
        code: Seq::empty(),
        dropped_files: Seq::empty(),
        push_files: None,
        new_hook_type: HookType::Post,
        refresh: SchedulerState { tick: STARTUP_TICK as nat, pending: false },
    }
}

/// The name that stands for all groups.
pub open spec fn all_groups() -> Seq<char> {
    "*"@
}

/// The groups an action runs on: the selection, or all groups when nothing
/// is selected.
pub open spec fn resolved(selection: Seq<Seq<char>>) -> Seq<Seq<char>> {
    if selection.len() == 0 {
        seq![all_groups()]
    } else {
        selection
    }
}

/// The page that opens when the operator picks `kind` in session `s`: the
/// pages that deploy or remove groups take over the session's exclusions
/// and flags, a push takes over the session's picked files.
pub open spec fn page_for(kind: PageKind, s: SessionView) -> PageView {
    match kind {
        PageKind::Help => PageView::Help,
        PageKind::Status => PageView::Status,
        PageKind::Add => PageView::Add { exclude: s.exclude, force: s.force, adopt: s.adopt },
        PageKind::Remove => PageView::Remove { exclude: s.exclude },
        PageKind::SetHooks => PageView::SetHooks {
            exclude: s.exclude,
            force: s.force,
            adopt: s.adopt,
        },
        PageKind::Push => PageView::Push { files: s.push_files },
        PageKind::Pop => PageView::Pop,
        PageKind::Init => PageView::Init,
        PageKind::EditHooks => PageView::EditHooks,
    }
}

/// The session that follows `s` when the operator asks to run the open
/// page: unchanged if the page yields a command; else the log gains the
/// message of the error, and the prompt line becomes that message if it
/// asks the operator to select something.
pub open spec fn after_execute(s: SessionView) -> SessionView {
    match translate(s.page, resolved(s.groups)) {
        Ok(_) => s,
        Err(error) => SessionView {
            output: s.output + message_text(error),
            label: if is_prompt(error) {
                message_text(error)
            } else {
                s.label
            },
            ..s
        },
    }
}

/// The command that session `s` hands to the command engine when the
/// operator asks to run the open page, if any.
pub open spec fn dispatched(s: SessionView) -> Option<CommandView> {
    match translate(s.page, resolved(s.groups)) {
        Ok(command) => Some(command),
        Err(_) => None,
    }
}

/// The session that follows `s` when a scan has ended with `found` and
/// left `diagnostic` behind: the log gains the diagnostic text; the found
/// groups are replaced if the scan succeeded and kept if it failed.
pub open spec fn after_merge(
    s: SessionView,
    found: Result<Seq<Seq<char>>, ScanError>,
    diagnostic: Seq<char>,
) -> SessionView {
    SessionView {
        output: s.output + diagnostic,
        found_groups: match found {
            Ok(groups) => Some(groups),
            Err(_) => s.found_groups,
        },
        ..s
    }
}

/// The line that lists the found groups of session `s` for display: their
/// names with a comma and a space between; empty while none are known.
pub open spec fn groups_line_text(s: SessionView) -> Seq<char> {
    match s.found_groups {
        Some(groups) => joined(groups, ", "@),
        None => Seq::empty(),
    }
}

/// The part of a session that is saved when the panel closes and restored
/// when it opens again. The scheduler, the output log and the dropped
/// files are not part of it.
#[derive(Debug, PartialEq, Eq)]
pub struct PersistedState {
    pub page: Page,
    pub groups: Vec<String>,
    pub found_groups: Option<Vec<String>>,
    pub exclude: Vec<String>,
    pub force: bool,
    pub adopt: bool,
    pub label: String,
    pub opened_hook: Option<String>,
    pub code: String,
    pub push_files: Option<Vec<String>>,
    pub new_hook_type: HookType,
}

/// What a [`PersistedState`] holds, with every string as its characters.
pub struct PersistedView {
    pub page: PageView,
    pub groups: Seq<Seq<char>>,
    pub found_groups: Option<Seq<Seq<char>>>,
    pub exclude: Seq<Seq<char>>,
    pub force: bool,
    pub adopt: bool,
    pub label: Seq<char>,
    pub opened_hook: Option<Seq<char>>,
    pub code: Seq<char>,
    pub push_files: Option<Seq<Seq<char>>>,
    pub new_hook_type: HookType,
}

impl View for PersistedState {
    type V = PersistedView;

    open spec fn view(&self) -> PersistedView {
        PersistedView {
            page: self.page@,
            groups: self.groups.deep_view(),
            found_groups: self.found_groups.deep_view(),
            exclude: self.exclude.deep_view(),
            force: self.force,
            adopt: self.adopt,
            label: self.label@,
            opened_hook: self.opened_hook.deep_view(),
            code: self.code@,
            push_files: self.push_files.deep_view(),
            new_hook_type: self.new_hook_type,
        }
    }
}

impl DeepView for PersistedState {
    type V = PersistedView;

    open spec fn deep_view(&self) -> PersistedView {
        self@
    }
}

/// The part of session `s` that is saved.
pub open spec fn persisted_of(s: SessionView) -> PersistedView {
    PersistedView {
        page: s.page,
        groups: s.groups,
        found_groups: s.found_groups,
        exclude: s.exclude,
        force: s.force,
        adopt: s.adopt,
        label: s.label,
        opened_hook: s.opened_hook,
        code: s.code,
        push_files: s.push_files,
        new_hook_type: s.new_hook_type,
    }
}

/// The session that opens from the saved part `p`: what was saved is back,
/// and what was not starts as in a new session.
pub open spec fn restored_from(p: PersistedView) -> SessionView {
    SessionView {
        page: p.page,
        groups: p.groups,
        found_groups: p.found_groups,
        exclude: p.exclude,
        force: p.force,
        adopt: p.adopt,
        label: p.label,
        output: initial_session().output,
        opened_hook: p.opened_hook,
        code: p.code,
        dropped_files: initial_session().dropped_files,
        push_files: p.push_files,
        new_hook_type: p.new_hook_type,
        refresh: initial_session().refresh,
    }
}

/// The session that opens when `saved` is what storage holds of the last
/// one.
pub open spec fn opened_with(saved: Option<PersistedView>) -> SessionView {
    match saved {
        Some(p) => restored_from(p),
        None => initial_session(),
    }
}

/// A copy of an optional list of names that holds the same strings.
fn clone_optional_strings(names: &Option<Vec<String>>) -> (copy: Option<Vec<String>>)
    ensures
        copy.deep_view() == names.deep_view(),
{
    match names {
        Some(names) => Some(clone_strings(names)),
        None => None,
    }
}

impl<H> TemplateApp<H> {
    /// The session of a panel that opens: the saved part of the last
    /// session if there is one, with the rest as in a new session; else a
    /// new session.
    pub fn new(saved: Option<PersistedState>) -> (session: Self)
        ensures
            session@ == opened_with(saved.deep_view()),
            session.refresh.handle() is None,
    {
        match saved {
            Some(saved) => TemplateApp::restore(saved),
            None => TemplateApp::default(),
        }
    }

    /// Opens the page of `kind`. The page takes its parameters from the
    /// session, which is otherwise unchanged; the parameters of the page
    /// that was open are dropped.
    pub fn select_page(&mut self, kind: PageKind)
        ensures
            final(self)@ == (SessionView { page: page_for(kind, old(self)@), ..old(self)@ }),
            final(self).refresh == old(self).refresh,
    {
        let page = match kind {
            PageKind::Help => Page::Help,
            PageKind::Status => Page::Status,
            PageKind::Add => Page::Add {
                exclude: clone_strings(&self.exclude),
                force: self.force,
                adopt: self.adopt,
            },
            PageKind::Remove => Page::Remove { exclude: clone_strings(&self.exclude) },
            PageKind::SetHooks => Page::SetHooks {
                exclude: clone_strings(&self.exclude),
                force: self.force,
                adopt: self.adopt,
            },
            PageKind::Push => Page::Push { files: clone_optional_strings(&self.push_files) },
            PageKind::Pop => Page::Pop,
            PageKind::Init => Page::Init,
            PageKind::EditHooks => Page::EditHooks,
        };
        self.page = page;
    }

    /// The groups an action runs on: the selected groups, or the name that
    /// stands for all groups when none is selected.
    pub fn resolved_groups(&self) -> (groups: Vec<String>)
        ensures
            groups.deep_view() == resolved(self@.groups),
    {
        if self.groups.len() == 0 {
            let mut groups: Vec<String> = Vec::new();
            groups.push("*".to_owned());
            groups
        } else {
            clone_strings(&self.groups)
        }
    }

    /// Appends `text` to the output log: the result of a command, or any
    /// other message for the operator.
    pub fn append_output(&mut self, text: &str)
        ensures
            final(self)@ == (SessionView { output: old(self)@.output + text@, ..old(self)@ }),
            final(self).refresh == old(self).refresh,
    {
        self.output.append(text);
    }

    /// Runs the open page as far as the panel itself can: resolves the
    /// groups and turns the page into a command. Returns the command for
    /// the caller to hand to the command engine, whose answer then goes to
    /// [`append_output`](Self::append_output). If the page yields no
    /// command, the reason is logged instead and `None` is returned.
    pub fn execute(&mut self) -> (command: Option<Command>)
        ensures
            command.deep_view() == dispatched(old(self)@),
            final(self)@ == after_execute(old(self)@),
            final(self).refresh == old(self).refresh,
    {
        let groups = self.resolved_groups();
        let page = self.page.clone();
        match page.into_cli(groups) {
            Ok(command) => Some(command),
            Err(error) => {
                let message = error.message();
                self.output.append(message.as_str());
                if error.prompts() {
                    self.label = message;
                }
                None
            },
        }
    }

    /// Takes in what a finished scan brought back. The diagnostic text is
    /// appended to the log in any case. The found groups replace the known
    /// ones if the scan succeeded; if it failed, the known ones stay as
    /// they are. The selection is not touched.
    pub fn merge_scan_result(&mut self, found: Result<Vec<String>, ScanError>, diagnostic: String)
        ensures
            final(self)@ == after_merge(
                old(self)@,
                match found {
                    Ok(groups) => Ok(groups.deep_view()),
                    Err(error) => Err(error),
                },
                diagnostic@,
            ),
            found is Err ==> final(self).found_groups == old(self).found_groups,
            final(self).refresh == old(self).refresh,
    {
        self.output.append(diagnostic.as_str());
        match found {
            Ok(groups) => {
                self.found_groups = Some(groups);
            },
            Err(_) => {},
        }
    }

    /// Takes over the files that the operator picked for a push: the push
    /// page opens with them. They belong to that page alone, so the session
    /// keeps no list of its own for the next push page.
    pub fn pick_push_files(&mut self, paths: Vec<String>)
        ensures
            final(self)@ == (SessionView {
                page: PageView::Push { files: Some(paths.deep_view()) },
                push_files: None,
                ..old(self)@
            }),
            final(self).refresh == old(self).refresh,
    {
        self.push_files = None;
        self.page = Page::Push { files: Some(paths) };
    }

    /// Puts the hook script at `path`, whose text is `code`, into the
    /// editor.
    pub fn show_hook(&mut self, path: String, code: String)
        ensures
            final(self)@ == (SessionView {
                opened_hook: Some(path@),
                code: code@,
                ..old(self)@
            }),
            final(self).refresh == old(self).refresh,
    {
        self.opened_hook = Some(path);
        self.code = code;
    }

    /// Puts the hook script at `path`, whose file holds `contents`, into
    /// the editor. Bytes that are no valid text show as replacement
    /// characters.
    pub fn open_hook(&mut self, path: String, contents: &Vec<u8>)
        ensures
            final(self)@ == (SessionView {
                opened_hook: Some(path@),
                code: lossy_text(contents@),
                ..old(self)@
            }),
            vstd::utf8::valid_utf8(contents@) ==> final(self)@.code == vstd::utf8::decode_utf8(
                contents@,
            ),
            final(self).refresh == old(self).refresh,
    {
        let code = decode_lossy(contents);
        self.show_hook(path, code);
    }

    /// What to write where when the operator asks to save the open hook
    /// script: its path and its text. `None` while no script is open.
    pub fn hook_to_save(&self) -> (job: Option<(&String, &String)>)
        ensures
            self.opened_hook is None ==> job is None,
            self.opened_hook matches Some(path) ==> (job matches Some(found) && *found.0 == path
                && *found.1 == self.code),
    {
        match &self.opened_hook {
            Some(path) => Some((path, &self.code)),
            None => None,
        }
    }

    /// Logs how saving the open hook script went: that it was saved, or
    /// the error that the file system gave.
    pub fn hook_saved(&mut self, outcome: Result<(), String>)
        ensures
            final(self)@ == (SessionView {
                output: old(self)@.output + match outcome {
                    Ok(_) => "saved"@,
                    Err(error) => error@,
                },
                ..old(self)@
            }),
            final(self).refresh == old(self).refresh,
    {
        match outcome {
            Ok(_) => self.output.append("saved"),
            Err(error) => self.output.append(error.as_str()),
        }
    }

    /// Remembers the files that were dropped onto the window during this
    /// update. An update without a drop leaves the remembered ones alone.
    pub fn collect_dropped(&mut self, dropped: Vec<String>)
        ensures
            final(self)@ == (SessionView {
                dropped_files: if dropped.len() > 0 {
                    dropped.deep_view()
                } else {
                    old(self)@.dropped_files
                },
                ..old(self)@
            }),
            final(self).refresh == old(self).refresh,
    {
        if dropped.len() > 0 {
            self.dropped_files = dropped;
        }
    }

    /// The found groups as one line for display.
    pub fn groups_line(&self) -> (line: String)
        ensures
            line@ == groups_line_text(self@),
    {
        match &self.found_groups {
            Some(groups) => {
                if groups.len() == 0 {
                    String::new()
                } else {
                    let mut names = clone_strings(groups);
                    format_vec_str(&mut names)
                }
            },
            None => String::new(),
        }
    }

    /// The part of the session to save when the panel closes.
    pub fn persisted(&self) -> (saved: PersistedState)
        ensures
            saved@ == persisted_of(self@),
    {
        PersistedState {
            page: self.page.clone(),
            groups: clone_strings(&self.groups),
            found_groups: clone_optional_strings(&self.found_groups),
            exclude: clone_strings(&self.exclude),
            force: self.force,
            adopt: self.adopt,
            label: self.label.clone(),
            opened_hook: match &self.opened_hook {
                Some(path) => Some(path.clone()),
                None => None,
            },
            code: self.code.clone(),
            push_files: clone_optional_strings(&self.push_files),
            new_hook_type: self.new_hook_type,
        }
    }

    /// The session of a panel that opens again with `saved`: the saved
    /// part is back; the log and the dropped files are empty, and the
    /// scheduler is new and holds no scan.
    pub fn restore(saved: PersistedState) -> (session: Self)
        ensures
            session@ == restored_from(saved@),
            session.refresh.handle() is None,
    {
        let session = TemplateApp {
            page: saved.page,
            groups: saved.groups,
            found_groups: saved.found_groups,
            exclude: saved.exclude,
            force: saved.force,
            adopt: saved.adopt,
            label: saved.label,
            output: String::new(),
            opened_hook: saved.opened_hook,
            code: saved.code,
            dropped_files: Vec::new(),
            push_files: saved.push_files,
            new_hook_type: saved.new_hook_type,
            refresh: RefreshScheduler::new(),
        };
        assert(session.dropped_files.deep_view() =~= Seq::empty());
        session
    }
}

impl<H> Default for TemplateApp<H> {
    /// The session of a panel that starts with nothing saved.
    fn default() -> (session: Self)
        ensures
            session@ == initial_session(),
            session.refresh.handle() is None,
    {
        let session = TemplateApp {
            page: Page::Help,
            groups: Vec::new(),
            found_groups: None,
            exclude: Vec::new(),
            force: false,
            adopt: false,
            label: String::new(),
            output: String::new(),
            opened_hook: None,
            code: String::new(),
            dropped_files: Vec::new(),
            push_files: None,
            new_hook_type: HookType::Post,
            refresh: RefreshScheduler::new(),
        };
        assert(session.groups.deep_view() =~= Seq::empty());
        assert(session.exclude.deep_view() =~= Seq::empty());
        assert(session.dropped_files.deep_view() =~= Seq::empty());
        session
    }
}

/// A failed scan changes nothing but the log: the found groups stay as
/// they were, and the diagnostic text is appended to the log all the same.
pub proof fn lemma_failed_scan_keeps_groups(s: SessionView, error: ScanError, diagnostic: Seq<char>)
    ensures
        after_merge(s, Err(error), diagnostic).found_groups == s.found_groups,
        after_merge(s, Err(error), diagnostic) == (SessionView {
            output: s.output + diagnostic,
            ..s
        }),
{
}

/// A scan that succeeded replaces the found groups as a whole, and leaves
/// the selection to the operator.
pub proof fn lemma_scan_replaces_groups(
    s: SessionView,
    groups: Seq<Seq<char>>,
    diagnostic: Seq<char>,
)
    ensures
        after_merge(s, Ok(groups), diagnostic).found_groups == Some(groups),
        after_merge(s, Ok(groups), diagnostic).groups == s.groups,
{
}

/// Saving a session and restoring it gives the session back, but for the
/// parts that are not saved: the log and the dropped files are empty, and
/// the scheduler starts anew.
pub proof fn lemma_persist_round_trip(s: SessionView)
    ensures
        restored_from(persisted_of(s)) == (SessionView {
            output: initial_session().output,
            dropped_files: initial_session().dropped_files,
            refresh: initial_session().refresh,
            ..s
        }),
        persisted_of(restored_from(persisted_of(s))) == persisted_of(s),
{
}

/// Restoring a saved part and saving again gives the saved part back.
pub proof fn lemma_restore_then_persist(p: PersistedView)
    ensures
        persisted_of(restored_from(p)) == p,
{
}

/// The exclusions and the flags survive a change of page: the page that
/// opens for `next` is the same whether or not another page was opened
/// before it, and it holds what the session holds.
pub proof fn lemma_shared_fields_survive_switch(s: SessionView, first: PageKind, next: PageKind)
    ensures
        page_for(next, SessionView { page: page_for(first, s), ..s }) == page_for(next, s),
        page_for(next, s) matches PageView::Add { exclude, force, adopt } ==> exclude == s.exclude
            && force == s.force && adopt == s.adopt,
        page_for(next, s) matches PageView::SetHooks { exclude, force, adopt } ==> exclude
            == s.exclude && force == s.force && adopt == s.adopt,
        page_for(next, s) matches PageView::Remove { exclude } ==> exclude == s.exclude,
{
}

/// Through a session an action never lacks a group: with nothing selected
/// it runs on the name that stands for all groups.
pub proof fn lemma_resolved_never_empty(selection: Seq<Seq<char>>)
    ensures
        resolved(selection).len() > 0,
        selection.len() > 0 ==> resolved(selection) == selection,
        selection.len() == 0 ==> resolved(selection) == seq![all_groups()],
{
}

} // verus!
