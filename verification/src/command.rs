//! The instruction handed to the command engine, and the reasons why an
//! action may yield none.

use vstd::prelude::*;

verus! {

/// A fully resolved instruction for the command engine.
#[derive(Clone, Debug, PartialEq, Eq)]
#[allow(inconsistent_fields)]
pub enum Command {
    /// Report the deployment status. `groups` limits the report; `None`
    /// reports on everything.
    Status { groups: Option<Vec<String>> },
    /// Deploy the files of `groups`, leaving out `exclude`.
    Add { groups: Vec<String>, exclude: Vec<String>, force: bool, adopt: bool },
    /// Deploy `groups` and run their hooks, leaving out `exclude`.
    SetHooks { groups: Vec<String>, exclude: Vec<String>, force: bool, adopt: bool },
    /// Remove the deployed files of `groups`, leaving out `exclude`.
    Remove { groups: Vec<String>, exclude: Vec<String> },
    /// Copy `files` into `group`.
    Push { group: String, files: Vec<String> },
    /// Remove `groups` from the repository.
    Pop { groups: Vec<String> },
    /// Set up an empty repository.
    Init,
}

/// What a [`Command`] says, with every string as its characters.
#[allow(inconsistent_fields)]
pub enum CommandView {
    Status { groups: Option<Seq<Seq<char>>> },
    Add { groups: Seq<Seq<char>>, exclude: Seq<Seq<char>>, force: bool, adopt: bool },
    SetHooks { groups: Seq<Seq<char>>, exclude: Seq<Seq<char>>, force: bool, adopt: bool },
    Remove { groups: Seq<Seq<char>>, exclude: Seq<Seq<char>> },
    Push { group: Seq<char>, files: Seq<Seq<char>> },
    Pop { groups: Seq<Seq<char>> },
    Init,
}

impl View for Command {
    type V = CommandView;

    open spec fn view(&self) -> CommandView {
        match *self {
            Command::Status { groups } => CommandView::Status { groups: groups.deep_view() },
            Command::Add { groups, exclude, force, adopt } => CommandView::Add {
                groups: groups.deep_view(),
                exclude: exclude.deep_view(),
                force,
                adopt,
            },
            Command::SetHooks { groups, exclude, force, adopt } => CommandView::SetHooks {
                groups: groups.deep_view(),
                exclude: exclude.deep_view(),
                force,
                adopt,
            },
            Command::Remove { groups, exclude } => CommandView::Remove {
                groups: groups.deep_view(),
                exclude: exclude.deep_view(),
            },
            Command::Push { group, files } => CommandView::Push {
                group: group@,
                files: files.deep_view(),
            },
            Command::Pop { groups } => CommandView::Pop { groups: groups.deep_view() },
            Command::Init => CommandView::Init,
        }
    }
}

impl DeepView for Command {
    type V = CommandView;

    open spec fn deep_view(&self) -> CommandView {
        self@
    }
}

/// Why an action produced no command.
#[derive(Clone, Debug, PartialEq, Eq)]
pub enum TranslationError {
    /// The help page is active: show the carried text instead of running
    /// anything.
    ShowHelp(String),
    /// A push was requested before any file was picked.
    NoPathSelected,
    /// A push was requested with no group to push into.
    NoGroupSelected,
    /// The active page is served by the hook editor and never reaches the
    /// command engine.
    NotDispatchable,
}

/// What a [`TranslationError`] says, with the help text as its characters.
pub enum TranslationErrorView {
    ShowHelp(Seq<char>),
    NoPathSelected,
    NoGroupSelected,
    NotDispatchable,
}

impl View for TranslationError {
    type V = TranslationErrorView;

    open spec fn view(&self) -> TranslationErrorView {
        match *self {
            TranslationError::ShowHelp(text) => TranslationErrorView::ShowHelp(text@),
            TranslationError::NoPathSelected => TranslationErrorView::NoPathSelected,
            TranslationError::NoGroupSelected => TranslationErrorView::NoGroupSelected,
            TranslationError::NotDispatchable => TranslationErrorView::NotDispatchable,
        }
    }
}

/// The text of the help page.
pub const HELP_TEXT: &'static str = "Tuckr UI\n\
\n\
Pick an action, pick the groups it applies to, then press Execute.\n\
With no group picked the action applies to every group.\n\
\n\
Add     link the files of the groups into place\n\
Rm      remove the links of the groups\n\
Set     link the groups and run their hooks\n\
Push    copy the picked files into the first picked group\n\
Pop     delete the groups from the repository\n\
Status  show what is linked and what is not\n\
Init    create an empty repository\n\
Hooks   open, edit and save hook scripts\n\
\n\
Force overrides files on the system that are in the way.\n\
Adopt keeps the files on the system and takes them into the repository.\n";

/// The text of the help page, as a sequence of characters.
pub open spec fn help_text() -> Seq<char> {
    HELP_TEXT@
}

/// The text of the help page, for display.
pub fn help_page() -> (text: String)
    ensures
        text@ == help_text(),
{
    HELP_TEXT.to_owned()
}

/// The message that stands for `error` in the output log.
pub open spec fn message_text(error: TranslationErrorView) -> Seq<char> {
    match error {
        TranslationErrorView::ShowHelp(text) => text,
        TranslationErrorView::NoPathSelected => "select a path"@,
        TranslationErrorView::NoGroupSelected => "select a group"@,
        TranslationErrorView::NotDispatchable => "editer"@,
    }
}

/// Whether `error` asks the operator to select something, and so also
/// becomes the prompt label.
pub open spec fn is_prompt(error: TranslationErrorView) -> bool {
    error is NoPathSelected || error is NoGroupSelected
}

impl TranslationError {
    /// The short message shown to the operator for this error.
    pub fn message(&self) -> (text: String)
        ensures
            text@ == message_text(self@),
    {
        match self {
            TranslationError::ShowHelp(text) => text.clone(),
            TranslationError::NoPathSelected => "select a path".to_owned(),
            TranslationError::NoGroupSelected => "select a group".to_owned(),
            TranslationError::NotDispatchable => "editer".to_owned(),
        }
    }

    /// Whether this error asks the operator to select something.
    pub fn prompts(&self) -> (asks: bool)
        ensures
            asks == is_prompt(self@),
    {
        match self {
            TranslationError::NoPathSelected => true,
            TranslationError::NoGroupSelected => true,
            _ => false,
        }
    }
}

} // verus!
