//! The page the operator has open, and how it turns into a command.

use crate::command::{help_page, help_text, Command, CommandView, TranslationError, TranslationErrorView};
use crate::text::clone_strings;
use vstd::prelude::*;

verus! {

/// The page the operator has open: one action, with the parameters that
/// this action needs and no others.
#[derive(Debug, PartialEq, Eq)]
pub enum Page {
    /// The help page.
    Help,
    /// The deployment status.
    Status,
    /// Deploy groups.
    Add { exclude: Vec<String>, force: bool, adopt: bool },
    /// Remove deployed groups.
    Remove { exclude: Vec<String> },
    /// Deploy groups and run their hooks.
    SetHooks { exclude: Vec<String>, force: bool, adopt: bool },
    /// Copy files into a group. `files` is `None` until files were picked.
    Push { files: Option<Vec<String>> },
    /// Remove groups from the repository.
    Pop,
    /// Set up an empty repository.
    Init,
    /// Create and edit hook scripts.
    EditHooks,
}

/// What a [`Page`] holds, with every string as its characters.
pub enum PageView {
    Help,
    Status,
    Add { exclude: Seq<Seq<char>>, force: bool, adopt: bool },
    Remove { exclude: Seq<Seq<char>> },
    SetHooks { exclude: Seq<Seq<char>>, force: bool, adopt: bool },
    Push { files: Option<Seq<Seq<char>>> },
    Pop,
    Init,
    EditHooks,
}

impl View for Page {
    type V = PageView;

    open spec fn view(&self) -> PageView {
        match *self {
            Page::Help => PageView::Help,
            Page::Status => PageView::Status,
            Page::Add { exclude, force, adopt } => PageView::Add {
                exclude: exclude.deep_view(),
                force,
                adopt,
            },
            Page::Remove { exclude } => PageView::Remove { exclude: exclude.deep_view() },
            Page::SetHooks { exclude, force, adopt } => PageView::SetHooks {
                exclude: exclude.deep_view(),
                force,
                adopt,
            },
            Page::Push { files } => PageView::Push { files: files.deep_view() },
            Page::Pop => PageView::Pop,
            Page::Init => PageView::Init,
            Page::EditHooks => PageView::EditHooks,
        }
    }
}

/// The action of a page, without its parameters.
#[derive(Clone, Copy, Debug, PartialEq, Eq)]
pub enum PageKind {
    Help,
    Status,
    Add,
    Remove,
    SetHooks,
    Push,
    Pop,
    Init,
    EditHooks,
}

/// The action that `page` stands for.
pub open spec fn kind_of(page: PageView) -> PageKind {
    match page {
        PageView::Help => PageKind::Help,
        PageView::Status => PageKind::Status,
        PageView::Add { .. } => PageKind::Add,
        PageView::Remove { .. } => PageKind::Remove,
        PageView::SetHooks { .. } => PageKind::SetHooks,
        PageView::Push { .. } => PageKind::Push,
        PageView::Pop => PageKind::Pop,
        PageView::Init => PageKind::Init,
        PageView::EditHooks => PageKind::EditHooks,
    }
}

/// The label of an action in the action selector.
pub open spec fn label_text(kind: PageKind) -> Seq<char> {
    match kind {
        PageKind::Help => "Help"@,
        PageKind::Status => "Status"@,
        PageKind::Add => "Add"@,
        PageKind::Remove => "Rm"@,
        PageKind::SetHooks => "Set"@,
        PageKind::Push => "Push"@,
        PageKind::Pop => "Pop"@,
        PageKind::Init => "Init"@,
        PageKind::EditHooks => "Hooks"@,
    }
}

/// How many groups the group selector lets the operator pick for an action.
/// A push goes into one group; every other action takes as many as the
/// selector can hold.
pub open spec fn selection_limit_of(kind: PageKind) -> u8 {
    if kind == PageKind::Push {
        1
    } else {
        255
    }
}

/// Whether the panel offers to run the page of `kind`. The hook editor is
/// served by its own buttons and is never run.
pub open spec fn is_runnable(kind: PageKind) -> bool {
    kind != PageKind::EditHooks
}

/// The command that `page` stands for when it is run on `groups`, or the
/// reason why it stands for none.
///
/// A push checks for picked files first and for a group second, and goes
/// into the first of `groups` only.
pub open spec fn translate(page: PageView, groups: Seq<Seq<char>>) -> Result<
    CommandView,
    TranslationErrorView,
> {
    match page {
        PageView::Help => Err(TranslationErrorView::ShowHelp(help_text())),
        PageView::Status => Ok(CommandView::Status { groups: None }),
        PageView::Add { exclude, force, adopt } => Ok(
            CommandView::Add { groups, exclude, force, adopt },
        ),
        PageView::Remove { exclude } => Ok(CommandView::Remove { groups, exclude }),
        PageView::SetHooks { exclude, force, adopt } => Ok(
            CommandView::SetHooks { groups, exclude, force, adopt },
        ),
        PageView::Push { files } => match files {
            None => Err(TranslationErrorView::NoPathSelected),
            Some(files) => if groups.len() == 0 {
                Err(TranslationErrorView::NoGroupSelected)
            } else {
                Ok(CommandView::Push { group: groups[0], files })
            },
        },
        PageView::Pop => Ok(CommandView::Pop { groups }),
        PageView::Init => Ok(CommandView::Init),
        PageView::EditHooks => Err(TranslationErrorView::NotDispatchable),
    }
}

/// What the result of a translation says, with every string as its
/// characters.
pub open spec fn outcome_view(outcome: Result<Command, TranslationError>) -> Result<
    CommandView,
    TranslationErrorView,
> {
    match outcome {
        Ok(command) => Ok(command@),
        Err(error) => Err(error@),
    }
}

impl PageKind {
    /// The label of this action in the action selector.
    pub fn label(&self) -> (text: String)
        ensures
            text@ == label_text(*self),
    {
        match self {
            PageKind::Help => "Help".to_owned(),
            PageKind::Status => "Status".to_owned(),
            PageKind::Add => "Add".to_owned(),
            PageKind::Remove => "Rm".to_owned(),
            PageKind::SetHooks => "Set".to_owned(),
            PageKind::Push => "Push".to_owned(),
            PageKind::Pop => "Pop".to_owned(),
            PageKind::Init => "Init".to_owned(),
            PageKind::EditHooks => "Hooks".to_owned(),
        }
    }
}

impl Page {
    /// The action of this page, without its parameters.
    pub fn kind(&self) -> (kind: PageKind)
        ensures
            kind == kind_of(self@),
    {
        match self {
            Page::Help => PageKind::Help,
            Page::Status => PageKind::Status,
            Page::Add { .. } => PageKind::Add,
            Page::Remove { .. } => PageKind::Remove,
            Page::SetHooks { .. } => PageKind::SetHooks,
            Page::Push { .. } => PageKind::Push,
            Page::Pop => PageKind::Pop,
            Page::Init => PageKind::Init,
            Page::EditHooks => PageKind::EditHooks,
        }
    }

    /// The label of this page in the action selector.
    pub fn label(&self) -> (text: String)
        ensures
            text@ == label_text(kind_of(self@)),
    {
        self.kind().label()
    }

    /// How many groups the group selector lets the operator pick on this
    /// page.
    pub fn selection_limit(&self) -> (limit: u8)
        ensures
            limit == selection_limit_of(kind_of(self@)),
    {
        match self {
            Page::Push { .. } => 1,
            _ => 255,
        }
    }

    /// Whether the panel offers to run this page.
    pub fn runnable(&self) -> (offered: bool)
        ensures
            offered == is_runnable(kind_of(self@)),
    {
        match self {
            Page::EditHooks => false,
            _ => true,
        }
    }

    /// Turns the page into the command it stands for when run on `groups`.
    ///
    /// The help page and the hook editor never yield a command. The status
    /// page ignores `groups`. A push needs picked files (an empty list of
    /// them will do) and goes into the first of `groups`.
    pub fn into_cli(self, groups: Vec<String>) -> (outcome: Result<Command, TranslationError>)
        ensures
            outcome_view(outcome) == translate(self@, groups.deep_view()),
    {
        match self {
            Page::Help => Err(TranslationError::ShowHelp(help_page())),
            Page::Status => Ok(Command::Status { groups: None }),
            Page::Add { exclude, force, adopt } => Ok(
                Command::Add { groups, exclude, force, adopt },
            ),
            Page::Remove { exclude } => Ok(Command::Remove { groups, exclude }),
            Page::SetHooks { exclude, force, adopt } => Ok(
                Command::SetHooks { groups, exclude, force, adopt },
            ),
            Page::Push { files } => match files {
                None => Err(TranslationError::NoPathSelected),
                Some(files) => {
                    if groups.len() == 0 {
                        Err(TranslationError::NoGroupSelected)
                    } else {
                        let group = groups[0].clone();
                        Ok(Command::Push { group, files })
                    }
                },
            },
            Page::Pop => Ok(Command::Pop { groups }),
            Page::Init => Ok(Command::Init),
            Page::EditHooks => Err(TranslationError::NotDispatchable),
        }
    }
}

impl Clone for Page {
    /// A copy of the page that holds the same parameters.
    fn clone(&self) -> (copy: Self)
        ensures
            copy@ == self@,
    {
        match self {
            Page::Help => Page::Help,
            Page::Status => Page::Status,
            Page::Add { exclude, force, adopt } => Page::Add {
                exclude: clone_strings(exclude),
                force: *force,
                adopt: *adopt,
            },
            Page::Remove { exclude } => Page::Remove { exclude: clone_strings(exclude) },
            Page::SetHooks { exclude, force, adopt } => Page::SetHooks {
                exclude: clone_strings(exclude),
                force: *force,
                adopt: *adopt,
            },
            Page::Push { files } => Page::Push {
                files: match files {
                    Some(files) => Some(clone_strings(files)),
                    None => None,
                },
            },
            Page::Pop => Page::Pop,
            Page::Init => Page::Init,
            Page::EditHooks => Page::EditHooks,
        }
    }
}

impl Default for Page {
    /// The panel opens on the help page.
    fn default() -> (page: Self)
        ensures
            page@ == PageView::Help,
    {
        Page::Help
    }
}

/// The pages that deploy or remove groups always yield a command when at
/// least one group is given, and the command carries the page's exclusions
/// and flags as the page holds them.
pub proof fn lemma_group_actions_always_translate(page: PageView, groups: Seq<Seq<char>>)
    requires
        page is Add || page is Remove || page is SetHooks,
        groups.len() > 0,
    ensures
        translate(page, groups) is Ok,
        page matches PageView::Add { exclude, force, adopt } ==> translate(page, groups) == Ok::<
            CommandView,
            TranslationErrorView,
        >(CommandView::Add { groups, exclude, force, adopt }),
        page matches PageView::SetHooks { exclude, force, adopt } ==> translate(page, groups)
            == Ok::<CommandView, TranslationErrorView>(
            CommandView::SetHooks { groups, exclude, force, adopt },
        ),
        page matches PageView::Remove { exclude } ==> translate(page, groups) == Ok::<
            CommandView,
            TranslationErrorView,
        >(CommandView::Remove { groups, exclude }),
{
}

/// A push without picked files fails for want of a path, whatever the
/// groups; with picked files it fails for want of a group exactly when no
/// group is given, and otherwise goes into the first group with the files
/// as picked, be they none at all.
pub proof fn lemma_push_translation(files: Option<Seq<Seq<char>>>, groups: Seq<Seq<char>>)
    ensures
        files is None ==> translate(PageView::Push { files }, groups) == Err::<
            CommandView,
            TranslationErrorView,
        >(TranslationErrorView::NoPathSelected),
        files is Some && groups.len() == 0 ==> translate(PageView::Push { files }, groups)
            == Err::<CommandView, TranslationErrorView>(TranslationErrorView::NoGroupSelected),
        files is Some && groups.len() > 0 ==> translate(PageView::Push { files }, groups) == Ok::<
            CommandView,
            TranslationErrorView,
        >(CommandView::Push { group: groups[0], files: files->0 }),
{
}

/// The status page yields the same command for every selection of groups:
/// a report on everything.
pub proof fn lemma_status_ignores_groups(groups: Seq<Seq<char>>, others: Seq<Seq<char>>)
    ensures
        translate(PageView::Status, groups) == translate(PageView::Status, others),
        translate(PageView::Status, groups) == Ok::<CommandView, TranslationErrorView>(
            CommandView::Status { groups: None },
        ),
{
}

/// The pages that the panel does not offer to run are those that are not
/// dispatched, whatever the groups.
pub proof fn lemma_not_runnable_is_not_dispatched(page: PageView, groups: Seq<Seq<char>>)
    ensures
        !is_runnable(kind_of(page)) <==> translate(page, groups) == Err::<
            CommandView,
            TranslationErrorView,
        >(TranslationErrorView::NotDispatchable),
{
}

/// The help page never yields a command: it asks for the help text to be
/// shown, whatever the groups.
pub proof fn lemma_help_shows_help(groups: Seq<Seq<char>>)
    ensures
        translate(PageView::Help, groups) == Err::<CommandView, TranslationErrorView>(
            TranslationErrorView::ShowHelp(help_text()),
        ),
{
}

} // verus!
