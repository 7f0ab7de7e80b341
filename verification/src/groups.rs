//! Finding the groups of a dotfiles repository.
//!
//! A group is a directory directly under the `Configs` directory of the
//! repository. The caller reads that directory; this module says which of
//! its entries are groups.

use vstd::prelude::*;

verus! {

/// The directory of a repository whose subdirectories are its groups.
pub const CONFIGS_DIR: &'static str = "Configs";

/// The directory of a repository that holds its hook scripts.
pub const HOOKS_DIR: &'static str = "Hooks";

/// Why a scan found no groups.
#[derive(Clone, Copy, Debug, PartialEq, Eq)]
pub enum ScanError {
    /// There is no repository, or its `Configs` directory cannot be read.
    NoSetupFolder,
}

/// One entry of a directory.
#[derive(Clone, Debug, PartialEq, Eq)]
pub struct DirEntry {
    /// The bare name of the entry, without the directories above it.
    pub name: String,
    /// Whether the entry is itself a directory.
    pub is_dir: bool,
}

/// What a [`DirEntry`] holds, with its name as characters.
pub struct DirEntryView {
    pub name: Seq<char>,
    pub is_dir: bool,
}

impl View for DirEntry {
    type V = DirEntryView;

    open spec fn view(&self) -> DirEntryView {
        DirEntryView { name: self.name@, is_dir: self.is_dir }
    }
}

impl DeepView for DirEntry {
    type V = DirEntryView;

    open spec fn deep_view(&self) -> DirEntryView {
        self@
    }
}

/// What reading the `Configs` directory of the repository gave.
#[derive(Clone, Debug, PartialEq, Eq)]
pub enum Listing {
    /// No repository could be located.
    NoRoot,
    /// The repository is there, but its `Configs` directory is missing, is
    /// no directory, or may not be read.
    Unreadable,
    /// The entries of the `Configs` directory, in the order in which the
    /// file system handed them out.
    Entries(Vec<DirEntry>),
}

/// The names of the directories among `entries`, in the order of `entries`.
pub open spec fn directory_names(entries: Seq<DirEntryView>) -> Seq<Seq<char>> {
    entries.filter(|entry: DirEntryView| entry.is_dir).map_values(|entry: DirEntryView| entry.name)
}

/// The groups that a listing of the `Configs` directory shows: every entry
/// that is a directory, by its bare name, in the order of the listing.
/// Without a listing there is no set-up repository to speak of.
pub fn load_groups(listing: Listing) -> (found: Result<Vec<String>, ScanError>)
    ensures
        listing is NoRoot || listing is Unreadable ==> found == Err::<Vec<String>, ScanError>(
            ScanError::NoSetupFolder,
        ),
        listing matches Listing::Entries(entries) ==> (found matches Ok(groups)
            && groups.deep_view() == directory_names(entries.deep_view())),
{
    match listing {
        Listing::NoRoot => Err(ScanError::NoSetupFolder),
        Listing::Unreadable => Err(ScanError::NoSetupFolder),
        Listing::Entries(entries) => {
            let ghost views = entries.deep_view();
            let mut groups: Vec<String> = Vec::new();
            let mut i: usize = 0;
            assert(directory_names(views.take(0)) =~= groups.deep_view()) by {
                reveal(Seq::filter);
            }
            while i < entries.len()
                invariant
                    i <= entries.len(),
                    views == entries.deep_view(),
                    groups.deep_view() == directory_names(views.take(i as int)),
                decreases entries.len() - i,
            {
                let entry = &entries[i];
                let ghost before = groups.deep_view();
                if entry.is_dir {
                    groups.push(entry.name.clone());
                    assert(groups.deep_view() =~= before.push(entry.name@));
                }
                proof {
                    let shorter = views.take(i as int);
                    let longer = views.take(i + 1);
                    assert(longer.drop_last() =~= shorter);
                    reveal(Seq::filter);
                    assert(groups.deep_view() =~= directory_names(longer));
                }
                i += 1;
            }
            assert(views.take(i as int) =~= views);
            Ok(groups)
        },
    }
}

} // verus!
