//! The stage at which a hook script runs.

use vstd::prelude::*;

verus! {

/// Whether a hook script runs before or after a group is deployed.
#[derive(Clone, Copy, Debug, PartialEq, Eq)]
pub enum HookType {
    Pre,
    Post,
}

impl HookType {
    /// The label shown for this stage, as a sequence of characters.
    pub open spec fn label_text(self) -> Seq<char> {
        match self {
            HookType::Pre => "Pre"@,
            HookType::Post => "Post"@,
        }
    }

    /// The file name proposed for a new script of this stage.
    pub open spec fn script_name_text(self) -> Seq<char> {
        match self {
            HookType::Pre => "pre.sh"@,
            HookType::Post => "post.sh"@,
        }
    }

    /// The label shown for this stage in the stage selector.
    pub fn label(&self) -> (text: String)
        ensures
            text@ == self.label_text(),
    {
        match self {
            HookType::Pre => "Pre".to_owned(),
            HookType::Post => "Post".to_owned(),
        }
    }

    /// The file name proposed when the operator creates a new hook script:
    /// the stage in lower case, with the shell extension.
    pub fn script_name(&self) -> (name: String)
        ensures
            name@ == self.script_name_text(),
    {
        match self {
            HookType::Pre => "pre.sh".to_owned(),
            HookType::Post => "post.sh".to_owned(),
        }
    }
}

impl Default for HookType {
    /// New scripts run after deployment unless the operator says otherwise.
    fn default() -> (stage: Self)
        ensures
            stage == HookType::Post,
    {
        HookType::Post
    }
}

} // verus!
