//! The kind of change recorded for a file.

use vstd::prelude::*;
use crate::text::str_eq;

verus! {

/// What happened to a file between two snapshots.
#[derive(Debug, Clone, Copy, PartialEq, Eq, Structural)]
pub enum FileAction {
    Create,
    Modify,
    Delete,
}

/// The stored name of an action.
pub open spec fn spec_action_name(a: FileAction) -> Seq<char> {
    match a {
        FileAction::Create => "create"@,
        FileAction::Modify => "modify"@,
        FileAction::Delete => "delete"@,
    }
}

/// The action a stored name denotes, if any.
pub open spec fn spec_parse_action(s: Seq<char>) -> Option<FileAction> {
    if s == "create"@ {
        Some(FileAction::Create)
    } else if s == "modify"@ {
        Some(FileAction::Modify)
    } else if s == "delete"@ {
        Some(FileAction::Delete)
    } else {
        None
    }
}

impl FileAction {
    /// The name under which the action is stored.
    pub fn as_str(&self) -> (s: &'static str)
        ensures
            s@ == spec_action_name(*self),
            *self == FileAction::Create ==> s@ == "create"@,
            *self == FileAction::Modify ==> s@ == "modify"@,
            *self == FileAction::Delete ==> s@ == "delete"@,
    {
        match self {
            FileAction::Create => "create",
            FileAction::Modify => "modify",
            FileAction::Delete => "delete",
        }
    }

    /// Reads a stored action name; `None` for any other text.
    pub fn parse(value: &str) -> (r: Option<FileAction>)
        ensures
            r == spec_parse_action(value@),
            value@ == "create"@ ==> r == Some(FileAction::Create),
            value@ == "modify"@ ==> r == Some(FileAction::Modify),
            value@ == "delete"@ ==> r == Some(FileAction::Delete),
    {
        proof {
            lemma_action_names_distinct();
        }
        if str_eq(value, "create") {
            Some(FileAction::Create)
        } else if str_eq(value, "modify") {
            Some(FileAction::Modify)
        } else if str_eq(value, "delete") {
            Some(FileAction::Delete)
        } else {
            None
        }
    }
}

/// The three stored names are pairwise distinct.
pub proof fn lemma_action_names_distinct()
    ensures
        "create"@ != "modify"@,
        "create"@ != "delete"@,
        "modify"@ != "delete"@,
{
    reveal_strlit("create");
    reveal_strlit("modify");
    reveal_strlit("delete");
    assert("create"@[0] != "modify"@[0]);
    assert("create"@[0] != "delete"@[0]);
    assert("modify"@[0] != "delete"@[0]);
}

/// Reading back the stored name of an action gives the action.
pub proof fn lemma_parse_as_str(a: FileAction)
    ensures
        spec_parse_action(spec_action_name(a)) == Some(a),
{
    lemma_action_names_distinct();
}

/// A name that parses is exactly the stored name of what it parses to.
pub proof fn lemma_parse_only_stored_names(s: Seq<char>)
    ensures
        spec_parse_action(s) matches Some(a) ==> spec_action_name(a) == s,
{
}

} // verus!
