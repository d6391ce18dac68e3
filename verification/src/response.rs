//! The reply of the model: an ordered list of commit suggestions, or the
//! message of a failure; and the text that a suggestion is rendered to.

use vstd::prelude::*;
use vstd::string::*;

verus! {

/// The kind of change a suggested commit makes.
#[derive(Clone, Copy, Debug, PartialEq, Eq)]
pub enum Prefix {
    Feat,
    Fix,
    Refactor,
    Style,
    Test,
    Docs,
    Build,
    Ci,
    Chore,
}

impl Prefix {
    /// The word written for the kind, with or without a capital.
    pub open spec fn label(self, capitalize: bool) -> Seq<char> {
        match self {
            Prefix::Feat => if capitalize { "Feat"@ } else { "feat"@ },
            Prefix::Fix => if capitalize { "Fix"@ } else { "fix"@ },
            Prefix::Refactor => if capitalize { "Refactor"@ } else { "refactor"@ },
            Prefix::Style => if capitalize { "Style"@ } else { "style"@ },
            Prefix::Test => if capitalize { "Test"@ } else { "test"@ },
            Prefix::Docs => if capitalize { "Docs"@ } else { "docs"@ },
            Prefix::Build => if capitalize { "Build"@ } else { "build"@ },
            Prefix::Ci => if capitalize { "Ci"@ } else { "ci"@ },
            Prefix::Chore => if capitalize { "Chore"@ } else { "chore"@ },
        }
    }

    /// The word as a string slice.
    pub fn as_str(self, capitalize: bool) -> (word: &'static str)
        ensures
            word@ == self.label(capitalize),
    {
        match self {
            Prefix::Feat => if capitalize { "Feat" } else { "feat" },
            Prefix::Fix => if capitalize { "Fix" } else { "fix" },
            Prefix::Refactor => if capitalize { "Refactor" } else { "refactor" },
            Prefix::Style => if capitalize { "Style" } else { "style" },
            Prefix::Test => if capitalize { "Test" } else { "test" },
            Prefix::Docs => if capitalize { "Docs" } else { "docs" },
            Prefix::Build => if capitalize { "Build" } else { "build" },
            Prefix::Ci => if capitalize { "Ci" } else { "ci" },
            Prefix::Chore => if capitalize { "Chore" } else { "chore" },
        }
    }
}

/// One suggested commit.
#[derive(Clone, Debug, PartialEq, Eq)]
pub struct CommitSuggestion {
    pub prefix: Prefix,
    pub scope: String,
    pub subject: String,
    pub body: String,
}

/// The one-line prefix of a suggestion: the kind's word, followed by the
/// scope in parentheses where scopes are asked for and the scope is not
/// empty.
pub open spec fn prefix_line(
    commit: CommitSuggestion,
    capitalize: bool,
    include_scope: bool,
) -> Seq<char> {
    if include_scope && commit.scope@.len() > 0 {
        commit.prefix.label(capitalize) + "("@ + commit.scope@ + ")"@
    } else {
        commit.prefix.label(capitalize)
    }
}

/// The message of the commit made from a suggestion: the prefix line, a
/// colon and a space, the subject and, where the body is not empty, a
/// blank line and the body.
pub open spec fn commit_message(
    commit: CommitSuggestion,
    capitalize: bool,
    include_scope: bool,
) -> Seq<char> {
    let head = prefix_line(commit, capitalize, include_scope) + ": "@ + commit.subject@;
    if commit.body@.len() > 0 {
        head + "\n\n"@ + commit.body@
    } else {
        head
    }
}

impl CommitSuggestion {
    /// An equal suggestion.
    pub fn duplicate(&self) -> (copy: CommitSuggestion)
        ensures
            copy == *self,
    {
        CommitSuggestion {
            prefix: self.prefix,
            scope: self.scope.clone(),
            subject: self.subject.clone(),
            body: self.body.clone(),
        }
    }

    /// The one-line prefix under the two formatting flags.
    pub fn get_commit_prefix(&self, capitalize_prefix: bool, include_scope: bool) -> (line: String)
        ensures
            line@ == prefix_line(*self, capitalize_prefix, include_scope),
    {
        let mut line = self.prefix.as_str(capitalize_prefix).to_owned();
        if include_scope && !self.scope.as_str().is_empty() {
            line.append("(");
            line.append(self.scope.as_str());
            line.append(")");
        }
        line
    }
}

/// The suggestions of a successful reply, in the order given.
#[derive(Clone, Debug, PartialEq, Eq)]
pub struct ResponseSchema {
    pub commits: Vec<CommitSuggestion>,
}

/// A completed reply: the suggestions, or the message of the failure.
#[derive(Debug, PartialEq, Eq)]
pub struct Response {
    pub result: Result<ResponseSchema, String>,
}

/// A commit to be made.
#[derive(Clone, Debug, PartialEq, Eq)]
pub struct GaiCommit {
    pub message: String,
}

impl GaiCommit {
    /// The commit made from a suggestion under the two formatting flags.
    pub fn from_response(
        commit: &CommitSuggestion,
        capitalize_prefix: bool,
        include_scope: bool,
    ) -> (request: GaiCommit)
        ensures
            request.message@ == commit_message(*commit, capitalize_prefix, include_scope),
    {
        let mut message = commit.get_commit_prefix(capitalize_prefix, include_scope);
        message.append(": ");
        message.append(commit.subject.as_str());
        if !commit.body.as_str().is_empty() {
            message.append("\n\n");
            message.append(commit.body.as_str());
        }
        GaiCommit { message }
    }
}

/// The messages of the commits made from `commits`, in order.
pub open spec fn commit_messages(
    commits: Seq<CommitSuggestion>,
    capitalize: bool,
    include_scope: bool,
) -> Seq<Seq<char>> {
    Seq::new(commits.len(), |i: int| commit_message(commits[i], capitalize, include_scope))
}

/// The messages of a batch of commits, in order.
pub open spec fn messages_view(batch: Seq<GaiCommit>) -> Seq<Seq<char>> {
    Seq::new(batch.len(), |i: int| batch[i].message@)
}

/// The prefix lines of `commits`, in order.
pub open spec fn prefix_lines(
    commits: Seq<CommitSuggestion>,
    capitalize: bool,
    include_scope: bool,
) -> Seq<Seq<char>> {
    Seq::new(commits.len(), |i: int| prefix_line(commits[i], capitalize, include_scope))
}

} // verus!
