//! The closed set of commit types and the order in which they are offered.

use vstd::prelude::*;

verus! {

/// The kind of change a commit makes.
#[derive(Clone, Copy, Debug, PartialEq, Eq, Structural)]
pub enum CommitType {
    Feat,
    Fix,
    Build,
    Chore,
    Ci,
    Docs,
    Perf,
    Refactor,
    Revert,
    Style,
    Test,
}

/// How many commit types there are.
pub const COMMIT_TYPE_COUNT: usize = 11;

/// The commit type that stands at `index` in the list offered for selection,
/// if there is one.
pub open spec fn commit_type_at(index: int) -> Option<CommitType> {
    if index == 0 {
        Some(CommitType::Feat)
    } else if index == 1 {
        Some(CommitType::Fix)
    } else if index == 2 {
        Some(CommitType::Build)
    } else if index == 3 {
        Some(CommitType::Chore)
    } else if index == 4 {
        Some(CommitType::Ci)
    } else if index == 5 {
        Some(CommitType::Docs)
    } else if index == 6 {
        Some(CommitType::Perf)
    } else if index == 7 {
        Some(CommitType::Refactor)
    } else if index == 8 {
        Some(CommitType::Revert)
    } else if index == 9 {
        Some(CommitType::Style)
    } else if index == 10 {
        Some(CommitType::Test)
    } else {
        None
    }
}

/// The names of all commit types, in the order in which they are offered.
pub open spec fn commit_type_names() -> Seq<Seq<char>> {
    Seq::new(COMMIT_TYPE_COUNT as nat, |i: int| commit_type_at(i).unwrap().spec_name())
}

impl CommitType {
    /// The position of this type in the list that is offered for selection.
    pub open spec fn spec_index(self) -> nat {
        match self {
            CommitType::Feat => 0,
            CommitType::Fix => 1,
            CommitType::Build => 2,
            CommitType::Chore => 3,
            CommitType::Ci => 4,
            CommitType::Docs => 5,
            CommitType::Perf => 6,
            CommitType::Refactor => 7,
            CommitType::Revert => 8,
            CommitType::Style => 9,
            CommitType::Test => 10,
        }
    }

    /// The text that stands for this type in prompts and in commit messages.
    pub open spec fn spec_name(self) -> Seq<char> {
        match self {
            CommitType::Feat => seq!['f', 'e', 'a', 't'],
            CommitType::Fix => seq!['f', 'i', 'x'],
            CommitType::Build => seq!['b', 'u', 'i', 'l', 'd'],
            CommitType::Chore => seq!['c', 'h', 'o', 'r', 'e'],
            CommitType::Ci => seq!['c', 'i'],
            CommitType::Docs => seq!['d', 'o', 'c', 's'],
            CommitType::Perf => seq!['p', 'e', 'r', 'f'],
            CommitType::Refactor => seq!['r', 'e', 'f', 'a', 'c', 't', 'o', 'r'],
            CommitType::Revert => seq!['r', 'e', 'v', 'e', 'r', 't'],
            CommitType::Style => seq!['s', 't', 'y', 'l', 'e'],
            CommitType::Test => seq!['t', 'e', 's', 't'],
        }
    }

    /// The position of this type in the list that is offered for selection.
    pub fn index(self) -> (i: usize)
        ensures
            i == self.spec_index(),
            i < COMMIT_TYPE_COUNT,
    {
        match self {
            CommitType::Feat => 0,
            CommitType::Fix => 1,
            CommitType::Build => 2,
            CommitType::Chore => 3,
            CommitType::Ci => 4,
            CommitType::Docs => 5,
            CommitType::Perf => 6,
            CommitType::Refactor => 7,
            CommitType::Revert => 8,
            CommitType::Style => 9,
            CommitType::Test => 10,
        }
    }

    /// The type that stands at `index` in the list offered for selection;
    /// `None` where the list has no such entry.
    pub fn from_index(index: usize) -> (found: Option<CommitType>)
        ensures
            found == commit_type_at(index as int),
            found is Some <==> index < COMMIT_TYPE_COUNT,
            found matches Some(t) ==> t.spec_index() == index,
    {
        match index {
            0 => Some(CommitType::Feat),
            1 => Some(CommitType::Fix),
            2 => Some(CommitType::Build),
            3 => Some(CommitType::Chore),
            4 => Some(CommitType::Ci),
            5 => Some(CommitType::Docs),
            6 => Some(CommitType::Perf),
            7 => Some(CommitType::Refactor),
            8 => Some(CommitType::Revert),
            9 => Some(CommitType::Style),
            10 => Some(CommitType::Test),
            _ => None,
        }
    }

    /// The text that stands for this type in prompts and in commit messages.
    pub fn name(self) -> (text: &'static str)
        ensures
            text@ == self.spec_name(),
    {
        proof {
            reveal_strlit("feat");
            reveal_strlit("fix");
            reveal_strlit("build");
            reveal_strlit("chore");
            reveal_strlit("ci");
            reveal_strlit("docs");
            reveal_strlit("perf");
            reveal_strlit("refactor");
            reveal_strlit("revert");
            reveal_strlit("style");
            reveal_strlit("test");
        }
        match self {
            CommitType::Feat => "feat",
            CommitType::Fix => "fix",
            CommitType::Build => "build",
            CommitType::Chore => "chore",
            CommitType::Ci => "ci",
            CommitType::Docs => "docs",
            CommitType::Perf => "perf",
            CommitType::Refactor => "refactor",
            CommitType::Revert => "revert",
            CommitType::Style => "style",
            CommitType::Test => "test",
        }
    }

    /// All commit types, in the order in which they are offered.
    pub fn all() -> (types: Vec<CommitType>)
        ensures
            types@.len() == COMMIT_TYPE_COUNT,
            forall|i: int| 0 <= i < types@.len() ==> commit_type_at(i) == Some(#[trigger] types@[i]),
    {
        vec![
            CommitType::Feat,
            CommitType::Fix,
            CommitType::Build,
            CommitType::Chore,
            CommitType::Ci,
            CommitType::Docs,
            CommitType::Perf,
            CommitType::Refactor,
            CommitType::Revert,
            CommitType::Style,
            CommitType::Test,
        ]
    }
}

/// Every commit type is found again at its own position.
pub proof fn lemma_index_round_trip(t: CommitType)
    ensures
        t.spec_index() < COMMIT_TYPE_COUNT,
        commit_type_at(t.spec_index() as int) == Some(t),
{
}

/// A position inside the list holds a type whose position it is, and a
/// position outside holds none.
pub proof fn lemma_commit_type_at(index: int)
    ensures
        commit_type_at(index) is Some <==> 0 <= index < COMMIT_TYPE_COUNT,
        commit_type_at(index) matches Some(t) ==> t.spec_index() == index,
{
}

/// Two commit types with the same name are the same type.
pub proof fn lemma_names_distinct(a: CommitType, b: CommitType)
    requires
        a.spec_name() == b.spec_name(),
    ensures
        a == b,
{
    let x = a.spec_name();
    let y = b.spec_name();
    assert(x.len() == y.len());
    assert(x[0] == y[0]);
    assert(x[1] == y[1]);
    assert(x.len() > 2 ==> x[2] == y[2]);
}

} // verus!
