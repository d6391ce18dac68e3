//! The set of pending file diffs and the two path lists derived from it.

use vstd::prelude::*;

verus! {

/// One block of line-level changes of a file. The session carries hunks
/// around and never looks inside.
#[derive(Clone, Debug, PartialEq, Eq)]
pub struct Hunk {
    pub header: String,
    pub text: String,
}

impl Hunk {
    /// An equal hunk.
    pub fn duplicate(&self) -> (copy: Hunk)
        ensures
            copy == *self,
    {
        Hunk { header: self.header.clone(), text: self.text.clone() }
    }
}

/// An equal sequence of hunks.
pub fn duplicate_hunks(hunks: &Vec<Hunk>) -> (copy: Vec<Hunk>)
    ensures
        copy@ == hunks@,
{
    let mut copy: Vec<Hunk> = Vec::new();
    let mut i: usize = 0;
    while i < hunks.len()
        invariant
            i <= hunks.len(),
            copy@ == hunks@.take(i as int),
        decreases hunks.len() - i,
    {
        copy.push(hunks[i].duplicate());
        i += 1;
        assert(copy@ =~= hunks@.take(i as int));
    }
    assert(hunks@.take(hunks.len() as int) =~= hunks@);
    copy
}

/// One pending file: its path, its hunks, and whether the user has asked
/// for its content to be left out of the prompt.
#[derive(Clone, Debug, PartialEq, Eq)]
pub struct DiffEntry {
    pub path: String,
    pub hunks: Vec<Hunk>,
    pub should_truncate: bool,
}

impl DiffEntry {
    /// Both entries hold the same path, hunks and flag.
    pub open spec fn same_as(&self, other: DiffEntry) -> bool {
        &&& self.path == other.path
        &&& self.hunks@ == other.hunks@
        &&& self.should_truncate == other.should_truncate
    }

    /// An entry with the same path, hunks and flag.
    pub fn duplicate(&self) -> (copy: DiffEntry)
        ensures
            copy.same_as(*self),
    {
        DiffEntry {
            path: self.path.clone(),
            hunks: duplicate_hunks(&self.hunks),
            should_truncate: self.should_truncate,
        }
    }
}

/// Entry by entry, `a` and `b` hold the same paths, hunks and flags.
pub open spec fn same_entries(a: Seq<DiffEntry>, b: Seq<DiffEntry>) -> bool {
    &&& a.len() == b.len()
    &&& forall|i: int| 0 <= i < a.len() ==> (#[trigger] a[i]).same_as(b[i])
}

/// The paths of the entries whose flag equals `truncated`, in the order of
/// `files`.
pub open spec fn paths_where(files: Seq<DiffEntry>, truncated: bool) -> Seq<Seq<char>>
    decreases files.len(),
{
    if files.len() == 0 {
        Seq::empty()
    } else {
        let before = paths_where(files.drop_last(), truncated);
        if files.last().should_truncate == truncated {
            before.push(files.last().path@)
        } else {
            before
        }
    }
}

/// The index of the first entry with the given path, or the length of
/// `files` where no entry has it.
pub open spec fn position_of(files: Seq<DiffEntry>, path: Seq<char>) -> int
    decreases files.len(),
{
    if files.len() == 0 {
        0
    } else if files[0].path@ == path {
        0
    } else {
        1 + position_of(files.drop_first(), path)
    }
}

/// No two entries share a path.
pub open spec fn unique_paths(files: Seq<DiffEntry>) -> bool {
    forall|i: int, j: int|
        0 <= i < j < files.len() ==> (#[trigger] files[i]).path@ != (#[trigger] files[j]).path@
}

/// `position_of` is in range, points at a match where it is below the
/// length, and no earlier entry matches.
pub proof fn lemma_position_of(files: Seq<DiffEntry>, path: Seq<char>)
    ensures
        0 <= position_of(files, path) <= files.len(),
        position_of(files, path) < files.len() ==> files[position_of(files, path)].path@ == path,
        forall|j: int| 0 <= j < position_of(files, path) ==> (#[trigger] files[j]).path@ != path,
    decreases files.len(),
{
    if files.len() > 0 && files[0].path@ != path {
        let rest = files.drop_first();
        lemma_position_of(rest, path);
        let p = position_of(rest, path);
        assert forall|j: int| 0 <= j < p + 1 implies (#[trigger] files[j]).path@ != path by {
            if j > 0 {
                assert(rest[j - 1] == files[j]);
            }
        }
        if p < rest.len() {
            assert(rest[p] == files[p + 1]);
        }
    }
}

/// The first index at which the path stands is what `position_of` gives.
pub proof fn lemma_position_is(files: Seq<DiffEntry>, path: Seq<char>, p: int)
    requires
        0 <= p < files.len(),
        files[p].path@ == path,
        forall|j: int| 0 <= j < p ==> (#[trigger] files[j]).path@ != path,
    ensures
        position_of(files, path) == p,
{
    lemma_position_of(files, path);
    let q = position_of(files, path);
    if q > p {
        assert(files[p].path@ != path);
    }
}

/// Every listed path is the path of an entry with the asked flag.
pub proof fn lemma_paths_where_source(files: Seq<DiffEntry>, truncated: bool, i: int)
    requires
        0 <= i < paths_where(files, truncated).len(),
    ensures
        exists|k: int|
            0 <= k < files.len() && (#[trigger] files[k]).should_truncate == truncated
                && files[k].path@ == paths_where(files, truncated)[i],
    decreases files.len(),
{
    let before = paths_where(files.drop_last(), truncated);
    if files.last().should_truncate == truncated && i == before.len() {
        let k = files.len() - 1;
        assert(files[k].should_truncate == truncated && files[k].path@ == paths_where(
            files,
            truncated,
        )[i]);
    } else {
        lemma_paths_where_source(files.drop_last(), truncated, i);
        let k = choose|k: int|
            0 <= k < files.drop_last().len() && (#[trigger] files.drop_last()[k]).should_truncate
                == truncated && files.drop_last()[k].path@ == before[i];
        assert(files[k] == files.drop_last()[k]);
    }
}

/// An entry with the asked flag makes the list non-empty.
pub proof fn lemma_paths_where_nonempty(files: Seq<DiffEntry>, truncated: bool, k: int)
    requires
        0 <= k < files.len(),
        files[k].should_truncate == truncated,
    ensures
        paths_where(files, truncated).len() > 0,
    decreases files.len(),
{
    if k < files.len() - 1 {
        assert(files.drop_last()[k] == files[k]);
        lemma_paths_where_nonempty(files.drop_last(), truncated, k);
    }
}

/// The pending files, and the two formatting flags that the repository's
/// configuration gives for the commits made from them.
#[derive(Clone, Debug, PartialEq, Eq)]
pub struct DiffSet {
    pub files: Vec<DiffEntry>,
    pub capitalize_prefix: bool,
    pub include_scope: bool,
}

impl DiffSet {
    /// No two files share a path.
    pub open spec fn wf(&self) -> bool {
        unique_paths(self.files@)
    }

    /// The paths of the files whose flag equals `truncated`, in order.
    pub fn paths(&self, truncated: bool) -> (list: Vec<String>)
        ensures
            crate::tabs::strings_view(list@) == paths_where(self.files@, truncated),
    {
        let mut list: Vec<String> = Vec::new();
        let mut i: usize = 0;
        while i < self.files.len()
            invariant
                i <= self.files.len(),
                crate::tabs::strings_view(list@) == paths_where(
                    self.files@.take(i as int),
                    truncated,
                ),
            decreases self.files.len() - i,
        {
            let ghost shown = crate::tabs::strings_view(list@);
            if self.files[i].should_truncate == truncated {
                list.push(self.files[i].path.clone());
                assert(crate::tabs::strings_view(list@) =~= shown.push(self.files[i as int].path@));
            }
            i += 1;
            assert(self.files@.take(i as int).drop_last() =~= self.files@.take(i - 1));
        }
        assert(self.files@.take(self.files.len() as int) =~= self.files@);
        list
    }

    /// The index of the first file with the given path.
    pub fn position(&self, path: &String) -> (found: Option<usize>)
        ensures
            match found {
                Some(p) => p < self.files.len() && p == position_of(self.files@, path@),
                None => position_of(self.files@, path@) == self.files.len(),
            },
    {
        let mut i: usize = 0;
        while i < self.files.len()
            invariant
                i <= self.files.len(),
                forall|j: int| 0 <= j < i ==> (#[trigger] self.files[j]).path@ != path@,
            decreases self.files.len() - i,
        {
            if self.files[i].path == *path {
                proof {
                    lemma_position_of(self.files@, path@);
                }
                return Some(i);
            }
            i += 1;
        }
        proof {
            lemma_position_of(self.files@, path@);
        }
        None
    }

    /// A set with the same flags whose files are, entry by entry, the same.
    pub fn snapshot(&self) -> (copy: DiffSet)
        ensures
            same_entries(copy.files@, self.files@),
            copy.capitalize_prefix == self.capitalize_prefix,
            copy.include_scope == self.include_scope,
    {
        let mut files: Vec<DiffEntry> = Vec::new();
        let mut i: usize = 0;
        while i < self.files.len()
            invariant
                i <= self.files.len(),
                same_entries(files@, self.files@.take(i as int)),
            decreases self.files.len() - i,
        {
            files.push(self.files[i].duplicate());
            i += 1;
        }
        assert(self.files@.take(self.files.len() as int) =~= self.files@);
        DiffSet {
            files,
            capitalize_prefix: self.capitalize_prefix,
            include_scope: self.include_scope,
        }
    }
}

} // verus!
