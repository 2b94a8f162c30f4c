use crate::gitmodels::{BranchData, CommitData, GitBranch, GitCommit, GitFileStatus, StatusEntry};
use crate::text::{chars_to_string, spec_trim, str_to_chars, subvec, trim_chars};
use vstd::prelude::*;

verus! {

// Classifying the repository's status list: index-side changes populate the
// staged list, working-tree-side changes the unstaged list, and new
// working-tree paths the untracked list. A path that differs from both head
// and index appears in staged and unstaged alike.

/// The entry has an index-side change.
pub open spec fn is_staged(e: StatusEntry) -> bool {
    e.index_new || e.index_modified || e.index_deleted
}

/// The entry has a working-tree-side change to a tracked path.
pub open spec fn is_unstaged(e: StatusEntry) -> bool {
    e.wt_modified || e.wt_deleted
}

/// The mark of an index-side change: added, modified or deleted.
pub open spec fn staged_mark(e: StatusEntry) -> Seq<char> {
    if e.index_new {
        "A"@
    } else if e.index_modified {
        "M"@
    } else {
        "D"@
    }
}

/// The mark of a working-tree-side change: modified or deleted.
pub open spec fn unstaged_mark(e: StatusEntry) -> Seq<char> {
    if e.wt_modified {
        "M"@
    } else {
        "D"@
    }
}

/// The staged list of a status snapshot: the path and mark of every entry
/// with an index-side change, in order.
pub open spec fn spec_staged(s: Seq<StatusEntry>) -> Seq<(Seq<char>, Seq<char>)>
    decreases s.len(),
{
    if s.len() == 0 {
        Seq::empty()
    } else {
        spec_staged(s.drop_last()) + (if is_staged(s.last()) {
            seq![(s.last().path@, staged_mark(s.last()))]
        } else {
            Seq::empty()
        })
    }
}

/// The unstaged list of a status snapshot.
pub open spec fn spec_unstaged(s: Seq<StatusEntry>) -> Seq<(Seq<char>, Seq<char>)>
    decreases s.len(),
{
    if s.len() == 0 {
        Seq::empty()
    } else {
        spec_unstaged(s.drop_last()) + (if is_unstaged(s.last()) {
            seq![(s.last().path@, unstaged_mark(s.last()))]
        } else {
            Seq::empty()
        })
    }
}

/// The untracked list of a status snapshot: the paths new to the working
/// tree, in order.
pub open spec fn spec_untracked(s: Seq<StatusEntry>) -> Seq<Seq<char>>
    decreases s.len(),
{
    if s.len() == 0 {
        Seq::empty()
    } else {
        spec_untracked(s.drop_last()) + (if s.last().wt_new {
            seq![s.last().path@]
        } else {
            Seq::empty()
        })
    }
}

/// Splits the status entries into the staged, unstaged and untracked lists,
/// exactly as the three list specifications say.
pub fn classify_entries(entries: &Vec<StatusEntry>) -> (r: (
    Vec<GitFileStatus>,
    Vec<GitFileStatus>,
    Vec<String>,
))
    ensures
        r.0@.len() == spec_staged(entries@).len(),
        forall|i: int|
            0 <= i < r.0@.len() ==> #[trigger] r.0@[i].path@ == spec_staged(entries@)[i].0
                && r.0@[i].status@ == spec_staged(entries@)[i].1,
        r.1@.len() == spec_unstaged(entries@).len(),
        forall|i: int|
            0 <= i < r.1@.len() ==> #[trigger] r.1@[i].path@ == spec_unstaged(entries@)[i].0
                && r.1@[i].status@ == spec_unstaged(entries@)[i].1,
        r.2@.len() == spec_untracked(entries@).len(),
        forall|i: int| 0 <= i < r.2@.len() ==> #[trigger] r.2@[i]@ == spec_untracked(entries@)[i],
{
    let mut staged: Vec<GitFileStatus> = Vec::new();
    let mut unstaged: Vec<GitFileStatus> = Vec::new();
    let mut untracked: Vec<String> = Vec::new();
    let n = entries.len();
    let mut i: usize = 0;
    proof {
        assert(entries@.subrange(0, 0) =~= Seq::<StatusEntry>::empty());
    }
    while i < n
        invariant
            i <= n,
            n == entries@.len(),
            staged@.len() == spec_staged(entries@.subrange(0, i as int)).len(),
            forall|j: int|
                0 <= j < staged@.len() ==> #[trigger] staged@[j].path@ == spec_staged(
                    entries@.subrange(0, i as int),
                )[j].0 && staged@[j].status@ == spec_staged(entries@.subrange(0, i as int))[j].1,
            unstaged@.len() == spec_unstaged(entries@.subrange(0, i as int)).len(),
            forall|j: int|
                0 <= j < unstaged@.len() ==> #[trigger] unstaged@[j].path@ == spec_unstaged(
                    entries@.subrange(0, i as int),
                )[j].0 && unstaged@[j].status@ == spec_unstaged(entries@.subrange(0, i as int))[j].1,
            untracked@.len() == spec_untracked(entries@.subrange(0, i as int)).len(),
            forall|j: int|
                0 <= j < untracked@.len() ==> #[trigger] untracked@[j]@ == spec_untracked(
                    entries@.subrange(0, i as int),
                )[j],
        decreases n - i,
    {
        proof {
            assert(entries@.subrange(0, i + 1).drop_last() =~= entries@.subrange(0, i as int));
        }
        let ghost staged0 = staged@;
        let ghost unstaged0 = unstaged@;
        let ghost untracked0 = untracked@;
        let e = &entries[i];
        if e.index_new || e.index_modified || e.index_deleted {
            let mark = if e.index_new {
                String::from_str("A")
            } else if e.index_modified {
                String::from_str("M")
            } else {
                String::from_str("D")
            };
            let path_chars = str_to_chars(e.path.as_str());
            staged.push(GitFileStatus { path: chars_to_string(&path_chars), status: mark });
            proof {
                assert(staged@.last().path@ == entries@[i as int].path@);
                assert(staged@.last().status@ == staged_mark(entries@[i as int]));
            }
        }
        if e.wt_modified || e.wt_deleted {
            let mark = if e.wt_modified {
                String::from_str("M")
            } else {
                String::from_str("D")
            };
            let path_chars = str_to_chars(e.path.as_str());
            unstaged.push(GitFileStatus { path: chars_to_string(&path_chars), status: mark });
            proof {
                assert(unstaged@.last().path@ == entries@[i as int].path@);
                assert(unstaged@.last().status@ == unstaged_mark(entries@[i as int]));
            }
        }
        if e.wt_new {
            let path_chars = str_to_chars(e.path.as_str());
            untracked.push(chars_to_string(&path_chars));
        }
        proof {
            let pre = entries@.subrange(0, i as int);
            let post = entries@.subrange(0, i + 1);
            let last = entries@[i as int];
            assert(post.drop_last() =~= pre);
            assert(post.last() == last);
            assert(spec_staged(post) == spec_staged(pre) + (if is_staged(last) {
                seq![(last.path@, staged_mark(last))]
            } else {
                Seq::empty()
            }));
            assert(spec_unstaged(post) == spec_unstaged(pre) + (if is_unstaged(last) {
                seq![(last.path@, unstaged_mark(last))]
            } else {
                Seq::empty()
            }));
            assert(spec_untracked(post) == spec_untracked(pre) + (if last.wt_new {
                seq![last.path@]
            } else {
                Seq::empty()
            }));
            assert forall|j: int| 0 <= j < staged@.len() implies #[trigger] staged@[j].path@
                == spec_staged(post)[j].0 && staged@[j].status@ == spec_staged(post)[j].1 by {
                if j < staged0.len() {
                    assert(staged@[j] == staged0[j]);
                    assert(staged0[j].path@ == spec_staged(pre)[j].0);
                    assert(staged0[j].status@ == spec_staged(pre)[j].1);
                    assert(spec_staged(post)[j] == spec_staged(pre)[j]);
                } else {
                    assert(is_staged(last));
                    assert(staged@.len() == staged0.len() + 1);
                    assert(j == staged0.len());
                    assert(staged@[j] == staged@.last());
                    assert(spec_staged(post)[j] == (last.path@, staged_mark(last)));
                }
            }
            assert forall|j: int| 0 <= j < unstaged@.len() implies #[trigger] unstaged@[j].path@
                == spec_unstaged(post)[j].0 && unstaged@[j].status@ == spec_unstaged(post)[j].1 by {
                if j < unstaged0.len() {
                    assert(unstaged@[j] == unstaged0[j]);
                    assert(unstaged0[j].path@ == spec_unstaged(pre)[j].0);
                    assert(unstaged0[j].status@ == spec_unstaged(pre)[j].1);
                    assert(spec_unstaged(post)[j] == spec_unstaged(pre)[j]);
                } else {
                    assert(is_unstaged(last));
                    assert(unstaged@.len() == unstaged0.len() + 1);
                    assert(j == unstaged0.len());
                    assert(unstaged@[j] == unstaged@.last());
                    assert(spec_unstaged(post)[j] == (last.path@, unstaged_mark(last)));
                }
            }
            assert forall|j: int| 0 <= j < untracked@.len() implies #[trigger] untracked@[j]@
                == spec_untracked(post)[j] by {
                if j < untracked0.len() {
                    assert(untracked@[j] == untracked0[j]);
                    assert(spec_untracked(post)[j] == spec_untracked(pre)[j]);
                } else {
                    assert(untracked@[j] == untracked@.last());
                }
            }
        }
        i = i + 1;
    }
    proof {
        assert(entries@.subrange(0, n as int) =~= entries@);
    }
    (staged, unstaged, untracked)
}

/// Marks the current branch in the repository's branch list; an empty list
/// synthesizes a single entry for the current branch, so a valid repository
/// never reports no branches at all.
pub fn assemble_branches(data: Vec<BranchData>, current: &String) -> (r: Vec<GitBranch>)
    ensures
        r@.len() >= 1,
        data@.len() == 0 ==> {
            &&& r@.len() == 1
            &&& r@[0].name@ == current@
            &&& r@[0].is_current == true
            &&& r@[0].is_remote == false
            &&& r@[0].upstream is None
            &&& r@[0].last_commit_message is None
            &&& r@[0].last_commit_time is None
        },
        data@.len() > 0 ==> {
            &&& r@.len() == data@.len()
            &&& forall|i: int|
                0 <= i < r@.len() ==> {
                    &&& (#[trigger] r@[i]).name == data@[i].name
                    &&& r@[i].is_current == (data@[i].name@ == current@)
                    &&& r@[i].is_remote == data@[i].is_remote
                    &&& r@[i].upstream == data@[i].upstream
                    &&& r@[i].last_commit_message == data@[i].last_commit_message
                    &&& r@[i].last_commit_time == data@[i].last_commit_time
                }
        },
{
    let n = data.len();
    if n == 0 {
        let current_chars = str_to_chars(current.as_str());
        let mut r: Vec<GitBranch> = Vec::new();
        r.push(
            GitBranch {
                name: chars_to_string(&current_chars),
                is_current: true,
                is_remote: false,
                upstream: None,
                last_commit_message: None,
                last_commit_time: None,
            },
        );
        return r;
    }
    let mut r: Vec<GitBranch> = Vec::new();
    let mut i: usize = 0;
    while i < n
        invariant
            i <= n,
            n == data@.len(),
            r@.len() == i,
            forall|j: int|
                0 <= j < i ==> {
                    &&& (#[trigger] r@[j]).name == data@[j].name
                    &&& r@[j].is_current == (data@[j].name@ == current@)
                    &&& r@[j].is_remote == data@[j].is_remote
                    &&& r@[j].upstream == data@[j].upstream
                    &&& r@[j].last_commit_message == data@[j].last_commit_message
                    &&& r@[j].last_commit_time == data@[j].last_commit_time
                },
        decreases n - i,
    {
        let d = &data[i];
        let is_current = d.name.eq(current);
        let upstream = match &d.upstream {
            Some(u) => Some(u.clone()),
            None => None,
        };
        let last_commit_message = match &d.last_commit_message {
            Some(m) => Some(m.clone()),
            None => None,
        };
        r.push(
            GitBranch {
                name: d.name.clone(),
                is_current,
                is_remote: d.is_remote,
                upstream,
                last_commit_message,
                last_commit_time: d.last_commit_time,
            },
        );
        i = i + 1;
    }
    r
}

/// One history entry from what the repository reports: the id kept whole and
/// abbreviated to its first seven characters, the message trimmed, everything
/// else carried over.
pub fn make_git_commit(info: CommitData) -> (r: GitCommit)
    ensures
        r.id == info.id,
        r.short_id@ == (if info.id@.len() >= 7 {
            info.id@.subrange(0, 7)
        } else {
            info.id@
        }),
        r.message@ == spec_trim(info.message@),
        r.author_name == info.author_name,
        r.author_email == info.author_email,
        r.timestamp == info.timestamp,
        r.parent_ids == info.parent_ids,
{
    let id_chars = str_to_chars(info.id.as_str());
    let short_chars = if id_chars.len() >= 7 {
        subvec(&id_chars, 0, 7)
    } else {
        subvec(&id_chars, 0, id_chars.len())
    };
    proof {
        if info.id@.len() < 7 {
            assert(info.id@.subrange(0, info.id@.len() as int) =~= info.id@);
        }
    }
    let message_chars = str_to_chars(info.message.as_str());
    let trimmed = trim_chars(&message_chars);
    GitCommit {
        id: info.id,
        short_id: chars_to_string(&short_chars),
        message: chars_to_string(&trimmed),
        author_name: info.author_name,
        author_email: info.author_email,
        timestamp: info.timestamp,
        parent_ids: info.parent_ids,
    }
}

} // verus!
