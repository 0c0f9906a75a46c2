//! Choosing which session files to offer for a browser profile.
//!
//! The embedding program lists the profile directories and checks which of
//! the candidate session-store files exist on disk; which candidates are
//! offered — and the fallback to the first candidate when none exists yet —
//! is decided here.

use vstd::prelude::*;

verus! {

/// One session-store file found (or expected) in a profile.
#[derive(Debug, Clone, PartialEq, Eq)]
pub struct FoundSessionFile {
    pub name: String,
    pub file_path: String,
}

pub ghost struct FoundSessionFileView {
    pub name: Seq<char>,
    pub file_path: Seq<char>,
}

impl View for FoundSessionFile {
    type V = FoundSessionFileView;

    open spec fn view(&self) -> FoundSessionFileView {
        FoundSessionFileView { name: self.name@, file_path: self.file_path@ }
    }
}

/// One browser profile and the session files it offers.
#[derive(Debug, Clone, PartialEq, Eq)]
pub struct FirefoxProfileInfo {
    pub name: String,
    pub file_path: String,
    pub modified_at: Option<u64>,
    pub session_files: Vec<FoundSessionFile>,
}

/// The positions below `n` whose flag is set, in increasing order.
pub open spec fn kept_indexes(e: Seq<bool>, n: int) -> Seq<int>
    decreases n,
{
    if n <= 0 {
        Seq::empty()
    } else if e[n - 1] {
        kept_indexes(e, n - 1).push(n - 1)
    } else {
        kept_indexes(e, n - 1)
    }
}

/// Every kept position lies below the range bound.
proof fn lemma_kept_indexes_bounds(e: Seq<bool>, n: int)
    ensures
        forall|j: int| 0 <= j < kept_indexes(e, n).len() ==> 0 <= #[trigger] kept_indexes(e, n)[j] < n,
    decreases n,
{
    if n > 0 {
        lemma_kept_indexes_bounds(e, n - 1);
        let prev = kept_indexes(e, n - 1);
        let cur = kept_indexes(e, n);
        assert forall|j: int| 0 <= j < cur.len() implies 0 <= #[trigger] cur[j] < n by {
            if e[n - 1] {
                assert(cur == prev.push(n - 1));
                if j < prev.len() {
                    assert(cur[j] == prev[j]);
                } else {
                    assert(cur[j] == n - 1);
                }
            } else {
                assert(cur == prev);
                assert(cur[j] == prev[j]);
            }
        }
    }
}

fn clone_found(f: &FoundSessionFile) -> (r: FoundSessionFile)
    ensures
        r@ == f@,
{
    FoundSessionFile { name: f.name.clone(), file_path: f.file_path.clone() }
}

/// The session files offered for one profile: the candidates that exist on
/// disk, in candidate order; when none exists, the first candidate alone,
/// since that file is written most often and may appear later.
pub fn select_session_files(candidates: &Vec<FoundSessionFile>, exists: &Vec<bool>) -> (r: Vec<
    FoundSessionFile,
>)
    requires
        candidates@.len() == exists@.len(),
        candidates@.len() > 0,
    ensures
        ({
            let kept = kept_indexes(exists@, exists@.len() as int);
            if kept.len() == 0 {
                r@.len() == 1 && r@[0]@ == candidates@[0]@
            } else {
                r@.len() == kept.len() && forall|j: int|
                    0 <= j < kept.len() ==> #[trigger] r@[j]@ == candidates@[kept[j]]@
            }
        }),
{
    let n = candidates.len();
    let mut r: Vec<FoundSessionFile> = Vec::new();
    let mut i: usize = 0;
    while i < n
        invariant
            i <= n,
            n == candidates@.len(),
            n == exists@.len(),
            ({
                let kept = kept_indexes(exists@, i as int);
                &&& r@.len() == kept.len()
                &&& forall|j: int|
                    0 <= j < kept.len() ==> #[trigger] r@[j]@ == candidates@[kept[j]]@
            }),
        decreases n - i,
    {
        proof {
            lemma_kept_indexes_bounds(exists@, i as int);
        }
        if exists[i] {
            r.push(clone_found(&candidates[i]));
        }
        i = i + 1;
    }
    if r.len() == 0 {
        r.push(clone_found(&candidates[0]));
    }
    proof {
        lemma_kept_indexes_bounds(exists@, n as int);
    }
    r
}

} // verus!
