//! The parsed-session handle as the slot store sees it.
//!
//! Parsing a session-store file is delegated to an outside session library;
//! what the command layer itself ever reads from the parsed result is the
//! list of window-group names, in the two orders the library can enumerate
//! them (session order and name-sorted order), for open windows and for
//! previously-closed windows. The tabs and links inside each group stay with
//! the session library; the command layer only selects and orders groups.

use vstd::prelude::*;

verus! {

/// One window group discovered in a session: its position in the enumeration
/// it came from, and its display name.
#[derive(Debug, Clone, PartialEq, Eq)]
pub struct TabGroup {
    pub index: u32,
    pub name: String,
}

pub ghost struct TabGroupView {
    pub index: u32,
    pub name: Seq<char>,
}

impl View for TabGroup {
    type V = TabGroupView;

    open spec fn view(&self) -> TabGroupView {
        TabGroupView { index: self.index, name: self.name@ }
    }
}

/// The open and closed window groups of a session, as returned to callers.
/// Open groups always precede closed groups.
#[derive(Debug, Clone, PartialEq, Eq)]
pub struct AllTabGroups {
    pub open: Vec<TabGroup>,
    pub closed: Vec<TabGroup>,
}

/// What the command layer reads from a parsed session: the window-group
/// names, each list both in session order and as the session library sorts
/// it by name.
#[derive(Debug, Clone)]
pub struct SessionHandle {
    pub open_groups: Vec<String>,
    pub open_groups_sorted: Vec<String>,
    pub closed_groups: Vec<String>,
    pub closed_groups_sorted: Vec<String>,
}

pub ghost struct SessionView {
    pub open: Seq<Seq<char>>,
    pub open_sorted: Seq<Seq<char>>,
    pub closed: Seq<Seq<char>>,
    pub closed_sorted: Seq<Seq<char>>,
}

impl SessionView {
    /// The group names that enumerating this session yields, for one choice
    /// of open-or-closed and of sorting.
    pub open spec fn groups(self, open: bool, sorted: bool) -> Seq<Seq<char>> {
        if open {
            if sorted {
                self.open_sorted
            } else {
                self.open
            }
        } else {
            if sorted {
                self.closed_sorted
            } else {
                self.closed
            }
        }
    }

    /// Group indexes are reported as `u32`, so each list must fit.
    pub open spec fn wf(self) -> bool {
        &&& self.open.len() <= u32::MAX
        &&& self.open_sorted.len() <= u32::MAX
        &&& self.closed.len() <= u32::MAX
        &&& self.closed_sorted.len() <= u32::MAX
    }
}

impl View for SessionHandle {
    type V = SessionView;

    open spec fn view(&self) -> SessionView {
        SessionView {
            open: self.open_groups.deep_view(),
            open_sorted: self.open_groups_sorted.deep_view(),
            closed: self.closed_groups.deep_view(),
            closed_sorted: self.closed_groups_sorted.deep_view(),
        }
    }
}

/// Whether a group-index filter keeps enumeration index `i`: an absent
/// filter keeps every index, a present one keeps the listed indexes.
pub open spec fn filter_allows(f: Option<Seq<u32>>, i: int) -> bool {
    match f {
        None => true,
        Some(s) => s.contains(i as u32),
    }
}

/// The enumeration indexes below `n` that the filter keeps, in increasing
/// order.
pub open spec fn selected_upto(n: int, f: Option<Seq<u32>>) -> Seq<int>
    decreases n,
{
    if n <= 0 {
        Seq::empty()
    } else if filter_allows(f, n - 1) {
        selected_upto(n - 1, f).push(n - 1)
    } else {
        selected_upto(n - 1, f)
    }
}

/// The group-index filter as a mathematical value.
pub open spec fn indexes_view(f: Option<Vec<u32>>) -> Option<Seq<u32>> {
    match f {
        Some(v) => Some(v@),
        None => None,
    }
}

fn contains_u32(v: &Vec<u32>, x: u32) -> (r: bool)
    ensures
        r == v@.contains(x),
{
    let n = v.len();
    let mut i: usize = 0;
    while i < n
        invariant
            i <= n,
            n == v@.len(),
            forall|k: int| 0 <= k < i ==> v@[k] != x,
        decreases n - i,
    {
        if v[i] == x {
            return true;
        }
        i = i + 1;
    }
    false
}

/// The groups kept by a filter, each labelled with its enumeration index.
/// A `None` filter keeps every group.
pub fn select_groups(names: &Vec<String>, filter: &Option<Vec<u32>>) -> (r: Vec<TabGroup>)
    requires
        names@.len() <= u32::MAX,
    ensures
        ({
            let sel = selected_upto(names@.len() as int, indexes_view(*filter));
            &&& r@.len() == sel.len()
            &&& forall|j: int|
                0 <= j < r@.len() ==> #[trigger] r@[j]@.index == sel[j] as u32 && r@[j]@.name
                    == names.deep_view()[sel[j]]
        }),
{
    let n = names.len();
    let mut r: Vec<TabGroup> = Vec::new();
    let mut i: usize = 0;
    while i < n
        invariant
            i <= n,
            n == names@.len(),
            n <= u32::MAX,
            ({
                let sel = selected_upto(i as int, indexes_view(*filter));
                &&& r@.len() == sel.len()
                &&& forall|j: int|
                    0 <= j < r@.len() ==> #[trigger] r@[j]@.index == sel[j] as u32 && r@[j]@.name
                        == names.deep_view()[sel[j]]
            }),
        decreases n - i,
    {
        proof {
            lemma_selected_upto_step(i as int, indexes_view(*filter));
            lemma_selected_upto_bounds(i as int, indexes_view(*filter));
        }
        let keep = match filter {
            Some(v) => contains_u32(v, i as u32),
            None => true,
        };
        if keep {
            r.push(TabGroup { index: i as u32, name: names[i].clone() });
        }
        i = i + 1;
    }
    r
}

/// Extending the range by one index appends it exactly when the filter
/// keeps it.
proof fn lemma_selected_upto_step(n: int, f: Option<Seq<u32>>)
    requires
        n >= 0,
    ensures
        filter_allows(f, n) ==> selected_upto(n + 1, f) == selected_upto(n, f).push(n),
        !filter_allows(f, n) ==> selected_upto(n + 1, f) == selected_upto(n, f),
{
}

/// Every selected index lies below the range bound.
proof fn lemma_selected_upto_bounds(n: int, f: Option<Seq<u32>>)
    ensures
        forall|j: int|
            0 <= j < selected_upto(n, f).len() ==> 0 <= #[trigger] selected_upto(n, f)[j] < n,
    decreases n,
{
    if n > 0 {
        lemma_selected_upto_bounds(n - 1, f);
        let prev = selected_upto(n - 1, f);
        let cur = selected_upto(n, f);
        assert forall|j: int| 0 <= j < cur.len() implies 0 <= #[trigger] cur[j] < n by {
            if filter_allows(f, n - 1) {
                assert(cur == prev.push(n - 1));
                if j < prev.len() {
                    assert(cur[j] == prev[j]);
                } else {
                    assert(cur[j] == n - 1);
                }
            } else {
                assert(cur == prev);
                assert(cur[j] == prev[j]);
            }
        }
    }
}

/// Every group of a list, labelled with its enumeration index.
pub fn enumerate_groups(names: &Vec<String>) -> (r: Vec<TabGroup>)
    requires
        names@.len() <= u32::MAX,
    ensures
        r@.len() == names@.len(),
        forall|j: int|
            0 <= j < r@.len() ==> #[trigger] r@[j]@.index == j as u32 && r@[j]@.name
                == names.deep_view()[j],
{
    let r = select_groups(names, &None);
    proof {
        lemma_selected_upto_none(names@.len() as int);
    }
    r
}

/// Without a filter, every index below `n` is selected.
proof fn lemma_selected_upto_none(n: int)
    ensures
        selected_upto(n, None).len() == if n >= 0 {
            n
        } else {
            0
        },
        forall|j: int| 0 <= j < n ==> #[trigger] selected_upto(n, None)[j] == j,
    decreases n,
{
    if n > 0 {
        lemma_selected_upto_none(n - 1);
    }
}

/// Whether two lists of names are equal element for element.
pub fn string_vecs_equal(a: &Vec<String>, b: &Vec<String>) -> (r: bool)
    ensures
        r == (a.deep_view() == b.deep_view()),
{
    if a.len() != b.len() {
        proof {
            assert(a.deep_view().len() != b.deep_view().len());
        }
        return false;
    }
    let n = a.len();
    let mut i: usize = 0;
    while i < n
        invariant
            i <= n,
            n == a@.len(),
            n == b@.len(),
            forall|k: int| 0 <= k < i ==> a.deep_view()[k] == b.deep_view()[k],
        decreases n - i,
    {
        if a[i] != b[i] {
            proof {
                assert(a.deep_view()[i as int] != b.deep_view()[i as int]);
            }
            return false;
        }
        i = i + 1;
    }
    proof {
        assert(a.deep_view() =~= b.deep_view());
    }
    true
}

} // verus!
