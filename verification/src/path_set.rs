//! A set of paths, kept as a vector in strictly ascending order, so that no
//! path is held twice and the paths come out sorted.

use vstd::prelude::*;
use crate::path::{
    copy_path, path_lt, path_lt_irreflexive, path_lt_transitive, rank_paths,
    strictly_sorted, strictly_sorted_no_duplicates, Rank,
};

verus! {

/// The byte sequences of a vector of paths, in its order.
pub open spec fn paths_of(paths: Seq<Vec<u8>>) -> Seq<Seq<u8>> {
    paths.map_values(|p: Vec<u8>| p@)
}

/// A finite set of paths without duplicates.
#[derive(Debug)]
pub struct PathSet {
    paths: Vec<Vec<u8>>,
}

impl View for PathSet {
    type V = Set<Seq<u8>>;

    /// The paths that the set holds.
    open spec fn view(&self) -> Set<Seq<u8>> {
        self.ordered().to_set()
    }
}

proof fn insert_keeps_order(s: Seq<Seq<u8>>, pos: int, p: Seq<u8>)
    requires
        strictly_sorted(s),
        0 <= pos <= s.len(),
        forall|j: int| 0 <= j < pos ==> path_lt(s[j], p),
        forall|j: int| pos <= j < s.len() ==> path_lt(p, s[j]),
    ensures
        strictly_sorted(s.insert(pos, p)),
        s.insert(pos, p).to_set() == s.to_set().insert(p),
{
    let t = s.insert(pos, p);
    s.insert_ensures(pos, p);
    assert forall|i: int, j: int| 0 <= i < j < t.len() implies path_lt(t[i], t[j]) by {
        if i < pos {
            assert(t[i] == s[i]);
        } else if i > pos {
            assert(t[i] == s[i - 1]);
        }
        if j < pos {
            assert(t[j] == s[j]);
        } else if j > pos {
            assert(t[j] == s[j - 1]);
        }
    }
    assert forall|x: Seq<u8>| t.to_set().contains(x) <==> s.to_set().insert(p).contains(x) by {
        if t.contains(x) {
            let i = choose|i: int| 0 <= i < t.len() && t[i] == x;
            if i < pos {
                assert(s[i] == x);
            } else if i > pos {
                assert(s[i - 1] == x);
            }
        }
        if s.contains(x) {
            let i = choose|i: int| 0 <= i < s.len() && s[i] == x;
            if i < pos {
                assert(t[i] == x);
            } else {
                assert(t[i + 1] == x);
            }
        }
        if x == p {
            assert(t[pos] == x);
        }
    }
    assert(t.to_set() =~= s.to_set().insert(p));
}

proof fn remove_keeps_order(s: Seq<Seq<u8>>, pos: int)
    requires
        strictly_sorted(s),
        0 <= pos < s.len(),
    ensures
        strictly_sorted(s.remove(pos)),
        s.remove(pos).to_set() == s.to_set().remove(s[pos]),
{
    let t = s.remove(pos);
    s.remove_ensures(pos);
    strictly_sorted_no_duplicates(s);
    assert forall|i: int, j: int| 0 <= i < j < t.len() implies path_lt(t[i], t[j]) by {
        let si = if i < pos { i } else { i + 1 };
        let sj = if j < pos { j } else { j + 1 };
        assert(t[i] == s[si]);
        assert(t[j] == s[sj]);
    }
    assert forall|x: Seq<u8>| t.to_set().contains(x) <==> s.to_set().remove(s[pos]).contains(
        x,
    ) by {
        if t.contains(x) {
            let i = choose|i: int| 0 <= i < t.len() && t[i] == x;
            let si = if i < pos { i } else { i + 1 };
            assert(s[si] == x);
        }
        if s.contains(x) && x != s[pos] {
            let i = choose|i: int| 0 <= i < s.len() && s[i] == x;
            if i < pos {
                assert(t[i] == x);
            } else {
                assert(t[i - 1] == x);
            }
        }
    }
    assert(t.to_set() =~= s.to_set().remove(s[pos]));
}

impl PathSet {
    /// The paths of the set in ascending order.
    pub closed spec fn ordered(self) -> Seq<Seq<u8>> {
        paths_of(self.paths@)
    }

    #[verifier::type_invariant]
    spec fn ascending(self) -> bool {
        strictly_sorted(self.ordered())
    }

    /// The empty set.
    pub fn new() -> (set: PathSet)
        ensures
            set@ == Set::<Seq<u8>>::empty(),
            set.ordered() == Seq::<Seq<u8>>::empty(),
    {
        let set = PathSet { paths: Vec::new() };
        proof {
            assert(set.ordered() =~= Seq::<Seq<u8>>::empty());
            assert(set@ =~= Set::<Seq<u8>>::empty());
        }
        set
    }

    /// The number of paths in the set.
    pub fn len(&self) -> (n: usize)
        ensures
            n == self@.len(),
            n == self.ordered().len(),
            strictly_sorted(self.ordered()),
    {
        proof {
            use_type_invariant(self);
            strictly_sorted_no_duplicates(self.ordered());
            self.ordered().unique_seq_to_set();
        }
        self.paths.len()
    }

    /// Whether the set holds no path.
    pub fn is_empty(&self) -> (empty: bool)
        ensures
            empty == (self@ == Set::<Seq<u8>>::empty()),
            empty == (self.ordered().len() == 0),
    {
        proof {
            if self.ordered().len() == 0 {
                assert(self@ =~= Set::<Seq<u8>>::empty());
            } else {
                assert(self.ordered().contains(self.ordered()[0]));
                assert(self@.contains(self.ordered()[0]));
            }
        }
        self.paths.len() == 0
    }

    /// The path at place `i` of the ascending order.
    pub fn get(&self, i: usize) -> (path: &Vec<u8>)
        requires
            i < self.ordered().len(),
        ensures
            path@ == self.ordered()[i as int],
            self@.contains(path@),
            strictly_sorted(self.ordered()),
    {
        proof {
            use_type_invariant(self);
            assert(self.ordered().contains(self.ordered()[i as int]));
        }
        &self.paths[i]
    }

    /// Where `path` stands in the ascending order, and whether it is there.
    fn locate(&self, path: &[u8]) -> (place: (usize, bool))
        ensures
            place.0 <= self.ordered().len(),
            forall|j: int| 0 <= j < place.0 ==> path_lt(self.ordered()[j], path@),
            place.1 ==> place.0 < self.ordered().len() && self.ordered()[place.0 as int]
                == path@,
            !place.1 ==> forall|j: int|
                place.0 <= j < self.ordered().len() ==> path_lt(path@, self.ordered()[j]),
            place.1 == self@.contains(path@),
    {
        proof {
            use_type_invariant(self);
        }
        let ghost s = self.ordered();
        let mut lo: usize = 0;
        let mut hi: usize = self.paths.len();
        while lo < hi
            invariant
                s == self.ordered(),
                strictly_sorted(s),
                lo <= hi <= self.paths.len(),
                self.paths.len() == s.len(),
                forall|j: int| 0 <= j < lo ==> path_lt(s[j], path@),
                forall|j: int| hi <= j < s.len() ==> path_lt(path@, s[j]),
            decreases hi - lo,
        {
            let mid = lo + (hi - lo) / 2;
            let rank = rank_paths(self.paths[mid].as_slice(), path);
            assert(s[mid as int] == self.paths@[mid as int]@);
            match rank {
                Rank::Before => {
                    assert forall|j: int| 0 <= j < mid + 1 implies path_lt(s[j], path@) by {
                        if j < mid {
                            path_lt_transitive(s[j], s[mid as int], path@);
                        }
                    }
                    lo = mid + 1;
                },
                Rank::After => {
                    assert forall|j: int| mid <= j < s.len() implies path_lt(path@, s[j]) by {
                        if j > mid {
                            path_lt_transitive(path@, s[mid as int], s[j]);
                        }
                    }
                    hi = mid;
                },
                Rank::Same => {
                    proof {
                        assert(s.contains(path@));
                    }
                    return (mid, true);
                },
            }
        }
        proof {
            path_lt_irreflexive(path@);
            if s.contains(path@) {
                let i = choose|i: int| 0 <= i < s.len() && s[i] == path@;
                if i < lo {
                    assert(path_lt(s[i], path@));
                } else {
                    assert(path_lt(path@, s[i]));
                }
            }
        }
        (lo, false)
    }

    /// Whether the set holds `path`.
    pub fn contains(&self, path: &[u8]) -> (found: bool)
        ensures
            found == self@.contains(path@),
    {
        let place = self.locate(path);
        place.1
    }

    /// Adds `path` to the set; a path that is already there is not added
    /// again. Returns whether the path was new.
    pub fn insert(&mut self, path: Vec<u8>) -> (added: bool)
        ensures
            final(self)@ == old(self)@.insert(path@),
            added == !old(self)@.contains(path@),
    {
        proof {
            use_type_invariant(&*self);
        }
        let place = self.locate(path.as_slice());
        if place.1 {
            proof {
                assert(self@.insert(path@) =~= self@);
            }
            false
        } else {
            let ghost s = self.ordered();
            let ghost p = path@;
            let mut paths: Vec<Vec<u8>> = Vec::new();
            core::mem::swap(&mut self.paths, &mut paths);
            proof {
                assert(paths_of(paths@) == s);
            }
            paths.insert(place.0, path);
            proof {
                insert_keeps_order(s, place.0 as int, p);
                assert(paths_of(paths@) =~= s.insert(place.0 as int, p));
            }
            self.paths = paths;
            true
        }
    }

    /// Takes `path` out of the set. Returns whether the path was there.
    pub fn remove(&mut self, path: &[u8]) -> (removed: bool)
        ensures
            final(self)@ == old(self)@.remove(path@),
            removed == old(self)@.contains(path@),
    {
        proof {
            use_type_invariant(&*self);
        }
        let place = self.locate(path);
        if place.1 {
            let ghost s = self.ordered();
            let mut paths: Vec<Vec<u8>> = Vec::new();
            core::mem::swap(&mut self.paths, &mut paths);
            proof {
                assert(paths_of(paths@) == s);
            }
            paths.remove(place.0);
            proof {
                remove_keeps_order(s, place.0 as int);
                assert(paths_of(paths@) =~= s.remove(place.0 as int));
            }
            self.paths = paths;
            true
        } else {
            proof {
                assert(self@.remove(path@) =~= self@);
            }
            false
        }
    }

    /// Adds every path of `other` to the set.
    pub fn extend(&mut self, other: &PathSet)
        ensures
            final(self)@ == old(self)@.union(other@),
    {
        let ghost o = other.ordered();
        let mut i: usize = 0;
        let n = other.len();
        proof {
            assert(o.take(0).to_set() =~= Set::<Seq<u8>>::empty());
            assert(self@.union(o.take(0).to_set()) =~= self@);
        }
        while i < n
            invariant
                i <= n,
                n == o.len(),
                o == other.ordered(),
                self@ == old(self)@.union(o.take(i as int).to_set()),
            decreases n - i,
        {
            let path = copy_path(other.get(i).as_slice());
            proof {
                assert(o.take(i + 1) =~= o.take(i as int).push(o[i as int]));
                o.take(i as int).lemma_push_to_set_commute(o[i as int]);
            }
            self.insert(path);
            proof {
                assert(self@ =~= old(self)@.union(o.take(i + 1).to_set()));
            }
            i += 1;
        }
        proof {
            assert(o.take(i as int) =~= o);
        }
    }

    /// The paths of the set as a vector in ascending order.
    pub fn to_vec(&self) -> (paths: Vec<Vec<u8>>)
        ensures
            paths_of(paths@) == self.ordered(),
            strictly_sorted(self.ordered()),
            self.ordered().to_set() == self@,
    {
        proof {
            use_type_invariant(self);
        }
        let mut paths: Vec<Vec<u8>> = Vec::new();
        let mut i: usize = 0;
        while i < self.paths.len()
            invariant
                i <= self.paths.len(),
                paths_of(paths@) == self.ordered().take(i as int),
            decreases self.paths.len() - i,
        {
            let path = copy_path(self.paths[i].as_slice());
            let ghost before = paths_of(paths@);
            paths.push(path);
            proof {
                assert(self.ordered()[i as int] == self.paths@[i as int]@);
                assert(paths_of(paths@) =~= before.push(path@));
                assert(paths_of(paths@) =~= self.ordered().take(i + 1));
            }
            i += 1;
        }
        proof {
            assert(self.ordered().take(i as int) =~= self.ordered());
        }
        paths
    }
}

} // verus!
