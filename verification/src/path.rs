//! Paths as the library sees them: the bytes of a path name in normal form
//! (no doubled or trailing separator, no `.` but in front). Two paths are
//! identical when their bytes are. They are ordered name by name: the names
//! between the separators are compared in turn, a path comes before every
//! path that continues it, the names `.` and `..` come before every other
//! name, and two other names are ordered by their bytes.

use vstd::prelude::*;

verus! {

/// The byte that separates the names of a path.
pub const SEPARATOR: u8 = 0x2f;

/// The byte of which the names `.` and `..` are made.
pub const DOT: u8 = 0x2e;

/// How one path stands to another in the order of paths.
#[derive(Clone, Copy, Debug, PartialEq, Eq)]
pub enum Rank {
    Before,
    Same,
    After,
}

/// A name begins at place `i` of `path`.
pub open spec fn name_starts(path: Seq<u8>, i: int) -> bool {
    i == 0 || path[i - 1] == SEPARATOR
}

/// A name ends with the byte at place `i` of `path`.
pub open spec fn name_ends(path: Seq<u8>, i: int) -> bool {
    i + 1 == path.len() || path[i + 1] == SEPARATOR
}

/// The byte at place `i` of `path` belongs to a name that is `.` or `..`.
pub open spec fn in_dot_name(path: Seq<u8>, i: int) -> bool {
    &&& 0 <= i < path.len()
    &&& path[i] == DOT
    &&& {
        ||| name_starts(path, i) && name_ends(path, i)
        ||| name_starts(path, i) && i + 1 < path.len() && path[i + 1] == DOT && name_ends(
            path,
            i + 1,
        )
        ||| i >= 1 && path[i - 1] == DOT && name_starts(path, i - 1) && name_ends(path, i)
    }
}

/// The weight of the byte at place `i` of `path` in the order of paths: a
/// separator weighs least, then a byte of the names `.` and `..`, then the
/// bytes of all other names by their value.
pub open spec fn weight(path: Seq<u8>, i: int) -> int {
    if path[i] == SEPARATOR {
        0
    } else if in_dot_name(path, i) {
        1
    } else {
        path[i] + 2
    }
}

/// `a` and `b` agree in weight on their first `k` bytes, and there `a` either
/// ends while `b` goes on, or holds the lighter byte.
pub open spec fn precedes_at(a: Seq<u8>, b: Seq<u8>, k: int) -> bool {
    &&& 0 <= k <= a.len()
    &&& k <= b.len()
    &&& forall|i: int| 0 <= i < k ==> weight(a, i) == weight(b, i)
    &&& if k == a.len() {
        k < b.len()
    } else {
        k < b.len() && weight(a, k) < weight(b, k)
    }
}

/// `a` comes strictly before `b` in the order of paths.
pub open spec fn path_lt(a: Seq<u8>, b: Seq<u8>) -> bool {
    exists|k: int| precedes_at(a, b, k)
}

/// The rank of `a` against `b`.
pub open spec fn rank_of(a: Seq<u8>, b: Seq<u8>) -> Rank {
    if a == b {
        Rank::Same
    } else if path_lt(a, b) {
        Rank::Before
    } else {
        Rank::After
    }
}

/// Each path of `paths` comes strictly before every later one.
pub open spec fn strictly_sorted(paths: Seq<Seq<u8>>) -> bool {
    forall|i: int, j: int| 0 <= i < j < paths.len() ==> path_lt(paths[i], paths[j])
}

/// Bytes of equal weight are equal bytes.
pub proof fn weight_tells_byte(a: Seq<u8>, b: Seq<u8>, i: int)
    requires
        0 <= i < a.len(),
        i < b.len(),
        weight(a, i) == weight(b, i),
    ensures
        a[i] == b[i],
{
}

/// No path precedes itself.
pub proof fn path_lt_irreflexive(a: Seq<u8>)
    ensures
        !path_lt(a, a),
{
}

/// No two paths precede each other.
pub proof fn path_lt_asymmetric(a: Seq<u8>, b: Seq<u8>)
    ensures
        !(path_lt(a, b) && path_lt(b, a)),
{
    if path_lt(a, b) && path_lt(b, a) {
        let k1 = choose|k: int| precedes_at(a, b, k);
        let k2 = choose|k: int| precedes_at(b, a, k);
        if k1 < k2 {
            assert(weight(b, k1) == weight(a, k1));
        } else if k2 < k1 {
            assert(weight(a, k2) == weight(b, k2));
        }
    }
}

/// The order of paths is transitive.
pub proof fn path_lt_transitive(a: Seq<u8>, b: Seq<u8>, c: Seq<u8>)
    requires
        path_lt(a, b),
        path_lt(b, c),
    ensures
        path_lt(a, c),
{
    let k1 = choose|k: int| precedes_at(a, b, k);
    let k2 = choose|k: int| precedes_at(b, c, k);
    if k1 <= k2 {
        assert forall|i: int| 0 <= i < k1 implies weight(a, i) == weight(c, i) by {
            assert(weight(a, i) == weight(b, i));
            assert(weight(b, i) == weight(c, i));
        }
        if k1 < k2 {
            assert(weight(b, k1) == weight(c, k1));
        }
        assert(precedes_at(a, c, k1));
    } else {
        assert forall|i: int| 0 <= i < k2 implies weight(a, i) == weight(c, i) by {
            assert(weight(a, i) == weight(b, i));
            assert(weight(b, i) == weight(c, i));
        }
        assert(weight(a, k2) == weight(b, k2));
        assert(precedes_at(a, c, k2));
    }
}

/// A strictly sorted sequence of paths holds no path twice.
pub proof fn strictly_sorted_no_duplicates(paths: Seq<Seq<u8>>)
    requires
        strictly_sorted(paths),
    ensures
        paths.no_duplicates(),
{
    assert forall|i: int, j: int| 0 <= i < paths.len() && 0 <= j < paths.len() && i != j implies
        paths[i] != paths[j] by {
        if i < j {
            assert(path_lt(paths[i], paths[j]));
        } else {
            assert(path_lt(paths[j], paths[i]));
        }
        path_lt_irreflexive(paths[i]);
    }
}

/// The weight of the byte at place `i` of `path`.
pub fn weight_at(path: &[u8], i: usize) -> (w: u16)
    requires
        i < path.len(),
    ensures
        w == weight(path@, i as int),
{
    let n = path.len();
    if path[i] == SEPARATOR {
        return 0;
    }
    if path[i] != DOT {
        return path[i] as u16 + 2;
    }
    let starts = i == 0 || path[i - 1] == SEPARATOR;
    let ends = i + 1 == n || path[i + 1] == SEPARATOR;
    if starts && ends {
        return 1;
    }
    if starts && i + 1 < n && path[i + 1] == DOT && (i + 2 == n || path[i + 2] == SEPARATOR) {
        return 1;
    }
    if ends && i >= 1 && path[i - 1] == DOT && (i == 1 || path[i - 2] == SEPARATOR) {
        return 1;
    }
    path[i] as u16 + 2
}

/// Compares two paths name by name.
pub fn rank_paths(a: &[u8], b: &[u8]) -> (rank: Rank)
    ensures
        rank == rank_of(a@, b@),
        rank == Rank::Before <==> path_lt(a@, b@),
        rank == Rank::Same <==> a@ == b@,
        rank == Rank::After <==> path_lt(b@, a@),
{
    proof {
        path_lt_irreflexive(a@);
        path_lt_asymmetric(a@, b@);
    }
    let mut i: usize = 0;
    while i < a.len() && i < b.len()
        invariant
            i <= a.len(),
            i <= b.len(),
            forall|j: int| 0 <= j < i ==> weight(a@, j) == weight(b@, j),
            !(path_lt(a@, b@) && path_lt(b@, a@)),
            !path_lt(a@, a@),
        decreases a.len() - i,
    {
        let wa = weight_at(a, i);
        let wb = weight_at(b, i);
        if wa < wb {
            assert(precedes_at(a@, b@, i as int));
            return Rank::Before;
        }
        if wb < wa {
            assert(precedes_at(b@, a@, i as int));
            return Rank::After;
        }
        i += 1;
    }
    if i < b.len() {
        assert(precedes_at(a@, b@, i as int));
        Rank::Before
    } else if i < a.len() {
        assert(precedes_at(b@, a@, i as int));
        Rank::After
    } else {
        proof {
            assert forall|j: int| 0 <= j < a@.len() implies a@[j] == b@[j] by {
                weight_tells_byte(a@, b@, j);
            }
            assert(a@ =~= b@);
        }
        Rank::Same
    }
}

/// Copies a path.
pub fn copy_path(path: &[u8]) -> (copy: Vec<u8>)
    ensures
        copy@ == path@,
{
    let mut copy: Vec<u8> = Vec::new();
    let mut i: usize = 0;
    while i < path.len()
        invariant
            i <= path.len(),
            copy@ == path@.take(i as int),
        decreases path.len() - i,
    {
        copy.push(path[i]);
        proof {
            assert(path@.take(i + 1) =~= path@.take(i as int).push(path@[i as int]));
        }
        i += 1;
    }
    proof {
        assert(path@.take(i as int) =~= path@);
    }
    copy
}

} // verus!
