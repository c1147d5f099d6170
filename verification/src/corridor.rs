//! The polygon corridor and its reconciliation with a visited trace.
//!
//! A corridor is the planned route as a bounded sequence of polygon
//! references, the agent's polygon first. After each surface-constrained
//! move the engine reports the polygons it crossed, oldest first. The merge
//! finds the deepest polygon the two share, puts the trace from there on in
//! front, most recent first, and keeps as much of the old route beyond that
//! polygon as the capacity allows.

use vstd::prelude::*;
use crate::error::{DivertError, DivertResult};

verus! {

/// A handle of a polygon of the mesh. Only equality means anything.
pub type PolyRef = u64;

/// `path[i]` and `visited[j]` are the same polygon.
pub open spec fn is_common(path: Seq<PolyRef>, visited: Seq<PolyRef>, i: int, j: int) -> bool {
    &&& 0 <= i < path.len()
    &&& 0 <= j < visited.len()
    &&& path[i] == visited[j]
}

/// The two sequences share a polygon.
pub open spec fn has_common(path: Seq<PolyRef>, visited: Seq<PolyRef>) -> bool {
    exists|i: int, j: int| is_common(path, visited, i, j)
}

/// `(i, j)` is the deepest match: no polygon later in `path` occurs in
/// `visited`, and `path[i]` does not occur later in `visited`.
pub open spec fn is_deepest(path: Seq<PolyRef>, visited: Seq<PolyRef>, i: int, j: int) -> bool {
    &&& is_common(path, visited, i, j)
    &&& forall|a: int, b: int| #[trigger]
        is_common(path, visited, a, b) ==> a < i || (a == i && b <= j)
}

/// The deepest match of two sequences that share a polygon.
pub open spec fn deepest(path: Seq<PolyRef>, visited: Seq<PolyRef>) -> (int, int) {
    choose|p: (int, int)| is_deepest(path, visited, p.0, p.1)
}

/// How many entries of the trace go in front: those from the match on.
pub open spec fn merge_required(visited_len: int, j: int) -> int {
    visited_len - j
}

/// Where the part of the old corridor that may be kept begins.
pub open spec fn merge_origin(path_len: int, i: int) -> int {
    if i + 1 < path_len {
        i + 1
    } else {
        path_len
    }
}

/// How many entries of the old corridor are kept: all beyond the match, or
/// as many as still fit behind the trace.
pub open spec fn merge_kept(path_len: int, capacity: int, i: int, required: int) -> int {
    let rest = path_len - merge_origin(path_len, i);
    if required + rest > capacity {
        capacity - required
    } else {
        rest
    }
}

/// The trace from `j` on, most recent first.
pub open spec fn reversed_tail(visited: Seq<PolyRef>, j: int) -> Seq<PolyRef> {
    Seq::new((visited.len() - j) as nat, |k: int| visited[visited.len() - 1 - k])
}

/// The corridor that results from the match `(i, j)`.
pub open spec fn merged(
    path: Seq<PolyRef>,
    visited: Seq<PolyRef>,
    capacity: int,
    i: int,
    j: int,
) -> Seq<PolyRef> {
    let required = merge_required(visited.len() as int, j);
    let origin = merge_origin(path.len() as int, i);
    let kept = merge_kept(path.len() as int, capacity, i, required);
    reversed_tail(visited, j) + path.subrange(origin, origin + kept)
}

/// The corridor after the merge, for sequences that share a polygon.
pub open spec fn merge_spec(path: Seq<PolyRef>, visited: Seq<PolyRef>, capacity: int) -> Seq<
    PolyRef,
> {
    let (i, j) = deepest(path, visited);
    merged(path, visited, capacity, i, j)
}

/// The trace fits: what the merge puts in front is no longer than the
/// capacity. It holds whenever the whole trace is no longer than the capacity.
pub open spec fn trace_fits(path: Seq<PolyRef>, visited: Seq<PolyRef>, capacity: int) -> bool {
    has_common(path, visited) ==> visited.len() - deepest(path, visited).1 <= capacity
}

/// There is one deepest match.
pub proof fn lemma_deepest_unique(path: Seq<PolyRef>, visited: Seq<PolyRef>, i: int, j: int)
    requires
        is_deepest(path, visited, i, j),
    ensures
        deepest(path, visited) == (i, j),
        has_common(path, visited),
{
    let witness = (i, j);
    assert(is_deepest(path, visited, witness.0, witness.1));
    let p = deepest(path, visited);
    assert(is_deepest(path, visited, p.0, p.1));
    assert(is_common(path, visited, p.0, p.1));
    assert(is_common(path, visited, i, j));
}

/// Sequences that share a polygon have a deepest match.
pub proof fn lemma_deepest_exists(path: Seq<PolyRef>, visited: Seq<PolyRef>)
    requires
        has_common(path, visited),
    ensures
        is_deepest(path, visited, deepest(path, visited).0, deepest(path, visited).1),
    decreases path.len(),
{
    let (a, b) = choose|a: int, b: int| is_common(path, visited, a, b);
    let last = path.len() - 1;
    if exists|b: int| is_common(path, visited, last, b) {
        let b0 = choose|b: int| is_common(path, visited, last, b);
        let j = lemma_last_occurrence(visited, path[last], visited.len() as int, b0);
        assert(is_common(path, visited, last, j));
        assert forall|x: int, y: int| #[trigger]
            is_common(path, visited, x, y) implies x < last || (x == last && y <= j) by {}
        assert(is_deepest(path, visited, last, j));
        lemma_deepest_unique(path, visited, last, j);
    } else {
        let shorter = path.subrange(0, last);
        assert(a != last);
        assert(is_common(shorter, visited, a, b));
        lemma_deepest_exists(shorter, visited);
        let (i, j) = deepest(shorter, visited);
        assert(is_common(path, visited, i, j));
        assert forall|x: int, y: int| #[trigger]
            is_common(path, visited, x, y) implies x < i || (x == i && y <= j) by {
            assert(x != last);
            assert(is_common(shorter, visited, x, y));
        }
        assert(is_deepest(path, visited, i, j));
        lemma_deepest_unique(path, visited, i, j);
    }
}

/// The last index below `bound` at which `poly` occurs in `visited`.
proof fn lemma_last_occurrence(visited: Seq<PolyRef>, poly: PolyRef, bound: int, at: int) -> (j:
    int)
    requires
        0 <= at < bound <= visited.len(),
        visited[at] == poly,
    ensures
        at <= j < bound,
        visited[j] == poly,
        forall|b: int| j < b < bound ==> visited[b] != poly,
    decreases bound - at,
{
    if visited[bound - 1] == poly {
        bound - 1
    } else {
        lemma_last_occurrence(visited, poly, bound - 1, at)
    }
}

/// A trace no longer than the capacity fits.
pub proof fn lemma_short_trace_fits(path: Seq<PolyRef>, visited: Seq<PolyRef>, capacity: int)
    requires
        visited.len() <= capacity,
    ensures
        trace_fits(path, visited, capacity),
{
    if has_common(path, visited) {
        lemma_deepest_exists(path, visited);
    }
}

/// The shape of a merged corridor. For a corridor `path` within its
/// capacity and a trace that shares a polygon with it and fits: the result is
/// not empty and no longer than the capacity; it begins with the trace from
/// the deepest match on, most recent polygon first; and it goes on with the
/// old corridor from just behind the match, whole or cut where the capacity
/// is reached.
pub proof fn lemma_merge_shape(path: Seq<PolyRef>, visited: Seq<PolyRef>, capacity: int)
    requires
        path.len() <= capacity,
        has_common(path, visited),
        trace_fits(path, visited, capacity),
    ensures
        ({
            let (i, j) = deepest(path, visited);
            let out = merge_spec(path, visited, capacity);
            let required = visited.len() - j;
            let rest = path.len() - (i + 1);
            let kept = out.len() - required;
            &&& is_deepest(path, visited, i, j)
            &&& 1 <= required <= out.len() <= capacity
            &&& out[0] == visited[visited.len() - 1]
            &&& out.subrange(0, required) == reversed_tail(visited, j)
            &&& forall|k: int| 0 <= k < required ==> out[k] == visited[visited.len() - 1 - k]
            &&& kept == if required + rest > capacity {
                capacity - required
            } else {
                rest
            }
            &&& out.subrange(required, out.len() as int) == path.subrange(i + 1, i + 1 + kept)
            &&& forall|k: int|
                required <= k < out.len() ==> #[trigger] out[k] == path[i + 1 + (k - required)]
        }),
{
    lemma_deepest_exists(path, visited);
    let (i, j) = deepest(path, visited);
    let out = merge_spec(path, visited, capacity);
    let required = visited.len() - j;
    let kept = merge_kept(path.len() as int, capacity, i, required);
    assert(out.subrange(0, required) =~= reversed_tail(visited, j));
    assert(out.subrange(required, out.len() as int) =~= path.subrange(i + 1, i + 1 + kept));
}

/// The deepest polygon that two sequences share: the last index of `this`
/// whose polygon occurs in `other`, with the last index at which it occurs
/// there; `None` exactly when they share none.
pub fn find_common(this: &[PolyRef], other: &[PolyRef]) -> (found: Option<(usize, usize)>)
    ensures
        match found {
            Some((i, j)) => is_deepest(this@, other@, i as int, j as int),
            None => !has_common(this@, other@),
        },
        found is Some <==> has_common(this@, other@),
{
    let mut i: usize = this.len();
    while i > 0
        invariant
            i <= this.len(),
            forall|a: int, b: int| #[trigger] is_common(this@, other@, a, b) ==> a < i,
        decreases i,
    {
        i = i - 1;
        let mut j: usize = other.len();
        while j > 0
            invariant
                i < this.len(),
                j <= other.len(),
                forall|a: int, b: int| #[trigger] is_common(this@, other@, a, b) ==> a <= i,
                forall|b: int| #[trigger] is_common(this@, other@, i as int, b) ==> b < j,
            decreases j,
        {
            j = j - 1;
            if this[i] == other[j] {
                assert(is_common(this@, other@, i as int, j as int));
                return Some((i, j));
            }
        }
    }
    None
}

/// A bounded sequence of polygon references: the agent's polygon first, the
/// polygon nearest the goal last.
pub struct PathCorridor {
    polys: Vec<PolyRef>,
    capacity: usize,
}

impl View for PathCorridor {
    type V = Seq<PolyRef>;

    closed spec fn view(&self) -> Seq<PolyRef> {
        self.polys@
    }
}

impl PathCorridor {
    /// The most entries the corridor may hold.
    pub closed spec fn cap(&self) -> int {
        self.capacity as int
    }

    /// The corridor is within its capacity.
    pub open spec fn wf(&self) -> bool {
        self@.len() <= self.cap()
    }

    /// An empty corridor of the given capacity.
    pub fn new(capacity: usize) -> (corridor: PathCorridor)
        ensures
            corridor.wf(),
            corridor@ == Seq::<PolyRef>::empty(),
            corridor.cap() == capacity,
    {
        PathCorridor { polys: Vec::new(), capacity }
    }

    /// The corridor that holds `polys`, if they fit the capacity.
    pub fn from_polys(polys: Vec<PolyRef>, capacity: usize) -> (corridor: Option<PathCorridor>)
        ensures
            corridor is Some <==> polys@.len() <= capacity,
            corridor is Some ==> {
                &&& corridor->0.wf()
                &&& corridor->0@ == polys@
                &&& corridor->0.cap() == capacity
            },
    {
        if polys.len() <= capacity {
            Some(PathCorridor { polys, capacity })
        } else {
            None
        }
    }

    /// The capacity.
    pub fn capacity(&self) -> (capacity: usize)
        ensures
            capacity == self.cap(),
    {
        self.capacity
    }

    /// The number of polygons.
    pub fn len(&self) -> (len: usize)
        ensures
            len == self@.len(),
    {
        self.polys.len()
    }

    /// Whether the corridor holds no polygon.
    pub fn is_empty(&self) -> (empty: bool)
        ensures
            empty == (self@.len() == 0),
    {
        self.polys.len() == 0
    }

    /// The agent's polygon.
    pub fn first(&self) -> (poly: Option<PolyRef>)
        ensures
            poly == if self@.len() == 0 {
                None::<PolyRef>
            } else {
                Some(self@[0])
            },
    {
        if self.polys.len() == 0 {
            None
        } else {
            Some(self.polys[0])
        }
    }

    /// The polygon nearest the goal.
    pub fn last(&self) -> (poly: Option<PolyRef>)
        ensures
            poly == if self@.len() == 0 {
                None::<PolyRef>
            } else {
                Some(self@[self@.len() - 1])
            },
    {
        let n = self.polys.len();
        if n == 0 {
            None
        } else {
            Some(self.polys[n - 1])
        }
    }

    /// The polygons, in order.
    pub fn polys(&self) -> (polys: &[PolyRef])
        ensures
            polys@ == self@,
    {
        self.polys.as_slice()
    }

    /// Whether the trace fits: what a merge with it would put in front is no
    /// longer than the capacity.
    pub fn admits(&self, visited: &[PolyRef]) -> (fits: bool)
        ensures
            fits == trace_fits(self@, visited@, self.cap()),
    {
        match find_common(self.polys.as_slice(), visited) {
            None => true,
            Some((i, j)) => {
                proof {
                    lemma_deepest_unique(self.polys@, visited@, i as int, j as int);
                }
                visited.len() - j <= self.capacity
            },
        }
    }

    /// Reconciles the corridor with the trace of the last move.
    ///
    /// The trace has to fit, as every trace does that is no longer than the
    /// capacity (`lemma_short_trace_fits`); `admits` tells.
    ///
    /// Fails, and leaves the corridor as it was, exactly when the two share
    /// no polygon. Otherwise the corridor becomes the trace from the deepest
    /// match on, most recent polygon first, followed by the old corridor from
    /// just behind the match, cut where the capacity is reached.
    pub fn merge(&mut self, visited: &[PolyRef]) -> (outcome: DivertResult<()>)
        requires
            old(self).wf(),
            trace_fits(old(self)@, visited@, old(self).cap()),
        ensures
            final(self).wf(),
            final(self).cap() == old(self).cap(),
            outcome is Ok <==> has_common(old(self)@, visited@),
            outcome is Ok ==> final(self)@ == merge_spec(old(self)@, visited@, old(self).cap()),
            outcome is Ok ==> 1 <= final(self)@.len(),
            outcome is Err ==> outcome == Err::<(), DivertError>(
                DivertError::CorridorMergeInvariantViolation,
            ) && final(self)@ == old(self)@,
    {
        let found = find_common(self.polys.as_slice(), visited);
        match found {
            None => Err(DivertError::CorridorMergeInvariantViolation),
            Some((i, j)) => {
                proof {
                    lemma_deepest_unique(self.polys@, visited@, i as int, j as int);
                }
                let len: usize = self.polys.len();
                let required: usize = visited.len() - j;
                let origin: usize = if i + 1 < len {
                    i + 1
                } else {
                    len
                };
                let mut kept: usize = len - origin;
                if kept > self.capacity - required {
                    kept = self.capacity - required;
                }
                let ghost before = self.polys@;
                let mut next: Vec<PolyRef> = Vec::new();
                let mut k: usize = 0;
                while k < required
                    invariant
                        k <= required,
                        required == visited@.len() - j,
                        next@.len() == k,
                        forall|m: int| 0 <= m < k ==> next@[m] == visited@[visited@.len() - 1 - m],
                    decreases required - k,
                {
                    next.push(visited[visited.len() - 1 - k]);
                    k = k + 1;
                }
                let mut t: usize = 0;
                while t < kept
                    invariant
                        t <= kept,
                        origin + kept <= len,
                        len == self.polys@.len(),
                        self.polys@ == before,
                        next@.len() == required + t,
                        forall|m: int|
                            0 <= m < required ==> next@[m] == visited@[visited@.len() - 1 - m],
                        forall|m: int|
                            required <= m < required + t ==> #[trigger] next@[m] == before[origin
                                + (m - required)],
                    decreases kept - t,
                {
                    next.push(self.polys[origin + t]);
                    t = t + 1;
                }
                assert(next@ =~= merged(
                    before,
                    visited@,
                    self.capacity as int,
                    i as int,
                    j as int,
                ));
                self.polys = next;
                Ok(())
            },
        }
    }
}

} // verus!
