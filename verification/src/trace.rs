//! Tracing every closure reachable from a root: a work list of addresses
//! still to visit and the list of those visited, each visited once. Reading
//! a closure and finding its edges is done by the caller between the steps.
use vstd::prelude::*;
use crate::object_scanning::CollectPointerVisitor;

verus! {

/// The position in a work list of the last address not yet visited, or -1
/// when every address in it has been visited.
pub open spec fn last_unvisited(work: Seq<usize>, visited: Seq<usize>) -> int
    decreases work.len(),
{
    if work.len() == 0 {
        -1
    } else if !visited.contains(work.last()) {
        work.len() - 1
    } else {
        last_unvisited(work.drop_last(), visited)
    }
}

proof fn lemma_last_unvisited_bounds(work: Seq<usize>, visited: Seq<usize>)
    ensures
        -1 <= last_unvisited(work, visited) < work.len(),
        last_unvisited(work, visited) >= 0 ==> !visited.contains(work[last_unvisited(work, visited)]),
        forall|j: int|
            last_unvisited(work, visited) < j < work.len() ==> visited.contains(#[trigger] work[j]),
    decreases work.len(),
{
    if work.len() > 0 {
        let rest = work.drop_last();
        lemma_last_unvisited_bounds(rest, visited);
        if visited.contains(work.last()) {
            assert forall|j: int| last_unvisited(work, visited) < j < work.len() implies visited.contains(
                #[trigger] work[j],
            ) by {
                if j < work.len() - 1 {
                    assert(rest[j] == work[j]);
                }
            }
        }
    }
}

/// A trace in progress.
#[derive(Debug)]
pub struct PointerTrace {
    pub visited: Vec<usize>,
    pub to_visit: Vec<usize>,
}

impl PointerTrace {
    /// No address is visited twice.
    pub open spec fn wf(&self) -> bool {
        self.visited@.no_duplicates()
    }

    /// A trace that starts from `root`.
    pub fn new(root: usize) -> (r: PointerTrace)
        ensures
            r.wf(),
            r.visited@ == Seq::<usize>::empty(),
            r.to_visit@ == seq![root],
    {
        let mut to_visit = Vec::new();
        to_visit.push(root);
        PointerTrace { visited: Vec::new(), to_visit }
    }

    /// Whether `x` has been visited.
    pub fn has_visited(&self, x: usize) -> (r: bool)
        ensures
            r == self.visited@.contains(x),
    {
        let mut i: usize = 0;
        while i < self.visited.len()
            invariant
                i <= self.visited@.len(),
                forall|j: int| 0 <= j < i ==> self.visited@[j] != x,
            decreases self.visited@.len() - i,
        {
            if self.visited[i] == x {
                return true;
            }
            i += 1;
        }
        false
    }

    /// Takes addresses off the end of the work list until one that has not
    /// been visited comes up, and hands it out; `None` once the work list
    /// runs out.
    pub fn next_unvisited(&mut self) -> (r: Option<usize>)
        ensures
            final(self).visited@ == old(self).visited@,
            r matches Some(x) ==> !final(self).visited@.contains(x),
            ({
                let k = last_unvisited(old(self).to_visit@, old(self).visited@);
                // every address taken off and not handed out had been visited
                &&& forall|j: int|
                    k < j < old(self).to_visit@.len() ==> old(self).visited@.contains(
                        #[trigger] old(self).to_visit@[j],
                    )
                &&& if k < 0 {
                    &&& r is None
                    &&& final(self).to_visit@ == Seq::<usize>::empty()
                } else {
                    &&& r == Some(old(self).to_visit@[k])
                    &&& final(self).to_visit@ == old(self).to_visit@.take(k)
                }
            }),
    {
        proof {
            lemma_last_unvisited_bounds(old(self).to_visit@, old(self).visited@);
        }
        while !self.to_visit.is_empty()
            invariant
                self.visited@ == old(self).visited@,
                self.to_visit@.len() <= old(self).to_visit@.len(),
                self.to_visit@ == old(self).to_visit@.take(self.to_visit@.len() as int),
                last_unvisited(self.to_visit@, self.visited@) == last_unvisited(
                    old(self).to_visit@,
                    old(self).visited@,
                ),
            decreases self.to_visit@.len(),
        {
            let ghost before = self.to_visit@;
            let x = self.to_visit.pop().unwrap();
            proof {
                assert(before.drop_last() =~= self.to_visit@);
                assert(self.to_visit@ =~= old(self).to_visit@.take(self.to_visit@.len() as int));
            }
            if !self.has_visited(x) {
                proof {
                    lemma_last_unvisited_bounds(old(self).to_visit@, old(self).visited@);
                }
                return Some(x);
            }
        }
        proof {
            lemma_last_unvisited_bounds(old(self).to_visit@, old(self).visited@);
        }
        None
    }

    /// Records the visit of `obj`, whose edges the visitor has collected;
    /// the edges join the work list and the visitor is emptied.
    pub fn record_visit(&mut self, obj: usize, visitor: &mut CollectPointerVisitor)
        requires
            old(self).wf(),
            !old(self).visited@.contains(obj),
        ensures
            final(self).wf(),
            final(self).visited@ == old(self).visited@.push(obj),
            final(self).to_visit@ == old(self).to_visit@ + old(visitor).pointers@,
            final(visitor).pointers@ == Seq::<usize>::empty(),
    {
        self.to_visit.append(&mut visitor.pointers);
        self.visited.push(obj);
        proof {
            let v = self.visited@;
            assert forall|i: int, j: int| 0 <= i < v.len() && 0 <= j < v.len() && i != j implies v[i]
                != v[j] by {
                if i == v.len() - 1 {
                    assert(old(self).visited@.contains(obj) == false);
                    assert(v[j] == old(self).visited@[j]);
                } else if j == v.len() - 1 {
                    assert(v[i] == old(self).visited@[i]);
                }
            }
        }
    }
}

/// Whether the trace is closed under the edges found so far: every visited
/// closure's edges lead to closures that are visited or still pending.
pub open spec fn trace_closed(visited: Seq<usize>, pending: Seq<usize>, edges: Map<usize, Seq<usize>>) -> bool {
    forall|v: usize|
        #![trigger visited.contains(v)]
        visited.contains(v) ==> {
            &&& edges.dom().contains(v)
            &&& forall|e: usize|
                #![trigger edges[v].contains(e)]
                edges[v].contains(e) ==> visited.contains(e) || pending.contains(e)
        }
}

/// A trace starts closed: nothing is visited yet.
pub proof fn lemma_trace_starts_closed(root: usize)
    ensures
        trace_closed(Seq::empty(), seq![root], Map::empty()),
{
}

/// Taking addresses off the work list keeps the trace closed, with the
/// address handed out still counted as pending until its visit is recorded;
/// once the work list runs out, every edge found leads to a visited closure.
pub proof fn lemma_next_unvisited_keeps_closed(
    visited: Seq<usize>,
    work: Seq<usize>,
    edges: Map<usize, Seq<usize>>,
)
    requires
        trace_closed(visited, work, edges),
    ensures
        last_unvisited(work, visited) < 0 ==> trace_closed(visited, Seq::empty(), edges),
        last_unvisited(work, visited) >= 0 ==> trace_closed(
            visited,
            work.take(last_unvisited(work, visited) + 1),
            edges,
        ),
{
    lemma_last_unvisited_bounds(work, visited);
    let k = last_unvisited(work, visited);
    let kept = if k < 0 { Seq::<usize>::empty() } else { work.take(k + 1) };
    assert forall|v: usize| #![trigger visited.contains(v)] visited.contains(v) implies {
        &&& edges.dom().contains(v)
        &&& forall|e: usize|
            #![trigger edges[v].contains(e)]
            edges[v].contains(e) ==> visited.contains(e) || kept.contains(e)
    } by {
        assert forall|e: usize| #![trigger edges[v].contains(e)] edges[v].contains(e) implies visited.contains(e)
            || kept.contains(e) by {
            if !visited.contains(e) {
                assert(work.contains(e));
                let j = choose|j: int| 0 <= j < work.len() && work[j] == e;
                if j > k {
                    assert(visited.contains(work[j]));
                } else {
                    assert(kept[j] == e);
                }
            }
        }
    }
}

/// Recording the visit of a pending closure and the edges found in it keeps
/// the trace closed: those edges join the work list.
pub proof fn lemma_record_visit_keeps_closed(
    visited: Seq<usize>,
    work: Seq<usize>,
    edges: Map<usize, Seq<usize>>,
    obj: usize,
    found: Seq<usize>,
)
    requires
        trace_closed(visited, work.push(obj), edges),
        !visited.contains(obj),
    ensures
        trace_closed(visited.push(obj), work + found, edges.insert(obj, found)),
{
    let visited2 = visited.push(obj);
    let work2 = work + found;
    let edges2 = edges.insert(obj, found);
    assert forall|v: usize| #![trigger visited2.contains(v)] visited2.contains(v) implies {
        &&& edges2.dom().contains(v)
        &&& forall|e: usize|
            #![trigger edges2[v].contains(e)]
            edges2[v].contains(e) ==> visited2.contains(e) || work2.contains(e)
    } by {
        if v == obj {
            assert forall|e: usize| #![trigger edges2[v].contains(e)] edges2[v].contains(e) implies visited2.contains(e)
                || work2.contains(e) by {
                let j = choose|j: int| 0 <= j < found.len() && found[j] == e;
                assert(work2[work.len() + j] == e);
            }
        } else {
            assert(visited.contains(v)) by {
                let j = choose|j: int| 0 <= j < visited2.len() && visited2[j] == v;
                assert(visited[j] == v);
            }
            assert forall|e: usize| #![trigger edges2[v].contains(e)] edges2[v].contains(e) implies visited2.contains(e)
                || work2.contains(e) by {
                assert(edges[v].contains(e));
                if visited.contains(e) {
                    let j = choose|j: int| 0 <= j < visited.len() && visited[j] == e;
                    assert(visited2[j] == e);
                } else {
                    assert(work.push(obj).contains(e));
                    let j = choose|j: int| 0 <= j < work.len() + 1 && work.push(obj)[j] == e;
                    if j == work.len() {
                        assert(visited2[visited.len() as int] == e);
                    } else {
                        assert(work2[j] == e);
                    }
                }
            }
        }
    }
}

/// A closed trace whose work list has run out has visited every closure
/// reachable from its visited closures by the edges found.
pub proof fn lemma_finished_trace_visits_all_edges(visited: Seq<usize>, edges: Map<usize, Seq<usize>>, v: usize, e: usize)
    requires
        trace_closed(visited, Seq::empty(), edges),
        visited.contains(v),
        edges[v].contains(e),
    ensures
        visited.contains(e),
{
}

/// A trace that never visits a closure twice, over closures whose addresses
/// lie in a finite set, has visited at most as many closures as the set
/// holds. Each round of the tracing loop that hands out an address records
/// one more visit, so over a finite heap the loop ends.
pub proof fn lemma_trace_visits_bounded(visited: Seq<usize>, heap: Set<usize>)
    requires
        visited.no_duplicates(),
        heap.finite(),
        forall|i: int| 0 <= i < visited.len() ==> heap.contains(#[trigger] visited[i]),
    ensures
        visited.len() <= heap.len(),
{
    visited.unique_seq_to_set();
    assert(visited.to_set().subset_of(heap)) by {
        assert forall|a: usize| visited.to_set().contains(a) implies heap.contains(a) by {
            let i = choose|i: int| 0 <= i < visited.len() && visited[i] == a;
        }
    }
    vstd::set_lib::lemma_len_subset(visited.to_set(), heap);
}

/// Whether two traces visited the same closures in the same order, compared
/// by address without pointer tags.
pub open spec fn same_trace(a: Seq<usize>, b: Seq<usize>) -> bool {
    &&& a.len() == b.len()
    &&& forall|i: int| 0 <= i < a.len() ==> a[i] - a[i] % 8 == b[i] - b[i] % 8
}

/// Compares two traces by address without pointer tags.
pub fn traces_agree(a: &Vec<usize>, b: &Vec<usize>) -> (r: bool)
    ensures
        r == same_trace(a@, b@),
{
    if a.len() != b.len() {
        return false;
    }
    let mut i: usize = 0;
    while i < a.len()
        invariant
            a@.len() == b@.len(),
            i <= a@.len(),
            forall|j: int| 0 <= j < i ==> a@[j] - a@[j] % 8 == b@[j] - b@[j] % 8,
        decreases a@.len() - i,
    {
        let x = crate::stg_closures::TaggedClosureRef(a[i]).to_ptr();
        let y = crate::stg_closures::TaggedClosureRef(b[i]).to_ptr();
        if x != y {
            return false;
        }
        i += 1;
    }
    true
}

} // verus!
