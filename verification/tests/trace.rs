use mmtk_ghc::object_scanning::CollectPointerVisitor;
use mmtk_ghc::trace::{traces_agree, PointerTrace};

/// Runs a trace over a small graph given as (address, edges) pairs.
fn run(graph: &[(usize, Vec<usize>)], root: usize) -> Vec<usize> {
    let mut trace = PointerTrace::new(root);
    while let Some(x) = trace.next_unvisited() {
        let mut visitor = CollectPointerVisitor::new();
        for (addr, edges) in graph {
            if *addr == x {
                for e in edges {
                    visitor.visit_edge(*e);
                }
            }
        }
        trace.record_visit(x, &mut visitor);
        assert!(visitor.pointers.is_empty());
    }
    assert!(trace.to_visit.is_empty());
    trace.visited
}

#[test]
fn trace_visits_each_reachable_closure_once() {
    let graph = vec![(1, vec![2, 3]), (2, vec![3, 1]), (3, vec![1, 4]), (4, vec![]), (5, vec![1])];
    let visited = run(&graph, 1);
    // the work list is taken from its end
    assert_eq!(visited, vec![1, 3, 4, 2]);
}

#[test]
fn trace_of_a_cycle_terminates() {
    let graph = vec![(10, vec![20]), (20, vec![10])];
    assert_eq!(run(&graph, 10), vec![10, 20]);
}

#[test]
fn next_unvisited_skips_visited_addresses() {
    let mut trace = PointerTrace::new(1);
    assert_eq!(trace.next_unvisited(), Some(1));
    let mut v = CollectPointerVisitor::new();
    v.visit_edge(2);
    v.visit_edge(1);
    trace.record_visit(1, &mut v);
    assert!(trace.has_visited(1));
    assert!(!trace.has_visited(2));
    assert_eq!(trace.next_unvisited(), Some(2));
    assert!(trace.to_visit.is_empty());
    assert_eq!(trace.next_unvisited(), None);
}

#[test]
fn traces_compare_without_tags() {
    assert!(traces_agree(&vec![0x1001, 0x2000], &vec![0x1000, 0x2003]));
    assert!(!traces_agree(&vec![0x1000, 0x2000], &vec![0x1000, 0x3000]));
    assert!(!traces_agree(&vec![0x1000], &vec![0x1000, 0x2000]));
    assert!(traces_agree(&vec![], &vec![]));
}
