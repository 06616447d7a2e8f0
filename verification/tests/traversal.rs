//! Traversal scenarios: the walker driven by a mock native layer.

use libzfs_rs::dataset::ZfsError;
use libzfs_rs::handle::{TransferToken, ZFSHandle};
use libzfs_rs::stream::{ChildEvent, StreamSource};
use libzfs_rs::walker::{replay, Walker};

/// Children of `id` in the mock tree, in native callback order.
fn children_of(tree: &[(u64, Vec<u64>)], id: u64) -> Vec<u64> {
    for (node, kids) in tree {
        if *node == id {
            return kids.clone();
        }
    }
    Vec::new()
}

/// Drive a walker over the mock tree exactly as the native layer would:
/// pull from the stream the walker names, hand each discovered child over
/// as a transfer token, report exhaustion when a level runs dry.  Returns
/// the raw references in yield order; every yielded handle is consumed
/// (released) exactly once, into `released`.
fn traverse(roots: &[u64], tree: &[(u64, Vec<u64>)], released: &mut Vec<u64>) -> Vec<u64> {
    let mut walker = Walker::new();
    let mut pending: Vec<(StreamSource, Vec<u64>)> =
        vec![(StreamSource::Roots, roots.to_vec())];
    let mut out = Vec::new();
    while let Some(source) = walker.next_source() {
        let (expected, level) = pending.last_mut().expect("one pending queue per stream");
        assert_eq!(source, *expected);
        if level.is_empty() {
            pending.pop();
            let yielded = walker
                .feed(ChildEvent::Exhausted(0))
                .expect("a clean exhaustion is not an error");
            assert!(yielded.is_none());
        } else {
            let id = level.remove(0);
            let handle = walker
                .feed(ChildEvent::Child(TransferToken::new(id)))
                .expect("a child event is not a failure")
                .expect("a child event yields its node");
            out.push(handle.raw());
            released.push(handle.into_raw());
            pending.push((StreamSource::Node(id), children_of(tree, id)));
        }
    }
    assert!(walker.is_done());
    out
}

#[test]
fn test_preorder_r_a_a1_b() {
    // Root R with children [A, B], where A has child [A1]:
    // the walker yields exactly R, A, A1, B.
    let tree = [(1u64, vec![2, 4]), (2u64, vec![3]), (3u64, vec![]), (4u64, vec![])];
    let mut released = Vec::new();
    let order = traverse(&[1], &tree, &mut released);
    assert_eq!(order, vec![1, 2, 3, 4]);
}

#[test]
fn test_order_preservation() {
    // One root whose native enumeration calls back with [X, Y, Z]:
    // the produced sequence for that node is exactly [X, Y, Z].
    let tree = [(7u64, vec![10, 20, 30])];
    let mut released = Vec::new();
    let order = traverse(&[7], &tree, &mut released);
    assert_eq!(order, vec![7, 10, 20, 30]);
}

#[test]
fn test_each_node_released_exactly_once() {
    // Every node reference obtained from enumeration is yielded once and
    // the handle that owns it is consumed (released) once.
    let tree = [(1u64, vec![2, 4]), (2u64, vec![3]), (3u64, vec![]), (4u64, vec![])];
    let mut released = Vec::new();
    let order = traverse(&[1], &tree, &mut released);
    assert_eq!(released, order);
    let mut sorted = released.clone();
    sorted.sort();
    sorted.dedup();
    assert_eq!(sorted.len(), released.len(), "a handle was released twice");
    assert_eq!(sorted, vec![1, 2, 3, 4], "a reachable node was missed");
}

#[test]
fn test_forest_of_two_roots() {
    // Two top-level datasets; each subtree is finished before the next
    // root is taken up.
    let tree = [(1u64, vec![2]), (2u64, vec![]), (5u64, vec![6, 7])];
    let mut released = Vec::new();
    let order = traverse(&[1, 5], &tree, &mut released);
    assert_eq!(order, vec![1, 2, 5, 6, 7]);
}

#[test]
fn test_empty_roots_is_exhaustion_not_error() {
    // Root enumeration returned an empty list: the walker yields nothing
    // and signals exhaustion; nothing fails.
    let mut walker = Walker::new();
    assert!(!walker.is_done());
    assert_eq!(walker.next_source(), Some(StreamSource::Roots));
    let yielded = walker.feed(ChildEvent::Exhausted(0)).expect("exhaustion is not an error");
    assert!(yielded.is_none());
    assert!(walker.is_done());
    assert_eq!(walker.next_source(), None);
}

#[test]
fn test_early_termination_yields_prefix() {
    // Stop pulling after two of the five nodes: what came out is a prefix
    // of the full traversal, and nothing was yielded or released twice.
    let tree = [(1u64, vec![2, 4]), (2u64, vec![3]), (3u64, vec![]), (4u64, vec![5]), (5u64, vec![])];
    let mut full_released = Vec::new();
    let full = traverse(&[1], &tree, &mut full_released);
    assert_eq!(full, vec![1, 2, 3, 4, 5]);

    let mut walker = Walker::new();
    let mut released = Vec::new();
    let first = walker.feed(ChildEvent::Child(TransferToken::new(1))).unwrap().unwrap();
    released.push(first.into_raw());
    let second = walker.feed(ChildEvent::Child(TransferToken::new(2))).unwrap().unwrap();
    released.push(second.into_raw());
    // consumption stops here; the walker is simply dropped mid-traversal
    assert_eq!(released, full[..2].to_vec());
    let mut sorted = released.clone();
    sorted.dedup();
    assert_eq!(sorted.len(), 2);
    drop(walker);
}

#[test]
fn test_replay_of_a_complete_trace() {
    // The recorded event trace of root 1 with children [2, 4], where 2 has
    // child [3]: each node announced before its children's events, each
    // stream closed by one exhaustion.
    let events = vec![
        ChildEvent::Child(TransferToken::new(1)),
        ChildEvent::Child(TransferToken::new(2)),
        ChildEvent::Child(TransferToken::new(3)),
        ChildEvent::Exhausted(0),
        ChildEvent::Exhausted(0),
        ChildEvent::Child(TransferToken::new(4)),
        ChildEvent::Exhausted(0),
        ChildEvent::Exhausted(0),
        ChildEvent::Exhausted(0),
    ];
    let (handles, failure) = replay(events);
    assert!(failure.is_none());
    let out: Vec<u64> = handles.into_iter().map(ZFSHandle::into_raw).collect();
    assert_eq!(out, vec![1, 2, 3, 4]);
}

#[test]
fn test_replay_of_a_truncated_trace() {
    // The same trace cut off after the second child: a prefix of the full
    // traversal comes out, nothing more.
    let events = vec![
        ChildEvent::Child(TransferToken::new(1)),
        ChildEvent::Child(TransferToken::new(2)),
    ];
    let (handles, failure) = replay(events);
    assert!(failure.is_none());
    let out: Vec<u64> = handles.into_iter().map(ZFSHandle::into_raw).collect();
    assert_eq!(out, vec![1, 2]);
}

#[test]
fn test_replay_stops_at_child_enumeration_failure() {
    // The enumeration of node 2's children fails with a nonzero native
    // status: the traversal stops there with a structured error, the
    // nodes yielded before the failure come back for release, and
    // nothing after the failure is yielded.
    let events = vec![
        ChildEvent::Child(TransferToken::new(1)),
        ChildEvent::Child(TransferToken::new(2)),
        ChildEvent::Exhausted(-5),
        ChildEvent::Child(TransferToken::new(9)),
        ChildEvent::Exhausted(0),
    ];
    let (handles, failure) = replay(events);
    assert_eq!(failure, Some(ZfsError::EnumerationFailure));
    let out: Vec<u64> = handles.into_iter().map(ZFSHandle::into_raw).collect();
    assert_eq!(out, vec![1, 2]);
}

#[test]
fn test_walker_distinguishes_failure_from_exhaustion() {
    // A clean exhaustion pops quietly; a failed one surfaces the error.
    let mut walker = Walker::new();
    let root = walker.feed(ChildEvent::Child(TransferToken::new(1))).unwrap().unwrap();
    assert_eq!(root.into_raw(), 1);
    let failed = walker.feed(ChildEvent::Exhausted(3));
    assert!(matches!(failed, Err(ZfsError::EnumerationFailure)));
    // the failed stream was popped; the root level is intact below it
    assert_eq!(walker.next_source(), Some(StreamSource::Roots));
}

#[test]
fn test_walker_depth_tracks_path_not_size() {
    // The stack holds one stream per ancestor on the current path: on a
    // chain of four nodes it reaches depth five (root level included),
    // and shrinks back to zero by the end.
    let tree = [(1u64, vec![2]), (2u64, vec![3]), (3u64, vec![4]), (4u64, vec![])];
    let mut walker = Walker::new();
    let mut pending: Vec<Vec<u64>> = vec![vec![1]];
    let mut max_depth = walker.depth();
    while let Some(_source) = walker.next_source() {
        let level = pending.last_mut().unwrap();
        if level.is_empty() {
            pending.pop();
            walker.feed(ChildEvent::Exhausted(0)).unwrap();
        } else {
            let id = level.remove(0);
            let h = walker.feed(ChildEvent::Child(TransferToken::new(id))).unwrap().unwrap();
            h.into_raw();
            pending.push(children_of(&tree, id));
        }
        if walker.depth() > max_depth {
            max_depth = walker.depth();
        }
    }
    assert_eq!(max_depth, 5);
    assert_eq!(walker.depth(), 0);
}
