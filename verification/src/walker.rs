//! The depth-first walker: a stack of child streams flattened into one
//! pre-order traversal of the whole dataset tree.
//!
//! The walker holds one in-progress [`Children`] stream per ancestor on the
//! current path from a root (index 0 is the root-level stream).  On each
//! pull it names the stream to pull from (the top of the stack); the event
//! that comes back either yields a node — which is handed to the caller and
//! gets a brand-new stream for its own children pushed — or ends the top
//! stream, which is popped to backtrack to the ancestor's remaining
//! siblings.  An end with a nonzero native status is a failed enumeration:
//! it is surfaced as a structured error, never mistaken for "no more
//! children".  The proofs below show that, driven by the event trace of
//! any finite forest, the walker yields exactly the forest's pre-order
//! listing — every reachable node once, in order, a node always before its
//! descendants — and reports a failure exactly when the events hold one.

use vstd::prelude::*;
use vstd::multiset::Multiset;
use vstd::seq_lib::lemma_multiset_commutative;
use crate::dataset::ZfsError;
use crate::handle::{handle_ids, ZFSHandle};
use crate::stream::{ChildEvent, Children, SpecEvent, StreamSource};

verus! {

/// An ordered forest of dataset nodes, in first-child/next-sibling form:
/// a node carries its raw reference, the forest of its own children, and
/// the forest of the siblings that follow it.  This is the mathematical
/// shape against which the traversal is proved; the real tree is only ever
/// discovered lazily, event by event.
pub enum Forest {
    Empty,
    Node { id: u64, children: Box<Forest>, siblings: Box<Forest> },
}

/// The pre-order listing of a forest: each node before its descendants,
/// each subtree before the siblings that follow it.
pub open spec fn preorder(f: Forest) -> Seq<u64>
    decreases f,
{
    match f {
        Forest::Empty => Seq::empty(),
        Forest::Node { id, children, siblings } => seq![id] + preorder(*children) + preorder(
            *siblings,
        ),
    }
}

/// Every node of a forest, with multiplicity.
pub open spec fn nodes(f: Forest) -> Multiset<u64>
    decreases f,
{
    match f {
        Forest::Empty => Multiset::empty(),
        Forest::Node { id, children, siblings } => nodes(*children).add(nodes(*siblings)).insert(
            id,
        ),
    }
}

/// The event trace a faithful enumeration of a forest delivers to the
/// walker: each node announced before its children's trace, each stream
/// ended by one clean (status zero) exhaustion event — exactly the order
/// in which the walker asks its stack of streams.
pub open spec fn trace(f: Forest) -> Seq<SpecEvent>
    decreases f,
{
    match f {
        Forest::Empty => seq![SpecEvent::Exhausted(0)],
        Forest::Node { id, children, siblings } => seq![SpecEvent::Child(id)] + trace(*children)
            + trace(*siblings),
    }
}

/// The walker's small-step transition, iterated over a whole event
/// sequence: what the walker yields when its stack of stream sources is
/// `stack` and the events arrive as `evs`.  A child event yields the node
/// and pushes its stream; a clean exhaustion pops; a failed exhaustion
/// (nonzero status) stops the traversal, so nothing after it is yielded;
/// an empty stack ignores whatever is left.
pub open spec fn run_yields(stack: Seq<StreamSource>, evs: Seq<SpecEvent>) -> Seq<u64>
    decreases evs.len(),
{
    if stack.len() == 0 || evs.len() == 0 {
        Seq::empty()
    } else {
        match evs[0] {
            SpecEvent::Child(n) => seq![n] + run_yields(
                stack.push(StreamSource::Node(n)),
                evs.drop_first(),
            ),
            SpecEvent::Exhausted(s) => if s == 0 {
                run_yields(stack.drop_last(), evs.drop_first())
            } else {
                Seq::empty()
            },
        }
    }
}

/// Whether a run over `evs` hits a failed exhaustion before it finishes:
/// the structured-error half of a run, beside the yields of
/// [`run_yields`].
pub open spec fn run_failed(stack: Seq<StreamSource>, evs: Seq<SpecEvent>) -> bool
    decreases evs.len(),
{
    if stack.len() == 0 || evs.len() == 0 {
        false
    } else {
        match evs[0] {
            SpecEvent::Child(n) => run_failed(stack.push(StreamSource::Node(n)), evs.drop_first()),
            SpecEvent::Exhausted(s) => if s == 0 {
                run_failed(stack.drop_last(), evs.drop_first())
            } else {
                true
            },
        }
    }
}

/// The stack a fresh walker starts from: the root-level stream alone.
pub open spec fn initial_stack() -> Seq<StreamSource> {
    seq![StreamSource::Roots]
}

/// One event agrees with one step of [`run_yields`] and [`run_failed`]:
/// feeding `ev` and then the rest of the events gives, in total, exactly
/// what one transition of the iterated run gives.  Each transition here is
/// the one [`Walker::feed`] promises in its `ensures`, so a whole run of
/// the executable walker is a run of these two functions.
pub proof fn lemma_feed_step(stack: Seq<StreamSource>, ev: SpecEvent, evs: Seq<SpecEvent>)
    requires
        stack.len() >= 1,
    ensures
        (ev matches SpecEvent::Child(n) ==> {
            &&& run_yields(stack, seq![ev] + evs) == seq![n] + run_yields(
                stack.push(StreamSource::Node(n)),
                evs,
            )
            &&& run_failed(stack, seq![ev] + evs) == run_failed(
                stack.push(StreamSource::Node(n)),
                evs,
            )
        }),
        (ev matches SpecEvent::Exhausted(s) ==> {
            &&& (s == 0 ==> run_yields(stack, seq![ev] + evs) == run_yields(
                stack.drop_last(),
                evs,
            ) && run_failed(stack, seq![ev] + evs) == run_failed(stack.drop_last(), evs))
            &&& (s != 0 ==> run_yields(stack, seq![ev] + evs) == Seq::<u64>::empty()
                && run_failed(stack, seq![ev] + evs))
        }),
{
    assert((seq![ev] + evs)[0] == ev);
    assert((seq![ev] + evs).drop_first() =~= evs);
}

/// The mathematical events a sequence of exec events stands for.
pub open spec fn event_views(evs: Seq<ChildEvent>) -> Seq<SpecEvent> {
    evs.map_values(|e: ChildEvent| e.as_spec())
}

/// The depth-first walker over a stack of child streams.
pub struct Walker {
    stack: Vec<Children>,
    yielded: Ghost<Seq<u64>>,
}

impl Walker {
    /// The sources of the in-progress streams, bottom of the stack first.
    pub closed spec fn sources(&self) -> Seq<StreamSource> {
        self.stack@.map_values(|c: Children| c.spec_source())
    }

    /// Every raw reference the walker has yielded, in traversal order.
    pub closed spec fn yielded(&self) -> Seq<u64> {
        self.yielded@
    }

    /// No stream still on the stack is exhausted: an exhausted stream is
    /// popped by the very transition that exhausts it.
    pub closed spec fn wf(&self) -> bool {
        forall|i: int| 0 <= i < self.stack@.len() ==> !(#[trigger] self.stack@[i]).spec_exhausted()
    }

    /// The traversal is over: every stream has been exhausted and popped.
    pub open spec fn spec_done(&self) -> bool {
        self.sources().len() == 0
    }

    /// A fresh walker: one stream on the stack, the root level; nothing
    /// yielded yet.
    pub fn new() -> (w: Walker)
        ensures
            w.wf(),
            w.sources() == initial_stack(),
            w.yielded() == Seq::<u64>::empty(),
    {
        let mut stack: Vec<Children> = Vec::new();
        stack.push(Children::for_roots());
        let w = Walker { stack, yielded: Ghost(Seq::empty()) };
        proof {
            assert(w.sources() =~= initial_stack());
        }
        w
    }

    /// Whether the traversal is over.
    pub fn is_done(&self) -> (r: bool)
        ensures
            r == self.spec_done(),
    {
        self.stack.len() == 0
    }

    /// How many streams are in progress: one per ancestor on the current
    /// path, so the depth of the stack is bounded by the depth of the tree,
    /// never by its total size.
    pub fn depth(&self) -> (n: usize)
        ensures
            n == self.sources().len(),
    {
        self.stack.len()
    }

    /// Which stream the next event must be pulled from: the top of the
    /// stack, or nothing once the traversal is over.  This is the only
    /// point at which the consumer may block.
    pub fn next_source(&self) -> (r: Option<StreamSource>)
        ensures
            self.spec_done() ==> r is None,
            !self.spec_done() ==> r == Some(self.sources().last()),
    {
        let n = self.stack.len();
        if n == 0 {
            None
        } else {
            let top: &Children = &self.stack[n - 1];
            proof {
                assert(self.sources().last() == self.stack@.last().spec_source());
            }
            Some(top.source())
        }
    }

    /// Apply the event pulled from the top stream.
    ///
    /// A child event means the top stream produced one more node: the node
    /// is wrapped into an owning [`ZFSHandle`], a brand-new stream for its own
    /// children is pushed (descend), and the node is yielded to the caller
    /// — before any of its descendants.  An exhaustion event means the top
    /// stream ended: it is marked terminal with the native status and
    /// popped (backtrack); a clean end yields nothing, a failed end
    /// (nonzero status) surfaces [`ZfsError::EnumerationFailure`], so a
    /// failed enumeration is never mistaken for an exhausted one.
    pub fn feed(&mut self, ev: ChildEvent) -> (r: Result<Option<ZFSHandle>, ZfsError>)
        requires
            old(self).wf(),
            !old(self).spec_done(),
        ensures
            final(self).wf(),
            (ev.as_spec() matches SpecEvent::Child(id) ==> {
                &&& (r matches Ok(y) && y matches Some(h) && h.raw_id() == id)
                &&& final(self).sources() == old(self).sources().push(StreamSource::Node(id))
                &&& final(self).yielded() == old(self).yielded().push(id)
            }),
            (ev.as_spec() matches SpecEvent::Exhausted(status) ==> {
                &&& final(self).sources() == old(self).sources().drop_last()
                &&& final(self).yielded() == old(self).yielded()
                &&& (status == 0 ==> (r matches Ok(y) && y is None))
                &&& (status != 0 ==> r == Err::<Option<ZFSHandle>, ZfsError>(
                    ZfsError::EnumerationFailure,
                ))
            }),
    {
        let popped = self.stack.pop();
        let mut top = popped.unwrap();
        proof {
            assert(!old(self).stack@[old(self).stack@.len() - 1].spec_exhausted());
        }
        match ev {
            ChildEvent::Child(t) => {
                let ghost id = t.raw_id();
                let h = top.accept_child(t);
                let raw = h.raw();
                let frame = Children::for_node(raw);
                let ghost top_now = top;
                let ghost frame_now = frame;
                self.stack.push(top);
                self.stack.push(frame);
                self.yielded = Ghost(self.yielded@.push(raw));
                proof {
                    let s = self.stack@;
                    let olds = old(self).stack@;
                    assert(s == olds.drop_last().push(top_now).push(frame_now));
                    assert forall|i: int| 0 <= i < s.len() implies !(#[trigger] s[i]).spec_exhausted() by {
                        if i < olds.len() - 1 {
                            assert(s[i] == olds[i]);
                        }
                    }
                    assert(self.sources() =~= old(self).sources().push(StreamSource::Node(id)));
                }
                Ok(Some(h))
            },
            ChildEvent::Exhausted(status) => {
                top.mark_exhausted(status);
                proof {
                    let s = self.stack@;
                    let olds = old(self).stack@;
                    assert forall|i: int| 0 <= i < s.len() implies !(#[trigger] s[i]).spec_exhausted() by {
                        assert(s[i] == olds[i]);
                    }
                    assert(self.sources() =~= old(self).sources().drop_last());
                }
                if status == 0 {
                    Ok(None)
                } else {
                    Err(ZfsError::EnumerationFailure)
                }
            },
        }
    }
}

/// Run a whole traversal from a complete event sequence: feed each event
/// in turn until the walker finishes, a stream fails, or the events run
/// out, and collect every yielded handle.  What comes out is exactly
/// [`run_yields`] over the events — so, by [`lemma_walker_preorder`], the
/// pre-order listing of the tree whenever the events are its trace — and
/// beside it the structured error of a failed enumeration, exactly when
/// [`run_failed`] says one occurred.  The handles collected before a
/// failure are handed back with the error, never dropped in here.
#[verifier::loop_isolation(false)]
pub fn replay(events: Vec<ChildEvent>) -> (out: (Vec<ZFSHandle>, Option<ZfsError>))
    ensures
        handle_ids(out.0@) == run_yields(initial_stack(), event_views(events@)),
        out.1 == (if run_failed(initial_stack(), event_views(events@)) {
            Some(ZfsError::EnumerationFailure)
        } else {
            None::<ZfsError>
        }),
{
    let ghost all = event_views(events@);
    let mut events = events;
    let mut walker = Walker::new();
    let mut out: Vec<ZFSHandle> = Vec::new();
    proof {
        assert(handle_ids(out@) =~= Seq::<u64>::empty());
        assert(run_yields(initial_stack(), all) == handle_ids(out@) + run_yields(
            walker.sources(),
            event_views(events@),
        )) by {
            assert(handle_ids(out@) + run_yields(walker.sources(), event_views(events@))
                =~= run_yields(walker.sources(), event_views(events@)));
        }
    }
    while !(events.len() == 0 || walker.is_done())
        invariant
            walker.wf(),
            run_yields(initial_stack(), all) == handle_ids(out@) + run_yields(
                walker.sources(),
                event_views(events@),
            ),
            run_failed(initial_stack(), all) == run_failed(
                walker.sources(),
                event_views(events@),
            ),
        decreases events.len(),
    {
        let ghost pre_out = handle_ids(out@);
        let ghost pre_sources = walker.sources();
        let ghost left = event_views(events@);
        let ev = events.remove(0);
        let ghost ev_spec = ev.as_spec();
        proof {
            assert(left =~= seq![ev_spec] + event_views(events@));
            lemma_feed_step(pre_sources, ev_spec, event_views(events@));
        }
        let r = walker.feed(ev);
        match r {
            Ok(Some(h)) => {
                let ghost id = h.raw_id();
                out.push(h);
                proof {
                    assert(handle_ids(out@) =~= pre_out.push(id));
                    assert(pre_out + (seq![id] + run_yields(
                        walker.sources(),
                        event_views(events@),
                    )) =~= pre_out.push(id) + run_yields(walker.sources(), event_views(events@)));
                }
            },
            Ok(None) => {},
            Err(failure) => {
                proof {
                    match ev_spec {
                        SpecEvent::Child(_) => {
                            assert(false);
                        },
                        SpecEvent::Exhausted(s) => {
                            assert(s != 0);
                            assert(run_yields(pre_sources, left) == Seq::<u64>::empty());
                            assert(run_failed(pre_sources, left));
                        },
                    }
                    assert(run_yields(initial_stack(), all) == pre_out + Seq::<u64>::empty());
                    assert(pre_out + Seq::<u64>::empty() =~= pre_out);
                    assert(handle_ids(out@) == run_yields(initial_stack(), all));
                    assert(run_failed(initial_stack(), all));
                    assert(failure == ZfsError::EnumerationFailure);
                }
                return (out, Some(failure));
            },
        }
    }
    proof {
        assert(run_yields(walker.sources(), event_views(events@)) == Seq::<u64>::empty());
        assert(!run_failed(walker.sources(), event_views(events@)));
        assert(handle_ids(out@) + Seq::<u64>::empty() =~= handle_ids(out@));
    }
    (out, None)
}

/// The walker consumes the trace of one subforest and then carries on: with
/// at least one stream on the stack, running through `trace(f)` followed by
/// anything else yields `preorder(f)` first without hitting any failure,
/// leaves the stack one shorter (the stream the trace exhausted last is
/// popped), and then behaves as a run over the remaining events.
pub proof fn lemma_run_trace(f: Forest, stack: Seq<StreamSource>, rest: Seq<SpecEvent>)
    requires
        stack.len() >= 1,
    ensures
        run_yields(stack, trace(f) + rest) == preorder(f) + run_yields(stack.drop_last(), rest),
        run_failed(stack, trace(f) + rest) == run_failed(stack.drop_last(), rest),
    decreases f,
{
    match f {
        Forest::Empty => {
            let evs = trace(f) + rest;
            assert(evs[0] == SpecEvent::Exhausted(0));
            assert(evs.drop_first() =~= rest);
            assert(preorder(f) + run_yields(stack.drop_last(), rest) =~= run_yields(
                stack.drop_last(),
                rest,
            ));
        },
        Forest::Node { id, children, siblings } => {
            let evs = trace(f) + rest;
            let stack2 = stack.push(StreamSource::Node(id));
            assert(evs[0] == SpecEvent::Child(id));
            assert(evs.drop_first() =~= trace(*children) + (trace(*siblings) + rest));
            lemma_run_trace(*children, stack2, trace(*siblings) + rest);
            assert(stack2.drop_last() =~= stack);
            lemma_run_trace(*siblings, stack, rest);
            assert(run_yields(stack, evs) =~= preorder(f) + run_yields(stack.drop_last(), rest));
        },
    }
}

/// **Pre-order traversal.**  Driven from its initial state by the event
/// trace of any finite forest, the walker yields exactly the forest's
/// pre-order listing: every node before any of its descendants, each
/// subtree before the siblings that follow it, nothing else and nothing
/// twice.
pub proof fn lemma_walker_preorder(f: Forest)
    ensures
        run_yields(initial_stack(), trace(f)) == preorder(f),
{
    lemma_run_trace(f, initial_stack(), Seq::empty());
    assert(trace(f) + Seq::<SpecEvent>::empty() =~= trace(f));
    assert(preorder(f) + run_yields(initial_stack().drop_last(), Seq::empty()) =~= preorder(f));
}

/// **A faithful enumeration never fails.**  The trace of a forest carries
/// only clean exhaustions, so a run over it reports no failure: the
/// structured error of [`Walker::feed`] appears exactly when the native
/// layer reported one, never on a successful traversal.
pub proof fn lemma_trace_never_fails(f: Forest)
    ensures
        !run_failed(initial_stack(), trace(f)),
{
    lemma_run_trace(f, initial_stack(), Seq::empty());
    assert(trace(f) + Seq::<SpecEvent>::empty() =~= trace(f));
}

/// The pre-order listing visits each node of the forest with multiplicity
/// one: as a multiset it is exactly the forest's node multiset.
pub proof fn lemma_preorder_nodes(f: Forest)
    ensures
        preorder(f).to_multiset() =~= nodes(f),
    decreases f,
{
    match f {
        Forest::Empty => {
            Seq::<u64>::empty().to_multiset_ensures();
        },
        Forest::Node { id, children, siblings } => {
            lemma_preorder_nodes(*children);
            lemma_preorder_nodes(*siblings);
            lemma_multiset_commutative(seq![id] + preorder(*children), preorder(*siblings));
            lemma_multiset_commutative(seq![id], preorder(*children));
            Seq::<u64>::empty().to_multiset_ensures();
            Seq::<u64>::empty().push(id).to_multiset_ensures();
            assert(seq![id] =~= Seq::<u64>::empty().push(id));
            assert(seq![id].to_multiset() =~= Multiset::<u64>::empty().insert(id));
        },
    }
}

/// **No duplicate or missed visits.**  Over a full run, the multiset of
/// yielded nodes equals the multiset of nodes reachable from the roots:
/// every reachable node is yielded, none twice.
pub proof fn lemma_walker_visits_each_node_once(f: Forest)
    ensures
        run_yields(initial_stack(), trace(f)).to_multiset() == nodes(f),
{
    lemma_walker_preorder(f);
    lemma_preorder_nodes(f);
}

/// The larger of two naturals.
pub open spec fn nat_max(a: nat, b: nat) -> nat {
    if a >= b {
        a
    } else {
        b
    }
}

/// The height of a forest: the longest root-to-leaf path among its trees.
pub open spec fn height(f: Forest) -> nat
    decreases f,
{
    match f {
        Forest::Empty => 0,
        Forest::Node { children, siblings, .. } => nat_max(
            1 + height(*children),
            height(*siblings),
        ),
    }
}

/// The deepest the stack gets over a run: the running maximum of the
/// stack length as the events are applied.
pub open spec fn run_max_depth(depth: nat, evs: Seq<SpecEvent>) -> nat
    decreases evs.len(),
{
    if depth == 0 || evs.len() == 0 {
        depth
    } else {
        match evs[0] {
            SpecEvent::Child(_) => nat_max(depth, run_max_depth(depth + 1, evs.drop_first())),
            SpecEvent::Exhausted(s) => if s == 0 {
                nat_max(depth, run_max_depth((depth - 1) as nat, evs.drop_first()))
            } else {
                depth
            },
        }
    }
}

/// Consuming the trace of one subforest from depth `depth` reaches depth
/// `depth + height(f)` and no deeper, and then carries on one level down.
pub proof fn lemma_run_trace_depth(f: Forest, depth: nat, rest: Seq<SpecEvent>)
    requires
        depth >= 1,
    ensures
        run_max_depth(depth, trace(f) + rest) == nat_max(
            depth + height(f),
            run_max_depth((depth - 1) as nat, rest),
        ),
    decreases f,
{
    match f {
        Forest::Empty => {
            let evs = trace(f) + rest;
            assert(evs[0] == SpecEvent::Exhausted(0));
            assert(evs.drop_first() =~= rest);
        },
        Forest::Node { id, children, siblings } => {
            let evs = trace(f) + rest;
            assert(evs[0] == SpecEvent::Child(id));
            assert(evs.drop_first() =~= trace(*children) + (trace(*siblings) + rest));
            lemma_run_trace_depth(*children, depth + 1, trace(*siblings) + rest);
            lemma_run_trace_depth(*siblings, depth, rest);
        },
    }
}

/// **Bounded traversal depth.**  Over a full run the stack — one live
/// stream, and so one producer execution unit, per ancestor on the current
/// path — never grows beyond the root level plus the height of the forest,
/// however many nodes the forest holds.
pub proof fn lemma_walker_depth_bounded(f: Forest)
    ensures
        run_max_depth(1, trace(f)) == 1 + height(f),
{
    lemma_run_trace_depth(f, 1, Seq::empty());
    assert(trace(f) + Seq::<SpecEvent>::empty() =~= trace(f));
}

/// **Early termination yields a prefix.**  Stopping consumption after any
/// number of events loses only the tail of the traversal: what a run over
/// the events seen so far has yielded is a prefix of what the full run
/// would yield, so no node is yielded twice or out of order by stopping
/// early.
pub proof fn lemma_early_stop_prefix(
    stack: Seq<StreamSource>,
    evs: Seq<SpecEvent>,
    more: Seq<SpecEvent>,
)
    ensures
        run_yields(stack, evs).is_prefix_of(run_yields(stack, evs + more)),
    decreases evs.len(),
{
    let full = run_yields(stack, evs + more);
    if stack.len() == 0 || evs.len() == 0 {
        assert(run_yields(stack, evs) =~= full.subrange(0, 0));
    } else {
        let combined = evs + more;
        assert(combined[0] == evs[0]);
        assert(combined.drop_first() =~= evs.drop_first() + more);
        match evs[0] {
            SpecEvent::Child(n) => {
                let stack2 = stack.push(StreamSource::Node(n));
                lemma_early_stop_prefix(stack2, evs.drop_first(), more);
                let b = run_yields(stack2, evs.drop_first() + more);
                assert(run_yields(stack, evs) =~= (seq![n] + b).subrange(
                    0,
                    run_yields(stack, evs).len() as int,
                ));
            },
            SpecEvent::Exhausted(s) => {
                if s == 0 {
                    lemma_early_stop_prefix(stack.drop_last(), evs.drop_first(), more);
                    let a = run_yields(stack.drop_last(), evs.drop_first());
                    let b = run_yields(stack.drop_last(), evs.drop_first() + more);
                    assert(a =~= b.subrange(0, a.len() as int));
                } else {
                    assert(run_yields(stack, evs) =~= full.subrange(0, 0));
                }
            },
        }
    }
}

} // verus!
