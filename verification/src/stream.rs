//! The pull side of one node's child enumeration.
//!
//! The native layer enumerates children push-style: a blocking call that
//! invokes a callback once per child and then returns a status code.  A
//! producer execution unit runs that call and hands each child over a
//! rendezvous channel; the consumer side modelled here receives one event
//! per pull — either one more child, or the end of the enumeration,
//! carrying the native status.  A [`Children`] value is the consumer's
//! state machine for one node: it records the arrival order of the
//! children it has passed through and, once terminated, is terminal and
//! non-restartable.  The terminal state keeps the status, so a failed
//! enumeration (nonzero status) stays distinguishable from a clean
//! exhaustion and is surfaced as [`ZfsError::EnumerationFailure`], never
//! silently folded into "no more children".

use vstd::prelude::*;
use crate::dataset::ZfsError;
use crate::handle::{TransferToken, ZFSHandle};

verus! {

/// Which enumeration a stream pulls from: the top-level root list, or the
/// children of one node (identified by its raw native reference).
#[derive(Clone, Copy, Debug, PartialEq, Eq, Structural)]
pub enum StreamSource {
    Roots,
    Node(u64),
}

/// One event on the consumer side of a child stream: either one more child
/// arrived (carrying its reference in a single-use transfer token), or the
/// enumeration ended, with the status code the native call returned —
/// zero for clean exhaustion, nonzero for a failure.
pub enum ChildEvent {
    Child(TransferToken),
    Exhausted(i32),
}

/// The mathematical form of a stream event: the raw reference, or the end
/// marker with its native status.
#[derive(Clone, Copy, Debug, PartialEq, Eq, Structural)]
pub enum SpecEvent {
    Child(u64),
    Exhausted(i32),
}

impl ChildEvent {
    /// The mathematical event this exec event stands for.
    pub open spec fn as_spec(&self) -> SpecEvent {
        match self {
            ChildEvent::Child(t) => SpecEvent::Child(t.raw_id()),
            ChildEvent::Exhausted(status) => SpecEvent::Exhausted(*status),
        }
    }
}

/// The consumer-side state machine of one child sequence.
pub struct Children {
    source: StreamSource,
    exhausted: bool,
    status: i32,
    log: Ghost<Seq<u64>>,
}

impl Children {
    /// Which enumeration this stream pulls from.
    pub closed spec fn spec_source(&self) -> StreamSource {
        self.source
    }

    /// Whether the stream has reached its terminal state.
    pub closed spec fn spec_exhausted(&self) -> bool {
        self.exhausted
    }

    /// The native status the enumeration ended with (zero until the stream
    /// is terminal).
    pub closed spec fn spec_status(&self) -> i32 {
        self.status
    }

    /// Whether the stream ended in failure: terminal with a nonzero
    /// native status.
    pub open spec fn spec_failed(&self) -> bool {
        self.spec_exhausted() && self.spec_status() != 0
    }

    /// The raw references this stream has yielded, in arrival order.
    pub closed spec fn log(&self) -> Seq<u64> {
        self.log@
    }

    /// The stream of top-level roots.
    pub fn for_roots() -> (s: Children)
        ensures
            s.spec_source() == StreamSource::Roots,
            !s.spec_exhausted(),
            s.spec_status() == 0,
            s.log() == Seq::<u64>::empty(),
    {
        Children {
            source: StreamSource::Roots,
            exhausted: false,
            status: 0,
            log: Ghost(Seq::empty()),
        }
    }

    /// The stream of one node's children.
    pub fn for_node(node: u64) -> (s: Children)
        ensures
            s.spec_source() == StreamSource::Node(node),
            !s.spec_exhausted(),
            s.spec_status() == 0,
            s.log() == Seq::<u64>::empty(),
    {
        Children {
            source: StreamSource::Node(node),
            exhausted: false,
            status: 0,
            log: Ghost(Seq::empty()),
        }
    }

    /// Read the stream's source.
    pub fn source(&self) -> (r: StreamSource)
        ensures
            r == self.spec_source(),
    {
        self.source
    }

    /// Whether the stream ended in failure.
    pub fn failed(&self) -> (r: bool)
        ensures
            r == self.spec_failed(),
    {
        self.exhausted && self.status != 0
    }

    /// The native status the enumeration ended with.
    pub fn status(&self) -> (r: i32)
        ensures
            r == self.spec_status(),
    {
        self.status
    }

    /// One more child arrived: wrap its reference into an owning handle and
    /// yield it.  The child is appended to the yield log exactly as it
    /// arrived — children pass through in arrival order, one at a time,
    /// never reordered.
    pub fn accept_child(&mut self, t: TransferToken) -> (h: ZFSHandle)
        requires
            !old(self).spec_exhausted(),
        ensures
            h.raw_id() == t.raw_id(),
            final(self).spec_source() == old(self).spec_source(),
            !final(self).spec_exhausted(),
            final(self).spec_status() == old(self).spec_status(),
            final(self).log() == old(self).log().push(t.raw_id()),
    {
        self.log = Ghost(self.log@.push(t.raw_id()));
        ZFSHandle::from_token(t)
    }

    /// The enumeration ended with `status`: the stream enters its terminal
    /// state and keeps the status, so a failure stays distinguishable from
    /// a clean exhaustion.  No event may follow; the sequence is not
    /// restartable.
    pub fn mark_exhausted(&mut self, status: i32)
        requires
            !old(self).spec_exhausted(),
        ensures
            final(self).spec_source() == old(self).spec_source(),
            final(self).spec_exhausted(),
            final(self).spec_status() == status,
            final(self).log() == old(self).log(),
    {
        self.exhausted = true;
        self.status = status;
    }

    /// Apply one event.  A child is wrapped and yielded; a clean end
    /// (status zero) is terminal and yields nothing; a failed end is
    /// terminal too and surfaces [`ZfsError::EnumerationFailure`], so the
    /// caller can tell a failed enumeration from an exhausted one.
    pub fn accept(&mut self, ev: ChildEvent) -> (r: Result<Option<ZFSHandle>, ZfsError>)
        requires
            !old(self).spec_exhausted(),
        ensures
            final(self).spec_source() == old(self).spec_source(),
            (ev.as_spec() matches SpecEvent::Child(id) ==> {
                &&& (r matches Ok(y) && y matches Some(h) && h.raw_id() == id)
                &&& !final(self).spec_exhausted()
                &&& final(self).log() == old(self).log().push(id)
            }),
            (ev.as_spec() matches SpecEvent::Exhausted(status) ==> {
                &&& final(self).spec_exhausted()
                &&& final(self).spec_status() == status
                &&& final(self).log() == old(self).log()
                &&& (status == 0 ==> (r matches Ok(y) && y is None))
                &&& (status != 0 ==> r == Err::<Option<ZFSHandle>, ZfsError>(
                    ZfsError::EnumerationFailure,
                ))
            }),
    {
        match ev {
            ChildEvent::Child(t) => Ok(Some(self.accept_child(t))),
            ChildEvent::Exhausted(status) => {
                self.mark_exhausted(status);
                if status == 0 {
                    Ok(None)
                } else {
                    Err(ZfsError::EnumerationFailure)
                }
            },
        }
    }
}

} // verus!
