//! Singular ownership of native references.
//!
//! Every native node reference is exclusively owned: it is wrapped into an
//! owning value the moment it is obtained, moves but never copies, and is
//! released exactly once, by whoever ends up owning it.  None of the types
//! here implement `Clone` or `Copy`, and every way out of them consumes the
//! value, so the type system itself enforces the once-only discipline.

use vstd::prelude::*;
use crate::dataset::ZfsError;

verus! {

/// A single-use wrapper that carries one raw native node reference across
/// an execution-context boundary.  Constructed by exactly one side,
/// consumed by exactly one side; its sole operation is [`TransferToken::take`],
/// which gives the raw value up and destroys the token, so a token can
/// never be read without being consumed, nor consumed twice.
pub struct TransferToken {
    raw: u64,
}

impl TransferToken {
    /// The raw native reference this token carries.
    pub closed spec fn raw_id(&self) -> u64 {
        self.raw
    }

    /// Wrap one raw native reference for a single handoff.
    pub fn new(raw: u64) -> (t: TransferToken)
        ensures
            t.raw_id() == raw,
    {
        TransferToken { raw }
    }

    /// Consume the token and surrender the raw reference it carried.
    pub fn take(self) -> (r: u64)
        ensures
            r == self.raw_id(),
    {
        self.raw
    }
}

/// The owning wrapper around one native dataset reference.  Ownership is
/// singular: a `ZFSHandle` only moves, and the one way to part with the raw
/// reference is [`ZFSHandle::into_raw`], which consumes the handle, so the
/// eventual release of the native resource happens exactly once.
#[derive(Debug)]
pub struct ZFSHandle {
    raw: u64,
}

impl ZFSHandle {
    /// The raw native reference this handle owns.
    pub closed spec fn raw_id(&self) -> u64 {
        self.raw
    }

    /// Take ownership of the reference a transfer token carries.  The token
    /// is consumed here, completing its one permitted handoff.
    pub fn from_token(t: TransferToken) -> (h: ZFSHandle)
        ensures
            h.raw_id() == t.raw_id(),
    {
        ZFSHandle { raw: t.take() }
    }

    /// Read the raw native reference without giving up ownership, for
    /// accessor calls against the native layer.
    pub fn raw(&self) -> (r: u64)
        ensures
            r == self.raw_id(),
    {
        self.raw
    }

    /// Consume the handle and surrender the raw reference, for the one
    /// release call (or one further handoff) that ends its life.
    pub fn into_raw(self) -> (r: u64)
        ensures
            r == self.raw_id(),
    {
        self.raw
    }
}

/// The library session: one acquired native session handle, held as an
/// explicitly passed capability.
pub struct LibZFSHandle {
    session: u64,
}

impl LibZFSHandle {
    /// The raw native session reference.
    pub closed spec fn session_id(&self) -> u64 {
        self.session
    }

    /// Decide the outcome of session acquisition from the raw value the
    /// native initializer returned: a null session is an
    /// [`ZfsError::InitFailure`], anything else becomes the owned session.
    pub fn init(raw: u64) -> (r: Result<LibZFSHandle, ZfsError>)
        ensures
            raw == 0 ==> r == Err::<LibZFSHandle, ZfsError>(ZfsError::InitFailure),
            raw != 0 ==> (r matches Ok(h) && h.session_id() == raw),
    {
        if raw == 0 {
            Err(ZfsError::InitFailure)
        } else {
            Ok(LibZFSHandle { session: raw })
        }
    }

    /// Read the raw session reference for native calls.
    pub fn session(&self) -> (r: u64)
        ensures
            r == self.session_id(),
    {
        self.session
    }

    /// Consume the session and surrender the raw reference for its one
    /// release call.
    pub fn into_raw(self) -> (r: u64)
        ensures
            r == self.session_id(),
    {
        self.session
    }
}

/// The raw references a sequence of handles owns, in order.
pub open spec fn handle_ids(hs: Seq<ZFSHandle>) -> Seq<u64> {
    hs.map_values(|h: ZFSHandle| h.raw_id())
}

/// The accumulating ordered list of top-level dataset handles.  Root
/// enumeration appends every discovered reference, wrapped immediately
/// into an owning [`ZFSHandle`], in arrival order; the native status code is
/// judged only once the list is complete.
pub struct RootList {
    handles: Vec<ZFSHandle>,
}

impl RootList {
    /// The raw references collected so far, in arrival order.
    pub closed spec fn ids(&self) -> Seq<u64> {
        handle_ids(self.handles@)
    }

    /// Start an empty root list.
    pub fn new() -> (r: RootList)
        ensures
            r.ids() == Seq::<u64>::empty(),
    {
        let r = RootList { handles: Vec::new() };
        proof {
            assert(r.ids() =~= Seq::<u64>::empty());
        }
        r
    }

    /// Append one discovered root, wrapping the transferred reference into
    /// an owning handle before anything else can happen to it.
    pub fn push_token(&mut self, t: TransferToken)
        ensures
            final(self).ids() == old(self).ids().push(t.raw_id()),
    {
        let ghost before = self.ids();
        self.handles.push(ZFSHandle::from_token(t));
        proof {
            assert(self.ids() =~= before.push(t.raw_id()));
        }
    }

    /// How many roots were collected.
    pub fn len(&self) -> (n: usize)
        ensures
            n == self.ids().len(),
    {
        self.handles.len()
    }

    /// Judge the completed enumeration: a zero status hands the collected
    /// handles out exactly as they arrived; any other status is an
    /// [`ZfsError::EnumerationFailure`] and the whole traversal is aborted
    /// before it starts.  The failure carries the handles collected before
    /// the native call failed, so their owner can still release each of
    /// them exactly once: none is dropped silently in here.
    pub fn finish(self, status: i32) -> (r: Result<Vec<ZFSHandle>, (ZfsError, Vec<ZFSHandle>)>)
        ensures
            status == 0 ==> (r matches Ok(v) && handle_ids(v@) == self.ids()),
            status != 0 ==> (r matches Err(e) && e.0 == ZfsError::EnumerationFailure
                && handle_ids(e.1@) == self.ids()),
    {
        if status == 0 {
            Ok(self.handles)
        } else {
            Err((ZfsError::EnumerationFailure, self.handles))
        }
    }
}

} // verus!
