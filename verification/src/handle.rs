//! Ownership of one native resource, from acquisition to its single release.
//!
//! A [`NativeHandle`] stands for the address of a native object together
//! with the state of this layer's claim on it. It comes into being `Live`,
//! around an address that is not null, and [`NativeHandle::release`] moves it
//! to `Released`. The first `release` answers with the address that must be
//! handed to the native release function; every later one answers `None`.
//! So however often the owner's teardown runs, the native object is released
//! once. A handle cannot be copied. A second owner of the same object comes
//! only from a second reference that the engine handed out.

use vstd::prelude::*;

verus! {

/// State of this layer's claim on a native resource.
#[derive(Clone, Copy, Debug, PartialEq, Eq, Structural)]
pub enum HandleState {
    /// Nothing has been acquired yet.
    Uninitialized,
    /// The resource is held and may be used.
    Live,
    /// The resource has been given back. Terminal.
    Released,
}

/// What can happen to a handle once it exists.
#[derive(Clone, Copy, Debug, PartialEq, Eq, Structural)]
pub enum HandleOp {
    /// An operation through the handle, whether it succeeds or fails.
    Use,
    /// A teardown of the owner.
    Release,
}

/// Exclusive owner of one native resource.
#[derive(Debug)]
pub struct NativeHandle {
    ptr: usize,
    state: HandleState,
}

/// State after the native constructor answered with address `p`.
pub open spec fn acquired(p: usize) -> HandleState {
    if p == 0 {
        HandleState::Uninitialized
    } else {
        HandleState::Live
    }
}

/// State after operation `op` in state `s`.
pub open spec fn state_after(s: HandleState, op: HandleOp) -> HandleState {
    match op {
        HandleOp::Use => s,
        HandleOp::Release => match s {
            HandleState::Uninitialized => HandleState::Uninitialized,
            _ => HandleState::Released,
        },
    }
}

/// Number of native release calls that operation `op` causes in state `s`.
pub open spec fn releases_of(s: HandleState, op: HandleOp) -> nat {
    if op == HandleOp::Release && s == HandleState::Live {
        1
    } else {
        0
    }
}

/// State after the operations `ops`, in order, starting in state `s`.
pub open spec fn state_after_all(s: HandleState, ops: Seq<HandleOp>) -> HandleState
    decreases ops.len(),
{
    if ops.len() == 0 {
        s
    } else {
        state_after_all(state_after(s, ops[0]), ops.drop_first())
    }
}

/// Number of native release calls that the operations `ops` cause, in
/// order, starting in state `s`.
pub open spec fn releases_of_all(s: HandleState, ops: Seq<HandleOp>) -> nat
    decreases ops.len(),
{
    if ops.len() == 0 {
        0
    } else {
        releases_of(s, ops[0]) + releases_of_all(state_after(s, ops[0]), ops.drop_first())
    }
}

impl NativeHandle {
    #[verifier::type_invariant]
    spec fn inv(self) -> bool {
        self.state != HandleState::Uninitialized && self.ptr != 0
    }

    /// The address of the native resource.
    pub closed spec fn ptr(&self) -> usize {
        self.ptr
    }

    /// The state of the claim.
    pub closed spec fn state(&self) -> HandleState {
        self.state
    }

    /// Takes ownership of the resource at address `p`.
    ///
    /// A null address means that the native constructor failed: there is
    /// then no handle.
    ///
    /// Each call takes over exactly one reference that the engine handed
    /// out, from a constructor or from a call that retains the object for
    /// the caller. The handle gives that one reference back when it is
    /// released. Nothing here can tell whether an address comes with a
    /// reference of its own: calling this twice for one reference makes two
    /// owners of it, and the object is then released once too often. That
    /// the address is fresh in this sense is the caller's part.
    pub fn from_raw(p: usize) -> (r: Option<NativeHandle>)
        ensures
            r is Some <==> p != 0,
            r is Some <==> acquired(p) == HandleState::Live,
            r matches Some(h) ==> h.ptr() == p && h.state() == HandleState::Live,
    {
        if p == 0 {
            None
        } else {
            Some(NativeHandle { ptr: p, state: HandleState::Live })
        }
    }

    /// Returns the address of the native resource. It is never null.
    pub fn raw(&self) -> (p: usize)
        ensures
            p == self.ptr(),
            p != 0,
    {
        proof {
            use_type_invariant(self);
        }
        self.ptr
    }

    /// Tells whether the resource is still held. If it is not, it has been
    /// released.
    pub fn is_live(&self) -> (b: bool)
        ensures
            b == (self.state() == HandleState::Live),
            !b == (self.state() == HandleState::Released),
    {
        proof {
            use_type_invariant(self);
        }
        self.state == HandleState::Live
    }

    /// Gives the resource up.
    ///
    /// Answers with the address to pass to the native release function if
    /// the resource was still held, and with `None` if it had been given up
    /// before. The address never changes.
    pub fn release(&mut self) -> (r: Option<usize>)
        ensures
            final(self).state() == state_after(old(self).state(), HandleOp::Release),
            final(self).state() == HandleState::Released,
            final(self).ptr() == old(self).ptr(),
            r is Some <==> old(self).state() == HandleState::Live,
            r is Some <==> releases_of(old(self).state(), HandleOp::Release) == 1,
            r matches Some(p) ==> p == old(self).ptr(),
    {
        proof {
            use_type_invariant(&*self);
        }
        if self.state == HandleState::Live {
            self.state = HandleState::Released;
            Some(self.ptr)
        } else {
            None
        }
    }
}

/// Once released, a resource stays released and causes no further release
/// call, whatever happens afterwards.
pub proof fn lemma_released_is_terminal(ops: Seq<HandleOp>)
    ensures
        state_after_all(HandleState::Released, ops) == HandleState::Released,
        releases_of_all(HandleState::Released, ops) == 0,
    decreases ops.len(),
{
    if ops.len() > 0 {
        lemma_released_is_terminal(ops.drop_first());
    }
}

/// From acquisition on, no sequence of operations causes more than one
/// native release call; it causes exactly one if a teardown is among them,
/// and then the resource ends up released. Operations that come before the
/// teardown, failed or not, change nothing of this.
pub proof fn lemma_released_exactly_once(ops: Seq<HandleOp>)
    ensures
        releases_of_all(HandleState::Live, ops) <= 1,
        ops.contains(HandleOp::Release) <==> releases_of_all(HandleState::Live, ops) == 1,
        ops.contains(HandleOp::Release) <==> state_after_all(HandleState::Live, ops)
            == HandleState::Released,
        !ops.contains(HandleOp::Release) <==> state_after_all(HandleState::Live, ops)
            == HandleState::Live,
    decreases ops.len(),
{
    if ops.len() > 0 {
        let rest = ops.drop_first();
        assert(ops[0] == HandleOp::Release || ops[0] == HandleOp::Use);
        if ops[0] == HandleOp::Release {
            lemma_released_is_terminal(rest);
            assert(ops.contains(HandleOp::Release));
        } else {
            lemma_released_exactly_once(rest);
            if rest.contains(HandleOp::Release) {
                let i = choose|i: int| 0 <= i < rest.len() && rest[i] == HandleOp::Release;
                assert(ops[i + 1] == HandleOp::Release);
            }
            if ops.contains(HandleOp::Release) {
                let i = choose|i: int| 0 <= i < ops.len() && ops[i] == HandleOp::Release;
                assert(rest[i - 1] == HandleOp::Release);
            }
        }
    }
}

/// A failed construction holds nothing, so its teardown releases nothing.
pub proof fn lemma_failed_construction_releases_nothing(ops: Seq<HandleOp>)
    ensures
        releases_of_all(acquired(0), ops) == 0,
        state_after_all(acquired(0), ops) == HandleState::Uninitialized,
    decreases ops.len(),
{
    if ops.len() > 0 {
        assert(ops[0] == HandleOp::Release || ops[0] == HandleOp::Use);
        lemma_failed_construction_releases_nothing(ops.drop_first());
    }
}

} // verus!
