//! Reading of the integers that native calls answer with.
//!
//! The native interface has no error type. An action answers 0 for success
//! and anything else for failure; a query answers `-1`, or for a few
//! queries 0 or the null address, where it has no value to give. The
//! functions here turn each convention into `Result` or `Option`, so that a
//! sentinel is never taken for a value.

use vstd::prelude::*;

verus! {

/// Outcome of an action that answers 0 for success.
pub open spec fn status_of(rc: i32) -> Result<(), ()> {
    if rc == 0 {
        Ok(())
    } else {
        Err(())
    }
}

/// Answer of a yes/no query: anything but 0 is yes.
pub open spec fn truth_of(v: i32) -> bool {
    v != 0
}

/// Answer of a yes/no query that may not know: `-1` is unknown, 0 is no,
/// anything else is yes.
pub open spec fn tristate_of(v: i32) -> Option<bool> {
    if v == -1 {
        None
    } else {
        Some(v != 0)
    }
}

/// Answer of a query that gives `-1` where it has no value.
pub open spec fn known_of(v: i32) -> Option<i32> {
    if v == -1 {
        None
    } else {
        Some(v)
    }
}

/// Answer of a time query that gives `-1` where it has no value.
pub open spec fn known_time_of(t: i64) -> Option<i64> {
    if t == -1 {
        None
    } else {
        Some(t)
    }
}

/// Answer of a query that gives 0 where it has no value.
pub open spec fn nonzero_of(v: u32) -> Option<u32> {
    if v == 0 {
        None
    } else {
        Some(v)
    }
}

/// Answer of a query for an address: the null address is no value.
pub open spec fn address_of(p: usize) -> Option<usize> {
    if p == 0 {
        None
    } else {
        Some(p)
    }
}

/// Reads the answer of an action that answers 0 for success.
pub fn status(rc: i32) -> (r: Result<(), ()>)
    ensures
        r == status_of(rc),
{
    if rc == 0 {
        Ok(())
    } else {
        Err(())
    }
}

/// Reads the answer of a yes/no query.
pub fn truth(v: i32) -> (b: bool)
    ensures
        b == truth_of(v),
{
    v != 0
}

/// Reads the answer of a yes/no query that may not know.
pub fn tristate(v: i32) -> (r: Option<bool>)
    ensures
        r == tristate_of(v),
{
    if v == 0 {
        Some(false)
    } else if v == -1 {
        None
    } else {
        Some(true)
    }
}

/// Reads the answer of a query that gives `-1` where it has no value.
pub fn known(v: i32) -> (r: Option<i32>)
    ensures
        r == known_of(v),
{
    if v == -1 {
        None
    } else {
        Some(v)
    }
}

/// Reads the answer of a time query that gives `-1` where it has no value.
pub fn known_time(t: i64) -> (r: Option<i64>)
    ensures
        r == known_time_of(t),
{
    if t == -1 {
        None
    } else {
        Some(t)
    }
}

/// Reads the answer of a query that gives 0 where it has no value.
pub fn nonzero(v: u32) -> (r: Option<u32>)
    ensures
        r == nonzero_of(v),
{
    if v == 0 {
        None
    } else {
        Some(v)
    }
}

/// Reads the answer of a query for an address.
pub fn address(p: usize) -> (r: Option<usize>)
    ensures
        r == address_of(p),
{
    if p == 0 {
        None
    } else {
        Some(p)
    }
}

/// Reads the answer of a query for a value that the engine gives `-1`
/// for where it fails.
pub fn value(v: i32) -> (r: Result<i32, ()>)
    ensures
        r is Ok <==> v != -1,
        r matches Ok(x) ==> x == v,
{
    if v != -1 {
        Ok(v)
    } else {
        Err(())
    }
}

/// A sentinel is never taken for a value: what a query gives as known is
/// not the sentinel, and every other answer is given unchanged.
pub proof fn lemma_sentinels_are_absent(v: i32, t: i64, w: u32, p: usize)
    ensures
        known_of(v) != Some(-1i32),
        v != -1 ==> known_of(v) == Some(v),
        known_time_of(t) != Some(-1i64),
        t != -1 ==> known_time_of(t) == Some(t),
        nonzero_of(w) != Some(0u32),
        address_of(p) != Some(0usize),
        tristate_of(-1i32) is None,
        tristate_of(0i32) == Some(false),
        v != 0 && v != -1 ==> tristate_of(v) == Some(true),
{
}

} // verus!
