//! The media library.

use vstd::prelude::*;

use crate::handle::{HandleState, NativeHandle};
use crate::reply::{status, status_of};

verus! {

/// A media library.
///
/// Owns the native media library: it is released once, by the first
/// [`MediaLibrary::release`].
#[derive(Debug)]
pub struct MediaLibrary {
    handle: NativeHandle,
}

impl MediaLibrary {
    /// The address of the native media library.
    pub closed spec fn ptr(&self) -> usize {
        self.handle.ptr()
    }

    /// The state of this owner's claim on the native media library.
    pub closed spec fn lifetime(&self) -> HandleState {
        self.handle.state()
    }

    /// Takes ownership of the media library that a native constructor returned.
    ///
    /// A null address means that construction failed, and gives `None`.
    ///
    /// Each call takes over exactly one reference that the engine handed
    /// out. An address is passed here once for each such reference and no
    /// more often: a second owner of the same object needs a reference of
    /// its own, which only the engine can give.
    pub fn from_raw(p: usize) -> (r: Option<MediaLibrary>)
        ensures
            r is Some <==> p != 0,
            r matches Some(h) ==> h.ptr() == p && h.lifetime() == HandleState::Live,
    {
        match NativeHandle::from_raw(p) {
            Some(handle) => Some(MediaLibrary { handle }),
            None => None,
        }
    }

    /// Returns the address of the native media library. It is never null.
    pub fn raw(&self) -> (p: usize)
        ensures
            p == self.ptr(),
            p != 0,
    {
        self.handle.raw()
    }

    /// Tells whether the native media library is still held.
    pub fn is_live(&self) -> (b: bool)
        ensures
            b == (self.lifetime() == HandleState::Live),
            !b == (self.lifetime() == HandleState::Released),
    {
        self.handle.is_live()
    }

    /// Gives the native media library up.
    ///
    /// The first call answers with the address to release; every later call
    /// answers `None`.
    pub fn release(&mut self) -> (r: Option<usize>)
        ensures
            final(self).lifetime() == HandleState::Released,
            final(self).ptr() == old(self).ptr(),
            r is Some <==> old(self).lifetime() == HandleState::Live,
            r matches Some(p) ==> p == old(self).ptr(),
    {
        self.handle.release()
    }

    /// Reads the answer to a request to load the media library.
    ///
    /// The engine answers 0 for success.
    pub fn load(rc: i32) -> (r: Result<(), ()>)
        ensures
            r == status_of(rc),
    {
        status(rc)
    }
}

} // verus!
