//! Lists of media items.

use vstd::prelude::*;

use crate::event::EventManager;
use crate::handle::{HandleState, NativeHandle};
use crate::reply::{known, known_of, status, status_of, truth, truth_of};

verus! {

/// A list of media items.
///
/// Owns the native media list: it is released once, by the first
/// [`MediaList::release`].
#[derive(Debug)]
pub struct MediaList {
    handle: NativeHandle,
}

impl MediaList {
    /// The address of the native media list.
    pub closed spec fn ptr(&self) -> usize {
        self.handle.ptr()
    }

    /// The state of this owner's claim on the native media list.
    pub closed spec fn lifetime(&self) -> HandleState {
        self.handle.state()
    }

    /// Takes ownership of the media list that a native constructor returned.
    ///
    /// A null address means that construction failed, and gives `None`.
    ///
    /// Each call takes over exactly one reference that the engine handed
    /// out. An address is passed here once for each such reference and no
    /// more often: a second owner of the same object needs a reference of
    /// its own, which only the engine can give.
    pub fn from_raw(p: usize) -> (r: Option<MediaList>)
        ensures
            r is Some <==> p != 0,
            r matches Some(h) ==> h.ptr() == p && h.lifetime() == HandleState::Live,
    {
        match NativeHandle::from_raw(p) {
            Some(handle) => Some(MediaList { handle }),
            None => None,
        }
    }

    /// Returns the address of the native media list. It is never null.
    pub fn raw(&self) -> (p: usize)
        ensures
            p == self.ptr(),
            p != 0,
    {
        self.handle.raw()
    }

    /// Tells whether the native media list is still held.
    pub fn is_live(&self) -> (b: bool)
        ensures
            b == (self.lifetime() == HandleState::Live),
            !b == (self.lifetime() == HandleState::Released),
    {
        self.handle.is_live()
    }

    /// Gives the native media list up.
    ///
    /// The first call answers with the address to release; every later call
    /// answers `None`.
    pub fn release(&mut self) -> (r: Option<usize>)
        ensures
            final(self).lifetime() == HandleState::Released,
            final(self).ptr() == old(self).ptr(),
            r is Some <==> old(self).lifetime() == HandleState::Live,
            r matches Some(p) ==> p == old(self).ptr(),
    {
        self.handle.release()
    }

    /// Wraps the address of the media list's event manager.
    pub fn event_manager<'a>(&'a self, p: usize) -> (r: EventManager<'a>)
        requires
            self.lifetime() == HandleState::Live,
            p != 0,
        ensures
            r.ptr() == p,
    {
        EventManager::from_raw(p)
    }

    /// Reads the answer to a request to add a media item.
    ///
    /// The engine answers 0 for success.
    pub fn add_media(rc: i32) -> (r: Result<(), ()>)
        ensures
            r == status_of(rc),
    {
        status(rc)
    }

    /// Reads the answer to a request to insert a media item at a position.
    ///
    /// The engine answers 0 for success.
    pub fn insert_media(rc: i32) -> (r: Result<(), ()>)
        ensures
            r == status_of(rc),
    {
        status(rc)
    }

    /// Reads the answer to a request to remove the media item at a
    /// position.
    ///
    /// The engine answers 0 for success.
    pub fn remove_index(rc: i32) -> (r: Result<(), ()>)
        ensures
            r == status_of(rc),
    {
        status(rc)
    }

    /// Reads the position of a media item in the list.
    ///
    /// The engine answers `-1` where it has no value.
    pub fn index_of_item(v: i32) -> (r: Option<i32>)
        ensures
            r == known_of(v),
    {
        known(v)
    }

    /// Reads whether the list is read-only from a user point of view.
    ///
    /// The engine answers 0 for no and anything else for yes.
    pub fn is_readonly(v: i32) -> (r: bool)
        ensures
            r == truth_of(v),
    {
        truth(v)
    }
}

} // verus!
