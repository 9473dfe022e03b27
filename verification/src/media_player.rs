//! The media player: its handle, its track lists and its audio callbacks.

use vstd::prelude::*;

use crate::enums::State;
use crate::event::EventManager;
use crate::handle::{HandleState, NativeHandle};
use crate::list::cursor_step;
use crate::reply::{
    address, address_of, known, known_of, known_time, known_time_of, nonzero, nonzero_of, status,
    status_of, truth, truth_of,
};
use crate::sys::libvlc_track_description_t;
use crate::tools::{flag, flag_of, from_cstr, native_text};

verus! {

/// A LibVLC media player plays one media (usually in a custom drawable).
///
/// Owns the native player: it is released once, by the first
/// [`MediaPlayer::release`].
#[derive(Debug)]
pub struct MediaPlayer {
    handle: NativeHandle,
}

/// Identifier and name of one track.
#[derive(Clone, PartialEq, Eq, Hash, Debug)]
pub struct TrackDescription {
    pub id: i32,
    pub name: Option<String>,
}

/// A walk over a native track description list that collects what it
/// reads.
#[derive(Debug)]
pub struct TrackDescriptionList {
    ptr: usize,
    found: Vec<TrackDescription>,
}

/// The closures behind the audio callbacks of a player.
///
/// The play callback is always there; each of the others may be absent.
pub struct AudioCallbacksData<Play, Pause, Resume, Flush, Drain> {
    play: Play,
    pause: Option<Pause>,
    resume: Option<Resume>,
    flush: Option<Flush>,
    drain: Option<Drain>,
}

/// Tells for each native audio callback whether it is installed.
#[derive(Clone, Copy, Debug, PartialEq, Eq, Structural)]
pub struct AudioCallbacks {
    pub play: bool,
    pub pause: bool,
    pub resume: bool,
    pub flush: bool,
    pub drain: bool,
}

/// True when `d` is the description read from the node `node`.
pub open spec fn is_track_description_of(
    node: libvlc_track_description_t,
    d: TrackDescription,
) -> bool {
    &&& d.id == node.i_id
    &&& d.name.deep_view() == native_text(node.psz_name)
}

impl TrackDescriptionList {
    /// The address of the node to read next, 0 if there is none.
    pub closed spec fn cursor(&self) -> usize {
        self.ptr
    }

    /// The descriptions collected so far, in the order of the list.
    pub closed spec fn found(&self) -> Seq<TrackDescription> {
        self.found@
    }

    /// Starts a walk at the address that a track description query
    /// answered with.
    ///
    /// The null address means that there is no list, and gives `None`.
    pub fn from_raw(head: usize) -> (r: Option<TrackDescriptionList>)
        ensures
            r is None <==> head == 0,
            r matches Some(walk) ==> walk.cursor() == head && walk.found().len() == 0,
    {
        if head == 0 {
            None
        } else {
            Some(TrackDescriptionList { ptr: head, found: Vec::new() })
        }
    }

    /// Tells which node is to be read next.
    ///
    /// `None` means that the walk is over: there is no node, and the null
    /// address must not be read.
    pub fn current(&self) -> (r: Option<usize>)
        ensures
            r is None <==> self.cursor() == 0,
            r matches Some(p) ==> p == self.cursor(),
    {
        if self.ptr == 0 {
            None
        } else {
            Some(self.ptr)
        }
    }

    /// Takes the node that was read at the cursor, keeps its description
    /// and moves on to its successor.
    ///
    /// When the walk is over, `node` is ignored and nothing changes.
    pub fn push(&mut self, node: &libvlc_track_description_t)
        ensures
            final(self).cursor() == cursor_step(old(self).cursor(), node.p_next),
            old(self).cursor() == 0 ==> final(self).found() == old(self).found(),
            old(self).cursor() != 0 ==> {
                &&& final(self).found().len() == old(self).found().len() + 1
                &&& final(self).found().drop_last() == old(self).found()
                &&& is_track_description_of(*node, final(self).found().last())
            },
    {
        if self.ptr == 0 {
            return ;
        }
        let ghost before = self.found@;
        self.found.push(TrackDescription { id: node.i_id, name: from_cstr(node.psz_name) });
        self.ptr = node.p_next;
        assert(self.found@.drop_last() == before);
    }

    /// Ends the walk and gives the descriptions collected, in the order of
    /// the list.
    pub fn into_vec(self) -> (v: Vec<TrackDescription>)
        ensures
            v@ == self.found(),
    {
        self.found
    }
}

impl<Play, Pause, Resume, Flush, Drain> AudioCallbacksData<Play, Pause, Resume, Flush, Drain> where
    Play: Fn(usize, u32, i64),
    Pause: Fn(i64),
    Resume: Fn(i64),
    Flush: Fn(i64),
    Drain: Fn(),
 {
    /// The play closure.
    pub closed spec fn play(&self) -> Play {
        self.play
    }

    /// The pause closure, if there is one.
    pub closed spec fn pause(&self) -> Option<Pause> {
        self.pause
    }

    /// The resume closure, if there is one.
    pub closed spec fn resume(&self) -> Option<Resume> {
        self.resume
    }

    /// The flush closure, if there is one.
    pub closed spec fn flush(&self) -> Option<Flush> {
        self.flush
    }

    /// The drain closure, if there is one.
    pub closed spec fn drain(&self) -> Option<Drain> {
        self.drain
    }

    /// The callbacks that have a closure behind them.
    pub open spec fn present(&self) -> AudioCallbacks {
        AudioCallbacks {
            play: true,
            pause: self.pause() is Some,
            resume: self.resume() is Some,
            flush: self.flush() is Some,
            drain: self.drain() is Some,
        }
    }

    /// Tells which native callbacks to install: the play callback always,
    /// and each other one exactly if its closure is present. So a native
    /// callback that is installed always finds its closure.
    pub fn installed(&self) -> (r: AudioCallbacks)
        ensures
            r == self.present(),
    {
        AudioCallbacks {
            play: true,
            pause: self.pause.is_some(),
            resume: self.resume.is_some(),
            flush: self.flush.is_some(),
            drain: self.drain.is_some(),
        }
    }

    /// Hands decoded samples to the play closure: the address of the
    /// samples, their count and their presentation time.
    pub fn audio_cb_play(&self, samples: usize, count: u32, pts: i64)
        requires
            self.play().requires((samples, count, pts)),
        ensures
            self.play().ensures((samples, count, pts), ()),
    {
        (self.play)(samples, count, pts);
    }

    /// Tells the pause closure that playback was paused.
    ///
    /// The native pause callback is installed only if the closure is
    /// present.
    pub fn audio_cb_pause(&self, pts: i64)
        requires
            self.pause() matches Some(f) && f.requires((pts,)),
        ensures
            self.pause() matches Some(f) && f.ensures((pts,), ()),
    {
        match &self.pause {
            Some(f) => {
                f(pts);
            },
            None => {},
        }
    }

    /// Tells the resume closure that playback was resumed.
    ///
    /// The native resume callback is installed only if the closure is
    /// present.
    pub fn audio_cb_resume(&self, pts: i64)
        requires
            self.resume() matches Some(f) && f.requires((pts,)),
        ensures
            self.resume() matches Some(f) && f.ensures((pts,), ()),
    {
        match &self.resume {
            Some(f) => {
                f(pts);
            },
            None => {},
        }
    }

    /// Tells the flush closure that pending samples are to be dropped.
    ///
    /// The native flush callback is installed only if the closure is
    /// present.
    pub fn audio_cb_flush(&self, pts: i64)
        requires
            self.flush() matches Some(f) && f.requires((pts,)),
        ensures
            self.flush() matches Some(f) && f.ensures((pts,), ()),
    {
        match &self.flush {
            Some(f) => {
                f(pts);
            },
            None => {},
        }
    }

    /// Tells the drain closure that pending samples are to be played out.
    ///
    /// The native drain callback is installed only if the closure is
    /// present.
    pub fn audio_cb_drain(&self)
        requires
            self.drain() matches Some(f) && f.requires(()),
        ensures
            self.drain() matches Some(f) && f.ensures((), ()),
    {
        match &self.drain {
            Some(f) => {
                f();
            },
            None => {},
        }
    }
}

impl MediaPlayer {
    /// The address of the native player.
    pub closed spec fn ptr(&self) -> usize {
        self.handle.ptr()
    }

    /// The state of this owner's claim on the native player.
    pub closed spec fn lifetime(&self) -> HandleState {
        self.handle.state()
    }

    /// Takes ownership of the player that a native constructor returned.
    ///
    /// A null address means that construction failed, and gives `None`.
    ///
    /// Each call takes over exactly one reference that the engine handed
    /// out. An address is passed here once for each such reference and no
    /// more often: a second owner of the same object needs a reference of
    /// its own, which only the engine can give.
    pub fn from_raw(p: usize) -> (r: Option<MediaPlayer>)
        ensures
            r is Some <==> p != 0,
            r matches Some(h) ==> h.ptr() == p && h.lifetime() == HandleState::Live,
    {
        match NativeHandle::from_raw(p) {
            Some(handle) => Some(MediaPlayer { handle }),
            None => None,
        }
    }

    /// Returns the address of the native player. It is never null.
    pub fn raw(&self) -> (p: usize)
        ensures
            p == self.ptr(),
            p != 0,
    {
        self.handle.raw()
    }

    /// Tells whether the native player is still held.
    pub fn is_live(&self) -> (b: bool)
        ensures
            b == (self.lifetime() == HandleState::Live),
            !b == (self.lifetime() == HandleState::Released),
    {
        self.handle.is_live()
    }

    /// Gives the native player up.
    ///
    /// The first call answers with the address to release; every later call
    /// answers `None`.
    pub fn release(&mut self) -> (r: Option<usize>)
        ensures
            final(self).lifetime() == HandleState::Released,
            final(self).ptr() == old(self).ptr(),
            r is Some <==> old(self).lifetime() == HandleState::Live,
            r matches Some(p) ==> p == old(self).ptr(),
    {
        self.handle.release()
    }

    /// Wraps the address of the player's event manager.
    pub fn event_manager<'a>(&'a self, p: usize) -> (r: EventManager<'a>)
        requires
            self.lifetime() == HandleState::Live,
            p != 0,
        ensures
            r.ptr() == p,
    {
        EventManager::from_raw(p)
    }

    /// Reads whether the player is playing.
    ///
    /// The engine answers 0 for no and anything else for yes.
    pub fn is_playing(v: i32) -> (r: bool)
        ensures
            r == truth_of(v),
    {
        truth(v)
    }

    /// Reads the answer to a request to play.
    ///
    /// The engine answers 0 for success.
    pub fn play(rc: i32) -> (r: Result<(), ()>)
        ensures
            r == status_of(rc),
    {
        status(rc)
    }

    /// Gives the native argument of a request to pause or resume: 1 to
    /// pause, 0 to resume.
    pub fn set_pause(do_pause: bool) -> (r: i32)
        ensures
            r == flag_of(do_pause),
    {
        flag(do_pause)
    }

    /// Reads the NSView handler previously set.
    ///
    /// The null address means that none was set.
    pub fn get_nsobject(p: usize) -> (r: Option<usize>)
        ensures
            r == address_of(p),
    {
        address(p)
    }

    /// Reads the X Window System window identifier previously set.
    ///
    /// The engine answers 0 where none was set.
    pub fn get_xwindow(id: u32) -> (r: Option<u32>)
        ensures
            r == nonzero_of(id),
    {
        nonzero(id)
    }

    /// Reads the Windows API window handle (HWND) previously set.
    ///
    /// The null address means that none was set.
    pub fn get_hwnd(p: usize) -> (r: Option<usize>)
        ensures
            r == address_of(p),
    {
        address(p)
    }

    /// Reads the current movie time (in ms).
    ///
    /// The engine answers `-1` where it has no value.
    pub fn get_time(t: i64) -> (r: Option<i64>)
        ensures
            r == known_time_of(t),
    {
        known_time(t)
    }

    /// Reads the movie chapter.
    ///
    /// The engine answers `-1` where it has no value.
    pub fn get_chapter(v: i32) -> (r: Option<i32>)
        ensures
            r == known_of(v),
    {
        known(v)
    }

    /// Reads the movie chapter count.
    ///
    /// The engine answers `-1` where it has no value.
    pub fn chapter_count(v: i32) -> (r: Option<i32>)
        ensures
            r == known_of(v),
    {
        known(v)
    }

    /// Reads whether the player is able to play.
    ///
    /// The engine answers 0 for no and anything else for yes.
    pub fn will_play(v: i32) -> (r: bool)
        ensures
            r == truth_of(v),
    {
        truth(v)
    }

    /// Reads the chapter count of a title.
    ///
    /// The engine answers `-1` where it has no value.
    pub fn chapter_count_for_title(v: i32) -> (r: Option<i32>)
        ensures
            r == known_of(v),
    {
        known(v)
    }

    /// Reads the movie title.
    ///
    /// The engine answers `-1` where it has no value.
    pub fn get_title(v: i32) -> (r: Option<i32>)
        ensures
            r == known_of(v),
    {
        known(v)
    }

    /// Reads the movie title count.
    ///
    /// The engine answers `-1` where it has no value.
    pub fn title_count(v: i32) -> (r: Option<i32>)
        ensures
            r == known_of(v),
    {
        known(v)
    }

    /// Reads the answer to a request to set the play rate.
    ///
    /// The engine answers 0 for success; every other answer is a failure.
    pub fn set_rate(rc: i32) -> (r: Result<(), ()>)
        ensures
            r == status_of(rc),
    {
        status(rc)
    }

    /// Reads the state of the player.
    ///
    /// A number that names no state gives `None`.
    pub fn state(raw: i32) -> (r: Option<State>)
        ensures
            r == State::of_raw(raw),
    {
        State::from_raw(raw)
    }

    /// Reads whether the player is seekable.
    ///
    /// The engine answers 0 for no and anything else for yes.
    pub fn is_seekable(v: i32) -> (r: bool)
        ensures
            r == truth_of(v),
    {
        truth(v)
    }

    /// Reads whether the player can be paused.
    ///
    /// The engine answers 0 for no and anything else for yes.
    pub fn can_pause(v: i32) -> (r: bool)
        ensures
            r == truth_of(v),
    {
        truth(v)
    }

    /// Reads whether the current program is scrambled.
    ///
    /// The engine answers 0 for no and anything else for yes.
    pub fn program_scrambled(v: i32) -> (r: bool)
        ensures
            r == truth_of(v),
    {
        truth(v)
    }

    /// Puts the closures of the audio callbacks together and tells which
    /// native callbacks to install for them.
    pub fn set_callbacks<Play, Pause, Resume, Flush, Drain>(
        play: Play,
        pause: Option<Pause>,
        resume: Option<Resume>,
        flush: Option<Flush>,
        drain: Option<Drain>,
    ) -> (r: (AudioCallbacksData<Play, Pause, Resume, Flush, Drain>, AudioCallbacks)) where
        Play: Fn(usize, u32, i64),
        Pause: Fn(i64),
        Resume: Fn(i64),
        Flush: Fn(i64),
        Drain: Fn(),

        ensures
            r.0.play() == play,
            r.0.pause() == pause,
            r.0.resume() == resume,
            r.0.flush() == flush,
            r.0.drain() == drain,
            r.1 == r.0.present(),
    {
        let data = AudioCallbacksData { play, pause, resume, flush, drain };
        let installed = data.installed();
        (data, installed)
    }
}

} // verus!
