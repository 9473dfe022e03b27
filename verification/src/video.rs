//! Video queries and requests of a media player.

use vstd::prelude::*;
use vstd::string::StringSliceAdditionalSpecFns;

use crate::media_player::{MediaPlayer, TrackDescriptionList};
use crate::reply::{known, known_of, truth, truth_of};
use crate::tools::{
    first_nul, flag, flag_of, from_cstr_owned, native_text, nul_free, terminated, to_cstr, NulError,
    OwnedText,
};

verus! {

/// What a media player reads from and gives to the video part of the
/// native interface.
pub trait MediaPlayerVideoEx {
    /// Gives the native argument of a request to enter or leave fullscreen:
    /// 1 to enter, 0 to leave.
    fn set_fullscreen(fullscreen: bool) -> (r: i32)
        ensures
            r == flag_of(fullscreen),
    ;

    /// Reads whether the player is in fullscreen.
    ///
    /// The engine answers 0 for no and anything else for yes.
    fn get_fullscreen(v: i32) -> (r: bool)
        ensures
            r == truth_of(v),
    ;

    /// Gives the native argument that switches key input on (1) or off (0).
    fn set_key_input(on: bool) -> (r: u32)
        ensures
            r == flag_of(on) as u32,
    ;

    /// Gives the native argument that switches mouse input on (1) or off (0).
    fn set_mouse_input(on: bool) -> (r: u32)
        ensures
            r == flag_of(on) as u32,
    ;

    /// Reads the current video track.
    ///
    /// The engine answers `-1` where it has no value.
    fn get_video_track(v: i32) -> (r: Option<i32>)
        ensures
            r == known_of(v),
    ;

    /// Reads the pixel dimensions of a video.
    ///
    /// The engine answers `-1` where the video does not exist; the
    /// dimensions it wrote are then not looked at.
    fn get_size(res: i32, x: u32, y: u32) -> (r: Option<(u32, u32)>)
        ensures
            r == if res == -1 {
                None
            } else {
                Some((x, y))
            },
    ;

    /// Reads the mouse pointer coordinates over a video.
    ///
    /// The engine answers `-1` where the video does not exist; the
    /// coordinates it wrote are then not looked at.
    fn get_cursor(res: i32, x: i32, y: i32) -> (r: Option<(i32, i32)>)
        ensures
            r == if res == -1 {
                None
            } else {
                Some((x, y))
            },
    ;

    /// Reads the aspect ratio from the buffer that the engine allocated
    /// for it.
    fn get_aspect_ratio(p: Option<&[u8]>) -> (r: OwnedText)
        ensures
            r.text.deep_view() == native_text(p),
            r.free == p is Some,
    ;

    /// Marshals the aspect ratio to set. `None` resets the aspect ratio and
    /// is passed as the null pointer.
    fn set_aspect_ratio(aspect: Option<&str>) -> (r: Result<Option<Vec<u8>>, NulError>)
        ensures
            r is Ok <==> (aspect matches Some(a) ==> nul_free(a.spec_bytes())),
            r matches Ok(c) ==> (c is None <==> aspect is None),
            (r, aspect) matches (Ok(Some(c)), Some(a)) ==> c@ == terminated(a.spec_bytes()),
            (r, aspect) matches (Err(e), Some(a)) ==> e.position == first_nul(a.spec_bytes()),
    ;

    /// Starts the walk over the list that a query for the video tracks
    /// answered with. The null address means that there is no list.
    fn get_video_track_description(head: usize) -> (r: Option<TrackDescriptionList>)
        ensures
            r is None <==> head == 0,
            r matches Some(walk) ==> walk.cursor() == head && walk.found().len() == 0,
    ;
}

impl MediaPlayerVideoEx for MediaPlayer {
    fn set_fullscreen(fullscreen: bool) -> (r: i32) {
        flag(fullscreen)
    }

    fn get_fullscreen(v: i32) -> (r: bool) {
        truth(v)
    }

    fn set_key_input(on: bool) -> (r: u32) {
        if on { 1 } else { 0 }
    }

    fn set_mouse_input(on: bool) -> (r: u32) {
        if on { 1 } else { 0 }
    }

    fn get_video_track(v: i32) -> (r: Option<i32>) {
        known(v)
    }

    fn get_size(res: i32, x: u32, y: u32) -> (r: Option<(u32, u32)>) {
        if res == -1 {
            None
        } else {
            Some((x, y))
        }
    }

    fn get_cursor(res: i32, x: i32, y: i32) -> (r: Option<(i32, i32)>) {
        if res == -1 {
            None
        } else {
            Some((x, y))
        }
    }

    fn get_aspect_ratio(p: Option<&[u8]>) -> (r: OwnedText) {
        from_cstr_owned(p)
    }

    fn set_aspect_ratio(aspect: Option<&str>) -> (r: Result<Option<Vec<u8>>, NulError>) {
        match aspect {
            None => Ok(None),
            Some(a) => match to_cstr(a) {
                Ok(c) => Ok(Some(c)),
                Err(e) => Err(e),
            },
        }
    }

    fn get_video_track_description(head: usize) -> (r: Option<TrackDescriptionList>) {
        TrackDescriptionList::from_raw(head)
    }
}

} // verus!
