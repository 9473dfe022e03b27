//! Audio queries and requests of a media player.

use vstd::prelude::*;

use crate::media_player::{MediaPlayer, TrackDescriptionList};
use crate::reply::{status, status_of, tristate, tristate_of};
use crate::tools::{flag, flag_of};

verus! {

/// What a media player reads from and gives to the audio part of the
/// native interface.
pub trait MediaPlayerAudioEx {
    /// Reads the mute status.
    ///
    /// The engine answers `-1` where the status is unknown, 0 for not muted
    /// and anything else for muted.
    fn get_mute(answer: i32) -> (r: Option<bool>)
        ensures
            r == tristate_of(answer),
    ;

    /// Gives the native argument of a request to mute or unmute: 1 to
    /// mute, 0 to unmute.
    fn set_mute(status: bool) -> (r: i32)
        ensures
            r == flag_of(status),
    ;

    /// Reads the answer to a request to set the volume.
    ///
    /// The engine answers 0 for success.
    fn set_volume(rc: i32) -> (r: Result<(), ()>)
        ensures
            r == status_of(rc),
    ;

    /// Starts the walk over the list that a query for the audio tracks
    /// answered with. The null address means that there is no list.
    fn get_audio_track_description(head: usize) -> (r: Option<TrackDescriptionList>)
        ensures
            r is None <==> head == 0,
            r matches Some(walk) ==> walk.cursor() == head && walk.found().len() == 0,
    ;
}

impl MediaPlayerAudioEx for MediaPlayer {
    fn get_mute(answer: i32) -> (r: Option<bool>) {
        tristate(answer)
    }

    fn set_mute(status: bool) -> (r: i32) {
        flag(status)
    }

    fn set_volume(rc: i32) -> (r: Result<(), ()>) {
        status(rc)
    }

    fn get_audio_track_description(head: usize) -> (r: Option<TrackDescriptionList>) {
        TrackDescriptionList::from_raw(head)
    }
}

} // verus!
