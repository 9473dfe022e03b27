//! Plain-value images of the records that the native side hands over.
//!
//! A native record is read once, at the boundary, into one of these structs.
//! Addresses become `usize` (0 is the null pointer), C strings become byte
//! buffers, and single-precision numbers are carried as their IEEE-754 bit
//! pattern so that no bit of them is changed on the way.

#![allow(non_camel_case_types)]

use vstd::prelude::*;

verus! {

/// Payload of a meta-changed notification.
#[derive(Clone, Copy, Debug, PartialEq, Eq, Structural)]
pub struct media_meta_changed {
    /// Native number of the meta entry that changed.
    pub meta_type: i32,
}

/// Payload of a duration-changed notification.
#[derive(Clone, Copy, Debug, PartialEq, Eq, Structural)]
pub struct media_duration_changed {
    /// New duration in milliseconds.
    pub new_duration: i64,
}

/// Payload of a parsed-changed notification.
#[derive(Clone, Copy, Debug, PartialEq, Eq, Structural)]
pub struct media_parsed_changed {
    pub new_status: i32,
}

/// Payload of a state-changed notification.
#[derive(Clone, Copy, Debug, PartialEq, Eq, Structural)]
pub struct media_state_changed {
    /// Native number of the new state.
    pub new_state: i32,
}

/// Payload of a buffering notification.
#[derive(Clone, Copy, Debug, PartialEq, Eq, Structural)]
pub struct media_player_buffering {
    /// Bit pattern of the single-precision cache fill level.
    pub new_cache: u32,
}

/// Payload of a position-changed notification.
#[derive(Clone, Copy, Debug, PartialEq, Eq, Structural)]
pub struct media_player_position_changed {
    /// Bit pattern of the single-precision position.
    pub new_position: u32,
}

/// Names the member of the payload union that a notification carries.
#[derive(Clone, Copy, Debug, PartialEq, Eq, Structural)]
pub enum EventMember {
    /// The notification carries nothing that is read.
    Unread,
    MediaMetaChanged,
    MediaDurationChanged,
    MediaParsedChanged,
    MediaStateChanged,
    MediaPlayerBuffering,
    MediaPlayerPositionChanged,
}

/// Image of the payload union: the one member that was read, or none.
#[derive(Clone, Copy, Debug, PartialEq, Eq, Structural)]
pub enum EventPayload {
    /// No member was read.
    Unread,
    MediaMetaChanged(media_meta_changed),
    MediaDurationChanged(media_duration_changed),
    MediaParsedChanged(media_parsed_changed),
    MediaStateChanged(media_state_changed),
    MediaPlayerBuffering(media_player_buffering),
    MediaPlayerPositionChanged(media_player_position_changed),
}

impl EventPayload {
    /// The member that this image holds.
    pub open spec fn member(self) -> EventMember {
        match self {
            EventPayload::Unread => EventMember::Unread,
            EventPayload::MediaMetaChanged(_) => EventMember::MediaMetaChanged,
            EventPayload::MediaDurationChanged(_) => EventMember::MediaDurationChanged,
            EventPayload::MediaParsedChanged(_) => EventMember::MediaParsedChanged,
            EventPayload::MediaStateChanged(_) => EventMember::MediaStateChanged,
            EventPayload::MediaPlayerBuffering(_) => EventMember::MediaPlayerBuffering,
            EventPayload::MediaPlayerPositionChanged(_) => EventMember::MediaPlayerPositionChanged,
        }
    }
}

/// Image of a native event record: the tag, the object that raised the
/// event, and the payload member that was read for that tag.
#[derive(Clone, Copy, Debug, PartialEq, Eq, Structural)]
pub struct libvlc_event_t {
    /// Discriminant tag.
    pub _type: i32,
    /// Address of the object that raised the event.
    pub p_obj: usize,
    /// The payload member read from the union.
    pub u: EventPayload,
}

/// Image of one node of a native module description list.
///
/// Each string is the buffer at the node's pointer, `None` for a null
/// pointer. `p_next` is the address of the following node, 0 at the end.
#[derive(Clone, Copy, Debug)]
pub struct libvlc_module_description_t<'a> {
    pub psz_name: Option<&'a [u8]>,
    pub psz_shortname: Option<&'a [u8]>,
    pub psz_longname: Option<&'a [u8]>,
    pub psz_help: Option<&'a [u8]>,
    pub p_next: usize,
}

/// Image of one node of a native track description list.
#[derive(Clone, Copy, Debug)]
pub struct libvlc_track_description_t<'a> {
    pub i_id: i32,
    pub psz_name: Option<&'a [u8]>,
    pub p_next: usize,
}

/// Image of the audio member of a track record.
#[derive(Clone, Copy, Debug, PartialEq, Eq, Structural)]
pub struct libvlc_audio_track_t {
    pub i_channels: u32,
    pub i_rate: u32,
}

/// Image of the video member of a track record.
#[derive(Clone, Copy, Debug, PartialEq, Eq, Structural)]
pub struct libvlc_video_track_t {
    pub i_height: u32,
    pub i_width: u32,
    pub i_sar_num: u32,
    pub i_sar_den: u32,
    pub i_frame_rate_num: u32,
    pub i_frame_rate_den: u32,
}

/// Image of the subtitle member of a track record.
#[derive(Clone, Copy, Debug)]
pub struct libvlc_subtitle_track_t<'a> {
    pub psz_encoding: Option<&'a [u8]>,
}

/// Names the member of a track record's union.
#[derive(Clone, Copy, Debug, PartialEq, Eq, Structural)]
pub enum TrackMember {
    /// The record carries nothing that is read.
    Unread,
    Audio,
    Video,
    Subtitle,
}

/// Image of a track record's union: the one member that was read, or none.
#[derive(Clone, Copy, Debug)]
pub enum TrackPayload<'a> {
    /// No member was read.
    Unread,
    Audio(libvlc_audio_track_t),
    Video(libvlc_video_track_t),
    Subtitle(libvlc_subtitle_track_t<'a>),
}

impl<'a> TrackPayload<'a> {
    /// The member that this image holds.
    pub open spec fn member(self) -> TrackMember {
        match self {
            TrackPayload::Unread => TrackMember::Unread,
            TrackPayload::Audio(_) => TrackMember::Audio,
            TrackPayload::Video(_) => TrackMember::Video,
            TrackPayload::Subtitle(_) => TrackMember::Subtitle,
        }
    }
}

/// Image of a native track record.
#[derive(Clone, Copy, Debug)]
pub struct libvlc_media_track_t<'a> {
    pub i_codec: u32,
    pub i_original_fourcc: u32,
    pub i_id: i32,
    /// Native number of the track type; it says which member of `u` is live.
    pub i_type: i32,
    pub i_profile: i32,
    pub i_level: i32,
    /// The member read from the union.
    pub u: TrackPayload<'a>,
    pub i_bitrate: u32,
    pub psz_language: Option<&'a [u8]>,
    pub psz_description: Option<&'a [u8]>,
}

} // verus!
