//! Media items and the description of their tracks.

use vstd::prelude::*;
use vstd::string::StringSliceAdditionalSpecFns;

use crate::enums::{State, TrackType};
use crate::event::EventManager;
use crate::handle::{HandleState, NativeHandle};
use crate::reply::{known_time, known_time_of, truth, truth_of};
use crate::sys::{libvlc_media_track_t, TrackMember, TrackPayload};
use crate::tools::{
    first_nul, from_cstr, from_cstr_owned, native_text, nul_free, terminated, to_cstr, NulError,
    OwnedText,
};

verus! {

/// A media item.
///
/// Owns the native media item: it is released once, by the first
/// [`Media::release`].
#[derive(Debug)]
pub struct Media {
    handle: NativeHandle,
}

/// Description of one track of a media item.
#[derive(Clone, PartialEq, Eq, Hash, Debug)]
pub struct MediaTrack {
    pub codec: u32,
    pub original_fourcc: u32,
    pub id: i32,
    pub track_type: TrackType,
    pub profile: i32,
    pub level: i32,
    pub bitrate: u32,
    pub language: Option<String>,
    pub description: Option<String>,
    pub type_specific_data: MediaTrackUnion,
}

/// The part of a track description that depends on the track's type.
#[derive(Clone, PartialEq, Eq, Hash, Debug)]
pub enum MediaTrackUnion {
    Audio(AudioTrack),
    Video(VideoTrack),
    Subtitle(SubtitleTrack),
    /// The track's type is unknown, so there is nothing more to tell.
    Nothing,
}

#[derive(Clone, Copy, PartialEq, Eq, Hash, Debug)]
pub struct AudioTrack {
    pub channels: u32,
    pub rate: u32,
}

#[derive(Clone, Copy, PartialEq, Eq, Hash, Debug)]
pub struct VideoTrack {
    pub height: u32,
    pub width: u32,
    pub sar_num: u32,
    pub sar_den: u32,
    pub frame_rate_num: u32,
    pub frame_rate_den: u32,
}

#[derive(Clone, PartialEq, Eq, Hash, Debug)]
pub struct SubtitleTrack {
    pub encoding: Option<String>,
}

/// Why a native track record was not decoded.
#[derive(Clone, Copy, Debug, PartialEq, Eq, Structural)]
pub enum TrackFault {
    /// The type number names no track type.
    UnknownType(i32),
    /// The record holds another member than the one its type announces.
    WrongMember,
}

/// A track record that was not decoded, and its place in the list.
#[derive(Clone, Copy, Debug, PartialEq, Eq, Structural)]
pub struct TrackError {
    pub index: usize,
    pub fault: TrackFault,
}

impl TrackType {
    /// The union member that a track record of this type carries.
    pub open spec fn announced(self) -> TrackMember {
        match self {
            TrackType::Unknown => TrackMember::Unread,
            TrackType::Audio => TrackMember::Audio,
            TrackType::Video => TrackMember::Video,
            TrackType::Text => TrackMember::Subtitle,
        }
    }

    /// Tells which member of a track record's union is to be read for this
    /// type. `Unread` means that no member is read at all.
    pub fn member(self) -> (m: TrackMember)
        ensures
            m == self.announced(),
    {
        match self {
            TrackType::Unknown => TrackMember::Unread,
            TrackType::Audio => TrackMember::Audio,
            TrackType::Video => TrackMember::Video,
            TrackType::Text => TrackMember::Subtitle,
        }
    }
}

/// True when the track record decodes: its type number is recognised and
/// it holds the member that the type announces.
pub open spec fn track_decodable(raw: libvlc_media_track_t) -> bool {
    &&& TrackType::of_raw(raw.i_type) matches Some(t)
    &&& raw.u.member() == t.announced()
}

/// The fault of a track record that does not decode.
pub open spec fn track_fault(raw: libvlc_media_track_t) -> TrackFault {
    if TrackType::of_raw(raw.i_type) is None {
        TrackFault::UnknownType(raw.i_type)
    } else {
        TrackFault::WrongMember
    }
}

/// True when `data` holds the values of the union member `u`, each as it
/// was read.
pub open spec fn is_data_of(u: TrackPayload, data: MediaTrackUnion) -> bool {
    match (u, data) {
        (TrackPayload::Unread, MediaTrackUnion::Nothing) => true,
        (TrackPayload::Audio(a), MediaTrackUnion::Audio(t)) => {
            &&& t.channels == a.i_channels
            &&& t.rate == a.i_rate
        },
        (TrackPayload::Video(v), MediaTrackUnion::Video(t)) => {
            &&& t.height == v.i_height
            &&& t.width == v.i_width
            &&& t.sar_num == v.i_sar_num
            &&& t.sar_den == v.i_sar_den
            &&& t.frame_rate_num == v.i_frame_rate_num
            &&& t.frame_rate_den == v.i_frame_rate_den
        },
        (TrackPayload::Subtitle(s), MediaTrackUnion::Subtitle(t)) => t.encoding.deep_view()
            == native_text(s.psz_encoding),
        _ => false,
    }
}

/// True when `track` is the description of the native record `raw`: every
/// number is carried over unchanged and every string is read from its
/// buffer.
pub open spec fn is_track_of(raw: libvlc_media_track_t, track: MediaTrack) -> bool {
    &&& track.codec == raw.i_codec
    &&& track.original_fourcc == raw.i_original_fourcc
    &&& track.id == raw.i_id
    &&& track.track_type.raw() == raw.i_type
    &&& track.profile == raw.i_profile
    &&& track.level == raw.i_level
    &&& track.bitrate == raw.i_bitrate
    &&& track.language.deep_view() == native_text(raw.psz_language)
    &&& track.description.deep_view() == native_text(raw.psz_description)
    &&& is_data_of(raw.u, track.type_specific_data)
}

impl MediaTrack {
    /// Decodes one native track record.
    ///
    /// Succeeds exactly when the record is [`track_decodable`].
    pub fn from_raw(raw: &libvlc_media_track_t) -> (r: Result<MediaTrack, TrackFault>)
        ensures
            r is Ok <==> track_decodable(*raw),
            r matches Ok(track) ==> is_track_of(*raw, track),
            r matches Err(fault) ==> fault == track_fault(*raw),
    {
        let track_type = match TrackType::from_raw(raw.i_type) {
            Some(t) => t,
            None => {
                return Err(TrackFault::UnknownType(raw.i_type));
            },
        };
        let type_specific_data = match (track_type, raw.u) {
            (TrackType::Audio, TrackPayload::Audio(audio)) => MediaTrackUnion::Audio(
                AudioTrack { channels: audio.i_channels, rate: audio.i_rate },
            ),
            (TrackType::Video, TrackPayload::Video(video)) => MediaTrackUnion::Video(
                VideoTrack {
                    height: video.i_height,
                    width: video.i_width,
                    sar_num: video.i_sar_num,
                    sar_den: video.i_sar_den,
                    frame_rate_num: video.i_frame_rate_num,
                    frame_rate_den: video.i_frame_rate_den,
                },
            ),
            (TrackType::Text, TrackPayload::Subtitle(subtitle)) => MediaTrackUnion::Subtitle(
                SubtitleTrack { encoding: from_cstr(subtitle.psz_encoding) },
            ),
            (TrackType::Unknown, TrackPayload::Unread) => MediaTrackUnion::Nothing,
            _ => {
                return Err(TrackFault::WrongMember);
            },
        };
        Ok(
            MediaTrack {
                codec: raw.i_codec,
                original_fourcc: raw.i_original_fourcc,
                id: raw.i_id,
                track_type,
                profile: raw.i_profile,
                level: raw.i_level,
                bitrate: raw.i_bitrate,
                language: from_cstr(raw.psz_language),
                description: from_cstr(raw.psz_description),
                type_specific_data,
            },
        )
    }
}

impl Media {
    /// The address of the native media item.
    pub closed spec fn ptr(&self) -> usize {
        self.handle.ptr()
    }

    /// The state of this owner's claim on the native media item.
    pub closed spec fn lifetime(&self) -> HandleState {
        self.handle.state()
    }

    /// Takes ownership of the media item that a native constructor returned.
    ///
    /// A null address means that construction failed, and gives `None`.
    ///
    /// Each call takes over exactly one reference that the engine handed
    /// out. An address is passed here once for each such reference and no
    /// more often: a second owner of the same object needs a reference of
    /// its own, which only the engine can give.
    pub fn from_raw(p: usize) -> (r: Option<Media>)
        ensures
            r is Some <==> p != 0,
            r matches Some(h) ==> h.ptr() == p && h.lifetime() == HandleState::Live,
    {
        match NativeHandle::from_raw(p) {
            Some(handle) => Some(Media { handle }),
            None => None,
        }
    }

    /// Returns the address of the native media item. It is never null.
    pub fn raw(&self) -> (p: usize)
        ensures
            p == self.ptr(),
            p != 0,
    {
        self.handle.raw()
    }

    /// Tells whether the native media item is still held.
    pub fn is_live(&self) -> (b: bool)
        ensures
            b == (self.lifetime() == HandleState::Live),
            !b == (self.lifetime() == HandleState::Released),
    {
        self.handle.is_live()
    }

    /// Gives the native media item up.
    ///
    /// The first call answers with the address to release; every later call
    /// answers `None`.
    pub fn release(&mut self) -> (r: Option<usize>)
        ensures
            final(self).lifetime() == HandleState::Released,
            final(self).ptr() == old(self).ptr(),
            r is Some <==> old(self).lifetime() == HandleState::Live,
            r matches Some(p) ==> p == old(self).ptr(),
    {
        self.handle.release()
    }

    /// Wraps the address of the media item's event manager.
    pub fn event_manager<'a>(&'a self, p: usize) -> (r: EventManager<'a>)
        requires
            self.lifetime() == HandleState::Live,
            p != 0,
        ensures
            r.ptr() == p,
    {
        EventManager::from_raw(p)
    }

    /// Marshals the media resource locator of a media item to create.
    ///
    /// Fails exactly when the locator holds a null byte; nothing is then
    /// sent to the engine.
    pub fn new_location(mrl: &str) -> (r: Result<Vec<u8>, NulError>)
        ensures
            r is Ok <==> nul_free(mrl.spec_bytes()),
            r matches Ok(c) ==> c@ == terminated(mrl.spec_bytes()),
            r matches Err(e) ==> e.position == first_nul(mrl.spec_bytes()),
    {
        to_cstr(mrl)
    }

    /// Marshals the path of a media item to create.
    ///
    /// A path that holds a null byte names no file: the answer is `None`,
    /// and nothing is sent to the engine.
    pub fn new_path(path: &str) -> (r: Option<Vec<u8>>)
        ensures
            r is Some <==> nul_free(path.spec_bytes()),
            r matches Some(c) ==> c@ == terminated(path.spec_bytes()),
    {
        match to_cstr(path) {
            Ok(c) => Some(c),
            Err(_) => None,
        }
    }

    /// Reads the media resource locator from the buffer that the engine
    /// allocated for it.
    pub fn mrl(p: Option<&[u8]>) -> (r: OwnedText)
        ensures
            r.text.deep_view() == native_text(p),
            r.free == p is Some,
    {
        from_cstr_owned(p)
    }

    /// Reads a meta entry from the buffer that the engine allocated for it.
    /// If the media has not yet been parsed there is none.
    pub fn get_meta(p: Option<&[u8]>) -> (r: OwnedText)
        ensures
            r.text.deep_view() == native_text(p),
            r.free == p is Some,
    {
        from_cstr_owned(p)
    }

    /// Reads whether the meta entries were saved.
    ///
    /// The engine answers 0 for no and anything else for yes.
    pub fn save_meta(v: i32) -> (r: bool)
        ensures
            r == truth_of(v),
    {
        truth(v)
    }

    /// Reads the state of the media item.
    ///
    /// A number that names no state gives `None`.
    pub fn state(raw: i32) -> (r: Option<State>)
        ensures
            r == State::of_raw(raw),
    {
        State::from_raw(raw)
    }

    /// Reads the duration (in ms) of the media item.
    ///
    /// The engine answers `-1` where it has no value.
    pub fn duration(t: i64) -> (r: Option<i64>)
        ensures
            r == known_time_of(t),
    {
        known_time(t)
    }

    /// Reads whether the media item has been parsed.
    ///
    /// The engine answers 0 for no and anything else for yes.
    pub fn is_parsed(v: i32) -> (r: bool)
        ensures
            r == truth_of(v),
    {
        truth(v)
    }

    /// Decodes the track records of a media item.
    ///
    /// No record at all means that the tracks are not known, and gives
    /// `Ok(None)`. Otherwise every record is decoded, in order; the first
    /// record that does not decode is reported with its index.
    pub fn tracks(raw: &[libvlc_media_track_t]) -> (r: Result<Option<Vec<MediaTrack>>, TrackError>)
        ensures
            r is Ok <==> forall|i: int| 0 <= i < raw@.len() ==> track_decodable(#[trigger] raw@[i]),
            r matches Ok(found) ==> (found is None <==> raw@.len() == 0),
            r matches Ok(Some(tracks)) ==> {
                &&& tracks@.len() == raw@.len()
                &&& forall|i: int|
                    0 <= i < raw@.len() ==> is_track_of(raw@[i], #[trigger] tracks@[i])
            },
            r matches Err(e) ==> {
                &&& e.index < raw@.len()
                &&& forall|i: int| 0 <= i < e.index ==> track_decodable(#[trigger] raw@[i])
                &&& !track_decodable(raw@[e.index as int])
                &&& e.fault == track_fault(raw@[e.index as int])
            },
    {
        let n = raw.len();
        if n == 0 {
            return Ok(None);
        }
        let mut track: Vec<MediaTrack> = Vec::new();
        let mut i: usize = 0;
        while i < n
            invariant
                n == raw@.len(),
                i <= n,
                track@.len() == i,
                forall|k: int| 0 <= k < i ==> track_decodable(#[trigger] raw@[k]),
                forall|k: int| 0 <= k < i ==> is_track_of(raw@[k], #[trigger] track@[k]),
            decreases n - i,
        {
            match MediaTrack::from_raw(&raw[i]) {
                Ok(t) => {
                    track.push(t);
                },
                Err(fault) => {
                    return Err(TrackError { index: i, fault });
                },
            }
            i = i + 1;
        }
        Ok(Some(track))
    }
}

} // verus!
