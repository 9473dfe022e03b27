//! Verified core of a safety layer over the libVLC C interface.
//!
//! Everything here works on plain values: addresses are `usize`, native
//! strings are byte buffers, and native records are structs of integers.
//! The code that actually crosses the C boundary lives outside this crate
//! and hands those values in and out.

pub mod audio;
pub mod enums;
pub mod event;
pub mod handle;
pub mod instance;
pub mod list;
pub mod media;
pub mod media_library;
pub mod media_list;
pub mod media_player;
pub mod reply;
pub mod sys;
pub mod tools;
pub mod video;
pub mod vlm;

pub use crate::audio::MediaPlayerAudioEx;
pub use crate::enums::{EventType, LogLevel, Meta, Position, State, TrackType, VideoAdjustOption};
pub use crate::event::{
    conv_event, event_manager_callback, Attachment, CallbackOwner, Event, EventError,
    EventManager, VLCObject,
};
pub use crate::handle::{HandleOp, HandleState, NativeHandle};
pub use crate::instance::{
    compiler, errmsg, logging_cb, version, Instance, Log, ModuleDescription,
    ModuleDescriptionList, ModuleDescriptionListIter, ModuleDescriptionRef,
};
pub use crate::media::{
    AudioTrack, Media, MediaTrack, MediaTrackUnion, SubtitleTrack, TrackError, TrackFault,
    VideoTrack,
};
pub use crate::media_library::MediaLibrary;
pub use crate::media_list::MediaList;
pub use crate::media_player::{
    AudioCallbacks, AudioCallbacksData, MediaPlayer, TrackDescription, TrackDescriptionList,
};
pub use crate::tools::{
    flag, from_cstr, from_cstr_owned, from_cstr_ref, to_cstr, to_cstr_array, ArgsError,
    NativeArgs, NulError, OwnedText,
};
pub use crate::video::MediaPlayerVideoEx;
pub use crate::vlm::{BroadcastArgs, Vlm, VlmError, VodArgs};
