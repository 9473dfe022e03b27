//! Decoding of native event records into typed events.
//!
//! A native event record is a tag followed by a union. The tag alone says
//! which member of the union is live, so decoding goes in three steps:
//! recognise the tag ([`EventType::from_raw`]), learn which member it
//! announces ([`EventType::member`]), and, once that member has been read
//! into a [`libvlc_event_t`], turn the record into an [`Event`]
//! ([`conv_event`]). A tag that is not recognised, a member other than the
//! announced one, or a number that names no variant is reported as an
//! [`EventError`]; it never becomes an event.

use std::marker::PhantomData;
use vstd::prelude::*;

use crate::enums::{EventType, Meta, State};
use crate::sys::{
    libvlc_event_t, media_duration_changed, media_meta_changed, media_parsed_changed,
    media_player_buffering, media_player_position_changed, media_state_changed, EventMember,
    EventPayload,
};

verus! {

/// A decoded notification.
///
/// There is one variant per [`EventType`], under the same name. A variant
/// carries a value only where the decoder reads one from the native record.
#[derive(Clone, Copy, Debug, PartialEq, Eq, Structural)]
pub enum Event {
    /// The meta entry that changed.
    MediaMetaChanged(Meta),
    MediaSubItemAdded,
    /// The new duration in milliseconds.
    MediaDurationChanged(i64),
    /// The new parse status, as the native side numbers it.
    MediaParsedChanged(i32),
    MediaFreed,
    /// The new state.
    MediaStateChanged(State),
    MediaSubItemTreeAdded,
    MediaPlayerMediaChanged,
    MediaPlayerNothingSpecial,
    MediaPlayerOpening,
    /// Bit pattern of the single-precision cache fill level.
    MediaPlayerBuffering(u32),
    MediaPlayerPlaying,
    MediaPlayerPaused,
    MediaPlayerStopped,
    MediaPlayerForward,
    MediaPlayerBackward,
    MediaPlayerEndReached,
    MediaPlayerEncounteredError,
    MediaPlayerTimeChanged,
    /// Bit pattern of the single-precision position.
    MediaPlayerPositionChanged(u32),
    MediaPlayerSeekableChanged,
    MediaPlayerPausableChanged,
    MediaPlayerTitleChanged,
    MediaPlayerSnapshotTaken,
    MediaPlayerLengthChanged,
    MediaPlayerVout,
    MediaPlayerScrambledChanged,
    MediaListItemAdded,
    MediaListWillAddItem,
    MediaListItemDeleted,
    MediaListWillDeleteItem,
    MediaListViewItemAdded,
    MediaListViewWillAddItem,
    MediaListViewItemDeleted,
    MediaListViewWillDeleteItem,
    MediaListPlayerPlayed,
    MediaListPlayerNextItemSet,
    MediaListPlayerStopped,
    MediaDiscovererStarted,
    MediaDiscovererEnded,
    VlmMediaAdded,
    VlmMediaRemoved,
    VlmMediaChanged,
    VlmMediaInstanceStarted,
    VlmMediaInstanceStopped,
    VlmMediaInstanceStatusInit,
    VlmMediaInstanceStatusOpening,
    VlmMediaInstanceStatusPlaying,
    VlmMediaInstanceStatusPause,
    VlmMediaInstanceStatusEnd,
    VlmMediaInstanceStatusError,
}

/// Why a native event record was not decoded.
#[derive(Clone, Copy, Debug, PartialEq, Eq, Structural)]
pub enum EventError {
    /// The tag is not the number of any event type.
    UnknownType(i32),
    /// The payload holds another member than the one the tag announces.
    WrongMember,
    /// The meta number in the payload names no meta entry.
    InvalidMeta(i32),
    /// The state number in the payload names no state.
    InvalidState(i32),
}

/// A reference to the native object that raised an event.
#[derive(Clone, Copy, Debug, PartialEq, Eq, Structural)]
pub struct VLCObject {
    ptr: usize,
}

impl View for VLCObject {
    type V = usize;

    closed spec fn view(&self) -> usize {
        self.ptr
    }
}

impl VLCObject {
    /// Wraps the address of the object that raised an event.
    pub fn from_raw(ptr: usize) -> (r: VLCObject)
        ensures
            r@ == ptr,
    {
        VLCObject { ptr }
    }

    /// Returns the address of the native object.
    pub fn raw(&self) -> (p: usize)
        ensures
            p == self@,
    {
        self.ptr
    }
}

impl EventType {
    /// The union member that a record with this tag carries for the decoder.
    pub open spec fn announced(self) -> EventMember {
        match self {
            EventType::MediaMetaChanged => EventMember::MediaMetaChanged,
            EventType::MediaDurationChanged => EventMember::MediaDurationChanged,
            EventType::MediaParsedChanged => EventMember::MediaParsedChanged,
            EventType::MediaStateChanged => EventMember::MediaStateChanged,
            EventType::MediaPlayerBuffering => EventMember::MediaPlayerBuffering,
            EventType::MediaPlayerPositionChanged => EventMember::MediaPlayerPositionChanged,
            _ => EventMember::Unread,
        }
    }

    /// Tells which member of the payload union is to be read for this tag.
    ///
    /// `Unread` means that no member is read at all.
    pub fn member(self) -> (m: EventMember)
        ensures
            m == self.announced(),
    {
        match self {
            EventType::MediaMetaChanged => EventMember::MediaMetaChanged,
            EventType::MediaDurationChanged => EventMember::MediaDurationChanged,
            EventType::MediaParsedChanged => EventMember::MediaParsedChanged,
            EventType::MediaStateChanged => EventMember::MediaStateChanged,
            EventType::MediaPlayerBuffering => EventMember::MediaPlayerBuffering,
            EventType::MediaPlayerPositionChanged => EventMember::MediaPlayerPositionChanged,
            _ => EventMember::Unread,
        }
    }
}

impl EventPayload {
    /// Returns the member that this image holds.
    pub fn which(&self) -> (m: EventMember)
        ensures
            m == self.member(),
    {
        match self {
            EventPayload::Unread => EventMember::Unread,
            EventPayload::MediaMetaChanged(_) => EventMember::MediaMetaChanged,
            EventPayload::MediaDurationChanged(_) => EventMember::MediaDurationChanged,
            EventPayload::MediaParsedChanged(_) => EventMember::MediaParsedChanged,
            EventPayload::MediaStateChanged(_) => EventMember::MediaStateChanged,
            EventPayload::MediaPlayerBuffering(_) => EventMember::MediaPlayerBuffering,
            EventPayload::MediaPlayerPositionChanged(_) => EventMember::MediaPlayerPositionChanged,
        }
    }
}

impl Event {
    /// The event type of this event.
    pub open spec fn kind(self) -> EventType {
        match self {
            Event::MediaMetaChanged(_) => EventType::MediaMetaChanged,
            Event::MediaSubItemAdded => EventType::MediaSubItemAdded,
            Event::MediaDurationChanged(_) => EventType::MediaDurationChanged,
            Event::MediaParsedChanged(_) => EventType::MediaParsedChanged,
            Event::MediaFreed => EventType::MediaFreed,
            Event::MediaStateChanged(_) => EventType::MediaStateChanged,
            Event::MediaSubItemTreeAdded => EventType::MediaSubItemTreeAdded,
            Event::MediaPlayerMediaChanged => EventType::MediaPlayerMediaChanged,
            Event::MediaPlayerNothingSpecial => EventType::MediaPlayerNothingSpecial,
            Event::MediaPlayerOpening => EventType::MediaPlayerOpening,
            Event::MediaPlayerBuffering(_) => EventType::MediaPlayerBuffering,
            Event::MediaPlayerPlaying => EventType::MediaPlayerPlaying,
            Event::MediaPlayerPaused => EventType::MediaPlayerPaused,
            Event::MediaPlayerStopped => EventType::MediaPlayerStopped,
            Event::MediaPlayerForward => EventType::MediaPlayerForward,
            Event::MediaPlayerBackward => EventType::MediaPlayerBackward,
            Event::MediaPlayerEndReached => EventType::MediaPlayerEndReached,
            Event::MediaPlayerEncounteredError => EventType::MediaPlayerEncounteredError,
            Event::MediaPlayerTimeChanged => EventType::MediaPlayerTimeChanged,
            Event::MediaPlayerPositionChanged(_) => EventType::MediaPlayerPositionChanged,
            Event::MediaPlayerSeekableChanged => EventType::MediaPlayerSeekableChanged,
            Event::MediaPlayerPausableChanged => EventType::MediaPlayerPausableChanged,
            Event::MediaPlayerTitleChanged => EventType::MediaPlayerTitleChanged,
            Event::MediaPlayerSnapshotTaken => EventType::MediaPlayerSnapshotTaken,
            Event::MediaPlayerLengthChanged => EventType::MediaPlayerLengthChanged,
            Event::MediaPlayerVout => EventType::MediaPlayerVout,
            Event::MediaPlayerScrambledChanged => EventType::MediaPlayerScrambledChanged,
            Event::MediaListItemAdded => EventType::MediaListItemAdded,
            Event::MediaListWillAddItem => EventType::MediaListWillAddItem,
            Event::MediaListItemDeleted => EventType::MediaListItemDeleted,
            Event::MediaListWillDeleteItem => EventType::MediaListWillDeleteItem,
            Event::MediaListViewItemAdded => EventType::MediaListViewItemAdded,
            Event::MediaListViewWillAddItem => EventType::MediaListViewWillAddItem,
            Event::MediaListViewItemDeleted => EventType::MediaListViewItemDeleted,
            Event::MediaListViewWillDeleteItem => EventType::MediaListViewWillDeleteItem,
            Event::MediaListPlayerPlayed => EventType::MediaListPlayerPlayed,
            Event::MediaListPlayerNextItemSet => EventType::MediaListPlayerNextItemSet,
            Event::MediaListPlayerStopped => EventType::MediaListPlayerStopped,
            Event::MediaDiscovererStarted => EventType::MediaDiscovererStarted,
            Event::MediaDiscovererEnded => EventType::MediaDiscovererEnded,
            Event::VlmMediaAdded => EventType::VlmMediaAdded,
            Event::VlmMediaRemoved => EventType::VlmMediaRemoved,
            Event::VlmMediaChanged => EventType::VlmMediaChanged,
            Event::VlmMediaInstanceStarted => EventType::VlmMediaInstanceStarted,
            Event::VlmMediaInstanceStopped => EventType::VlmMediaInstanceStopped,
            Event::VlmMediaInstanceStatusInit => EventType::VlmMediaInstanceStatusInit,
            Event::VlmMediaInstanceStatusOpening => EventType::VlmMediaInstanceStatusOpening,
            Event::VlmMediaInstanceStatusPlaying => EventType::VlmMediaInstanceStatusPlaying,
            Event::VlmMediaInstanceStatusPause => EventType::VlmMediaInstanceStatusPause,
            Event::VlmMediaInstanceStatusEnd => EventType::VlmMediaInstanceStatusEnd,
            Event::VlmMediaInstanceStatusError => EventType::VlmMediaInstanceStatusError,
        }
    }

    /// The payload member from which this event is decoded, value for value.
    pub open spec fn payload(self) -> EventPayload {
        match self {
            Event::MediaMetaChanged(meta) => EventPayload::MediaMetaChanged(
                media_meta_changed { meta_type: meta.raw() },
            ),
            Event::MediaDurationChanged(d) => EventPayload::MediaDurationChanged(
                media_duration_changed { new_duration: d },
            ),
            Event::MediaParsedChanged(s) => EventPayload::MediaParsedChanged(
                media_parsed_changed { new_status: s },
            ),
            Event::MediaStateChanged(state) => EventPayload::MediaStateChanged(
                media_state_changed { new_state: state.raw() },
            ),
            Event::MediaPlayerBuffering(bits) => EventPayload::MediaPlayerBuffering(
                media_player_buffering { new_cache: bits },
            ),
            Event::MediaPlayerPositionChanged(bits) => EventPayload::MediaPlayerPositionChanged(
                media_player_position_changed { new_position: bits },
            ),
            _ => EventPayload::Unread,
        }
    }

    /// Returns the event type of this event.
    pub fn event_type(&self) -> (t: EventType)
        ensures
            t == self.kind(),
    {
        match self {
            Event::MediaMetaChanged(_) => EventType::MediaMetaChanged,
            Event::MediaSubItemAdded => EventType::MediaSubItemAdded,
            Event::MediaDurationChanged(_) => EventType::MediaDurationChanged,
            Event::MediaParsedChanged(_) => EventType::MediaParsedChanged,
            Event::MediaFreed => EventType::MediaFreed,
            Event::MediaStateChanged(_) => EventType::MediaStateChanged,
            Event::MediaSubItemTreeAdded => EventType::MediaSubItemTreeAdded,
            Event::MediaPlayerMediaChanged => EventType::MediaPlayerMediaChanged,
            Event::MediaPlayerNothingSpecial => EventType::MediaPlayerNothingSpecial,
            Event::MediaPlayerOpening => EventType::MediaPlayerOpening,
            Event::MediaPlayerBuffering(_) => EventType::MediaPlayerBuffering,
            Event::MediaPlayerPlaying => EventType::MediaPlayerPlaying,
            Event::MediaPlayerPaused => EventType::MediaPlayerPaused,
            Event::MediaPlayerStopped => EventType::MediaPlayerStopped,
            Event::MediaPlayerForward => EventType::MediaPlayerForward,
            Event::MediaPlayerBackward => EventType::MediaPlayerBackward,
            Event::MediaPlayerEndReached => EventType::MediaPlayerEndReached,
            Event::MediaPlayerEncounteredError => EventType::MediaPlayerEncounteredError,
            Event::MediaPlayerTimeChanged => EventType::MediaPlayerTimeChanged,
            Event::MediaPlayerPositionChanged(_) => EventType::MediaPlayerPositionChanged,
            Event::MediaPlayerSeekableChanged => EventType::MediaPlayerSeekableChanged,
            Event::MediaPlayerPausableChanged => EventType::MediaPlayerPausableChanged,
            Event::MediaPlayerTitleChanged => EventType::MediaPlayerTitleChanged,
            Event::MediaPlayerSnapshotTaken => EventType::MediaPlayerSnapshotTaken,
            Event::MediaPlayerLengthChanged => EventType::MediaPlayerLengthChanged,
            Event::MediaPlayerVout => EventType::MediaPlayerVout,
            Event::MediaPlayerScrambledChanged => EventType::MediaPlayerScrambledChanged,
            Event::MediaListItemAdded => EventType::MediaListItemAdded,
            Event::MediaListWillAddItem => EventType::MediaListWillAddItem,
            Event::MediaListItemDeleted => EventType::MediaListItemDeleted,
            Event::MediaListWillDeleteItem => EventType::MediaListWillDeleteItem,
            Event::MediaListViewItemAdded => EventType::MediaListViewItemAdded,
            Event::MediaListViewWillAddItem => EventType::MediaListViewWillAddItem,
            Event::MediaListViewItemDeleted => EventType::MediaListViewItemDeleted,
            Event::MediaListViewWillDeleteItem => EventType::MediaListViewWillDeleteItem,
            Event::MediaListPlayerPlayed => EventType::MediaListPlayerPlayed,
            Event::MediaListPlayerNextItemSet => EventType::MediaListPlayerNextItemSet,
            Event::MediaListPlayerStopped => EventType::MediaListPlayerStopped,
            Event::MediaDiscovererStarted => EventType::MediaDiscovererStarted,
            Event::MediaDiscovererEnded => EventType::MediaDiscovererEnded,
            Event::VlmMediaAdded => EventType::VlmMediaAdded,
            Event::VlmMediaRemoved => EventType::VlmMediaRemoved,
            Event::VlmMediaChanged => EventType::VlmMediaChanged,
            Event::VlmMediaInstanceStarted => EventType::VlmMediaInstanceStarted,
            Event::VlmMediaInstanceStopped => EventType::VlmMediaInstanceStopped,
            Event::VlmMediaInstanceStatusInit => EventType::VlmMediaInstanceStatusInit,
            Event::VlmMediaInstanceStatusOpening => EventType::VlmMediaInstanceStatusOpening,
            Event::VlmMediaInstanceStatusPlaying => EventType::VlmMediaInstanceStatusPlaying,
            Event::VlmMediaInstanceStatusPause => EventType::VlmMediaInstanceStatusPause,
            Event::VlmMediaInstanceStatusEnd => EventType::VlmMediaInstanceStatusEnd,
            Event::VlmMediaInstanceStatusError => EventType::VlmMediaInstanceStatusError,
        }
    }
}

/// True when every number in the payload that stands for a variant names one.
pub open spec fn payload_valid(u: EventPayload) -> bool {
    match u {
        EventPayload::MediaMetaChanged(m) => Meta::of_raw(m.meta_type) is Some,
        EventPayload::MediaStateChanged(s) => State::of_raw(s.new_state) is Some,
        _ => true,
    }
}

/// True when the record decodes: its tag is recognised, its payload holds
/// the member that the tag announces, and that member is valid.
pub open spec fn decodable(pe: libvlc_event_t) -> bool {
    &&& EventType::of_raw(pe._type) matches Some(t)
    &&& pe.u.member() == t.announced()
    &&& payload_valid(pe.u)
}

/// The error reported for a record that does not decode: the first of
/// unknown tag, wrong member, invalid number that applies.
pub open spec fn decode_error(pe: libvlc_event_t) -> EventError {
    match EventType::of_raw(pe._type) {
        None => EventError::UnknownType(pe._type),
        Some(t) => if pe.u.member() != t.announced() {
            EventError::WrongMember
        } else {
            match pe.u {
                EventPayload::MediaMetaChanged(m) => EventError::InvalidMeta(m.meta_type),
                EventPayload::MediaStateChanged(s) => EventError::InvalidState(s.new_state),
                _ => EventError::WrongMember,
            }
        },
    }
}

/// The event that a decodable record stands for: the one whose type has
/// the record's tag and whose payload is the record's payload. By
/// [`lemma_event_determined`] there is only one such event.
pub open spec fn decoded(pe: libvlc_event_t) -> Event {
    choose|e: Event| e.kind().raw() == pe._type && e.payload() == pe.u
}

/// Converts a native event record into an [`Event`].
///
/// The record decodes exactly when it is [`decodable`], and then to the
/// event of the tag's type that carries the payload unchanged.
pub fn conv_event(pe: &libvlc_event_t) -> (r: Result<Event, EventError>)
    ensures
        r is Ok <==> decodable(*pe),
        r matches Ok(e) ==> e == decoded(*pe) && e.kind().raw() == pe._type && e.payload()
            == pe.u,
        r matches Err(err) ==> err == decode_error(*pe),
{
    let event_type = match EventType::from_raw(pe._type) {
        Some(t) => t,
        None => {
            return Err(EventError::UnknownType(pe._type));
        },
    };
    if pe.u.which() != event_type.member() {
        return Err(EventError::WrongMember);
    }
    let event = match event_type {
        EventType::MediaMetaChanged => match pe.u {
            EventPayload::MediaMetaChanged(m) => match Meta::from_raw(m.meta_type) {
                Some(meta) => Event::MediaMetaChanged(meta),
                None => {
                    return Err(EventError::InvalidMeta(m.meta_type));
                },
            },
            _ => {
                return Err(EventError::WrongMember);
            },
        },
        EventType::MediaDurationChanged => match pe.u {
            EventPayload::MediaDurationChanged(m) => Event::MediaDurationChanged(m.new_duration),
            _ => {
                return Err(EventError::WrongMember);
            },
        },
        EventType::MediaParsedChanged => match pe.u {
            EventPayload::MediaParsedChanged(m) => Event::MediaParsedChanged(m.new_status),
            _ => {
                return Err(EventError::WrongMember);
            },
        },
        EventType::MediaStateChanged => match pe.u {
            EventPayload::MediaStateChanged(m) => match State::from_raw(m.new_state) {
                Some(state) => Event::MediaStateChanged(state),
                None => {
                    return Err(EventError::InvalidState(m.new_state));
                },
            },
            _ => {
                return Err(EventError::WrongMember);
            },
        },
        EventType::MediaPlayerBuffering => match pe.u {
            EventPayload::MediaPlayerBuffering(m) => Event::MediaPlayerBuffering(m.new_cache),
            _ => {
                return Err(EventError::WrongMember);
            },
        },
        EventType::MediaPlayerPositionChanged => match pe.u {
            EventPayload::MediaPlayerPositionChanged(m) => Event::MediaPlayerPositionChanged(
                m.new_position,
            ),
            _ => {
                return Err(EventError::WrongMember);
            },
        },
        EventType::MediaSubItemAdded => Event::MediaSubItemAdded,
        EventType::MediaFreed => Event::MediaFreed,
        EventType::MediaSubItemTreeAdded => Event::MediaSubItemTreeAdded,
        EventType::MediaPlayerMediaChanged => Event::MediaPlayerMediaChanged,
        EventType::MediaPlayerNothingSpecial => Event::MediaPlayerNothingSpecial,
        EventType::MediaPlayerOpening => Event::MediaPlayerOpening,
        EventType::MediaPlayerPlaying => Event::MediaPlayerPlaying,
        EventType::MediaPlayerPaused => Event::MediaPlayerPaused,
        EventType::MediaPlayerStopped => Event::MediaPlayerStopped,
        EventType::MediaPlayerForward => Event::MediaPlayerForward,
        EventType::MediaPlayerBackward => Event::MediaPlayerBackward,
        EventType::MediaPlayerEndReached => Event::MediaPlayerEndReached,
        EventType::MediaPlayerEncounteredError => Event::MediaPlayerEncounteredError,
        EventType::MediaPlayerTimeChanged => Event::MediaPlayerTimeChanged,
        EventType::MediaPlayerSeekableChanged => Event::MediaPlayerSeekableChanged,
        EventType::MediaPlayerPausableChanged => Event::MediaPlayerPausableChanged,
        EventType::MediaPlayerTitleChanged => Event::MediaPlayerTitleChanged,
        EventType::MediaPlayerSnapshotTaken => Event::MediaPlayerSnapshotTaken,
        EventType::MediaPlayerLengthChanged => Event::MediaPlayerLengthChanged,
        EventType::MediaPlayerVout => Event::MediaPlayerVout,
        EventType::MediaPlayerScrambledChanged => Event::MediaPlayerScrambledChanged,
        EventType::MediaListItemAdded => Event::MediaListItemAdded,
        EventType::MediaListWillAddItem => Event::MediaListWillAddItem,
        EventType::MediaListItemDeleted => Event::MediaListItemDeleted,
        EventType::MediaListWillDeleteItem => Event::MediaListWillDeleteItem,
        EventType::MediaListViewItemAdded => Event::MediaListViewItemAdded,
        EventType::MediaListViewWillAddItem => Event::MediaListViewWillAddItem,
        EventType::MediaListViewItemDeleted => Event::MediaListViewItemDeleted,
        EventType::MediaListViewWillDeleteItem => Event::MediaListViewWillDeleteItem,
        EventType::MediaListPlayerPlayed => Event::MediaListPlayerPlayed,
        EventType::MediaListPlayerNextItemSet => Event::MediaListPlayerNextItemSet,
        EventType::MediaListPlayerStopped => Event::MediaListPlayerStopped,
        EventType::MediaDiscovererStarted => Event::MediaDiscovererStarted,
        EventType::MediaDiscovererEnded => Event::MediaDiscovererEnded,
        EventType::VlmMediaAdded => Event::VlmMediaAdded,
        EventType::VlmMediaRemoved => Event::VlmMediaRemoved,
        EventType::VlmMediaChanged => Event::VlmMediaChanged,
        EventType::VlmMediaInstanceStarted => Event::VlmMediaInstanceStarted,
        EventType::VlmMediaInstanceStopped => Event::VlmMediaInstanceStopped,
        EventType::VlmMediaInstanceStatusInit => Event::VlmMediaInstanceStatusInit,
        EventType::VlmMediaInstanceStatusOpening => Event::VlmMediaInstanceStatusOpening,
        EventType::VlmMediaInstanceStatusPlaying => Event::VlmMediaInstanceStatusPlaying,
        EventType::VlmMediaInstanceStatusPause => Event::VlmMediaInstanceStatusPause,
        EventType::VlmMediaInstanceStatusEnd => Event::VlmMediaInstanceStatusEnd,
        EventType::VlmMediaInstanceStatusError => Event::VlmMediaInstanceStatusError,
    };
    proof {
        lemma_event_determined(event, decoded(*pe));
    }
    Ok(event)
}

/// The source of an object's events.
///
/// A borrowed view: it lives no longer than the object it was taken from,
/// and it releases nothing.
#[derive(Debug)]
pub struct EventManager<'a> {
    ptr: usize,
    _phantomdata: PhantomData<&'a usize>,
}

/// Who answers for the boxed callback after a registration attempt.
#[derive(Clone, Copy, Debug, PartialEq, Eq, Structural)]
pub enum CallbackOwner {
    /// The engine holds the callback's address and may call it at any
    /// time; as it can never be unregistered, it is never freed.
    Engine,
    /// The engine did not take the callback; the caller frees it at once.
    Caller,
}

/// Outcome of a registration attempt.
#[derive(Clone, Copy, Debug, PartialEq, Eq)]
pub struct Attachment {
    /// Success or failure, as the engine reported it.
    pub result: Result<(), ()>,
    /// Who answers for the boxed callback from now on.
    pub owner: CallbackOwner,
}

impl<'a> EventManager<'a> {
    /// The address of the native event manager.
    pub closed spec fn ptr(&self) -> usize {
        self.ptr
    }

    /// Wraps the address of an object's event manager.
    ///
    /// Every object has an event manager, so the address is not null.
    pub fn from_raw(p: usize) -> (r: EventManager<'a>)
        requires
            p != 0,
        ensures
            r.ptr() == p,
    {
        EventManager { ptr: p, _phantomdata: PhantomData }
    }

    /// Returns the address of the native event manager.
    pub fn raw(&self) -> (p: usize)
        ensures
            p == self.ptr(),
    {
        self.ptr
    }

    /// Reads the engine's answer to a registration.
    ///
    /// The engine answers 0 when it took the callback. Any other answer is
    /// a failure, and the callback then stays with the caller.
    pub fn attach(native_result: i32) -> (r: Attachment)
        ensures
            r.result is Ok <==> native_result == 0,
            r.owner == CallbackOwner::Engine <==> native_result == 0,
            r.owner == CallbackOwner::Caller <==> native_result != 0,
    {
        if native_result == 0 {
            Attachment { result: Ok(()), owner: CallbackOwner::Engine }
        } else {
            Attachment { result: Err(()), owner: CallbackOwner::Caller }
        }
    }
}

/// Delivers one native event record to a registered callback.
///
/// The record is decoded as by [`conv_event`]. If it decodes, the callback
/// is called once, with the decoded event and the object that raised it.
/// If it does not, the callback is not called and the error is given back.
pub fn event_manager_callback<F: Fn(Event, VLCObject)>(pe: &libvlc_event_t, f: &F) -> (r: Result<
    (),
    EventError,
>)
    requires
        forall|e: Event, o: VLCObject| f.requires((e, o)),
    ensures
        r is Ok <==> decodable(*pe),
        r matches Err(err) ==> err == decode_error(*pe),
        r is Ok ==> exists|o: VLCObject|
            o@ == pe.p_obj && #[trigger] f.ensures((decoded(*pe), o), ()),
{
    match conv_event(pe) {
        Ok(event) => {
            f(event, VLCObject { ptr: pe.p_obj });
            Ok(())
        },
        Err(err) => Err(err),
    }
}

/// An event is determined by its type and its payload: two events that
/// agree on both are the same event.
pub proof fn lemma_event_determined(a: Event, b: Event)
    requires
        a.kind() == b.kind(),
        a.payload() == b.payload(),
    ensures
        a == b,
{
    match a {
        Event::MediaMetaChanged(x) => {
            Meta::lemma_raw_round_trip(x);
            if let Event::MediaMetaChanged(y) = b {
                Meta::lemma_raw_round_trip(y);
            }
        },
        Event::MediaStateChanged(x) => {
            State::lemma_raw_round_trip(x);
            if let Event::MediaStateChanged(y) = b {
                State::lemma_raw_round_trip(y);
            }
        },
        _ => {},
    }
}

/// Every event is the decoding of its own record: the record made of the
/// event's tag and payload decodes, to that event, whatever object raised
/// it.
pub proof fn lemma_every_event_decodes(e: Event, obj: usize)
    ensures
        decodable(libvlc_event_t { _type: e.kind().raw(), p_obj: obj, u: e.payload() }),
        decoded(libvlc_event_t { _type: e.kind().raw(), p_obj: obj, u: e.payload() }) == e,
{
    let pe = libvlc_event_t { _type: e.kind().raw(), p_obj: obj, u: e.payload() };
    lemma_event_determined(decoded(pe), e);
    EventType::lemma_raw_round_trip(e.kind());
    match e {
        Event::MediaMetaChanged(x) => {
            Meta::lemma_raw_round_trip(x);
        },
        Event::MediaStateChanged(x) => {
            State::lemma_raw_round_trip(x);
        },
        _ => {},
    }
}

/// The event of type `t` built from the payload `u`, where `u` holds the
/// member that `t` announces and is valid.
spec fn event_of(t: EventType, u: EventPayload) -> Event {
    match t {
        EventType::MediaMetaChanged => Event::MediaMetaChanged(
            Meta::of_raw(u->MediaMetaChanged_0.meta_type).unwrap(),
        ),
        EventType::MediaDurationChanged => Event::MediaDurationChanged(
            u->MediaDurationChanged_0.new_duration,
        ),
        EventType::MediaParsedChanged => Event::MediaParsedChanged(
            u->MediaParsedChanged_0.new_status,
        ),
        EventType::MediaStateChanged => Event::MediaStateChanged(
            State::of_raw(u->MediaStateChanged_0.new_state).unwrap(),
        ),
        EventType::MediaPlayerBuffering => Event::MediaPlayerBuffering(
            u->MediaPlayerBuffering_0.new_cache,
        ),
        EventType::MediaPlayerPositionChanged => Event::MediaPlayerPositionChanged(
            u->MediaPlayerPositionChanged_0.new_position,
        ),
        EventType::MediaSubItemAdded => Event::MediaSubItemAdded,
        EventType::MediaFreed => Event::MediaFreed,
        EventType::MediaSubItemTreeAdded => Event::MediaSubItemTreeAdded,
        EventType::MediaPlayerMediaChanged => Event::MediaPlayerMediaChanged,
        EventType::MediaPlayerNothingSpecial => Event::MediaPlayerNothingSpecial,
        EventType::MediaPlayerOpening => Event::MediaPlayerOpening,
        EventType::MediaPlayerPlaying => Event::MediaPlayerPlaying,
        EventType::MediaPlayerPaused => Event::MediaPlayerPaused,
        EventType::MediaPlayerStopped => Event::MediaPlayerStopped,
        EventType::MediaPlayerForward => Event::MediaPlayerForward,
        EventType::MediaPlayerBackward => Event::MediaPlayerBackward,
        EventType::MediaPlayerEndReached => Event::MediaPlayerEndReached,
        EventType::MediaPlayerEncounteredError => Event::MediaPlayerEncounteredError,
        EventType::MediaPlayerTimeChanged => Event::MediaPlayerTimeChanged,
        EventType::MediaPlayerSeekableChanged => Event::MediaPlayerSeekableChanged,
        EventType::MediaPlayerPausableChanged => Event::MediaPlayerPausableChanged,
        EventType::MediaPlayerTitleChanged => Event::MediaPlayerTitleChanged,
        EventType::MediaPlayerSnapshotTaken => Event::MediaPlayerSnapshotTaken,
        EventType::MediaPlayerLengthChanged => Event::MediaPlayerLengthChanged,
        EventType::MediaPlayerVout => Event::MediaPlayerVout,
        EventType::MediaPlayerScrambledChanged => Event::MediaPlayerScrambledChanged,
        EventType::MediaListItemAdded => Event::MediaListItemAdded,
        EventType::MediaListWillAddItem => Event::MediaListWillAddItem,
        EventType::MediaListItemDeleted => Event::MediaListItemDeleted,
        EventType::MediaListWillDeleteItem => Event::MediaListWillDeleteItem,
        EventType::MediaListViewItemAdded => Event::MediaListViewItemAdded,
        EventType::MediaListViewWillAddItem => Event::MediaListViewWillAddItem,
        EventType::MediaListViewItemDeleted => Event::MediaListViewItemDeleted,
        EventType::MediaListViewWillDeleteItem => Event::MediaListViewWillDeleteItem,
        EventType::MediaListPlayerPlayed => Event::MediaListPlayerPlayed,
        EventType::MediaListPlayerNextItemSet => Event::MediaListPlayerNextItemSet,
        EventType::MediaListPlayerStopped => Event::MediaListPlayerStopped,
        EventType::MediaDiscovererStarted => Event::MediaDiscovererStarted,
        EventType::MediaDiscovererEnded => Event::MediaDiscovererEnded,
        EventType::VlmMediaAdded => Event::VlmMediaAdded,
        EventType::VlmMediaRemoved => Event::VlmMediaRemoved,
        EventType::VlmMediaChanged => Event::VlmMediaChanged,
        EventType::VlmMediaInstanceStarted => Event::VlmMediaInstanceStarted,
        EventType::VlmMediaInstanceStopped => Event::VlmMediaInstanceStopped,
        EventType::VlmMediaInstanceStatusInit => Event::VlmMediaInstanceStatusInit,
        EventType::VlmMediaInstanceStatusOpening => Event::VlmMediaInstanceStatusOpening,
        EventType::VlmMediaInstanceStatusPlaying => Event::VlmMediaInstanceStatusPlaying,
        EventType::VlmMediaInstanceStatusPause => Event::VlmMediaInstanceStatusPause,
        EventType::VlmMediaInstanceStatusEnd => Event::VlmMediaInstanceStatusEnd,
        EventType::VlmMediaInstanceStatusError => Event::VlmMediaInstanceStatusError,
    }
}

/// `event_of` gives an event of the asked type with the given payload.
proof fn lemma_event_of(t: EventType, u: EventPayload)
    requires
        u.member() == t.announced(),
        payload_valid(u),
    ensures
        event_of(t, u).kind() == t,
        event_of(t, u).payload() == u,
{
    match u {
        EventPayload::MediaMetaChanged(m) => {
            Meta::lemma_of_raw_sound(m.meta_type);
        },
        EventPayload::MediaStateChanged(m) => {
            State::lemma_of_raw_sound(m.new_state);
        },
        _ => {},
    }
}

/// A decodable record decodes to an event of the record's tag that carries
/// the record's payload, value for value.
pub proof fn lemma_decoded_is_exact(pe: libvlc_event_t)
    requires
        decodable(pe),
    ensures
        EventType::of_raw(pe._type) == Some(decoded(pe).kind()),
        decoded(pe).payload() == pe.u,
        pe.u.member() == decoded(pe).kind().announced(),
{
    let t = EventType::of_raw(pe._type).unwrap();
    EventType::lemma_of_raw_sound(pe._type);
    let witness = event_of(t, pe.u);
    lemma_event_of(t, pe.u);
    assert(witness.kind().raw() == pe._type && witness.payload() == pe.u);
    EventType::lemma_raw_round_trip(decoded(pe).kind());
}

/// The events that are handed over when the records `records` are
/// delivered one after the other: one event for each record that decodes,
/// in order.
pub open spec fn deliveries(records: Seq<libvlc_event_t>) -> Seq<Event>
    decreases records.len(),
{
    if records.len() == 0 {
        Seq::empty()
    } else if decodable(records.last()) {
        deliveries(records.drop_last()).push(decoded(records.last()))
    } else {
        deliveries(records.drop_last())
    }
}

/// For N records that all decode, [`deliveries`] has exactly N events, and
/// its k-th event is the decoding of the k-th record.
///
/// `deliveries` lists what [`event_manager_callback`] hands to the callback
/// when it is run on the records in order. The lemma is about that list; it
/// does not count calls of a callback.
pub proof fn lemma_one_delivery_per_event(records: Seq<libvlc_event_t>)
    requires
        forall|k: int| 0 <= k < records.len() ==> decodable(#[trigger] records[k]),
    ensures
        deliveries(records).len() == records.len(),
        forall|k: int|
            0 <= k < records.len() ==> #[trigger] deliveries(records)[k] == decoded(records[k]),
    decreases records.len(),
{
    if records.len() > 0 {
        let front = records.drop_last();
        lemma_one_delivery_per_event(front);
        assert(decodable(records.last()));
    }
}

/// Records that do not decode add nothing to [`deliveries`]: it holds at
/// most as many events as there are records.
pub proof fn lemma_deliveries_bounded(records: Seq<libvlc_event_t>)
    ensures
        deliveries(records).len() <= records.len(),
    decreases records.len(),
{
    if records.len() > 0 {
        lemma_deliveries_bounded(records.drop_last());
    }
}

/// Decoding looks at the tag and at the announced member only: two records
/// with the same tag and the same payload decode alike, whichever object
/// raised them.
pub proof fn lemma_decoding_ignores_object(a: libvlc_event_t, b: libvlc_event_t)
    requires
        a._type == b._type,
        a.u == b.u,
    ensures
        decodable(a) == decodable(b),
        decode_error(a) == decode_error(b),
{
}

} // verus!
