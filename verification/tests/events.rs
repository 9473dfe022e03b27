use std::cell::{Cell, RefCell};

use vlc::sys::{
    libvlc_event_t, media_duration_changed, media_meta_changed, media_parsed_changed,
    media_player_buffering, media_player_position_changed, media_state_changed, EventMember,
    EventPayload,
};
use vlc::{
    conv_event, event_manager_callback, Attachment, CallbackOwner, Event, EventError,
    EventManager, EventType, Meta, State, VLCObject,
};

fn bare(tag: i32) -> libvlc_event_t {
    libvlc_event_t { _type: tag, p_obj: 0x10, u: EventPayload::Unread }
}

fn payload_for(t: EventType) -> EventPayload {
    match t.member() {
        EventMember::Unread => EventPayload::Unread,
        EventMember::MediaMetaChanged => {
            EventPayload::MediaMetaChanged(media_meta_changed { meta_type: 4 })
        }
        EventMember::MediaDurationChanged => {
            EventPayload::MediaDurationChanged(media_duration_changed { new_duration: 1234 })
        }
        EventMember::MediaParsedChanged => {
            EventPayload::MediaParsedChanged(media_parsed_changed { new_status: 1 })
        }
        EventMember::MediaStateChanged => {
            EventPayload::MediaStateChanged(media_state_changed { new_state: 3 })
        }
        EventMember::MediaPlayerBuffering => {
            EventPayload::MediaPlayerBuffering(media_player_buffering { new_cache: 7 })
        }
        EventMember::MediaPlayerPositionChanged => EventPayload::MediaPlayerPositionChanged(
            media_player_position_changed { new_position: 9 },
        ),
    }
}

#[test]
fn every_supported_tag_decodes_to_its_own_variant() {
    let mut supported = 0;
    for tag in -16..0x800 {
        match EventType::from_raw(tag) {
            None => {
                assert_eq!(conv_event(&bare(tag)), Err(EventError::UnknownType(tag)));
            }
            Some(t) => {
                supported += 1;
                assert_eq!(t.to_raw(), tag);
                let pe = libvlc_event_t { _type: tag, p_obj: 1, u: payload_for(t) };
                let e = conv_event(&pe).unwrap();
                assert_eq!(e.event_type(), t);
                assert_eq!(format!("{:?}", t), format!("{:?}", e).split('(').next().unwrap());
            }
        }
    }
    assert_eq!(supported, 51);
}

#[test]
fn tags_have_their_native_numbers() {
    assert_eq!(EventType::MediaMetaChanged.to_raw(), 0);
    assert_eq!(EventType::MediaSubItemTreeAdded.to_raw(), 6);
    assert_eq!(EventType::MediaPlayerMediaChanged.to_raw(), 0x100);
    assert_eq!(EventType::MediaPlayerScrambledChanged.to_raw(), 0x100 + 19);
    assert_eq!(EventType::MediaListItemAdded.to_raw(), 0x200);
    assert_eq!(EventType::MediaListViewItemAdded.to_raw(), 0x300);
    assert_eq!(EventType::MediaListPlayerPlayed.to_raw(), 0x400);
    assert_eq!(EventType::MediaDiscovererStarted.to_raw(), 0x500);
    assert_eq!(EventType::VlmMediaAdded.to_raw(), 0x600);
    assert_eq!(EventType::VlmMediaInstanceStatusError.to_raw(), 0x600 + 10);
}

#[test]
fn meta_changed_carries_the_meta_entry() {
    let pe = libvlc_event_t {
        _type: 0,
        p_obj: 1,
        u: EventPayload::MediaMetaChanged(media_meta_changed { meta_type: 1 }),
    };
    assert_eq!(conv_event(&pe), Ok(Event::MediaMetaChanged(Meta::Artist)));
}

#[test]
fn duration_is_copied_at_full_width() {
    for d in [0i64, -1, 1, i64::MAX, i64::MIN, 0x1_0000_0001] {
        let pe = libvlc_event_t {
            _type: 2,
            p_obj: 1,
            u: EventPayload::MediaDurationChanged(media_duration_changed { new_duration: d }),
        };
        assert_eq!(conv_event(&pe), Ok(Event::MediaDurationChanged(d)));
    }
}

#[test]
fn parsed_status_is_copied() {
    let pe = libvlc_event_t {
        _type: 3,
        p_obj: 1,
        u: EventPayload::MediaParsedChanged(media_parsed_changed { new_status: -7 }),
    };
    assert_eq!(conv_event(&pe), Ok(Event::MediaParsedChanged(-7)));
}

#[test]
fn state_changed_carries_the_state() {
    let pe = libvlc_event_t {
        _type: 5,
        p_obj: 1,
        u: EventPayload::MediaStateChanged(media_state_changed { new_state: 6 }),
    };
    assert_eq!(conv_event(&pe), Ok(Event::MediaStateChanged(State::Ended)));
}

#[test]
fn single_precision_payloads_keep_every_bit() {
    let cache = 12.5f32;
    let pe = libvlc_event_t {
        _type: 0x103,
        p_obj: 1,
        u: EventPayload::MediaPlayerBuffering(media_player_buffering {
            new_cache: cache.to_bits(),
        }),
    };
    match conv_event(&pe) {
        Ok(Event::MediaPlayerBuffering(bits)) => assert_eq!(f32::from_bits(bits), 12.5f32),
        other => panic!("unexpected {:?}", other),
    }
    let nan_bits = 0x7fc0_1234u32;
    let pe = libvlc_event_t {
        _type: 0x10c,
        p_obj: 1,
        u: EventPayload::MediaPlayerPositionChanged(media_player_position_changed {
            new_position: nan_bits,
        }),
    };
    assert_eq!(conv_event(&pe), Ok(Event::MediaPlayerPositionChanged(nan_bits)));
}

#[test]
fn unknown_tag_is_an_error() {
    assert_eq!(conv_event(&bare(7)), Err(EventError::UnknownType(7)));
    assert_eq!(conv_event(&bare(-1)), Err(EventError::UnknownType(-1)));
    assert_eq!(conv_event(&bare(0x114)), Err(EventError::UnknownType(0x114)));
    assert_eq!(conv_event(&bare(i32::MAX)), Err(EventError::UnknownType(i32::MAX)));
}

#[test]
fn member_of_another_tag_is_an_error() {
    let pe = libvlc_event_t {
        _type: 2,
        p_obj: 1,
        u: EventPayload::MediaParsedChanged(media_parsed_changed { new_status: 1 }),
    };
    assert_eq!(conv_event(&pe), Err(EventError::WrongMember));
    assert_eq!(conv_event(&bare(2)), Err(EventError::WrongMember));
    let pe = libvlc_event_t {
        _type: 4,
        p_obj: 1,
        u: EventPayload::MediaDurationChanged(media_duration_changed { new_duration: 1 }),
    };
    assert_eq!(conv_event(&pe), Err(EventError::WrongMember));
}

#[test]
fn number_that_names_no_variant_is_an_error() {
    let pe = libvlc_event_t {
        _type: 0,
        p_obj: 1,
        u: EventPayload::MediaMetaChanged(media_meta_changed { meta_type: 23 }),
    };
    assert_eq!(conv_event(&pe), Err(EventError::InvalidMeta(23)));
    let pe = libvlc_event_t {
        _type: 5,
        p_obj: 1,
        u: EventPayload::MediaStateChanged(media_state_changed { new_state: -1 }),
    };
    assert_eq!(conv_event(&pe), Err(EventError::InvalidState(-1)));
}

#[test]
fn member_announced_by_each_tag() {
    assert_eq!(EventType::MediaMetaChanged.member(), EventMember::MediaMetaChanged);
    assert_eq!(EventType::MediaDurationChanged.member(), EventMember::MediaDurationChanged);
    assert_eq!(EventType::MediaParsedChanged.member(), EventMember::MediaParsedChanged);
    assert_eq!(EventType::MediaStateChanged.member(), EventMember::MediaStateChanged);
    assert_eq!(EventType::MediaPlayerBuffering.member(), EventMember::MediaPlayerBuffering);
    assert_eq!(
        EventType::MediaPlayerPositionChanged.member(),
        EventMember::MediaPlayerPositionChanged
    );
    assert_eq!(EventType::MediaFreed.member(), EventMember::Unread);
    assert_eq!(EventType::MediaPlayerTimeChanged.member(), EventMember::Unread);
    assert_eq!(EventType::VlmMediaAdded.member(), EventMember::Unread);
    assert_eq!(EventPayload::Unread.which(), EventMember::Unread);
    assert_eq!(
        EventPayload::MediaStateChanged(media_state_changed { new_state: 0 }).which(),
        EventMember::MediaStateChanged
    );
}

#[test]
fn callback_runs_once_per_delivered_event() {
    let calls = Cell::new(0usize);
    let seen: RefCell<Vec<(Event, usize)>> = RefCell::new(Vec::new());
    let callback = |e: Event, o: VLCObject| {
        calls.set(calls.get() + 1);
        seen.borrow_mut().push((e, o.raw()));
    };
    let n = 25usize;
    for k in 0..n {
        let pe = libvlc_event_t {
            _type: 2,
            p_obj: 0x100 + k,
            u: EventPayload::MediaDurationChanged(media_duration_changed {
                new_duration: 1000 * k as i64,
            }),
        };
        assert_eq!(event_manager_callback(&pe, &callback), Ok(()));
    }
    assert_eq!(calls.get(), n);
    let seen = seen.into_inner();
    for k in 0..n {
        assert_eq!(seen[k], (Event::MediaDurationChanged(1000 * k as i64), 0x100 + k));
    }
}

#[test]
fn callback_is_not_run_for_a_record_that_does_not_decode() {
    let calls = Cell::new(0usize);
    let callback = |_: Event, _: VLCObject| calls.set(calls.get() + 1);
    assert_eq!(
        event_manager_callback(&bare(0x7000), &callback),
        Err(EventError::UnknownType(0x7000))
    );
    assert_eq!(event_manager_callback(&bare(5), &callback), Err(EventError::WrongMember));
    assert_eq!(calls.get(), 0);
    assert_eq!(event_manager_callback(&bare(4), &callback), Ok(()));
    assert_eq!(calls.get(), 1);
}

#[test]
fn callbacks_of_two_categories_are_independent() {
    let state_calls = Cell::new(0usize);
    let freed_calls = Cell::new(0usize);
    let on_state = |e: Event, _: VLCObject| {
        if let Event::MediaStateChanged(_) = e {
            state_calls.set(state_calls.get() + 1);
        }
    };
    let on_freed = |e: Event, _: VLCObject| {
        if let Event::MediaFreed = e {
            freed_calls.set(freed_calls.get() + 1);
        }
    };
    for s in 0..8 {
        let pe = libvlc_event_t {
            _type: 5,
            p_obj: 1,
            u: EventPayload::MediaStateChanged(media_state_changed { new_state: s }),
        };
        assert!(event_manager_callback(&pe, &on_state).is_ok());
    }
    for _ in 0..3 {
        assert!(event_manager_callback(&bare(4), &on_freed).is_ok());
    }
    assert_eq!(state_calls.get(), 8);
    assert_eq!(freed_calls.get(), 3);
}

#[test]
fn registration_follows_the_native_answer() {
    assert_eq!(
        EventManager::attach(0),
        Attachment { result: Ok(()), owner: CallbackOwner::Engine }
    );
    assert_eq!(
        EventManager::attach(-1),
        Attachment { result: Err(()), owner: CallbackOwner::Caller }
    );
    assert_eq!(
        EventManager::attach(12),
        Attachment { result: Err(()), owner: CallbackOwner::Caller }
    );
}

#[test]
fn object_reference_keeps_its_address() {
    assert_eq!(VLCObject::from_raw(0xabc).raw(), 0xabc);
    assert_eq!(EventManager::from_raw(0x77).raw(), 0x77);
}
