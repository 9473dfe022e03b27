use vlc::sys::{
    libvlc_audio_track_t, libvlc_media_track_t, libvlc_subtitle_track_t, libvlc_video_track_t,
    TrackMember, TrackPayload,
};
use vlc::{
    AudioTrack, Media, MediaTrack, MediaTrackUnion, SubtitleTrack, TrackError, TrackFault,
    TrackType, VideoTrack,
};

fn record(i_type: i32, u: TrackPayload<'static>) -> libvlc_media_track_t<'static> {
    libvlc_media_track_t {
        i_codec: 0x6134706d,
        i_original_fourcc: 0x6134706e,
        i_id: 3,
        i_type,
        i_profile: -1,
        i_level: 40,
        u,
        i_bitrate: 128000,
        psz_language: Some(&b"en\0"[..]),
        psz_description: None,
    }
}

#[test]
fn no_track_record_means_unknown() {
    assert_eq!(Media::tracks(&[]), Ok(None));
}

#[test]
fn audio_track_is_decoded() {
    let raw = record(
        0,
        TrackPayload::Audio(libvlc_audio_track_t { i_channels: 2, i_rate: 44100 }),
    );
    let expected = MediaTrack {
        codec: 0x6134706d,
        original_fourcc: 0x6134706e,
        id: 3,
        track_type: TrackType::Audio,
        profile: -1,
        level: 40,
        bitrate: 128000,
        language: Some(String::from("en")),
        description: None,
        type_specific_data: MediaTrackUnion::Audio(AudioTrack { channels: 2, rate: 44100 }),
    };
    assert_eq!(MediaTrack::from_raw(&raw), Ok(expected.clone()));
    assert_eq!(Media::tracks(&[raw]), Ok(Some(vec![expected])));
}

#[test]
fn video_track_is_decoded() {
    let raw = record(
        1,
        TrackPayload::Video(libvlc_video_track_t {
            i_height: 1080,
            i_width: 1920,
            i_sar_num: 1,
            i_sar_den: 1,
            i_frame_rate_num: 30000,
            i_frame_rate_den: 1001,
        }),
    );
    let t = MediaTrack::from_raw(&raw).unwrap();
    assert_eq!(t.track_type, TrackType::Video);
    assert_eq!(
        t.type_specific_data,
        MediaTrackUnion::Video(VideoTrack {
            height: 1080,
            width: 1920,
            sar_num: 1,
            sar_den: 1,
            frame_rate_num: 30000,
            frame_rate_den: 1001,
        })
    );
}

#[test]
fn subtitle_track_is_decoded() {
    let raw = record(
        2,
        TrackPayload::Subtitle(libvlc_subtitle_track_t { psz_encoding: Some(&b"UTF-8\0"[..]) }),
    );
    let t = MediaTrack::from_raw(&raw).unwrap();
    assert_eq!(t.track_type, TrackType::Text);
    assert_eq!(
        t.type_specific_data,
        MediaTrackUnion::Subtitle(SubtitleTrack { encoding: Some(String::from("UTF-8")) })
    );
    let raw = record(2, TrackPayload::Subtitle(libvlc_subtitle_track_t { psz_encoding: None }));
    assert_eq!(
        MediaTrack::from_raw(&raw).unwrap().type_specific_data,
        MediaTrackUnion::Subtitle(SubtitleTrack { encoding: None })
    );
}

#[test]
fn track_of_unknown_type_has_nothing_more() {
    let raw = record(-1, TrackPayload::Unread);
    let t = MediaTrack::from_raw(&raw).unwrap();
    assert_eq!(t.track_type, TrackType::Unknown);
    assert_eq!(t.type_specific_data, MediaTrackUnion::Nothing);
}

#[test]
fn type_number_that_names_no_type_is_a_fault() {
    let raw = record(3, TrackPayload::Unread);
    assert_eq!(MediaTrack::from_raw(&raw), Err(TrackFault::UnknownType(3)));
    let raw = record(-2, TrackPayload::Unread);
    assert_eq!(MediaTrack::from_raw(&raw), Err(TrackFault::UnknownType(-2)));
}

#[test]
fn member_of_another_type_is_a_fault() {
    let audio = TrackPayload::Audio(libvlc_audio_track_t { i_channels: 2, i_rate: 48000 });
    assert_eq!(MediaTrack::from_raw(&record(1, audio)), Err(TrackFault::WrongMember));
    assert_eq!(MediaTrack::from_raw(&record(-1, audio)), Err(TrackFault::WrongMember));
    assert_eq!(
        MediaTrack::from_raw(&record(0, TrackPayload::Unread)),
        Err(TrackFault::WrongMember)
    );
}

#[test]
fn first_faulty_record_is_reported_with_its_index() {
    let good = record(
        0,
        TrackPayload::Audio(libvlc_audio_track_t { i_channels: 1, i_rate: 8000 }),
    );
    let bad_type = record(9, TrackPayload::Unread);
    let bad_member = record(1, TrackPayload::Unread);
    assert_eq!(
        Media::tracks(&[good, good, bad_type, bad_member]),
        Err(TrackError { index: 2, fault: TrackFault::UnknownType(9) })
    );
    assert_eq!(
        Media::tracks(&[bad_member, bad_type]),
        Err(TrackError { index: 0, fault: TrackFault::WrongMember })
    );
}

#[test]
fn tracks_keep_the_order_of_the_records() {
    let mut raws = Vec::new();
    for id in 0..6 {
        let mut r = record(-1, TrackPayload::Unread);
        r.i_id = id;
        raws.push(r);
    }
    let tracks = Media::tracks(&raws).unwrap().unwrap();
    assert_eq!(tracks.len(), 6);
    for id in 0..6 {
        assert_eq!(tracks[id as usize].id, id);
    }
}

#[test]
fn member_announced_by_each_track_type() {
    assert_eq!(TrackType::Unknown.member(), TrackMember::Unread);
    assert_eq!(TrackType::Audio.member(), TrackMember::Audio);
    assert_eq!(TrackType::Video.member(), TrackMember::Video);
    assert_eq!(TrackType::Text.member(), TrackMember::Subtitle);
}
