use vlc::{LogLevel, Meta, Position, State, TrackType, VideoAdjustOption};

#[test]
fn log_levels_have_their_native_numbers() {
    assert_eq!(LogLevel::Debug.to_raw(), 0);
    assert_eq!(LogLevel::Dotice.to_raw(), 2);
    assert_eq!(LogLevel::Warning.to_raw(), 3);
    assert_eq!(LogLevel::Error.to_raw(), 4);
    assert_eq!(LogLevel::from_raw(1), None);
    assert_eq!(LogLevel::from_raw(5), None);
}

#[test]
fn meta_entries_are_numbered_in_order() {
    assert_eq!(Meta::Title.to_raw(), 0);
    assert_eq!(Meta::URL.to_raw(), 10);
    assert_eq!(Meta::Actors.to_raw(), 22);
    assert_eq!(Meta::from_raw(-1), None);
    assert_eq!(Meta::from_raw(23), None);
}

#[test]
fn track_types_start_at_minus_one() {
    assert_eq!(TrackType::Unknown.to_raw(), -1);
    assert_eq!(TrackType::Audio.to_raw(), 0);
    assert_eq!(TrackType::Video.to_raw(), 1);
    assert_eq!(TrackType::Text.to_raw(), 2);
    assert_eq!(TrackType::from_raw(3), None);
}

#[test]
fn positions_start_at_minus_one() {
    assert_eq!(Position::Disable.to_raw(), -1);
    assert_eq!(Position::Center.to_raw(), 0);
    assert_eq!(Position::BottomRight.to_raw(), 8);
    assert_eq!(Position::from_raw(9), None);
}

#[test]
fn adjust_options_are_numbered_in_order() {
    assert_eq!(VideoAdjustOption::Enable.to_raw(), 0);
    assert_eq!(VideoAdjustOption::Gamma.to_raw(), 5);
    assert_eq!(VideoAdjustOption::from_raw(6), None);
}

#[test]
fn every_number_round_trips_or_is_refused() {
    let mut counts = [0usize; 6];
    for x in -40i32..40 {
        if let Some(v) = LogLevel::from_raw(x) {
            assert_eq!(v.to_raw(), x);
            counts[0] += 1;
        }
        if let Some(v) = Meta::from_raw(x) {
            assert_eq!(v.to_raw(), x);
            counts[1] += 1;
        }
        if let Some(v) = State::from_raw(x) {
            assert_eq!(v.to_raw(), x);
            counts[2] += 1;
        }
        if let Some(v) = TrackType::from_raw(x) {
            assert_eq!(v.to_raw(), x);
            counts[3] += 1;
        }
        if let Some(v) = Position::from_raw(x) {
            assert_eq!(v.to_raw(), x);
            counts[4] += 1;
        }
        if x >= 0 {
            if let Some(v) = VideoAdjustOption::from_raw(x as u32) {
                assert_eq!(v.to_raw(), x as u32);
                counts[5] += 1;
            }
        }
    }
    assert_eq!(counts, [4, 23, 8, 4, 10, 6]);
}
