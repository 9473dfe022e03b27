//! The enumerations of the native interface and their numbers.
//!
//! Each type pairs a closed set of variants with the integer that the native
//! side uses for it. `to_raw` gives that integer; `from_raw` recognises it and
//! answers `None` for every other integer, so an unexpected number can never
//! turn into a variant.

use vstd::prelude::*;

verus! {

/// Severity of a log message.
#[derive(Clone, Copy, PartialEq, Eq, Hash, Debug, Structural)]
pub enum LogLevel {
    Debug,
    Dotice,
    Warning,
    Error,
}

impl LogLevel {
    /// The native number of this variant.
    pub open spec fn raw(self) -> i32 {
        match self {
            LogLevel::Debug => 0i32,
            LogLevel::Dotice => 2i32,
            LogLevel::Warning => 3i32,
            LogLevel::Error => 4i32,
        }
    }

    /// The variant with native number `x`, if there is one.
    pub open spec fn of_raw(x: i32) -> Option<LogLevel> {
        if x == 0i32 {
            Some(LogLevel::Debug)
        } else if x == 2i32 {
            Some(LogLevel::Dotice)
        } else if x == 3i32 {
            Some(LogLevel::Warning)
        } else if x == 4i32 {
            Some(LogLevel::Error)
        } else {
            None
        }
    }

    /// Returns the native number of this variant.
    pub fn to_raw(self) -> (x: i32)
        ensures
            x == self.raw(),
    {
        match self {
            LogLevel::Debug => 0,
            LogLevel::Dotice => 2,
            LogLevel::Warning => 3,
            LogLevel::Error => 4,
        }
    }

    /// Recognises a native number.
    ///
    /// Answers `Some` exactly for the numbers of the variants above.
    pub fn from_raw(x: i32) -> (r: Option<LogLevel>)
        ensures
            r == LogLevel::of_raw(x),
            r matches Some(v) ==> v.raw() == x,
            r is None ==> forall|v: LogLevel| v.raw() != x,
    {
        match x {
            0 => Some(LogLevel::Debug),
            2 => Some(LogLevel::Dotice),
            3 => Some(LogLevel::Warning),
            4 => Some(LogLevel::Error),
            _ => None,
        }
    }

    /// Every variant is recognised from its own number, and no two variants
    /// share a number.
    pub proof fn lemma_raw_round_trip(v: LogLevel)
        ensures
            LogLevel::of_raw(v.raw()) == Some(v),
    {
    }

    /// A recognised number is the number of the variant it was recognised as.
    pub proof fn lemma_of_raw_sound(x: i32)
        ensures
            LogLevel::of_raw(x) matches Some(v) ==> v.raw() == x,
            LogLevel::of_raw(x) is None ==> forall|v: LogLevel| v.raw() != x,
    {
    }
}

/// Kind of a media meta-information entry.
#[derive(Clone, Copy, PartialEq, Eq, Hash, Debug, Structural)]
pub enum Meta {
    Title,
    Artist,
    Genre,
    Copyright,
    Album,
    TrackNumber,
    Description,
    Rating,
    Date,
    Setting,
    URL,
    Language,
    NowPlaying,
    Publisher,
    EncodedBy,
    ArtworkURL,
    TrackID,
    TrackTotal,
    Director,
    Season,
    Episode,
    ShowName,
    Actors,
}

impl Meta {
    /// The native number of this variant.
    pub open spec fn raw(self) -> i32 {
        match self {
            Meta::Title => 0i32,
            Meta::Artist => 1i32,
            Meta::Genre => 2i32,
            Meta::Copyright => 3i32,
            Meta::Album => 4i32,
            Meta::TrackNumber => 5i32,
            Meta::Description => 6i32,
            Meta::Rating => 7i32,
            Meta::Date => 8i32,
            Meta::Setting => 9i32,
            Meta::URL => 10i32,
            Meta::Language => 11i32,
            Meta::NowPlaying => 12i32,
            Meta::Publisher => 13i32,
            Meta::EncodedBy => 14i32,
            Meta::ArtworkURL => 15i32,
            Meta::TrackID => 16i32,
            Meta::TrackTotal => 17i32,
            Meta::Director => 18i32,
            Meta::Season => 19i32,
            Meta::Episode => 20i32,
            Meta::ShowName => 21i32,
            Meta::Actors => 22i32,
        }
    }

    /// The variant with native number `x`, if there is one.
    pub open spec fn of_raw(x: i32) -> Option<Meta> {
        if x == 0i32 {
            Some(Meta::Title)
        } else if x == 1i32 {
            Some(Meta::Artist)
        } else if x == 2i32 {
            Some(Meta::Genre)
        } else if x == 3i32 {
            Some(Meta::Copyright)
        } else if x == 4i32 {
            Some(Meta::Album)
        } else if x == 5i32 {
            Some(Meta::TrackNumber)
        } else if x == 6i32 {
            Some(Meta::Description)
        } else if x == 7i32 {
            Some(Meta::Rating)
        } else if x == 8i32 {
            Some(Meta::Date)
        } else if x == 9i32 {
            Some(Meta::Setting)
        } else if x == 10i32 {
            Some(Meta::URL)
        } else if x == 11i32 {
            Some(Meta::Language)
        } else if x == 12i32 {
            Some(Meta::NowPlaying)
        } else if x == 13i32 {
            Some(Meta::Publisher)
        } else if x == 14i32 {
            Some(Meta::EncodedBy)
        } else if x == 15i32 {
            Some(Meta::ArtworkURL)
        } else if x == 16i32 {
            Some(Meta::TrackID)
        } else if x == 17i32 {
            Some(Meta::TrackTotal)
        } else if x == 18i32 {
            Some(Meta::Director)
        } else if x == 19i32 {
            Some(Meta::Season)
        } else if x == 20i32 {
            Some(Meta::Episode)
        } else if x == 21i32 {
            Some(Meta::ShowName)
        } else if x == 22i32 {
            Some(Meta::Actors)
        } else {
            None
        }
    }

    /// Returns the native number of this variant.
    pub fn to_raw(self) -> (x: i32)
        ensures
            x == self.raw(),
    {
        match self {
            Meta::Title => 0,
            Meta::Artist => 1,
            Meta::Genre => 2,
            Meta::Copyright => 3,
            Meta::Album => 4,
            Meta::TrackNumber => 5,
            Meta::Description => 6,
            Meta::Rating => 7,
            Meta::Date => 8,
            Meta::Setting => 9,
            Meta::URL => 10,
            Meta::Language => 11,
            Meta::NowPlaying => 12,
            Meta::Publisher => 13,
            Meta::EncodedBy => 14,
            Meta::ArtworkURL => 15,
            Meta::TrackID => 16,
            Meta::TrackTotal => 17,
            Meta::Director => 18,
            Meta::Season => 19,
            Meta::Episode => 20,
            Meta::ShowName => 21,
            Meta::Actors => 22,
        }
    }

    /// Recognises a native number.
    ///
    /// Answers `Some` exactly for the numbers of the variants above.
    pub fn from_raw(x: i32) -> (r: Option<Meta>)
        ensures
            r == Meta::of_raw(x),
            r matches Some(v) ==> v.raw() == x,
            r is None ==> forall|v: Meta| v.raw() != x,
    {
        match x {
            0 => Some(Meta::Title),
            1 => Some(Meta::Artist),
            2 => Some(Meta::Genre),
            3 => Some(Meta::Copyright),
            4 => Some(Meta::Album),
            5 => Some(Meta::TrackNumber),
            6 => Some(Meta::Description),
            7 => Some(Meta::Rating),
            8 => Some(Meta::Date),
            9 => Some(Meta::Setting),
            10 => Some(Meta::URL),
            11 => Some(Meta::Language),
            12 => Some(Meta::NowPlaying),
            13 => Some(Meta::Publisher),
            14 => Some(Meta::EncodedBy),
            15 => Some(Meta::ArtworkURL),
            16 => Some(Meta::TrackID),
            17 => Some(Meta::TrackTotal),
            18 => Some(Meta::Director),
            19 => Some(Meta::Season),
            20 => Some(Meta::Episode),
            21 => Some(Meta::ShowName),
            22 => Some(Meta::Actors),
            _ => None,
        }
    }

    /// Every variant is recognised from its own number, and no two variants
    /// share a number.
    pub proof fn lemma_raw_round_trip(v: Meta)
        ensures
            Meta::of_raw(v.raw()) == Some(v),
    {
    }

    /// A recognised number is the number of the variant it was recognised as.
    pub proof fn lemma_of_raw_sound(x: i32)
        ensures
            Meta::of_raw(x) matches Some(v) ==> v.raw() == x,
            Meta::of_raw(x) is None ==> forall|v: Meta| v.raw() != x,
    {
    }
}

/// Playback state of a media or a player.
#[derive(Clone, Copy, PartialEq, Eq, Hash, Debug, Structural)]
pub enum State {
    NothingSpecial,
    Opening,
    Buffering,
    Playing,
    Paused,
    Stopped,
    Ended,
    Error,
}

impl State {
    /// The native number of this variant.
    pub open spec fn raw(self) -> i32 {
        match self {
            State::NothingSpecial => 0i32,
            State::Opening => 1i32,
            State::Buffering => 2i32,
            State::Playing => 3i32,
            State::Paused => 4i32,
            State::Stopped => 5i32,
            State::Ended => 6i32,
            State::Error => 7i32,
        }
    }

    /// The variant with native number `x`, if there is one.
    pub open spec fn of_raw(x: i32) -> Option<State> {
        if x == 0i32 {
            Some(State::NothingSpecial)
        } else if x == 1i32 {
            Some(State::Opening)
        } else if x == 2i32 {
            Some(State::Buffering)
        } else if x == 3i32 {
            Some(State::Playing)
        } else if x == 4i32 {
            Some(State::Paused)
        } else if x == 5i32 {
            Some(State::Stopped)
        } else if x == 6i32 {
            Some(State::Ended)
        } else if x == 7i32 {
            Some(State::Error)
        } else {
            None
        }
    }

    /// Returns the native number of this variant.
    pub fn to_raw(self) -> (x: i32)
        ensures
            x == self.raw(),
    {
        match self {
            State::NothingSpecial => 0,
            State::Opening => 1,
            State::Buffering => 2,
            State::Playing => 3,
            State::Paused => 4,
            State::Stopped => 5,
            State::Ended => 6,
            State::Error => 7,
        }
    }

    /// Recognises a native number.
    ///
    /// Answers `Some` exactly for the numbers of the variants above.
    pub fn from_raw(x: i32) -> (r: Option<State>)
        ensures
            r == State::of_raw(x),
            r matches Some(v) ==> v.raw() == x,
            r is None ==> forall|v: State| v.raw() != x,
    {
        match x {
            0 => Some(State::NothingSpecial),
            1 => Some(State::Opening),
            2 => Some(State::Buffering),
            3 => Some(State::Playing),
            4 => Some(State::Paused),
            5 => Some(State::Stopped),
            6 => Some(State::Ended),
            7 => Some(State::Error),
            _ => None,
        }
    }

    /// Every variant is recognised from its own number, and no two variants
    /// share a number.
    pub proof fn lemma_raw_round_trip(v: State)
        ensures
            State::of_raw(v.raw()) == Some(v),
    {
    }

    /// A recognised number is the number of the variant it was recognised as.
    pub proof fn lemma_of_raw_sound(x: i32)
        ensures
            State::of_raw(x) matches Some(v) ==> v.raw() == x,
            State::of_raw(x) is None ==> forall|v: State| v.raw() != x,
    {
    }
}

/// Kind of an elementary stream.
#[derive(Clone, Copy, PartialEq, Eq, Hash, Debug, Structural)]
pub enum TrackType {
    Unknown,
    Audio,
    Video,
    Text,
}

impl TrackType {
    /// The native number of this variant.
    pub open spec fn raw(self) -> i32 {
        match self {
            TrackType::Unknown => -1i32,
            TrackType::Audio => 0i32,
            TrackType::Video => 1i32,
            TrackType::Text => 2i32,
        }
    }

    /// The variant with native number `x`, if there is one.
    pub open spec fn of_raw(x: i32) -> Option<TrackType> {
        if x == -1i32 {
            Some(TrackType::Unknown)
        } else if x == 0i32 {
            Some(TrackType::Audio)
        } else if x == 1i32 {
            Some(TrackType::Video)
        } else if x == 2i32 {
            Some(TrackType::Text)
        } else {
            None
        }
    }

    /// Returns the native number of this variant.
    pub fn to_raw(self) -> (x: i32)
        ensures
            x == self.raw(),
    {
        match self {
            TrackType::Unknown => -1,
            TrackType::Audio => 0,
            TrackType::Video => 1,
            TrackType::Text => 2,
        }
    }

    /// Recognises a native number.
    ///
    /// Answers `Some` exactly for the numbers of the variants above.
    pub fn from_raw(x: i32) -> (r: Option<TrackType>)
        ensures
            r == TrackType::of_raw(x),
            r matches Some(v) ==> v.raw() == x,
            r is None ==> forall|v: TrackType| v.raw() != x,
    {
        match x {
            -1 => Some(TrackType::Unknown),
            0 => Some(TrackType::Audio),
            1 => Some(TrackType::Video),
            2 => Some(TrackType::Text),
            _ => None,
        }
    }

    /// Every variant is recognised from its own number, and no two variants
    /// share a number.
    pub proof fn lemma_raw_round_trip(v: TrackType)
        ensures
            TrackType::of_raw(v.raw()) == Some(v),
    {
    }

    /// A recognised number is the number of the variant it was recognised as.
    pub proof fn lemma_of_raw_sound(x: i32)
        ensures
            TrackType::of_raw(x) matches Some(v) ==> v.raw() == x,
            TrackType::of_raw(x) is None ==> forall|v: TrackType| v.raw() != x,
    {
    }
}

/// Where the video title is drawn.
#[derive(Clone, Copy, PartialEq, Eq, Hash, Debug, Structural)]
pub enum Position {
    Disable,
    Center,
    Left,
    Right,
    Top,
    TopLeft,
    TopRight,
    Bottom,
    BottomLeft,
    BottomRight,
}

impl Position {
    /// The native number of this variant.
    pub open spec fn raw(self) -> i32 {
        match self {
            Position::Disable => -1i32,
            Position::Center => 0i32,
            Position::Left => 1i32,
            Position::Right => 2i32,
            Position::Top => 3i32,
            Position::TopLeft => 4i32,
            Position::TopRight => 5i32,
            Position::Bottom => 6i32,
            Position::BottomLeft => 7i32,
            Position::BottomRight => 8i32,
        }
    }

    /// The variant with native number `x`, if there is one.
    pub open spec fn of_raw(x: i32) -> Option<Position> {
        if x == -1i32 {
            Some(Position::Disable)
        } else if x == 0i32 {
            Some(Position::Center)
        } else if x == 1i32 {
            Some(Position::Left)
        } else if x == 2i32 {
            Some(Position::Right)
        } else if x == 3i32 {
            Some(Position::Top)
        } else if x == 4i32 {
            Some(Position::TopLeft)
        } else if x == 5i32 {
            Some(Position::TopRight)
        } else if x == 6i32 {
            Some(Position::Bottom)
        } else if x == 7i32 {
            Some(Position::BottomLeft)
        } else if x == 8i32 {
            Some(Position::BottomRight)
        } else {
            None
        }
    }

    /// Returns the native number of this variant.
    pub fn to_raw(self) -> (x: i32)
        ensures
            x == self.raw(),
    {
        match self {
            Position::Disable => -1,
            Position::Center => 0,
            Position::Left => 1,
            Position::Right => 2,
            Position::Top => 3,
            Position::TopLeft => 4,
            Position::TopRight => 5,
            Position::Bottom => 6,
            Position::BottomLeft => 7,
            Position::BottomRight => 8,
        }
    }

    /// Recognises a native number.
    ///
    /// Answers `Some` exactly for the numbers of the variants above.
    pub fn from_raw(x: i32) -> (r: Option<Position>)
        ensures
            r == Position::of_raw(x),
            r matches Some(v) ==> v.raw() == x,
            r is None ==> forall|v: Position| v.raw() != x,
    {
        match x {
            -1 => Some(Position::Disable),
            0 => Some(Position::Center),
            1 => Some(Position::Left),
            2 => Some(Position::Right),
            3 => Some(Position::Top),
            4 => Some(Position::TopLeft),
            5 => Some(Position::TopRight),
            6 => Some(Position::Bottom),
            7 => Some(Position::BottomLeft),
            8 => Some(Position::BottomRight),
            _ => None,
        }
    }

    /// Every variant is recognised from its own number, and no two variants
    /// share a number.
    pub proof fn lemma_raw_round_trip(v: Position)
        ensures
            Position::of_raw(v.raw()) == Some(v),
    {
    }

    /// A recognised number is the number of the variant it was recognised as.
    pub proof fn lemma_of_raw_sound(x: i32)
        ensures
            Position::of_raw(x) matches Some(v) ==> v.raw() == x,
            Position::of_raw(x) is None ==> forall|v: Position| v.raw() != x,
    {
    }
}

/// Option of the video adjust filter.
#[derive(Clone, Copy, PartialEq, Eq, Hash, Debug, Structural)]
pub enum VideoAdjustOption {
    Enable,
    Contrast,
    Brightness,
    Hue,
    Saturation,
    Gamma,
}

impl VideoAdjustOption {
    /// The native number of this variant.
    pub open spec fn raw(self) -> u32 {
        match self {
            VideoAdjustOption::Enable => 0u32,
            VideoAdjustOption::Contrast => 1u32,
            VideoAdjustOption::Brightness => 2u32,
            VideoAdjustOption::Hue => 3u32,
            VideoAdjustOption::Saturation => 4u32,
            VideoAdjustOption::Gamma => 5u32,
        }
    }

    /// The variant with native number `x`, if there is one.
    pub open spec fn of_raw(x: u32) -> Option<VideoAdjustOption> {
        if x == 0u32 {
            Some(VideoAdjustOption::Enable)
        } else if x == 1u32 {
            Some(VideoAdjustOption::Contrast)
        } else if x == 2u32 {
            Some(VideoAdjustOption::Brightness)
        } else if x == 3u32 {
            Some(VideoAdjustOption::Hue)
        } else if x == 4u32 {
            Some(VideoAdjustOption::Saturation)
        } else if x == 5u32 {
            Some(VideoAdjustOption::Gamma)
        } else {
            None
        }
    }

    /// Returns the native number of this variant.
    pub fn to_raw(self) -> (x: u32)
        ensures
            x == self.raw(),
    {
        match self {
            VideoAdjustOption::Enable => 0,
            VideoAdjustOption::Contrast => 1,
            VideoAdjustOption::Brightness => 2,
            VideoAdjustOption::Hue => 3,
            VideoAdjustOption::Saturation => 4,
            VideoAdjustOption::Gamma => 5,
        }
    }

    /// Recognises a native number.
    ///
    /// Answers `Some` exactly for the numbers of the variants above.
    pub fn from_raw(x: u32) -> (r: Option<VideoAdjustOption>)
        ensures
            r == VideoAdjustOption::of_raw(x),
            r matches Some(v) ==> v.raw() == x,
            r is None ==> forall|v: VideoAdjustOption| v.raw() != x,
    {
        match x {
            0 => Some(VideoAdjustOption::Enable),
            1 => Some(VideoAdjustOption::Contrast),
            2 => Some(VideoAdjustOption::Brightness),
            3 => Some(VideoAdjustOption::Hue),
            4 => Some(VideoAdjustOption::Saturation),
            5 => Some(VideoAdjustOption::Gamma),
            _ => None,
        }
    }

    /// Every variant is recognised from its own number, and no two variants
    /// share a number.
    pub proof fn lemma_raw_round_trip(v: VideoAdjustOption)
        ensures
            VideoAdjustOption::of_raw(v.raw()) == Some(v),
    {
    }

    /// A recognised number is the number of the variant it was recognised as.
    pub proof fn lemma_of_raw_sound(x: u32)
        ensures
            VideoAdjustOption::of_raw(x) matches Some(v) ==> v.raw() == x,
            VideoAdjustOption::of_raw(x) is None ==> forall|v: VideoAdjustOption| v.raw() != x,
    {
    }
}

/// Category of a notification; its number is the tag of the native event record.
#[derive(Clone, Copy, PartialEq, Eq, Hash, Debug, Structural)]
pub enum EventType {
    MediaMetaChanged,
    MediaSubItemAdded,
    MediaDurationChanged,
    MediaParsedChanged,
    MediaFreed,
    MediaStateChanged,
    MediaSubItemTreeAdded,
    MediaPlayerMediaChanged,
    MediaPlayerNothingSpecial,
    MediaPlayerOpening,
    MediaPlayerBuffering,
    MediaPlayerPlaying,
    MediaPlayerPaused,
    MediaPlayerStopped,
    MediaPlayerForward,
    MediaPlayerBackward,
    MediaPlayerEndReached,
    MediaPlayerEncounteredError,
    MediaPlayerTimeChanged,
    MediaPlayerPositionChanged,
    MediaPlayerSeekableChanged,
    MediaPlayerPausableChanged,
    MediaPlayerTitleChanged,
    MediaPlayerSnapshotTaken,
    MediaPlayerLengthChanged,
    MediaPlayerVout,
    MediaPlayerScrambledChanged,
    MediaListItemAdded,
    MediaListWillAddItem,
    MediaListItemDeleted,
    MediaListWillDeleteItem,
    MediaListViewItemAdded,
    MediaListViewWillAddItem,
    MediaListViewItemDeleted,
    MediaListViewWillDeleteItem,
    MediaListPlayerPlayed,
    MediaListPlayerNextItemSet,
    MediaListPlayerStopped,
    MediaDiscovererStarted,
    MediaDiscovererEnded,
    VlmMediaAdded,
    VlmMediaRemoved,
    VlmMediaChanged,
    VlmMediaInstanceStarted,
    VlmMediaInstanceStopped,
    VlmMediaInstanceStatusInit,
    VlmMediaInstanceStatusOpening,
    VlmMediaInstanceStatusPlaying,
    VlmMediaInstanceStatusPause,
    VlmMediaInstanceStatusEnd,
    VlmMediaInstanceStatusError,
}

impl EventType {
    /// The native number of this variant.
    pub open spec fn raw(self) -> i32 {
        match self {
            EventType::MediaMetaChanged => 0i32,
            EventType::MediaSubItemAdded => 1i32,
            EventType::MediaDurationChanged => 2i32,
            EventType::MediaParsedChanged => 3i32,
            EventType::MediaFreed => 4i32,
            EventType::MediaStateChanged => 5i32,
            EventType::MediaSubItemTreeAdded => 6i32,
            EventType::MediaPlayerMediaChanged => 0x100i32,
            EventType::MediaPlayerNothingSpecial => 0x101i32,
            EventType::MediaPlayerOpening => 0x102i32,
            EventType::MediaPlayerBuffering => 0x103i32,
            EventType::MediaPlayerPlaying => 0x104i32,
            EventType::MediaPlayerPaused => 0x105i32,
            EventType::MediaPlayerStopped => 0x106i32,
            EventType::MediaPlayerForward => 0x107i32,
            EventType::MediaPlayerBackward => 0x108i32,
            EventType::MediaPlayerEndReached => 0x109i32,
            EventType::MediaPlayerEncounteredError => 0x10ai32,
            EventType::MediaPlayerTimeChanged => 0x10bi32,
            EventType::MediaPlayerPositionChanged => 0x10ci32,
            EventType::MediaPlayerSeekableChanged => 0x10di32,
            EventType::MediaPlayerPausableChanged => 0x10ei32,
            EventType::MediaPlayerTitleChanged => 0x10fi32,
            EventType::MediaPlayerSnapshotTaken => 0x110i32,
            EventType::MediaPlayerLengthChanged => 0x111i32,
            EventType::MediaPlayerVout => 0x112i32,
            EventType::MediaPlayerScrambledChanged => 0x113i32,
            EventType::MediaListItemAdded => 0x200i32,
            EventType::MediaListWillAddItem => 0x201i32,
            EventType::MediaListItemDeleted => 0x202i32,
            EventType::MediaListWillDeleteItem => 0x203i32,
            EventType::MediaListViewItemAdded => 0x300i32,
            EventType::MediaListViewWillAddItem => 0x301i32,
            EventType::MediaListViewItemDeleted => 0x302i32,
            EventType::MediaListViewWillDeleteItem => 0x303i32,
            EventType::MediaListPlayerPlayed => 0x400i32,
            EventType::MediaListPlayerNextItemSet => 0x401i32,
            EventType::MediaListPlayerStopped => 0x402i32,
            EventType::MediaDiscovererStarted => 0x500i32,
            EventType::MediaDiscovererEnded => 0x501i32,
            EventType::VlmMediaAdded => 0x600i32,
            EventType::VlmMediaRemoved => 0x601i32,
            EventType::VlmMediaChanged => 0x602i32,
            EventType::VlmMediaInstanceStarted => 0x603i32,
            EventType::VlmMediaInstanceStopped => 0x604i32,
            EventType::VlmMediaInstanceStatusInit => 0x605i32,
            EventType::VlmMediaInstanceStatusOpening => 0x606i32,
            EventType::VlmMediaInstanceStatusPlaying => 0x607i32,
            EventType::VlmMediaInstanceStatusPause => 0x608i32,
            EventType::VlmMediaInstanceStatusEnd => 0x609i32,
            EventType::VlmMediaInstanceStatusError => 0x60ai32,
        }
    }

    /// The variant with native number `x`, if there is one.
    pub open spec fn of_raw(x: i32) -> Option<EventType> {
        if x == 0i32 {
            Some(EventType::MediaMetaChanged)
        } else if x == 1i32 {
            Some(EventType::MediaSubItemAdded)
        } else if x == 2i32 {
            Some(EventType::MediaDurationChanged)
        } else if x == 3i32 {
            Some(EventType::MediaParsedChanged)
        } else if x == 4i32 {
            Some(EventType::MediaFreed)
        } else if x == 5i32 {
            Some(EventType::MediaStateChanged)
        } else if x == 6i32 {
            Some(EventType::MediaSubItemTreeAdded)
        } else if x == 0x100i32 {
            Some(EventType::MediaPlayerMediaChanged)
        } else if x == 0x101i32 {
            Some(EventType::MediaPlayerNothingSpecial)
        } else if x == 0x102i32 {
            Some(EventType::MediaPlayerOpening)
        } else if x == 0x103i32 {
            Some(EventType::MediaPlayerBuffering)
        } else if x == 0x104i32 {
            Some(EventType::MediaPlayerPlaying)
        } else if x == 0x105i32 {
            Some(EventType::MediaPlayerPaused)
        } else if x == 0x106i32 {
            Some(EventType::MediaPlayerStopped)
        } else if x == 0x107i32 {
            Some(EventType::MediaPlayerForward)
        } else if x == 0x108i32 {
            Some(EventType::MediaPlayerBackward)
        } else if x == 0x109i32 {
            Some(EventType::MediaPlayerEndReached)
        } else if x == 0x10ai32 {
            Some(EventType::MediaPlayerEncounteredError)
        } else if x == 0x10bi32 {
            Some(EventType::MediaPlayerTimeChanged)
        } else if x == 0x10ci32 {
            Some(EventType::MediaPlayerPositionChanged)
        } else if x == 0x10di32 {
            Some(EventType::MediaPlayerSeekableChanged)
        } else if x == 0x10ei32 {
            Some(EventType::MediaPlayerPausableChanged)
        } else if x == 0x10fi32 {
            Some(EventType::MediaPlayerTitleChanged)
        } else if x == 0x110i32 {
            Some(EventType::MediaPlayerSnapshotTaken)
        } else if x == 0x111i32 {
            Some(EventType::MediaPlayerLengthChanged)
        } else if x == 0x112i32 {
            Some(EventType::MediaPlayerVout)
        } else if x == 0x113i32 {
            Some(EventType::MediaPlayerScrambledChanged)
        } else if x == 0x200i32 {
            Some(EventType::MediaListItemAdded)
        } else if x == 0x201i32 {
            Some(EventType::MediaListWillAddItem)
        } else if x == 0x202i32 {
            Some(EventType::MediaListItemDeleted)
        } else if x == 0x203i32 {
            Some(EventType::MediaListWillDeleteItem)
        } else if x == 0x300i32 {
            Some(EventType::MediaListViewItemAdded)
        } else if x == 0x301i32 {
            Some(EventType::MediaListViewWillAddItem)
        } else if x == 0x302i32 {
            Some(EventType::MediaListViewItemDeleted)
        } else if x == 0x303i32 {
            Some(EventType::MediaListViewWillDeleteItem)
        } else if x == 0x400i32 {
            Some(EventType::MediaListPlayerPlayed)
        } else if x == 0x401i32 {
            Some(EventType::MediaListPlayerNextItemSet)
        } else if x == 0x402i32 {
            Some(EventType::MediaListPlayerStopped)
        } else if x == 0x500i32 {
            Some(EventType::MediaDiscovererStarted)
        } else if x == 0x501i32 {
            Some(EventType::MediaDiscovererEnded)
        } else if x == 0x600i32 {
            Some(EventType::VlmMediaAdded)
        } else if x == 0x601i32 {
            Some(EventType::VlmMediaRemoved)
        } else if x == 0x602i32 {
            Some(EventType::VlmMediaChanged)
        } else if x == 0x603i32 {
            Some(EventType::VlmMediaInstanceStarted)
        } else if x == 0x604i32 {
            Some(EventType::VlmMediaInstanceStopped)
        } else if x == 0x605i32 {
            Some(EventType::VlmMediaInstanceStatusInit)
        } else if x == 0x606i32 {
            Some(EventType::VlmMediaInstanceStatusOpening)
        } else if x == 0x607i32 {
            Some(EventType::VlmMediaInstanceStatusPlaying)
        } else if x == 0x608i32 {
            Some(EventType::VlmMediaInstanceStatusPause)
        } else if x == 0x609i32 {
            Some(EventType::VlmMediaInstanceStatusEnd)
        } else if x == 0x60ai32 {
            Some(EventType::VlmMediaInstanceStatusError)
        } else {
            None
        }
    }

    /// Returns the native number of this variant.
    pub fn to_raw(self) -> (x: i32)
        ensures
            x == self.raw(),
    {
        match self {
            EventType::MediaMetaChanged => 0,
            EventType::MediaSubItemAdded => 1,
            EventType::MediaDurationChanged => 2,
            EventType::MediaParsedChanged => 3,
            EventType::MediaFreed => 4,
            EventType::MediaStateChanged => 5,
            EventType::MediaSubItemTreeAdded => 6,
            EventType::MediaPlayerMediaChanged => 0x100,
            EventType::MediaPlayerNothingSpecial => 0x101,
            EventType::MediaPlayerOpening => 0x102,
            EventType::MediaPlayerBuffering => 0x103,
            EventType::MediaPlayerPlaying => 0x104,
            EventType::MediaPlayerPaused => 0x105,
            EventType::MediaPlayerStopped => 0x106,
            EventType::MediaPlayerForward => 0x107,
            EventType::MediaPlayerBackward => 0x108,
            EventType::MediaPlayerEndReached => 0x109,
            EventType::MediaPlayerEncounteredError => 0x10a,
            EventType::MediaPlayerTimeChanged => 0x10b,
            EventType::MediaPlayerPositionChanged => 0x10c,
            EventType::MediaPlayerSeekableChanged => 0x10d,
            EventType::MediaPlayerPausableChanged => 0x10e,
            EventType::MediaPlayerTitleChanged => 0x10f,
            EventType::MediaPlayerSnapshotTaken => 0x110,
            EventType::MediaPlayerLengthChanged => 0x111,
            EventType::MediaPlayerVout => 0x112,
            EventType::MediaPlayerScrambledChanged => 0x113,
            EventType::MediaListItemAdded => 0x200,
            EventType::MediaListWillAddItem => 0x201,
            EventType::MediaListItemDeleted => 0x202,
            EventType::MediaListWillDeleteItem => 0x203,
            EventType::MediaListViewItemAdded => 0x300,
            EventType::MediaListViewWillAddItem => 0x301,
            EventType::MediaListViewItemDeleted => 0x302,
            EventType::MediaListViewWillDeleteItem => 0x303,
            EventType::MediaListPlayerPlayed => 0x400,
            EventType::MediaListPlayerNextItemSet => 0x401,
            EventType::MediaListPlayerStopped => 0x402,
            EventType::MediaDiscovererStarted => 0x500,
            EventType::MediaDiscovererEnded => 0x501,
            EventType::VlmMediaAdded => 0x600,
            EventType::VlmMediaRemoved => 0x601,
            EventType::VlmMediaChanged => 0x602,
            EventType::VlmMediaInstanceStarted => 0x603,
            EventType::VlmMediaInstanceStopped => 0x604,
            EventType::VlmMediaInstanceStatusInit => 0x605,
            EventType::VlmMediaInstanceStatusOpening => 0x606,
            EventType::VlmMediaInstanceStatusPlaying => 0x607,
            EventType::VlmMediaInstanceStatusPause => 0x608,
            EventType::VlmMediaInstanceStatusEnd => 0x609,
            EventType::VlmMediaInstanceStatusError => 0x60a,
        }
    }

    /// Recognises a native number.
    ///
    /// Answers `Some` exactly for the numbers of the variants above.
    pub fn from_raw(x: i32) -> (r: Option<EventType>)
        ensures
            r == EventType::of_raw(x),
            r matches Some(v) ==> v.raw() == x,
            r is None ==> forall|v: EventType| v.raw() != x,
    {
        match x {
            0 => Some(EventType::MediaMetaChanged),
            1 => Some(EventType::MediaSubItemAdded),
            2 => Some(EventType::MediaDurationChanged),
            3 => Some(EventType::MediaParsedChanged),
            4 => Some(EventType::MediaFreed),
            5 => Some(EventType::MediaStateChanged),
            6 => Some(EventType::MediaSubItemTreeAdded),
            0x100 => Some(EventType::MediaPlayerMediaChanged),
            0x101 => Some(EventType::MediaPlayerNothingSpecial),
            0x102 => Some(EventType::MediaPlayerOpening),
            0x103 => Some(EventType::MediaPlayerBuffering),
            0x104 => Some(EventType::MediaPlayerPlaying),
            0x105 => Some(EventType::MediaPlayerPaused),
            0x106 => Some(EventType::MediaPlayerStopped),
            0x107 => Some(EventType::MediaPlayerForward),
            0x108 => Some(EventType::MediaPlayerBackward),
            0x109 => Some(EventType::MediaPlayerEndReached),
            0x10a => Some(EventType::MediaPlayerEncounteredError),
            0x10b => Some(EventType::MediaPlayerTimeChanged),
            0x10c => Some(EventType::MediaPlayerPositionChanged),
            0x10d => Some(EventType::MediaPlayerSeekableChanged),
            0x10e => Some(EventType::MediaPlayerPausableChanged),
            0x10f => Some(EventType::MediaPlayerTitleChanged),
            0x110 => Some(EventType::MediaPlayerSnapshotTaken),
            0x111 => Some(EventType::MediaPlayerLengthChanged),
            0x112 => Some(EventType::MediaPlayerVout),
            0x113 => Some(EventType::MediaPlayerScrambledChanged),
            0x200 => Some(EventType::MediaListItemAdded),
            0x201 => Some(EventType::MediaListWillAddItem),
            0x202 => Some(EventType::MediaListItemDeleted),
            0x203 => Some(EventType::MediaListWillDeleteItem),
            0x300 => Some(EventType::MediaListViewItemAdded),
            0x301 => Some(EventType::MediaListViewWillAddItem),
            0x302 => Some(EventType::MediaListViewItemDeleted),
            0x303 => Some(EventType::MediaListViewWillDeleteItem),
            0x400 => Some(EventType::MediaListPlayerPlayed),
            0x401 => Some(EventType::MediaListPlayerNextItemSet),
            0x402 => Some(EventType::MediaListPlayerStopped),
            0x500 => Some(EventType::MediaDiscovererStarted),
            0x501 => Some(EventType::MediaDiscovererEnded),
            0x600 => Some(EventType::VlmMediaAdded),
            0x601 => Some(EventType::VlmMediaRemoved),
            0x602 => Some(EventType::VlmMediaChanged),
            0x603 => Some(EventType::VlmMediaInstanceStarted),
            0x604 => Some(EventType::VlmMediaInstanceStopped),
            0x605 => Some(EventType::VlmMediaInstanceStatusInit),
            0x606 => Some(EventType::VlmMediaInstanceStatusOpening),
            0x607 => Some(EventType::VlmMediaInstanceStatusPlaying),
            0x608 => Some(EventType::VlmMediaInstanceStatusPause),
            0x609 => Some(EventType::VlmMediaInstanceStatusEnd),
            0x60a => Some(EventType::VlmMediaInstanceStatusError),
            _ => None,
        }
    }

    /// Every variant is recognised from its own number, and no two variants
    /// share a number.
    pub proof fn lemma_raw_round_trip(v: EventType)
        ensures
            EventType::of_raw(v.raw()) == Some(v),
    {
    }

    /// A recognised number is the number of the variant it was recognised as.
    pub proof fn lemma_of_raw_sound(x: i32)
        ensures
            EventType::of_raw(x) matches Some(v) ==> v.raw() == x,
            EventType::of_raw(x) is None ==> forall|v: EventType| v.raw() != x,
    {
    }
}

} // verus!
