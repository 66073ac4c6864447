//! The capture device of the headset: boost levels, device lookup and the audio pipeline.

pub mod boost;
pub mod linux;
pub mod passthrough;
pub mod windows;
pub mod worker;

use vstd::prelude::*;

use crate::text;

verus! {

#[derive(Debug)]
pub enum AudioError {
    DeviceNotFound,
    ApiError(String),
}

/// An audio error by its contents.
pub enum AudioErrorView {
    DeviceNotFound,
    ApiError(Seq<char>),
}

impl View for AudioError {
    type V = AudioErrorView;

    open spec fn view(&self) -> AudioErrorView {
        match self {
            AudioError::DeviceNotFound => AudioErrorView::DeviceNotFound,
            AudioError::ApiError(msg) => AudioErrorView::ApiError(msg@),
        }
    }
}

/// The message of an audio error.
pub open spec fn audio_error_text(e: AudioErrorView) -> Seq<char> {
    match e {
        AudioErrorView::DeviceNotFound => "Corsair Void capture device not found"@,
        AudioErrorView::ApiError(msg) => "Audio API error: "@ + msg,
    }
}

impl AudioError {
    pub fn to_string(&self) -> (r: String)
        ensures
            r@ == audio_error_text(self@),
    {
        match self {
            AudioError::DeviceNotFound => "Corsair Void capture device not found".to_owned(),
            AudioError::ApiError(msg) => {
                let mut out = "Audio API error: ".to_owned();
                out.append(msg.as_str());
                out
            },
        }
    }
}

/// An error like `e`.
pub(crate) fn same_error(e: &AudioError) -> (r: AudioError)
    ensures
        r@ == e@,
{
    match e {
        AudioError::DeviceNotFound => AudioError::DeviceNotFound,
        AudioError::ApiError(msg) => AudioError::ApiError(msg.clone()),
    }
}

/// Access to the capture device of the headset.
pub trait AudioController: Send {
    fn find_device(&mut self) -> Result<bool, AudioError>;

    /// Applies a dB boost to the capture device. 0 = normal, 5 = +5 dB, 10 = +10 dB.
    fn set_boost_db(&self, db: u8) -> Result<(), AudioError>;

    /// The current dB boost level.
    fn get_boost_db(&self) -> Result<u8, AudioError>;

    /// Whether boost is available on this platform.
    fn boost_available(&self) -> bool;

    /// Stops the boost worker (on disconnect). Does not reset the boost level.
    fn stop_boost(&self) {
    }
}

/// Supported microphone boost levels in dB. The command line accepts no others, and the levels
/// that come with IPC messages and from the configuration file are snapped to these, so that the
/// state, the configuration and the tray menu agree.
pub const BOOST_LEVELS: [u8; 3] = [0, 5, 10];

/// `db` is one of the supported levels.
pub open spec fn is_boost_level(db: u8) -> bool {
    BOOST_LEVELS@.contains(db)
}

/// The distance between two levels.
pub open spec fn distance(a: u8, b: u8) -> int {
    if a <= b {
        b - a
    } else {
        a - b
    }
}

/// `level` is a supported level and no other is nearer to `db`.
pub open spec fn is_nearest_level(level: u8, db: u8) -> bool {
    &&& is_boost_level(level)
    &&& forall|other: u8| #[trigger]
        is_boost_level(other) ==> distance(level, db) <= distance(other, db)
}

/// The supported level nearest to `db`.
pub open spec fn nearest_level(db: u8) -> u8 {
    choose|level: u8| is_nearest_level(level, db)
}

proof fn lemma_levels(db: u8)
    ensures
        is_boost_level(db) <==> db == 0 || db == 5 || db == 10,
{
    let levels = BOOST_LEVELS@;
    assert(levels[0] == 0 && levels[1] == 5 && levels[2] == 10);
    if is_boost_level(db) {
        let i = choose|i: int| 0 <= i < levels.len() && levels[i] == db;
        assert(i == 0 || i == 1 || i == 2);
    }
}

fn level_distance(a: u8, b: u8) -> (r: u8)
    ensures
        r == distance(a, b),
{
    if a <= b {
        b - a
    } else {
        a - b
    }
}

/// Snaps a dB value to the nearest supported level.
pub fn normalize_boost_db(db: u8) -> (r: u8)
    ensures
        is_nearest_level(r, db),
        r == nearest_level(db),
{
    let levels = BOOST_LEVELS;
    let mut best: u8 = levels[0];
    proof {
        lemma_levels(0);
    }
    for i in 1..levels.len()
        invariant
            levels@ == BOOST_LEVELS@,
            is_boost_level(best),
            forall|j: int|
                0 <= j < i ==> distance(best, db) <= distance(#[trigger] levels@[j], db),
    {
        if level_distance(levels[i], db) < level_distance(best, db) {
            best = levels[i];
        }
    }
    proof {
        assert forall|other: u8| #[trigger] is_boost_level(other) implies distance(best, db)
            <= distance(other, db) by {
            let j = choose|j: int| 0 <= j < levels@.len() && levels@[j] == other;
            assert(levels@[j] == other);
        }
        assert(is_nearest_level(best, db));
        nearest_level_is_unique(best, nearest_level(db), db);
    }
    best
}

/// No value lies halfway between two supported levels: the nearest level is unique.
pub proof fn nearest_level_is_unique(a: u8, b: u8, db: u8)
    requires
        is_nearest_level(a, db),
        is_nearest_level(b, db),
    ensures
        a == b,
{
    lemma_levels(a);
    lemma_levels(b);
    lemma_levels(5);
}

/// The supported levels are 0, 5 and 10 dB, and snapping keeps them.
pub proof fn levels_snap_to_themselves(db: u8)
    ensures
        is_boost_level(db) <==> db == 0 || db == 5 || db == 10,
        is_boost_level(db) ==> nearest_level(db) == db,
{
    lemma_levels(db);
    if is_boost_level(db) {
        assert(is_nearest_level(db, db));
        nearest_level_is_unique(db, nearest_level(db), db);
    }
}

/// Whatever value comes in, a supported level comes out.
pub proof fn snapping_gives_a_level(db: u8)
    ensures
        is_nearest_level(nearest_level(db), db),
        is_boost_level(nearest_level(db)),
{
    let level: u8 = if db <= 2 {
        0
    } else if db <= 7 {
        5
    } else {
        10
    };
    lemma_levels(level);
    assert forall|other: u8| #[trigger] is_boost_level(other) implies distance(level, db)
        <= distance(other, db) by {
        lemma_levels(other);
    }
    assert(is_nearest_level(level, db));
}

/// What `str::to_lowercase` makes of a text.
pub uninterp spec fn lowercase(s: Seq<char>) -> Seq<char>;

/// Calls `str::to_lowercase`. The result depends on the text alone, and in a text of ASCII
/// characters only the capital letters change, to small ones. What becomes of other characters is
/// up to Unicode and left unsaid.
#[verifier::external_body]
fn to_lowercase(s: &str) -> (r: String)
    ensures
        r@ == lowercase(s@),
        text::is_ascii_text(s@) ==> r@ == text::ascii_lowered(s@),
{
    s.to_lowercase()
}

/// A device name, in lower case, that belongs to the headset.
pub open spec fn lowered_name_matches(lowered: Seq<char>) -> bool {
    text::occurs_in("corsair"@, lowered)
}

/// A device name that belongs to the headset.
pub open spec fn name_matches(name: Seq<char>) -> bool {
    lowered_name_matches(lowercase(name))
}

/// Whether a device name in lower case belongs to the headset.
pub fn is_headset_name(lowered: &str) -> (r: bool)
    ensures
        r == lowered_name_matches(lowered@),
{
    text::contains(lowered, "corsair")
}

/// Whether a device name belongs to the headset, in whatever case it is written.
pub fn is_headset(name: &str) -> (r: bool)
    ensures
        r == name_matches(name@),
        text::is_ascii_text(name@) ==> r == lowered_name_matches(text::ascii_lowered(name@)),
{
    is_headset_name(to_lowercase(name).as_str())
}

/// A render device name, in lower case, that belongs to a virtual audio cable.
pub open spec fn lowered_name_is_cable(lowered: Seq<char>) -> bool {
    ||| text::occurs_in("cable input"@, lowered)
    ||| text::occurs_in("voicemeeter"@, lowered)
    ||| text::occurs_in("virtual cable"@, lowered)
}

/// A render device name that belongs to a virtual audio cable.
pub open spec fn name_is_cable(name: Seq<char>) -> bool {
    lowered_name_is_cable(lowercase(name))
}

/// Whether a render device name in lower case belongs to a virtual audio cable.
pub fn is_cable_name(lowered: &str) -> (r: bool)
    ensures
        r == lowered_name_is_cable(lowered@),
{
    text::contains(lowered, "cable input") || text::contains(lowered, "voicemeeter")
        || text::contains(lowered, "virtual cable")
}

/// Whether a render device name belongs to a virtual audio cable, in whatever case it is
/// written.
pub fn is_virtual_cable(name: &str) -> (r: bool)
    ensures
        r == name_is_cable(name@),
        text::is_ascii_text(name@) ==> r == lowered_name_is_cable(text::ascii_lowered(name@)),
{
    is_cable_name(to_lowercase(name).as_str())
}

/// Up to 2 dB the nearest level is 0, from 3 to 7 dB it is 5, and from 8 dB on it is 10.
pub proof fn levels_lie_around_their_numbers(db: u8)
    ensures
        nearest_level(db) == 0 <==> db <= 2,
        nearest_level(db) == 5 <==> 3 <= db <= 7,
        nearest_level(db) == 10 <==> 8 <= db,
{
    snapping_gives_a_level(db);
    levels_snap_to_themselves(nearest_level(db));
    levels_snap_to_themselves(0);
    levels_snap_to_themselves(5);
    levels_snap_to_themselves(10);
}

/// A stronger boost never snaps to a weaker level, and no level is more than 2 dB away below 10 dB.
pub proof fn snapping_keeps_the_order(a: u8, b: u8)
    requires
        a <= b,
    ensures
        nearest_level(a) <= nearest_level(b),
        b <= 10 ==> distance(nearest_level(b), b) <= 2,
{
    levels_lie_around_their_numbers(a);
    levels_lie_around_their_numbers(b);
}

/// A name belongs to the headset exactly if "corsair" is a part of it once it is in lower case,
/// wherever that stands.
pub proof fn headsets_are_named_corsair(lowered: Seq<char>)
    ensures
        lowered_name_matches(lowered) <==> exists|before: Seq<char>, after: Seq<char>|
            lowered == #[trigger] (before + "corsair"@ + after),
{
    text::occurring_is_being_a_part("corsair"@, lowered);
}

/// A name belongs to a virtual cable exactly if one of the three words for that is a part of it once
/// it is in lower case, wherever that stands.
pub proof fn cables_are_named_so(lowered: Seq<char>)
    ensures
        lowered_name_is_cable(lowered) <==> {
            ||| exists|before: Seq<char>, after: Seq<char>|
                lowered == #[trigger] (before + "cable input"@ + after)
            ||| exists|before: Seq<char>, after: Seq<char>|
                lowered == #[trigger] (before + "voicemeeter"@ + after)
            ||| exists|before: Seq<char>, after: Seq<char>|
                lowered == #[trigger] (before + "virtual cable"@ + after)
        },
{
    text::occurring_is_being_a_part("cable input"@, lowered);
    text::occurring_is_being_a_part("voicemeeter"@, lowered);
    text::occurring_is_being_a_part("virtual cable"@, lowered);
}

/// The text of an error of the audio interface ends with the message, so different messages give
/// different texts.
pub proof fn error_texts_hold_the_message(a: Seq<char>, b: Seq<char>)
    ensures
        ({
            let text = audio_error_text(AudioErrorView::ApiError(a));
            let other = audio_error_text(AudioErrorView::ApiError(b));
            &&& text.len() >= a.len()
            &&& text.skip(text.len() - a.len()) == a
            &&& text == other ==> a == b
        }),
{
    let text = audio_error_text(AudioErrorView::ApiError(a));
    let other = audio_error_text(AudioErrorView::ApiError(b));
    assert(text.skip(text.len() - a.len()) == a);
    assert(other.skip(other.len() - b.len()) == b);
}

} // verus!
