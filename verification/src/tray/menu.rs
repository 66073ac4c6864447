//! The menu of the tray icon and the texts that follow the state.

use vstd::prelude::*;

use crate::audio::{is_boost_level, BOOST_LEVELS};
use crate::config::Config;
use crate::device::protocol::BatteryStatus;
use crate::device::DeviceEvent;
use crate::text;
use crate::tray::icon::{generate_icon, holds_pixel, pixel, ICON_SIZE};
use crate::tray::{
    boosts_agree, handle_device_event, outcome_at, state_at, with_boost, AppState, EventOutcome,
    MuteControl, Trace,
};

verus! {

/// Which entry of the menu it is.
#[derive(Debug, Clone, Copy, PartialEq, Eq, Structural)]
pub enum EntryKind {
    Title,
    Battery,
    Mic,
    Separator,
    /// The submenu of the boost levels.
    BoostMenu,
    /// An entry of that submenu, by the position of its level.
    Boost(usize),
    AutoStart,
    Quit,
}

/// An entry of the menu. The boost entries follow the submenu that they belong to.
#[derive(Debug)]
pub struct MenuEntry {
    pub kind: EntryKind,
    pub text: String,
    pub enabled: bool,
    /// Whether the entry is checked, for an entry that can be.
    pub checked: Option<bool>,
}

/// An entry by its contents.
#[verifier::ext_equal]
pub struct EntryView {
    pub kind: EntryKind,
    pub text: Seq<char>,
    pub enabled: bool,
    pub checked: Option<bool>,
}

impl View for MenuEntry {
    type V = EntryView;

    open spec fn view(&self) -> EntryView {
        EntryView {
            kind: self.kind,
            text: self.text@,
            enabled: self.enabled,
            checked: self.checked,
        }
    }
}

/// The contents of a list of entries.
pub open spec fn entry_views(entries: Seq<MenuEntry>) -> Seq<EntryView> {
    Seq::new(entries.len(), |i: int| entries[i]@)
}

/// What the boost submenu is called.
pub open spec fn boost_menu_text(available: bool) -> Seq<char> {
    if available {
        "Mic Boost"@
    } else {
        "Mic Boost (VB-CABLE not found)"@
    }
}

/// What the boost level at position `i` is called.
pub open spec fn level_text(i: int) -> Seq<char> {
    if i == 0 {
        "0 dB"@
    } else if i == 1 {
        "+5 dB"@
    } else {
        "+10 dB"@
    }
}

/// The entry of the boost level at position `i`.
pub open spec fn boost_entry(i: int, db: u8, available: bool) -> EntryView {
    EntryView {
        kind: EntryKind::Boost(i as usize),
        text: level_text(i),
        enabled: available,
        checked: Some(BOOST_LEVELS[i] == db),
    }
}

/// The entries of the menu, from top to bottom.
pub open spec fn menu_entries(config: Config, boost_available: bool) -> Seq<EntryView> {
    let db = config.general.mic_boost_db;
    seq![
        EntryView {
            kind: EntryKind::Title,
            text: "Corsair Void"@,
            enabled: false,
            checked: None,
        },
        EntryView {
            kind: EntryKind::Battery,
            text: "Battery: --"@,
            enabled: false,
            checked: None,
        },
        EntryView { kind: EntryKind::Mic, text: "Mic: --"@, enabled: false, checked: None },
        EntryView { kind: EntryKind::Separator, text: ""@, enabled: false, checked: None },
        EntryView {
            kind: EntryKind::BoostMenu,
            text: boost_menu_text(boost_available),
            enabled: true,
            checked: None,
        },
        boost_entry(0, db, boost_available),
        boost_entry(1, db, boost_available),
        boost_entry(2, db, boost_available),
        EntryView {
            kind: EntryKind::AutoStart,
            text: "Start on Login"@,
            enabled: true,
            checked: Some(config.general.auto_start),
        },
        EntryView { kind: EntryKind::Separator, text: ""@, enabled: false, checked: None },
        EntryView { kind: EntryKind::Quit, text: "Quit"@, enabled: true, checked: None },
    ]
}

fn entry(kind: EntryKind, text: &str, enabled: bool, checked: Option<bool>) -> (r: MenuEntry)
    ensures
        r@ == (EntryView { kind, text: text@, enabled, checked }),
{
    MenuEntry { kind, text: text.to_owned(), enabled, checked }
}

/// Lays out the menu. Where boost is not available, the menu says so and its levels cannot be
/// chosen.
pub fn build_menu(config: &Config, boost_available: bool) -> (r: Vec<MenuEntry>)
    ensures
        entry_views(r@) == menu_entries(*config, boost_available),
{
    let db: u8 = config.general.mic_boost_db;
    let levels = BOOST_LEVELS;
    let boost_title = if boost_available {
        "Mic Boost"
    } else {
        "Mic Boost (VB-CABLE not found)"
    };
    let mut r: Vec<MenuEntry> = Vec::new();
    r.push(entry(EntryKind::Title, "Corsair Void", false, None));
    r.push(entry(EntryKind::Battery, "Battery: --", false, None));
    r.push(entry(EntryKind::Mic, "Mic: --", false, None));
    r.push(entry(EntryKind::Separator, "", false, None));
    r.push(entry(EntryKind::BoostMenu, boost_title, true, None));
    r.push(entry(EntryKind::Boost(0), "0 dB", boost_available, Some(levels[0] == db)));
    r.push(entry(EntryKind::Boost(1), "+5 dB", boost_available, Some(levels[1] == db)));
    r.push(entry(EntryKind::Boost(2), "+10 dB", boost_available, Some(levels[2] == db)));
    r.push(entry(EntryKind::AutoStart, "Start on Login", true, Some(config.general.auto_start)));
    r.push(entry(EntryKind::Separator, "", false, None));
    r.push(entry(EntryKind::Quit, "Quit", true, None));
    assert(entry_views(r@) =~= menu_entries(*config, boost_available));
    r
}

/// What follows the battery level in the menu.
pub open spec fn battery_suffix(status: BatteryStatus) -> Seq<char> {
    match status {
        BatteryStatus::Charging => " (Charging)"@,
        BatteryStatus::Low => " (Low)"@,
        BatteryStatus::Critical => " (Critical!)"@,
        BatteryStatus::Full => " (Full)"@,
        _ => ""@,
    }
}

/// The text of the battery entry.
pub open spec fn battery_entry_text(state: AppState) -> Seq<char> {
    if state.device_open {
        "Battery: "@ + text::decimal(state.battery_percent as nat) + "%"@ + battery_suffix(
            state.battery_status,
        )
    } else {
        "Battery: --"@
    }
}

/// The text of the microphone entry.
pub open spec fn mic_entry_text(state: AppState) -> Seq<char> {
    if !state.device_open {
        "Mic: --"@
    } else if state.last_mic_up == Some(true) {
        "Mic: Muted"@
    } else {
        "Mic: Active"@
    }
}

/// The text that shows when the pointer rests on the icon.
pub open spec fn tooltip_text(state: AppState) -> Seq<char> {
    if state.device_open {
        "Corsair Void - Battery: "@ + text::decimal(state.battery_percent as nat) + "%"@
    } else {
        "Corsair Void - Disconnected"@
    }
}

/// The texts of the menu that follow the state.
#[derive(Debug)]
pub struct MenuText {
    pub battery: String,
    pub mic: String,
}

/// The texts of the menu for the state.
pub fn update_menu_text(state: &AppState) -> (r: MenuText)
    ensures
        r.battery@ == battery_entry_text(*state),
        r.mic@ == mic_entry_text(*state),
{
    if state.device_open {
        let mut battery = "Battery: ".to_owned();
        text::append_decimal(&mut battery, state.battery_percent);
        battery.append("%");
        match state.battery_status {
            BatteryStatus::Charging => battery.append(" (Charging)"),
            BatteryStatus::Low => battery.append(" (Low)"),
            BatteryStatus::Critical => battery.append(" (Critical!)"),
            BatteryStatus::Full => battery.append(" (Full)"),
            _ => battery.append(""),
        }
        let muted = match state.last_mic_up {
            Some(up) => up,
            None => false,
        };
        let mic = if muted { "Mic: Muted".to_owned() } else { "Mic: Active".to_owned() };
        MenuText { battery, mic }
    } else {
        MenuText { battery: "Battery: --".to_owned(), mic: "Mic: --".to_owned() }
    }
}

/// The text that shows when the pointer rests on the icon.
pub fn tooltip(state: &AppState) -> (r: String)
    ensures
        r@ == tooltip_text(*state),
{
    if state.device_open {
        let mut out = "Corsair Void - Battery: ".to_owned();
        text::append_decimal(&mut out, state.battery_percent);
        out.append("%");
        out
    } else {
        "Corsair Void - Disconnected".to_owned()
    }
}

/// What the tray shows of the state.
#[derive(Debug)]
pub struct TrayLook {
    pub text: MenuText,
    pub icon: Vec<u8>,
    pub tooltip: String,
}

/// `look` shows the state.
pub open spec fn shows(look: TrayLook, state: AppState) -> bool {
    &&& look.text.battery@ == battery_entry_text(state)
    &&& look.text.mic@ == mic_entry_text(state)
    &&& look.tooltip@ == tooltip_text(state)
    &&& look.icon@.len() == 4 * ICON_SIZE * ICON_SIZE
    &&& forall|n: int|
        0 <= n < ICON_SIZE * ICON_SIZE ==> holds_pixel(look.icon@, n, #[trigger] pixel(state, n))
}

/// The two states differ in something that the tray shows.
pub open spec fn looks_different(a: AppState, b: AppState) -> bool {
    ||| a.device_open != b.device_open
    ||| a.headset_connected != b.headset_connected
    ||| a.last_mic_up != b.last_mic_up
    ||| a.battery_percent != b.battery_percent
    ||| a.battery_status != b.battery_status
}

fn same_position(a: Option<bool>, b: Option<bool>) -> (r: bool)
    ensures
        r == (a == b),
{
    match (a, b) {
        (Some(x), Some(y)) => x == y,
        (None, None) => true,
        _ => false,
    }
}

/// What the tray is to show now, if that has changed since it showed `before`.
pub fn refresh(before: &AppState, after: &AppState) -> (r: Option<TrayLook>)
    ensures
        match r {
            Some(look) => looks_different(*before, *after) && shows(look, *after),
            None => !looks_different(*before, *after),
        },
{
    let same = before.device_open == after.device_open && before.headset_connected
        == after.headset_connected && same_position(before.last_mic_up, after.last_mic_up)
        && before.battery_percent == after.battery_percent && before.battery_status
        == after.battery_status;
    if same {
        None
    } else {
        Some(
            TrayLook {
                text: update_menu_text(after),
                icon: generate_icon(after),
                tooltip: tooltip(after),
            },
        )
    }
}

/// The events of a batch, each with who mutes the microphone.
pub open spec fn batch(events: Seq<DeviceEvent>, control: MuteControl) -> Trace {
    Seq::new(events.len(), |i: int| (events[i], control))
}

/// What to do after a batch of device events.
#[derive(Debug)]
pub struct BatchOutcome {
    /// What to do after each event, in order.
    pub outcomes: Vec<EventOutcome>,
    /// What the tray is to show now, if that has changed.
    pub look: Option<TrayLook>,
}

/// Takes note of the device events that have arrived, one after the other, and refreshes what the
/// tray shows once, at the end.
pub fn handle_device_events(
    state: &mut AppState,
    events: &Vec<DeviceEvent>,
    control: MuteControl,
) -> (r: BatchOutcome)
    ensures
        *final(state) == state_at(*old(state), batch(events@, control), events@.len() as int),
        r.outcomes@ == Seq::new(
            events@.len(),
            |i: int| outcome_at(*old(state), batch(events@, control), i),
        ),
        match r.look {
            Some(look) => looks_different(*old(state), *final(state)) && shows(
                look,
                *final(state),
            ),
            None => !looks_different(*old(state), *final(state)),
        },
{
    let before = *state;
    let ghost trace = batch(events@, control);
    let mut outcomes: Vec<EventOutcome> = Vec::new();
    for i in 0..events.len()
        invariant
            before == *old(state),
            trace == batch(events@, control),
            *state == state_at(before, trace, i as int),
            outcomes@.len() == i,
            forall|j: int| 0 <= j < i ==> #[trigger] outcomes@[j] == outcome_at(before, trace, j),
    {
        let outcome = handle_device_event(state, &events[i], control);
        outcomes.push(outcome);
    }
    let look = refresh(&before, state);
    BatchOutcome { outcomes, look }
}

/// Which of the boost entries are checked.
pub fn boost_checks(db: u8) -> (r: [bool; 3])
    ensures
        forall|i: int| 0 <= i < 3 ==> #[trigger] r[i] == (BOOST_LEVELS[i] == db),
{
    let levels = BOOST_LEVELS;
    [levels[0] == db, levels[1] == db, levels[2] == db]
}

/// What was chosen in the menu.
#[derive(Debug, Clone, Copy, PartialEq, Eq, Structural)]
pub enum MenuChoice {
    Quit,
    /// The boost level at this position.
    Boost(usize),
    /// The auto-start entry, which is checked now or not.
    AutoStart { checked: bool },
    Other,
}

/// What to do about it.
#[derive(Debug, Clone, Copy, PartialEq, Eq, Structural)]
pub enum MenuAction {
    Quit,
    /// Set the boost on the capture device. That this fails is only worth a warning.
    SetBoost(u8),
    SetAutoStart(bool),
    Ignore,
}

/// What to do after a choice from the menu.
#[derive(Debug, Clone, Copy, PartialEq, Eq, Structural)]
pub struct MenuOutcome {
    pub action: MenuAction,
    /// The configuration holds a chosen level and is to be saved.
    pub save: bool,
}

/// What a choice from the menu asks for.
pub open spec fn chosen_action(choice: MenuChoice) -> MenuAction {
    match choice {
        MenuChoice::Quit => MenuAction::Quit,
        MenuChoice::Boost(i) => if i < 3 {
            MenuAction::SetBoost(BOOST_LEVELS[i as int])
        } else {
            MenuAction::Ignore
        },
        MenuChoice::AutoStart { checked } => MenuAction::SetAutoStart(checked),
        MenuChoice::Other => MenuAction::Ignore,
    }
}

/// Carries out a choice from the menu. A chosen boost goes into the state and the configuration,
/// which is saved.
pub fn handle_menu_choice(choice: &MenuChoice, state: &mut AppState, config: &mut Config) -> (r:
    MenuOutcome)
    ensures
        r.action == chosen_action(*choice),
        r.save == r.action is SetBoost,
        (*final(state), *final(config)) == match r.action {
            MenuAction::SetBoost(db) => with_boost(*old(state), *old(config), db),
            _ => (*old(state), *old(config)),
        },
{
    let action = match choice {
        MenuChoice::Quit => MenuAction::Quit,
        MenuChoice::Boost(i) => {
            let levels = BOOST_LEVELS;
            if *i < levels.len() {
                let db: u8 = levels[*i];
                state.boost_db = db;
                config.general.mic_boost_db = db;
                MenuAction::SetBoost(db)
            } else {
                MenuAction::Ignore
            }
        },
        MenuChoice::AutoStart { checked } => MenuAction::SetAutoStart(*checked),
        MenuChoice::Other => MenuAction::Ignore,
    };
    let save = match action {
        MenuAction::SetBoost(_) => true,
        _ => false,
    };
    MenuOutcome { action, save }
}

/// What the tray shows stays right as long as it is not told to refresh it.
pub proof fn unchanged_states_look_the_same(a: AppState, b: AppState, look: TrayLook)
    requires
        !looks_different(a, b),
        shows(look, a),
    ensures
        shows(look, b),
{
    assert forall|n: int| 0 <= n < ICON_SIZE * ICON_SIZE implies holds_pixel(
        look.icon@,
        n,
        #[trigger] pixel(b, n),
    ) by {
        assert(pixel(a, n) == pixel(b, n));
    }
}

/// Of the boost entries exactly one is checked: that of the boost, where it is a supported level.
pub proof fn one_level_is_checked(config: Config, boost_available: bool)
    requires
        is_boost_level(config.general.mic_boost_db),
    ensures
        ({
            let entries = menu_entries(config, boost_available);
            exists|i: int|
                {
                    &&& 0 <= i < 3
                    &&& #[trigger] BOOST_LEVELS[i] == config.general.mic_boost_db
                    &&& forall|j: int|
                        0 <= j < 3 ==> (#[trigger] entries[5 + j].checked == Some(true) <==> j == i)
                }
        }),
{
    let entries = menu_entries(config, boost_available);
    let i: int = choose|i: int| 0 <= i < 3 && BOOST_LEVELS[i] == config.general.mic_boost_db;
    assert forall|j: int| 0 <= j < 3 implies (#[trigger] entries[5 + j].checked == Some(true)
        <==> j == i) by {
        assert(entries[5 + j] == boost_entry(j, config.general.mic_boost_db, boost_available));
    }
}

/// A level chosen in the menu leaves the state and the configuration in agreement on it.
pub proof fn chosen_boosts_agree(i: int, state: AppState, config: Config)
    requires
        0 <= i < 3,
    ensures
        ({
            let (s, c) = with_boost(state, config, BOOST_LEVELS[i]);
            boosts_agree(s, c)
        }),
{
}

/// The level can be read back from the battery entry and from the tooltip of an open device, and
/// without one neither shows a level.
pub proof fn levels_are_shown(state: AppState)
    ensures
        state.device_open ==> {
            let entry = battery_entry_text(state);
            let tooltip = tooltip_text(state);
            &&& "Battery: "@.is_prefix_of(entry)
            &&& "Corsair Void - Battery: "@.is_prefix_of(tooltip)
            &&& text::around_first(entry.skip("Battery: "@.len() as int), '%') matches Some(
                (digits, rest),
            )
            &&& text::u8_value(digits) == Some(state.battery_percent)
            &&& rest == battery_suffix(state.battery_status)
            &&& text::around_first(
                tooltip.skip("Corsair Void - Battery: "@.len() as int),
                '%',
            ) matches Some((digits, rest))
            &&& text::u8_value(digits) == Some(state.battery_percent)
            &&& rest.len() == 0
        },
        !state.device_open ==> battery_entry_text(state) == "Battery: --"@ && tooltip_text(state)
            == "Corsair Void - Disconnected"@,
{
    if state.device_open {
        reveal_strlit("%");
        let percent = state.battery_percent;
        let suffix = battery_suffix(state.battery_status);
        let none = Seq::<char>::empty();
        assert("%"@ == seq!['%']);
        assert(battery_entry_text(state) == "Battery: "@ + (text::decimal(percent as nat)
            + seq!['%'] + suffix));
        assert(tooltip_text(state) == "Corsair Void - Battery: "@ + (text::decimal(percent as nat)
            + seq!['%'] + none));
        text::lemma_number_reads_back("Battery: "@, percent, '%', suffix);
        text::lemma_number_reads_back("Corsair Void - Battery: "@, percent, '%', none);
    }
}

/// The battery entry names a condition of the battery that is worth naming, and no other.
pub proof fn conditions_are_named(status: BatteryStatus)
    ensures
        battery_suffix(status) == " (Charging)"@ <==> status is Charging,
        battery_suffix(status) == " (Low)"@ <==> status is Low,
        battery_suffix(status) == " (Critical!)"@ <==> status is Critical,
        battery_suffix(status) == " (Full)"@ <==> status is Full,
        battery_suffix(status).len() == 0 <==> status is Normal || status is Disconnected
            || status is Unknown,
{
    reveal_strlit("");
    reveal_strlit(" (Charging)");
    reveal_strlit(" (Low)");
    reveal_strlit(" (Critical!)");
    reveal_strlit(" (Full)");
    assert(" (Charging)"@.len() == 11);
    assert(" (Critical!)"@.len() == 12);
    assert(" (Low)"@.len() == 6);
    assert(" (Full)"@.len() == 7);
}

/// The microphone entry shows an open device as muted exactly if the microphone was last seen up.
pub proof fn the_mic_is_shown(state: AppState)
    ensures
        mic_entry_text(state) == "Mic: --"@ <==> !state.device_open,
        mic_entry_text(state) == "Mic: Muted"@ <==> state.device_open && state.last_mic_up == Some(
            true,
        ),
        mic_entry_text(state) == "Mic: Active"@ <==> state.device_open && state.last_mic_up != Some(
            true,
        ),
{
    reveal_strlit("Mic: --");
    reveal_strlit("Mic: Muted");
    reveal_strlit("Mic: Active");
    assert("Mic: --"@.len() == 7);
    assert("Mic: Muted"@.len() == 10);
    assert("Mic: Active"@.len() == 11);
}

/// A device that is not open is shown without its battery and its microphone: whatever was known of
/// them, the texts are the same.
pub proof fn closed_devices_show_nothing(a: AppState, b: AppState)
    requires
        !a.device_open,
        !b.device_open,
    ensures
        battery_entry_text(a) == battery_entry_text(b),
        mic_entry_text(a) == mic_entry_text(b),
        tooltip_text(a) == tooltip_text(b),
{
}

/// States that are shown the same texts while the device is open have the same battery level.
pub proof fn different_levels_look_different(a: AppState, b: AppState)
    requires
        a.device_open,
        b.device_open,
        battery_entry_text(a) == battery_entry_text(b) || tooltip_text(a) == tooltip_text(b),
    ensures
        a.battery_percent == b.battery_percent,
{
    levels_are_shown(a);
    levels_are_shown(b);
}

/// The menu checks the level that is configured and the auto-start as it is configured, offers the
/// levels exactly where boosting is available, and is otherwise always the same.
pub proof fn the_menu_shows_the_configuration(
    config: Config,
    other: Config,
    available: bool,
    k: int,
)
    requires
        0 <= k < 11,
    ensures
        ({
            let entries = menu_entries(config, available);
            let same = menu_entries(other, available);
            &&& entries.len() == 11
            &&& entries[5].checked == Some(config.general.mic_boost_db == 0)
            &&& entries[6].checked == Some(config.general.mic_boost_db == 5)
            &&& entries[7].checked == Some(config.general.mic_boost_db == 10)
            &&& entries[8].checked == Some(config.general.auto_start)
            &&& entries[k].kind == same[k].kind
            &&& entries[k].text == same[k].text
            &&& entries[k].enabled == same[k].enabled
            &&& entries[k].checked is Some <==> 5 <= k <= 8
            &&& 5 <= k <= 7 ==> entries[k].enabled == available && entries[k].kind
                == EntryKind::Boost((k - 5) as usize)
        }),
{
}

/// The entries of the menu do what they say: a level sets just that level, the auto-start entry sets
/// what it shows now, and only the last entry quits.
pub proof fn choices_do_what_they_say(choice: MenuChoice, level: u8)
    ensures
        chosen_action(choice) == MenuAction::SetBoost(level) <==> {
            ||| choice == MenuChoice::Boost(0) && level == 0
            ||| choice == MenuChoice::Boost(1) && level == 5
            ||| choice == MenuChoice::Boost(2) && level == 10
        },
        chosen_action(choice) is Quit <==> choice is Quit,
        chosen_action(choice) == MenuAction::SetAutoStart(true) <==> choice == (
        MenuChoice::AutoStart { checked: true }),
        chosen_action(choice) == MenuAction::SetAutoStart(false) <==> choice == (
        MenuChoice::AutoStart { checked: false }),
{
    assert(BOOST_LEVELS[0] == 0);
    assert(BOOST_LEVELS[1] == 5);
    assert(BOOST_LEVELS[2] == 10);
}

/// Events that come together are handled like events that come one after the other: handling some
/// and then others is handling all of them, and a single event does what it does alone.
pub proof fn batches_can_be_split(
    start: AppState,
    first: Seq<DeviceEvent>,
    second: Seq<DeviceEvent>,
    control: MuteControl,
)
    ensures
        state_at(start, batch(first + second, control), (first.len() + second.len()) as int)
            == state_at(
            state_at(start, batch(first, control), first.len() as int),
            batch(second, control),
            second.len() as int,
        ),
        second.len() == 1 ==> state_at(
            start,
            batch(first + second, control),
            (first.len() + 1) as int,
        )
            == state_at(start, batch(first, control), first.len() as int).after_event(
            second[0],
            control,
        ),
    decreases second.len(),
{
    let all = batch(first + second, control);
    if second.len() == 0 {
        assert(first + second == first);
    } else {
        let fewer = second.drop_last();
        batches_can_be_split(start, first, fewer, control);
        let n = first.len() + fewer.len();
        lemma_same_prefix(start, all, batch(first + fewer, control), n as int);
        lemma_same_prefix(
            state_at(start, batch(first, control), first.len() as int),
            batch(second, control),
            batch(fewer, control),
            fewer.len() as int,
        );
        assert(all[n as int] == (second.last(), control));
        reveal_with_fuel(state_at, 2);
    }
}

proof fn lemma_same_prefix(start: AppState, a: Trace, b: Trace, n: int)
    requires
        0 <= n <= a.len(),
        n <= b.len(),
        forall|i: int| 0 <= i < n ==> #[trigger] a[i] == b[i],
    ensures
        state_at(start, a, n) == state_at(start, b, n),
    decreases n,
{
    if n > 0 {
        lemma_same_prefix(start, a, b, n - 1);
        assert(a[n - 1] == b[n - 1]);
    }
}

/// The tray is drawn anew exactly when something that it shows has changed, and then it shows the
/// state as it is after the change.
pub proof fn changes_are_shown(before: &AppState, after: &AppState, look: Option<TrayLook>)
    requires
        call_ensures(refresh, (before, after), look),
    ensures
        look is None <==> {
            &&& before.device_open == after.device_open
            &&& before.headset_connected == after.headset_connected
            &&& before.last_mic_up == after.last_mic_up
            &&& before.battery_percent == after.battery_percent
            &&& before.battery_status == after.battery_status
        },
        look matches Some(look) ==> {
            &&& look.text.battery@ == battery_entry_text(*after)
            &&& look.text.mic@ == mic_entry_text(*after)
            &&& look.tooltip@ == tooltip_text(*after)
            &&& look.icon@.len() == 4096
        },
        look matches Some(look) ==> forall|n: int|
            0 <= n < 1024 ==> {
                let p = #[trigger] pixel(*after, n);
                &&& look.icon@[4 * n] == p.r
                &&& look.icon@[4 * n + 1] == p.g
                &&& look.icon@[4 * n + 2] == p.b
                &&& look.icon@[4 * n + 3] == p.a
            },
{
}

/// A level that was chosen is noted in the state and the configuration and saved, and any other
/// choice changes neither.
pub proof fn chosen_levels_are_noted(
    choice: &MenuChoice,
    state: &mut AppState,
    config: &mut Config,
    outcome: MenuOutcome,
)
    requires
        call_ensures(handle_menu_choice, (choice, state, config), outcome),
    ensures
        outcome.save <==> outcome.action is SetBoost,
        outcome.action == match *choice {
            MenuChoice::Quit => MenuAction::Quit,
            MenuChoice::Boost(0) => MenuAction::SetBoost(0),
            MenuChoice::Boost(1) => MenuAction::SetBoost(5),
            MenuChoice::Boost(2) => MenuAction::SetBoost(10),
            MenuChoice::AutoStart { checked } => MenuAction::SetAutoStart(checked),
            _ => MenuAction::Ignore,
        },
        outcome.action matches MenuAction::SetBoost(db) ==> final(state).boost_db == db
            && final(config).general.mic_boost_db == db && final(config).sound == old(config).sound
            && final(config).general.auto_start == old(config).general.auto_start,
        !outcome.save ==> *final(state) == *old(state) && *final(config) == *old(config),
{
    assert(BOOST_LEVELS[0] == 0);
    assert(BOOST_LEVELS[1] == 5);
    assert(BOOST_LEVELS[2] == 10);
}

/// Handling a batch ends in the state that the events lead to one by one, with one outcome for each.
pub proof fn batches_are_handled_in_order(
    state: &mut AppState,
    events: &Vec<DeviceEvent>,
    control: MuteControl,
    outcome: BatchOutcome,
    event: DeviceEvent,
)
    requires
        call_ensures(handle_device_events, (state, events, control), outcome),
        events@.len() > 0,
        events@.last() == event,
    ensures
        outcome.outcomes@.len() == events@.len(),
        *final(state) == state_at(
            *old(state),
            batch(events@.drop_last(), control),
            events@.len() - 1,
        ).after_event(event, control),
        outcome.outcomes@.last() == state_at(
            *old(state),
            batch(events@.drop_last(), control),
            events@.len() - 1,
        ).outcome(event, control),
{
    let fewer = events@.drop_last();
    assert(fewer + seq![event] == events@);
    batches_can_be_split(*old(state), fewer, seq![event], control);
    lemma_same_prefix(
        *old(state),
        batch(events@, control),
        batch(fewer, control),
        fewer.len() as int,
    );
}

} // verus!
