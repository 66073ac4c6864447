//! The headset as the `hid-corsair-void` kernel driver shows it in sysfs.

use vstd::prelude::*;

use crate::device::protocol::{
    at_most, BatteryStatus, ConnectionStatus, HeadsetStatus, LOW_BATTERY_THRESHOLD,
};
use crate::device::{DeviceError, DeviceErrorView};
use crate::text;

verus! {

/// An entry of the driver's directory.
#[derive(Debug)]
pub struct SysfsEntry {
    pub path: String,
    /// Whether the entry has the attribute `microphone_up`.
    pub has_microphone_up: bool,
}

/// Some entry has the attribute.
pub open spec fn has_headset(entries: Seq<SysfsEntry>) -> bool {
    exists|k: int| 0 <= k < entries.len() && (#[trigger] entries[k]).has_microphone_up
}

/// `i` is the position of the first entry that has the attribute.
pub open spec fn is_first_headset(entries: Seq<SysfsEntry>, i: int) -> bool {
    &&& 0 <= i < entries.len()
    &&& entries[i].has_microphone_up
    &&& forall|j: int| 0 <= j < i ==> !(#[trigger] entries[j]).has_microphone_up
}

/// The first entry with the attribute, if there is one.
fn first_headset(entries: &Vec<SysfsEntry>) -> (r: Option<usize>)
    ensures
        match r {
            Some(i) => is_first_headset(entries@, i as int),
            None => !has_headset(entries@),
        },
{
    for i in 0..entries.len()
        invariant
            forall|j: int| 0 <= j < i ==> !(#[trigger] entries[j]).has_microphone_up,
    {
        if entries[i].has_microphone_up {
            return Some(i);
        }
    }
    None
}

/// Whether the kernel driver exposes its attributes. `listing` holds the entries of the driver's
/// directory, or the message of the error that kept it from being read.
pub fn sysfs_available(listing: &Result<Vec<SysfsEntry>, String>) -> (r: bool)
    ensures
        r == (listing matches Ok(entries) && has_headset(entries@)),
{
    match listing {
        Ok(entries) => first_headset(entries).is_some(),
        Err(_) => false,
    }
}

/// The attribute value stands for "yes".
pub open spec fn attr_is_set(value: Seq<char>) -> bool {
    text::trimmed(value) == "1"@
}

/// The status that the three attribute values describe; `battery` is the number that the
/// capacity stands for.
pub open spec fn status_of_attrs(
    mic: Seq<char>,
    battery: u8,
    charging: Seq<char>,
) -> HeadsetStatus {
    HeadsetStatus {
        mic_up: attr_is_set(mic),
        battery_percent: at_most(battery, 100),
        battery_status: if attr_is_set(charging) {
            BatteryStatus::Charging
        } else if battery <= LOW_BATTERY_THRESHOLD {
            BatteryStatus::Low
        } else {
            BatteryStatus::Normal
        },
        connection: ConnectionStatus::WirelessConnected,
    }
}

/// What is reported of the state `status` after `last`: the state, if it is a change.
pub open spec fn report_of(last: Option<HeadsetStatus>, status: HeadsetStatus) -> Option<
    HeadsetStatus,
> {
    if last == Some(status) {
        None
    } else {
        Some(status)
    }
}

/// The text of the error with which `str::parse::<u8>` refuses `s`, empty where it does not.
pub uninterp spec fn refusal_text(s: Seq<char>) -> Seq<char>;

/// Calls `str::parse::<u8>` and gives the text of its error, empty where there is none. The text
/// depends on `s` alone; the contract says nothing else of it.
#[verifier::external_body]
fn u8_refusal(s: &str) -> (r: String)
    ensures
        r@ == refusal_text(s@),
{
    match s.parse::<u8>() {
        Ok(_) => String::new(),
        Err(e) => e.to_string(),
    }
}

/// The headset behind one sysfs directory.
#[derive(Debug)]
pub struct SysfsBackend {
    pub device_path: String,
    /// The last status returned, so that the polling loop sees changes only.
    pub last: Option<HeadsetStatus>,
}

impl SysfsBackend {
    /// Finds the directory of the headset, the first entry with the attribute `microphone_up`.
    pub fn open(listing: &Result<Vec<SysfsEntry>, String>) -> (r: Result<Self, DeviceError>)
        ensures
            match listing {
                Ok(entries) => match r {
                    Ok(backend) => {
                        &&& backend.last is None
                        &&& exists|i: int| #[trigger]
                            is_first_headset(entries@, i) && backend.device_path@
                                == entries[i].path@
                    },
                    Err(e) => e is NotFound && !has_headset(entries@),
                },
                Err(msg) => r matches Err(e) && e@ == DeviceErrorView::Communication(msg@),
            },
    {
        match listing {
            Ok(entries) => match first_headset(entries) {
                Some(i) => Ok(SysfsBackend { device_path: entries[i].path.clone(), last: None }),
                None => Err(DeviceError::NotFound),
            },
            Err(msg) => Err(DeviceError::Communication(msg.clone())),
        }
    }

    /// The state that the attributes `microphone_up`, `battery_capacity` and `battery_charging`
    /// describe. Each is the attribute's text or the error of reading it; the first failure in
    /// this order is the result.
    pub fn read_current(
        microphone_up: Result<String, DeviceError>,
        battery_capacity: Result<String, DeviceError>,
        battery_charging: Result<String, DeviceError>,
    ) -> (r: Result<HeadsetStatus, DeviceError>)
        ensures
            match (microphone_up, battery_capacity, battery_charging) {
                (Err(e), _, _) => r == Err::<HeadsetStatus, _>(e),
                (Ok(_), Err(e), _) => r == Err::<HeadsetStatus, _>(e),
                (Ok(mic), Ok(capacity), charging) => match text::u8_value(
                    text::trimmed(capacity@),
                ) {
                    None => r matches Err(e) && e@ == DeviceErrorView::Communication(
                        refusal_text(text::trimmed(capacity@)),
                    ),
                    Some(battery) => match charging {
                        Err(e) => r == Err::<HeadsetStatus, _>(e),
                        Ok(charging) => r == Ok::<_, DeviceError>(
                            status_of_attrs(mic@, battery, charging@),
                        ),
                    },
                },
            },
    {
        let mic_up = match Self::read_attr_bool(microphone_up) {
            Ok(b) => b,
            Err(e) => return Err(e),
        };
        let battery_percent: u8 = match Self::read_attr_u8(battery_capacity) {
            Ok(b) => b,
            Err(e) => return Err(e),
        };
        let charging = match Self::read_attr_bool(battery_charging) {
            Ok(b) => b,
            Err(e) => return Err(e),
        };
        let battery_status = if charging {
            BatteryStatus::Charging
        } else if battery_percent <= LOW_BATTERY_THRESHOLD {
            BatteryStatus::Low
        } else {
            BatteryStatus::Normal
        };
        Ok(
            HeadsetStatus {
                mic_up,
                battery_percent: if battery_percent <= 100 { battery_percent } else { 100 },
                battery_status,
                connection: ConnectionStatus::WirelessConnected,
            },
        )
    }

    /// An attribute that is "1" for "yes", up to white space around it.
    pub fn read_attr_bool(value: Result<String, DeviceError>) -> (r: Result<bool, DeviceError>)
        ensures
            match value {
                Ok(v) => r == Ok::<_, DeviceError>(attr_is_set(v@)),
                Err(e) => r == Err::<bool, _>(e),
            },
    {
        match value {
            Ok(v) => Ok(text::equal(text::trim(v.as_str()), "1")),
            Err(e) => Err(e),
        }
    }

    /// An attribute that is a number from 0 to 255, up to white space around it.
    pub fn read_attr_u8(value: Result<String, DeviceError>) -> (r: Result<u8, DeviceError>)
        ensures
            match value {
                Ok(v) => match text::u8_value(text::trimmed(v@)) {
                    Some(n) => r == Ok::<_, DeviceError>(n),
                    None => r matches Err(e) && e@ == DeviceErrorView::Communication(
                        refusal_text(text::trimmed(v@)),
                    ),
                },
                Err(e) => r == Err::<u8, _>(e),
            },
    {
        match value {
            Ok(v) => {
                let trimmed = text::trim(v.as_str());
                match text::parse_u8(trimmed) {
                    Some(n) => Ok(n),
                    None => Err(DeviceError::Communication(u8_refusal(trimmed))),
                }
            },
            Err(e) => Err(e),
        }
    }

    /// Reports the current state if it differs from the last one reported.
    pub fn read_status(&mut self, current: Result<HeadsetStatus, DeviceError>) -> (r: Result<
        Option<HeadsetStatus>,
        DeviceError,
    >)
        ensures
            final(self).device_path == old(self).device_path,
            match current {
                Ok(status) => {
                    &&& final(self).last == Some(status)
                    &&& r == Ok::<_, DeviceError>(report_of(old(self).last, status))
                },
                Err(e) => {
                    &&& final(self).last == old(self).last
                    &&& r == Err::<Option<HeadsetStatus>, _>(e)
                },
            },
    {
        match current {
            Ok(status) => {
                let unchanged = match self.last {
                    Some(last) => last == status,
                    None => false,
                };
                if unchanged {
                    Ok(None)
                } else {
                    self.last = Some(status);
                    Ok(Some(status))
                }
            },
            Err(e) => Err(e),
        }
    }
}

/// What is reported of a sequence of readings.
pub open spec fn reported(last: Option<HeadsetStatus>, readings: Seq<HeadsetStatus>) -> Seq<
    HeadsetStatus,
>
    decreases readings.len(),
{
    if readings.len() == 0 {
        Seq::empty()
    } else {
        let rest = reported(Some(readings[0]), readings.drop_first());
        match report_of(last, readings[0]) {
            Some(status) => seq![status] + rest,
            None => rest,
        }
    }
}

/// The kernel driver counts as available exactly when there is a first headset to open.
pub proof fn available_means_it_opens(entries: Seq<SysfsEntry>)
    ensures
        has_headset(entries) <==> exists|i: int| is_first_headset(entries, i),
{
    if has_headset(entries) {
        let k = choose|k: int| 0 <= k < entries.len() && (#[trigger] entries[k]).has_microphone_up;
        lemma_first(entries, k);
    }
}

proof fn lemma_first(entries: Seq<SysfsEntry>, k: int)
    requires
        0 <= k < entries.len(),
        entries[k].has_microphone_up,
    ensures
        exists|i: int| is_first_headset(entries, i),
    decreases k,
{
    if exists|j: int| 0 <= j < k && (#[trigger] entries[j]).has_microphone_up {
        let j = choose|j: int| 0 <= j < k && (#[trigger] entries[j]).has_microphone_up;
        lemma_first(entries, j);
    } else {
        assert(is_first_headset(entries, k));
    }
}

/// Two reports in a row are never the same, and the first is not the one before them.
pub proof fn reports_are_changes(last: Option<HeadsetStatus>, readings: Seq<HeadsetStatus>, i: int)
    requires
        0 <= i < reported(last, readings).len(),
    ensures
        i == 0 ==> last != Some(reported(last, readings)[0]),
        i > 0 ==> reported(last, readings)[i] != reported(last, readings)[i - 1],
    decreases readings.len(),
{
    if readings.len() > 0 {
        let first = readings[0];
        let rest = reported(Some(first), readings.drop_first());
        if last == Some(first) {
            reports_are_changes(Some(first), readings.drop_first(), i);
        } else if i > 0 {
            reports_are_changes(Some(first), readings.drop_first(), i - 1);
        }
    }
}

/// The attributes are taken over: the level as it is, up to 100, the microphone and the charging as
/// they are set. A battery that is not charging is low at 20 % and less, and normal above.
pub proof fn attributes_are_taken_over(mic: Seq<char>, battery: u8, charging: Seq<char>)
    ensures
        ({
            let status = status_of_attrs(mic, battery, charging);
            &&& battery <= 100 ==> status.battery_percent == battery
            &&& battery > 100 ==> status.battery_percent == 100
            &&& status.mic_up == (text::trimmed(mic) == seq!['1'])
            &&& status.battery_status is Charging <==> text::trimmed(charging) == seq!['1']
            &&& status.battery_status is Low <==> battery <= 20 && text::trimmed(charging)
                != seq!['1']
            &&& status.battery_status is Normal <==> battery > 20 && text::trimmed(charging)
                != seq!['1']
            &&& status.connection is WirelessConnected
        }),
{
    reveal_strlit("1");
    assert("1"@ == seq!['1']);
}

/// A status is reported exactly if it is not the one before, and as it is.
pub proof fn changes_are_reported(last: Option<HeadsetStatus>, status: HeadsetStatus)
    ensures
        report_of(last, status) is None <==> last == Some(status),
        report_of(last, status) is Some ==> report_of(last, status) == Some(status),
{
}

/// After any number of readings the last of them is known: it is the last report, or, where nothing
/// was reported, the status that was known before.
pub proof fn the_last_reading_is_known(last: Option<HeadsetStatus>, readings: Seq<HeadsetStatus>)
    requires
        readings.len() > 0,
    ensures
        ({
            let reports = reported(last, readings);
            if reports.len() == 0 {
                last == Some(readings.last())
            } else {
                reports.last() == readings.last()
            }
        }),
    decreases readings.len(),
{
    let rest = readings.drop_first();
    if rest.len() > 0 {
        the_last_reading_is_known(Some(readings[0]), rest);
        assert(rest.last() == readings.last());
        let later = reported(Some(readings[0]), rest);
        if later.len() > 0 {
            assert(reported(last, readings).last() == later.last());
        }
    } else {
        assert(reported(Some(readings[0]), rest).len() == 0);
    }
}

/// The text of an attribute is read as it is, but for the white space around it: a number from 0 to
/// 255 is that number.
pub proof fn numbers_are_read(value: Result<String, DeviceError>, read: Result<u8, DeviceError>)
    requires
        call_ensures(SysfsBackend::read_attr_u8, (value,), read),
    ensures
        value matches Ok(v) ==> (read matches Ok(n) ==> text::u8_value(text::trimmed(v@)) == Some(
            n,
        )),
        value matches Ok(v) ==> (text::u8_value(text::trimmed(v@)) is Some ==> read is Ok),
        value is Err ==> read is Err,
{
}

/// The three attributes are read into one status, and a number is needed for it only where the level
/// stands.
pub proof fn readings_are_taken_over(
    mic: String,
    capacity: String,
    charging: String,
    battery: u8,
    read: Result<HeadsetStatus, DeviceError>,
)
    requires
        call_ensures(SysfsBackend::read_current, (Ok(mic), Ok(capacity), Ok(charging)), read),
        text::trimmed(capacity@) == text::decimal(battery as nat),
    ensures
        read matches Ok(status) && {
            &&& status.mic_up == (text::trimmed(mic@) == seq!['1'])
            &&& battery <= 100 ==> status.battery_percent == battery
            &&& battery > 100 ==> status.battery_percent == 100
            &&& status.battery_status is Charging <==> text::trimmed(charging@) == seq!['1']
        },
{
    text::lemma_decimal_reads_back(battery);
    attributes_are_taken_over(mic@, battery, charging@);
}

/// A status that was read is remembered, and returned exactly if it is another than the one
/// remembered; a failure to read changes nothing.
pub proof fn statuses_are_remembered(
    backend: &mut SysfsBackend,
    current: Result<HeadsetStatus, DeviceError>,
    read: Result<Option<HeadsetStatus>, DeviceError>,
)
    requires
        call_ensures(SysfsBackend::read_status, (backend, current), read),
    ensures
        current matches Ok(status) ==> {
            &&& final(backend).last == Some(status)
            &&& read == Ok::<_, DeviceError>(Some(status)) <==> old(backend).last != Some(status)
            &&& read == Ok::<_, DeviceError>(None::<HeadsetStatus>) <==> old(backend).last == Some(
                status,
            )
        },
        current is Err ==> read is Err && final(backend).last == old(backend).last,
        final(backend).device_path == old(backend).device_path,
{
}

} // verus!
