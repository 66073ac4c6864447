//! Talking to the dongle in HID reports.

use vstd::prelude::*;

use crate::device::protocol::{
    status_of_report, HeadsetStatus, NOTIF_REQUEST_CMD, REPORT_SIZE, STATUS_REPORT_ID,
    STATUS_REQUEST_CMD, USAGE_PAGE, VENDOR_ID, WIRELESS_PRODUCT_IDS,
};
use crate::device::{DeviceError, DeviceErrorView};

verus! {

/// What the HID enumeration tells about an interface.
#[derive(Debug, Clone, Copy, PartialEq, Eq, Structural)]
pub struct HidInfo {
    pub vendor_id: u16,
    pub product_id: u16,
    pub usage_page: u16,
}

/// The interface is the vendor-specific one of a supported wireless dongle.
pub open spec fn is_dongle(info: HidInfo) -> bool {
    &&& info.vendor_id == VENDOR_ID
    &&& WIRELESS_PRODUCT_IDS@.contains(info.product_id)
    &&& info.usage_page == USAGE_PAGE
}

/// `i` is the position of the first dongle interface in `devices`.
pub open spec fn is_first_dongle(devices: Seq<HidInfo>, i: int) -> bool {
    &&& 0 <= i < devices.len()
    &&& is_dongle(devices[i])
    &&& forall|j: int| 0 <= j < i ==> !is_dongle(#[trigger] devices[j])
}

/// The output report that sends `cmd`: the command, the status report ID and zeros.
pub open spec fn command_report(cmd: u8) -> Seq<u8> {
    Seq::new(
        REPORT_SIZE as nat,
        |i: int|
            if i == 0 {
                cmd
            } else if i == 1 {
                STATUS_REPORT_ID
            } else {
                0
            },
    )
}

fn supported_product(product_id: u16) -> (r: bool)
    ensures
        r == WIRELESS_PRODUCT_IDS@.contains(product_id),
{
    let ids = WIRELESS_PRODUCT_IDS;
    for i in 0..ids.len()
        invariant
            ids@ == WIRELESS_PRODUCT_IDS@,
            forall|j: int| 0 <= j < i ==> ids@[j] != product_id,
    {
        if ids[i] == product_id {
            return true;
        }
    }
    false
}

fn supported(info: &HidInfo) -> (r: bool)
    ensures
        r == is_dongle(*info),
{
    info.vendor_id == VENDOR_ID && supported_product(info.product_id) && info.usage_page
        == USAGE_PAGE
}

/// The position of the first dongle interface, if there is one.
fn first_dongle(devices: &Vec<HidInfo>) -> (r: Option<usize>)
    ensures
        match r {
            Some(i) => is_first_dongle(devices@, i as int),
            None => forall|j: int| 0 <= j < devices.len() ==> !is_dongle(#[trigger] devices[j]),
        },
{
    for i in 0..devices.len()
        invariant
            forall|j: int| 0 <= j < i ==> !is_dongle(#[trigger] devices[j]),
    {
        if supported(&devices[i]) {
            return Some(i);
        }
    }
    None
}

fn send_command(cmd: u8) -> (r: [u8; REPORT_SIZE])
    ensures
        r@ == command_report(cmd),
{
    let r: [u8; REPORT_SIZE] = [cmd, STATUS_REPORT_ID, 0, 0, 0, 0, 0, 0, 0, 0, 0, 0];
    assert(r@ == command_report(cmd));
    r
}

/// The HID backend: which interface to open, what to write to it and what a read means.
pub struct HidBackend;

impl HidBackend {
    /// The position of the interface to open, the first that belongs to a supported dongle.
    /// `devices` is the HID enumeration, or the message of the error that kept it from being
    /// made.
    pub fn open(devices: &Result<Vec<HidInfo>, String>) -> (r: Result<usize, DeviceError>)
        ensures
            match devices {
                Ok(list) => match r {
                    Ok(i) => is_first_dongle(list@, i as int),
                    Err(e) => e is NotFound && forall|j: int|
                        0 <= j < list@.len() ==> !is_dongle(#[trigger] list@[j]),
                },
                Err(msg) => r matches Err(e) && e@ == DeviceErrorView::Communication(msg@),
            },
    {
        match devices {
            Ok(list) => match first_dongle(list) {
                Some(i) => Ok(i),
                None => Err(DeviceError::NotFound),
            },
            Err(msg) => Err(DeviceError::Communication(msg.clone())),
        }
    }

    /// The report that asks for a status report.
    pub fn request_status() -> (r: [u8; REPORT_SIZE])
        ensures
            r@ == command_report(STATUS_REQUEST_CMD),
    {
        send_command(STATUS_REQUEST_CMD)
    }

    /// The report that asks the dongle to notify of status changes.
    pub fn request_notifications() -> (r: [u8; REPORT_SIZE])
        ensures
            r@ == command_report(NOTIF_REQUEST_CMD),
    {
        send_command(NOTIF_REQUEST_CMD)
    }

    /// What a read into `buf` has brought. `read` is the number of bytes read, zero on a timeout,
    /// or the message of the error. Gives `None` on a timeout and for anything that is not a
    /// status report.
    pub fn read_status(buf: &[u8], read: &Result<usize, String>) -> (r: Result<
        Option<HeadsetStatus>,
        DeviceError,
    >)
        requires
            read matches Ok(n) ==> n <= buf.len(),
        ensures
            match read {
                Ok(n) => r matches Ok(status) && status == status_of_report(buf@.take(*n as int)),
                Err(msg) => r matches Err(e) && e@ == DeviceErrorView::Communication(msg@),
            },
    {
        match read {
            Ok(n) => {
                let n: usize = *n;
                if n == 0 {
                    return Ok(None);
                }
                let data = vstd::slice::slice_subrange(buf, 0, n);
                Ok(HeadsetStatus::from_report(data))
            },
            Err(msg) => Err(DeviceError::Communication(msg.clone())),
        }
    }
}

/// An interface of another vendor, of another product or with another usage page is never
/// opened.
pub proof fn only_dongles_are_opened(devices: Seq<HidInfo>, i: int)
    requires
        is_first_dongle(devices, i),
    ensures
        devices[i].vendor_id == VENDOR_ID,
        WIRELESS_PRODUCT_IDS@.contains(devices[i].product_id),
        devices[i].usage_page == USAGE_PAGE,
{
}

/// An interface belongs to a dongle exactly if it is Corsair's, has one of the nine products and the
/// vendor's usage page.
pub proof fn dongles_are_recognized(info: HidInfo)
    ensures
        is_dongle(info) <==> {
            let p = info.product_id;
            &&& info.vendor_id == 0x1b1c
            &&& info.usage_page == 0xffc5
            &&& p == 0x0a0c || p == 0x0a2b || p == 0x1b23 || p == 0x0a14 || p == 0x0a16 || p
                == 0x0a1a || p == 0x0a51 || p == 0x0a55 || p == 0x0a75
        },
{
    let ids = WIRELESS_PRODUCT_IDS;
    assert(ids@[0] == 0x0a0c);
    assert(ids@[1] == 0x0a2b);
    assert(ids@[2] == 0x1b23);
    assert(ids@[3] == 0x0a14);
    assert(ids@[4] == 0x0a16);
    assert(ids@[5] == 0x0a1a);
    assert(ids@[6] == 0x0a51);
    assert(ids@[7] == 0x0a55);
    assert(ids@[8] == 0x0a75);
}

/// A dongle is opened wherever it stands among the interfaces, and the first one at that.
pub proof fn dongles_are_found(
    devices: &Result<Vec<HidInfo>, String>,
    opened: Result<usize, DeviceError>,
    k: int,
)
    requires
        call_ensures(HidBackend::open, (devices,), opened),
        devices matches Ok(list) && 0 <= k < list@.len() && is_dongle(list@[k]),
    ensures
        opened matches Ok(i) && i <= k,
{
}

/// A command is sent with the status report's ID behind it and zeros up to the size of a report.
pub proof fn commands_are_padded(cmd: u8, i: int)
    requires
        2 <= i < 12,
    ensures
        command_report(cmd).len() == 12,
        command_report(cmd)[0] == cmd,
        command_report(cmd)[1] == 0x64,
        command_report(cmd)[i] == 0,
{
}

/// Only the bytes that were read count: what else is in the buffer does not matter, and less than
/// five bytes are no status.
pub proof fn only_what_was_read_counts(
    a: &[u8],
    b: &[u8],
    n: usize,
    from_a: Result<Option<HeadsetStatus>, DeviceError>,
    from_b: Result<Option<HeadsetStatus>, DeviceError>,
)
    requires
        n <= a@.len(),
        n <= b@.len(),
        a@.take(n as int) == b@.take(n as int),
        call_ensures(HidBackend::read_status, (a, &Ok(n)), from_a),
        call_ensures(HidBackend::read_status, (b, &Ok(n)), from_b),
    ensures
        from_a == from_b,
        from_a is Ok,
        n < 5 ==> from_a == Ok::<_, DeviceError>(None::<HeadsetStatus>),
        n >= 5 && a@[0] == 0x64 ==> (from_a matches Ok(Some(_))),
{
}

} // verus!
