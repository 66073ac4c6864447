//! The headset: events, errors and the choice between the ways to talk to it.

pub mod hid;
pub mod polling;
pub mod protocol;
pub mod sysfs;

use vstd::prelude::*;

use crate::device::protocol::HeadsetStatus;

verus! {

/// What the polling loop reports to the tray.
#[derive(Debug, Clone, Copy, PartialEq, Eq, Structural)]
pub enum DeviceEvent {
    StatusUpdate(HeadsetStatus),
    Connected,
    Disconnected,
}

#[derive(Debug)]
pub enum DeviceError {
    NotFound,
    Communication(String),
}

/// A device error by its contents.
pub enum DeviceErrorView {
    NotFound,
    Communication(Seq<char>),
}

impl View for DeviceError {
    type V = DeviceErrorView;

    open spec fn view(&self) -> DeviceErrorView {
        match self {
            DeviceError::NotFound => DeviceErrorView::NotFound,
            DeviceError::Communication(msg) => DeviceErrorView::Communication(msg@),
        }
    }
}

/// The message of a device error.
pub open spec fn device_error_text(e: DeviceErrorView) -> Seq<char> {
    match e {
        DeviceErrorView::NotFound => "Headset not found"@,
        DeviceErrorView::Communication(msg) => "Communication error: "@ + msg,
    }
}

impl DeviceError {
    pub fn to_string(&self) -> (r: String)
        ensures
            r@ == device_error_text(self@),
    {
        match self {
            DeviceError::NotFound => "Headset not found".to_owned(),
            DeviceError::Communication(msg) => {
                let mut out = "Communication error: ".to_owned();
                out.append(msg.as_str());
                out
            },
        }
    }
}

/// Abstraction over the ways to talk to the headset. On Linux this lets the polling loop and the
/// command line use the `hid-corsair-void` kernel driver via sysfs when it owns the HID
/// interface, and direct HID access otherwise.
pub trait DeviceBackend: Send {
    fn request_status(&self) -> Result<(), DeviceError>;

    fn request_notifications(&self) -> Result<(), DeviceError>;

    /// Blocks up to `timeout_ms` and returns the latest status, or `None` if nothing new arrived
    /// within the timeout.
    fn read_status(&mut self, timeout_ms: i32) -> Result<Option<HeadsetStatus>, DeviceError>;

    /// Whether this backend relies on pushed reports that can silently go stale, for instance on
    /// a dongle handle after sleep, so that the polling loop has to check on it. Backends that
    /// read live state on demand opt out: they may have nothing new to report for a long time.
    fn needs_health_check(&self) -> (r: bool)
        default_ensures
            r,
    {
        true
    }
}

/// The ways to talk to the headset.
#[derive(Debug, Clone, Copy, PartialEq, Eq, Structural)]
pub enum BackendKind {
    Sysfs,
    Hid,
}

impl BackendKind {
    /// Whether the polling loop has to check that the backend still answers: a dongle handle can
    /// go stale, sysfs attributes are read live.
    pub fn needs_health_check(&self) -> (r: bool)
        ensures
            r == (*self is Hid),
    {
        match self {
            BackendKind::Sysfs => false,
            BackendKind::Hid => true,
        }
    }
}

/// What has happened so far while a backend is being opened.
#[derive(Debug)]
pub enum BackendEvent {
    /// Nothing was tried yet; tells whether the kernel driver exposes its attributes. Always
    /// `false` where there is no such driver.
    Start { sysfs_available: bool },
    SysfsOpened(Result<(), DeviceError>),
    HidOpened(Result<(), DeviceError>),
}

/// What to do next to open a backend.
#[derive(Debug)]
pub enum BackendAction {
    OpenSysfs,
    OpenHid,
    Use(BackendKind),
    Fail(DeviceError),
}

/// Opens the best available backend: sysfs when the kernel driver is bound, because HID access
/// finds the interface busy then, and HID access otherwise or when sysfs fails to open.
pub fn open_device_backend(event: BackendEvent) -> (r: BackendAction)
    ensures
        match event {
            BackendEvent::Start { sysfs_available } => if sysfs_available {
                r is OpenSysfs
            } else {
                r is OpenHid
            },
            BackendEvent::SysfsOpened(Ok(())) => r == BackendAction::Use(BackendKind::Sysfs),
            BackendEvent::SysfsOpened(Err(_)) => r is OpenHid,
            BackendEvent::HidOpened(Ok(())) => r == BackendAction::Use(BackendKind::Hid),
            BackendEvent::HidOpened(Err(e)) => r == BackendAction::Fail(e),
        },
{
    match event {
        BackendEvent::Start { sysfs_available } => if sysfs_available {
            BackendAction::OpenSysfs
        } else {
            BackendAction::OpenHid
        },
        BackendEvent::SysfsOpened(Ok(())) => BackendAction::Use(BackendKind::Sysfs),
        BackendEvent::SysfsOpened(Err(_)) => BackendAction::OpenHid,
        BackendEvent::HidOpened(Ok(())) => BackendAction::Use(BackendKind::Hid),
        BackendEvent::HidOpened(Err(e)) => BackendAction::Fail(e),
    }
}

/// The text of a communication error ends with the message, so different messages give different
/// texts.
pub proof fn error_texts_hold_the_message(a: Seq<char>, b: Seq<char>)
    ensures
        ({
            let text = device_error_text(DeviceErrorView::Communication(a));
            let other = device_error_text(DeviceErrorView::Communication(b));
            &&& text.len() >= a.len()
            &&& text.skip(text.len() - a.len()) == a
            &&& text == other ==> a == b
        }),
{
    let text = device_error_text(DeviceErrorView::Communication(a));
    let other = device_error_text(DeviceErrorView::Communication(b));
    assert(text.skip(text.len() - a.len()) == a);
    assert(other.skip(other.len() - b.len()) == b);
}

/// A backend is used only once it was opened, the kernel driver's first where it is there, and HID
/// access wherever that cannot be used.
pub proof fn backends_are_tried_in_turn(event: BackendEvent, action: BackendAction)
    requires
        call_ensures(open_device_backend, (event,), action),
    ensures
        action is OpenSysfs <==> event == (BackendEvent::Start { sysfs_available: true }),
        action == BackendAction::Use(BackendKind::Sysfs) <==> (event matches
            BackendEvent::SysfsOpened(Ok(_))),
        action == BackendAction::Use(BackendKind::Hid) <==> (event matches BackendEvent::HidOpened(
            Ok(_),
        )),
        action is Fail <==> (event matches BackendEvent::HidOpened(Err(_))),
{
}

} // verus!
