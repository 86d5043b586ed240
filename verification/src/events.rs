//! The event queue of the message pump, and what the window messages mean.

use vstd::prelude::*;

verus! {

/// The connection state changed.
pub const CONNECTION_EVENT: &'static str = "__connection";

/// Companion of the above for the first enumeration: repaints the status, but
/// skips the reconnect recovery.
pub const CONNECTION_INIT_EVENT: &'static str = "__connection_init";

/// The display topology changed.
pub const CHANGED_EVENT: &'static str = "__display_changed";

/// The system resumed from sleep.
pub const RESUME_EVENT: &'static str = "__resumed";

/// An HID device interface arrived or was removed.
pub const DEVICE_EVENT: &'static str = "__device_event";

/// The delayed second pass of monitor recovery is due.
pub const RESTORE_PUSH_EVENT: &'static str = "__restore_push";

/// The panel window is live and wants the current state.
pub const PANEL_READY_EVENT: &'static str = "__panel_ready";

/// Prefix of the reason why an engine gave up on its own.
pub const ENGINE_FAILED_EVENT: &'static str = "__engine_failed;";

/// Events received but not yet dispatched, oldest first.
pub struct EventQueue {
    pending: Vec<String>,
}

impl View for EventQueue {
    type V = Seq<String>;

    closed spec fn view(&self) -> Seq<String> {
        self.pending@
    }
}

impl EventQueue {
    pub fn new() -> (queue: EventQueue)
        ensures
            queue@ == Seq::<String>::empty(),
    {
        EventQueue { pending: Vec::new() }
    }

    /// Queues an event.
    pub fn send(&mut self, event: String)
        ensures
            final(self)@ == old(self)@.push(event),
    {
        self.pending.push(event);
    }
}

/// Events queued since the last call, in arrival order.
pub fn drain(queue: &mut EventQueue) -> (events: Vec<String>)
    ensures
        events@ == old(queue)@,
        final(queue)@ == Seq::<String>::empty(),
{
    let mut events: Vec<String> = Vec::new();
    std::mem::swap(&mut events, &mut queue.pending);
    events
}

pub const WM_DISPLAYCHANGE: u32 = 0x007E;

pub const WM_POWERBROADCAST: u32 = 0x0218;

pub const WM_DEVICECHANGE: u32 = 0x0219;

pub const DBT_DEVICEARRIVAL: u64 = 0x8000;

pub const DBT_DEVICEREMOVECOMPLETE: u64 = 0x8004;

pub const DBT_DEVTYP_DEVICEINTERFACE: u32 = 5;

pub const PBT_APMRESUMESUSPEND: u64 = 0x0007;

pub const PBT_APMRESUMEAUTOMATIC: u64 = 0x0012;

/// What a window message asks for.
#[derive(Clone, Copy, PartialEq, Eq, Debug, Structural)]
pub enum Notice {
    /// The display topology changed; answer 0.
    DisplayChanged,
    /// An HID interface came or went; answer 1.
    DeviceChanged,
    /// The system is back from sleep; answer 1.
    Resumed,
    /// Nothing to do; answer 1.
    Handled,
    /// Not ours: default processing.
    Default,
}

/// What a window message means.
pub open spec fn meaning(msg: u32, wparam: u64, device_type: Option<u32>) -> Notice {
    let arrived = wparam == DBT_DEVICEARRIVAL || wparam == DBT_DEVICEREMOVECOMPLETE;
    let resumed = wparam == PBT_APMRESUMEAUTOMATIC || wparam == PBT_APMRESUMESUSPEND;
    if msg == WM_DISPLAYCHANGE {
        Notice::DisplayChanged
    } else if msg == WM_DEVICECHANGE && arrived && device_type == Some(
        DBT_DEVTYP_DEVICEINTERFACE,
    ) {
        Notice::DeviceChanged
    } else if msg == WM_POWERBROADCAST && resumed {
        Notice::Resumed
    } else if msg == WM_DEVICECHANGE || msg == WM_POWERBROADCAST {
        Notice::Handled
    } else {
        Notice::Default
    }
}

/// The messages by their numbers: 0x7E is a display change; 0x219 a device
/// change, which counts for arrivals (0x8000) and removals (0x8004) of device
/// interfaces (5); 0x218 a power change, which counts for the two resumes (7 and
/// 0x12). Everything else is left to the system.
pub proof fn messages_are_known_by_number(msg: u32, wparam: u64, device_type: Option<u32>)
    ensures
        ({
            let notice = meaning(msg, wparam, device_type);
            &&& notice == Notice::DisplayChanged <==> msg == 0x7E
            &&& notice == Notice::DeviceChanged <==> msg == 0x219 && (wparam == 0x8000 || wparam
                == 0x8004) && device_type == Some(5u32)
            &&& notice == Notice::Resumed <==> msg == 0x218 && (wparam == 7 || wparam == 0x12)
            &&& notice == Notice::Default <==> msg != 0x7E && msg != 0x218 && msg != 0x219
        }),
{
}

/// What a window message means. `device_type` is the kind of device that a
/// device message is about, when it carries one. Other device kinds than
/// interfaces are noise.
pub fn notice_of(msg: u32, wparam: u64, device_type: Option<u32>) -> (notice: Notice)
    ensures
        notice == meaning(msg, wparam, device_type),
        msg == WM_DISPLAYCHANGE ==> notice == Notice::DisplayChanged,
        msg == WM_DEVICECHANGE ==> notice == (if (wparam == DBT_DEVICEARRIVAL || wparam
            == DBT_DEVICEREMOVECOMPLETE) && device_type == Some(DBT_DEVTYP_DEVICEINTERFACE) {
            Notice::DeviceChanged
        } else {
            Notice::Handled
        }),
        msg == WM_POWERBROADCAST ==> notice == (if wparam == PBT_APMRESUMEAUTOMATIC || wparam
            == PBT_APMRESUMESUSPEND {
            Notice::Resumed
        } else {
            Notice::Handled
        }),
        msg != WM_DISPLAYCHANGE && msg != WM_DEVICECHANGE && msg != WM_POWERBROADCAST ==> notice
            == Notice::Default,
{
    if msg == WM_DISPLAYCHANGE {
        Notice::DisplayChanged
    } else if msg == WM_DEVICECHANGE {
        let interface = match device_type {
            Some(kind) => kind == DBT_DEVTYP_DEVICEINTERFACE,
            None => false,
        };
        if (wparam == DBT_DEVICEARRIVAL || wparam == DBT_DEVICEREMOVECOMPLETE) && interface {
            Notice::DeviceChanged
        } else {
            Notice::Handled
        }
    } else if msg == WM_POWERBROADCAST {
        if wparam == PBT_APMRESUMEAUTOMATIC || wparam == PBT_APMRESUMESUSPEND {
            Notice::Resumed
        } else {
            Notice::Handled
        }
    } else {
        Notice::Default
    }
}

/// Does the message pump go on? The message call returns a positive number for a
/// message, 0 at the end and -1 on an error, which ends the pump too.
pub fn keeps_pumping(got: i32) -> (yes: bool)
    ensures
        yes == (got > 0),
{
    got > 0
}

} // verus!
