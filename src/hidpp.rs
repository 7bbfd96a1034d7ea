//! HID++ messages to a wireless receiver and the replies that describe its
//! devices' batteries.

use vstd::prelude::*;
use crate::text::{decimal, push_decimal};

verus! {

/// Asks a device for its battery status.
pub const ASK_FOR_BATTERY: [u8; 17] = [19u8, 0u8, 0u8, 0u8, 0u8, 0u8, 0u8, 0u8, 0u8, 0u8, 0u8, 0u8, 0u8, 0u8, 0u8, 0u8, 0u8];

/// Report id of a short message (7 bytes).
pub const SHORT_REPORT: u8 = 0x10;

/// Report id of a long message (20 bytes).
pub const LONG_REPORT: u8 = 0x11;

/// The device index that addresses the receiver itself.
pub const RECEIVER_INDEX: u8 = 0xff;

/// The header of a HID++ message.
#[derive(Debug, Clone, Copy, PartialEq, Eq)]
pub struct HidppMessageHeader {
    pub long_message: bool,
    pub device_index: u8,
    pub message_type: u8,
}

/// The three header bytes: report id, device index, sub id.
pub open spec fn header_bytes(h: HidppMessageHeader) -> Seq<u8> {
    seq![if h.long_message { LONG_REPORT } else { SHORT_REPORT }, h.device_index, h.message_type]
}

impl HidppMessageHeader {
    /// The bytes of the header as written to the device.
    pub fn to_binary(&self) -> (r: [u8; 3])
        ensures
            r@ == header_bytes(*self),
    {
        let report = if self.long_message {
            LONG_REPORT
        } else {
            SHORT_REPORT
        };
        let r = [report, self.device_index, self.message_type];
        assert(r@ =~= header_bytes(*self));
        r
    }
}

/// A short HID++ message.
#[derive(Debug, Clone, Copy, PartialEq, Eq)]
pub struct HidppMessageShort {
    pub header: HidppMessageHeader,
    pub data: [u8; 4],
}

impl HidppMessageShort {
    /// The seven bytes of the message: header, then payload.
    pub fn to_binary(&self) -> (r: [u8; 7])
        ensures
            r@ == header_bytes(self.header) + self.data@,
    {
        let h = self.header.to_binary();
        let d = self.data;
        let r = [h[0], h[1], h[2], d[0], d[1], d[2], d[3]];
        assert(r@ =~= header_bytes(self.header) + self.data@);
        r
    }
}

/// A long HID++ message.
#[derive(Debug, Clone, Copy, PartialEq, Eq)]
pub struct HidppMessageLong {
    pub header: HidppMessageHeader,
    pub data: [u8; 17],
}

impl HidppMessageLong {
    /// The twenty bytes of the message: header, then payload.
    pub fn to_binary(&self) -> (r: [u8; 20])
        ensures
            r@ == header_bytes(self.header) + self.data@,
    {
        let h = self.header.to_binary();
        let d = self.data;
        let r = [
            h[0],
            h[1],
            h[2],
            d[0],
            d[1],
            d[2],
            d[3],
            d[4],
            d[5],
            d[6],
            d[7],
            d[8],
            d[9],
            d[10],
            d[11],
            d[12],
            d[13],
            d[14],
            d[15],
            d[16],
        ];
        assert(r@ =~= header_bytes(self.header) + self.data@);
        r
    }
}

/// The kind of a HID++ device.
#[derive(Debug, Clone, Copy, PartialEq, Eq)]
pub enum DeviceKind {
    Unknown,
    Keyboard,
    Mouse,
    Numpad,
    Presenter,
    Remote,
    Trackball,
    Touchpad,
    Headset,
    RemoteControl,
    Receiver,
}

/// The device kind that a receiver reports as a byte.
pub open spec fn kind_of(v: u8) -> DeviceKind {
    if v == 0x01 {
        DeviceKind::Keyboard
    } else if v == 0x02 {
        DeviceKind::Mouse
    } else if v == 0x03 {
        DeviceKind::Numpad
    } else if v == 0x04 {
        DeviceKind::Presenter
    } else if v == 0x07 {
        DeviceKind::Remote
    } else if v == 0x08 {
        DeviceKind::Trackball
    } else if v == 0x09 {
        DeviceKind::Touchpad
    } else if v == 0x0d {
        DeviceKind::Headset
    } else if v == 0x0e {
        DeviceKind::RemoteControl
    } else if v == 0x0f {
        DeviceKind::Receiver
    } else {
        DeviceKind::Unknown
    }
}

/// The symbol shown for a device kind.
pub open spec fn emoji_of(k: DeviceKind) -> Seq<char> {
    match k {
        DeviceKind::Unknown => "❓"@,
        DeviceKind::Keyboard => "⌨️'"@,
        DeviceKind::Mouse => "🖱️"@,
        DeviceKind::Numpad => "🎹"@,
        DeviceKind::Presenter => "📽️"@,
        DeviceKind::Trackball => "🖲"@,
        DeviceKind::Touchpad => "◻"@,
        DeviceKind::Headset => "🎧"@,
        DeviceKind::Remote => "🎮"@,
        DeviceKind::RemoteControl => "🎮"@,
        DeviceKind::Receiver => "📻"@,
    }
}

impl DeviceKind {
    /// Decodes the kind byte of a device identity reply.
    pub fn from(v: u8) -> (r: DeviceKind)
        ensures
            r == kind_of(v),
    {
        match v {
            0x01 => DeviceKind::Keyboard,
            0x02 => DeviceKind::Mouse,
            0x03 => DeviceKind::Numpad,
            0x04 => DeviceKind::Presenter,
            0x07 => DeviceKind::Remote,
            0x08 => DeviceKind::Trackball,
            0x09 => DeviceKind::Touchpad,
            0x0d => DeviceKind::Headset,
            0x0e => DeviceKind::RemoteControl,
            0x0f => DeviceKind::Receiver,
            _ => DeviceKind::Unknown,
        }
    }

    /// The symbol shown for this kind.
    pub fn emoji(&self) -> (r: &'static str)
        ensures
            r@ == emoji_of(*self),
    {
        match self {
            DeviceKind::Unknown => "❓",
            DeviceKind::Keyboard => "⌨️'",
            DeviceKind::Mouse => "🖱️",
            DeviceKind::Numpad => "🎹",
            DeviceKind::Presenter => "📽️",
            DeviceKind::Trackball => "🖲",
            DeviceKind::Touchpad => "◻",
            DeviceKind::Headset => "🎧",
            DeviceKind::Remote => "🎮",
            DeviceKind::RemoteControl => "🎮",
            DeviceKind::Receiver => "📻",
        }
    }
}

/// The status of a device battery.
#[derive(Debug, Clone, Copy, PartialEq, Eq)]
pub enum BatteryStatus {
    Discharging,
    Recharging,
    AlmostFull,
    Full,
    SlowRecharge,
    InvalidBattery,
    ThermalError,
}

/// The battery status that a device reports as a byte.
pub open spec fn status_of(v: u8) -> BatteryStatus {
    if v == 0x00 {
        BatteryStatus::Discharging
    } else if v == 0x01 {
        BatteryStatus::Recharging
    } else if v == 0x02 {
        BatteryStatus::AlmostFull
    } else if v == 0x03 {
        BatteryStatus::Full
    } else if v == 0x04 {
        BatteryStatus::SlowRecharge
    } else if v == 0x06 {
        BatteryStatus::ThermalError
    } else {
        BatteryStatus::InvalidBattery
    }
}

impl BatteryStatus {
    /// Decodes the status byte of a battery reply.
    pub fn from(v: u8) -> (r: BatteryStatus)
        ensures
            r == status_of(v),
    {
        match v {
            0x00 => BatteryStatus::Discharging,
            0x01 => BatteryStatus::Recharging,
            0x02 => BatteryStatus::AlmostFull,
            0x03 => BatteryStatus::Full,
            0x04 => BatteryStatus::SlowRecharge,
            0x06 => BatteryStatus::ThermalError,
            _ => BatteryStatus::InvalidBattery,
        }
    }
}

/// A device paired with a receiver, with its battery.
#[derive(Debug, Clone, Copy, PartialEq, Eq)]
pub struct Device {
    pub kind: DeviceKind,
    pub charge: u8,
    pub status: BatteryStatus,
}

/// The request for the number of connected devices.
pub fn count_request() -> (r: HidppMessageShort)
    ensures
        r.header == (HidppMessageHeader { long_message: false, device_index: RECEIVER_INDEX, message_type: 0x81 }),
        r.data@ == seq![0x02u8, 0u8, 0u8, 0u8],
{
    let r = HidppMessageShort {
        header: HidppMessageHeader { long_message: false, device_index: RECEIVER_INDEX, message_type: 0x81 },
        data: [0x02u8, 0u8, 0u8, 0u8],
    };
    assert(r.data@ =~= seq![0x02u8, 0u8, 0u8, 0u8]);
    r
}

/// The number of connected devices in a reply to `count_request`, if the
/// reply is one.
pub fn parse_count_reply(buf: &[u8; 7]) -> (r: Option<u8>)
    ensures
        r == (if buf@[0] == SHORT_REPORT && buf@[1] == RECEIVER_INDEX && buf@[2] == 0x81 {
            Some(buf@[5])
        } else {
            None
        }),
{
    if buf[0] != SHORT_REPORT || buf[1] != RECEIVER_INDEX || buf[2] != 0x81 {
        None
    } else {
        Some(buf[5])
    }
}

/// The request for the identity of the device in slot `device_id`.
pub fn identity_request(device_id: u8) -> (r: HidppMessageShort)
    requires
        device_id <= 0xaf,
    ensures
        r.header == (HidppMessageHeader { long_message: false, device_index: RECEIVER_INDEX, message_type: 0x83 }),
        r.data@ == seq![0xb5u8, (device_id + 0x50) as u8, 0u8, 0u8],
{
    let r = HidppMessageShort {
        header: HidppMessageHeader { long_message: false, device_index: RECEIVER_INDEX, message_type: 0x83 },
        data: [0xb5u8, device_id + 0x50, 0u8, 0u8],
    };
    assert(r.data@ =~= seq![0xb5u8, (device_id + 0x50) as u8, 0u8, 0u8]);
    r
}

/// The kind byte in a reply to `identity_request`, if the reply is one.
pub fn parse_identity_reply(buf: &[u8; 20]) -> (r: Option<u8>)
    ensures
        r == (if buf@[0] == LONG_REPORT && buf@[1] == RECEIVER_INDEX && buf@[2] == 0x83 {
            Some(buf@[5])
        } else {
            None
        }),
{
    if buf[0] != LONG_REPORT || buf[1] != RECEIVER_INDEX || buf[2] != 0x83 {
        None
    } else {
        Some(buf[5])
    }
}

/// The request for the battery of the device in slot `device_id`.
pub fn battery_request(device_id: u8) -> (r: HidppMessageLong)
    ensures
        r.header == (HidppMessageHeader { long_message: true, device_index: device_id, message_type: 0x08 }),
        r.data == ASK_FOR_BATTERY,
{
    HidppMessageLong {
        header: HidppMessageHeader { long_message: true, device_index: device_id, message_type: 0x08 },
        data: ASK_FOR_BATTERY,
    }
}

/// The device described by a reply to `battery_request` from slot
/// `device_id`, whose identity reply gave `kind`; `None` if the reply is not
/// from that device.
pub fn parse_battery_reply(device_id: u8, kind: u8, buf: &[u8; 20]) -> (r: Option<Device>)
    ensures
        r == (if buf@[0] == LONG_REPORT && buf@[1] == device_id && buf@[2] == 0x08 {
            Some(Device { kind: kind_of(kind), charge: buf@[4], status: status_of(buf@[6]) })
        } else {
            None
        }),
{
    if buf[0] != LONG_REPORT || buf[1] != device_id || buf[2] != 0x08 {
        None
    } else {
        Some(Device { kind: DeviceKind::from(kind), charge: buf[4], status: BatteryStatus::from(buf[6]) })
    }
}

/// The label of a device in the battery entry: red when a discharging or
/// full battery is at 20% or below, or when the battery reports a fault;
/// green while it charges.
pub open spec fn device_label_text(d: Device) -> Seq<char> {
    let e = emoji_of(d.kind);
    let pct = decimal(d.charge as nat) + "%"@;
    match d.status {
        BatteryStatus::Discharging | BatteryStatus::Full => if d.charge <= 20 {
            e + "<span foreground='#ff0202'>"@ + pct + "</span>"@
        } else {
            e + pct
        },
        BatteryStatus::Recharging | BatteryStatus::AlmostFull | BatteryStatus::SlowRecharge => e
            + "<span foreground='#02ff02'>"@ + pct + "</span>"@,
        BatteryStatus::InvalidBattery | BatteryStatus::ThermalError => e
            + "<span foreground='#ff0202'>(!) "@ + pct + "</span>"@,
    }
}

/// The label of a device in the battery entry.
pub fn device_label(d: &Device) -> (r: String)
    ensures
        r@ == device_label_text(*d),
{
    let mut s = String::new();
    s.append(d.kind.emoji());
    match d.status {
        BatteryStatus::Discharging | BatteryStatus::Full => {
            if d.charge <= 20 {
                s.append("<span foreground='#ff0202'>");
                push_decimal(&mut s, d.charge as u64);
                s.append("%</span>");
            } else {
                push_decimal(&mut s, d.charge as u64);
                s.append("%");
            }
        },
        BatteryStatus::Recharging | BatteryStatus::AlmostFull | BatteryStatus::SlowRecharge => {
            s.append("<span foreground='#02ff02'>");
            push_decimal(&mut s, d.charge as u64);
            s.append("%</span>");
        },
        BatteryStatus::InvalidBattery | BatteryStatus::ThermalError => {
            s.append("<span foreground='#ff0202'>(!) ");
            push_decimal(&mut s, d.charge as u64);
            s.append("%</span>");
        },
    }
    proof {
        reveal_strlit("%</span>");
        reveal_strlit("%");
        reveal_strlit("</span>");
    }
    assert(s@ =~= device_label_text(*d));
    s
}

/// The highest device slot of a receiver.
pub const LAST_SLOT: u8 = 7;

/// The scan of a receiver's device slots: slots are asked from the first to
/// the last; a slot that does not answer is passed over; the scan ends early
/// once as many devices were found as the receiver reported connected.
pub struct DeviceScan {
    slot: u8,
    wanted: u8,
    done: bool,
    devices: Vec<Device>,
}

impl DeviceScan {
    /// The next slot to ask.
    pub closed spec fn slot(&self) -> u8 {
        self.slot
    }

    /// The number of connected devices the receiver reported.
    pub closed spec fn wanted(&self) -> u8 {
        self.wanted
    }

    /// Whether the scan ended early because all reported devices were found.
    pub closed spec fn complete(&self) -> bool {
        self.done
    }

    /// The devices found so far, in slot order.
    pub closed spec fn found(&self) -> Seq<Device> {
        self.devices@
    }

    /// The scan is consistent: one device at most per slot asked, and it
    /// ended early exactly when the count was reached.
    pub closed spec fn wf(&self) -> bool {
        &&& 1 <= self.slot <= LAST_SLOT + 1
        &&& self.devices@.len() < self.slot
        &&& self.done ==> self.devices@.len() == self.wanted
    }

    /// A scan of a receiver that reported `wanted` connected devices.
    pub fn new(wanted: u8) -> (r: DeviceScan)
        ensures
            r.wf(),
            r.slot() == 1,
            r.wanted() == wanted,
            !r.complete(),
            r.found() == Seq::<Device>::empty(),
    {
        DeviceScan { slot: 1, wanted, done: false, devices: Vec::new() }
    }

    /// The slot to ask next; `None` once every slot was asked or all
    /// reported devices were found.
    pub fn next_slot(&self) -> (r: Option<u8>)
        requires
            self.wf(),
        ensures
            (self.complete() || self.slot() > LAST_SLOT) ==> r is None,
            !(self.complete() || self.slot() > LAST_SLOT) ==> r == Some(self.slot()),
    {
        if self.done || self.slot > LAST_SLOT {
            None
        } else {
            Some(self.slot)
        }
    }

    /// Records the answer of the slot just asked: the device it describes,
    /// or `None` when the exchange failed.
    pub fn record(&mut self, answer: Option<Device>)
        requires
            old(self).wf(),
            !old(self).complete(),
            old(self).slot() <= LAST_SLOT,
        ensures
            final(self).wf(),
            final(self).slot() == old(self).slot() + 1,
            final(self).wanted() == old(self).wanted(),
            match answer {
                Some(d) => {
                    &&& final(self).found() == old(self).found().push(d)
                    &&& final(self).complete() == (final(self).found().len() == old(self).wanted())
                },
                None => final(self).found() == old(self).found() && !final(self).complete(),
            },
    {
        match answer {
            Some(d) => {
                self.devices.push(d);
                if self.devices.len() == self.wanted as usize {
                    self.done = true;
                }
            },
            None => {},
        }
        self.slot = self.slot + 1;
    }

    /// The devices found, in slot order.
    pub fn into_devices(self) -> (r: Vec<Device>)
        ensures
            r@ == self.found(),
    {
        self.devices
    }
}

} // verus!
