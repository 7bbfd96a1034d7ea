//! The battery entry: the power-supply batteries, the bluetooth devices and
//! the devices of a wireless receiver, side by side.

use vstd::prelude::*;
use crate::snapshot::{I3Block, Markup};
use crate::hidpp::{Device, device_label, device_label_text};
use crate::text::{decimal, push_decimal};

verus! {

/// The texts of `parts` with `sep` between each two.
pub open spec fn joined(parts: Seq<Seq<char>>, sep: Seq<char>) -> Seq<char>
    decreases parts.len(),
{
    if parts.len() == 0 {
        Seq::empty()
    } else if parts.len() == 1 {
        parts[0]
    } else {
        joined(parts.drop_last(), sep) + sep + parts.last()
    }
}

/// The texts of a vector of strings.
pub open spec fn texts(v: Seq<String>) -> Seq<Seq<char>> {
    v.map_values(|s: String| s@)
}

/// Joins strings with a separator.
pub fn join_strings(parts: &Vec<String>, sep: &str) -> (r: String)
    ensures
        r@ == joined(texts(parts@), sep@),
{
    let mut s = String::new();
    let mut i: usize = 0;
    while i < parts.len()
        invariant
            i <= parts@.len(),
            s@ == joined(texts(parts@.subrange(0, i as int)), sep@),
        decreases parts@.len() - i,
    {
        if i > 0 {
            s.append(sep);
        }
        s.append(parts[i].as_str());
        proof {
            let p = texts(parts@.subrange(0, i + 1));
            assert(p.drop_last() =~= texts(parts@.subrange(0, i as int)));
            assert(p.last() == parts@[i as int]@);
            if i == 0 {
                assert(s@ =~= joined(p, sep@));
            }
        }
        i = i + 1;
    }
    assert(parts@.subrange(0, parts@.len() as int) =~= parts@);
    s
}

/// The symbol of a bluetooth device by the icon name it announces.
pub open spec fn bluetooth_emoji_of(icon: Option<Seq<char>>) -> Seq<char> {
    match icon {
        None => ""@,
        Some(i) => if i == "phone"@ {
            "📱"@
        } else if i == "computer"@ {
            "💻"@
        } else if i == "video-display"@ {
            "📼"@
        } else if i == "multimedia-player"@ {
            "⏯"@
        } else if i == "scanner"@ || i == "printer"@ {
            "🖨️"@
        } else if i == "input-keyboard"@ {
            "⌨️"@
        } else if i == "input-mouse"@ {
            "🖱️"@
        } else if i == "input-gaming"@ {
            "🎮"@
        } else if i == "input-tablet"@ {
            "✍️"@
        } else if i == "modem"@ || i == "network-wireless"@ {
            "🛜"@
        } else if i == "audio-headset"@ || i == "audio-headphones"@ {
            "🎧"@
        } else if i == "camera-video"@ {
            "📹"@
        } else if i == "audio-card"@ {
            "🎵"@
        } else if i == "camera-photo"@ {
            "📷"@
        } else {
            ""@
        },
    }
}

fn is(i: &String, name: &str) -> (r: bool)
    ensures
        r == (i@ == name@),
{
    *i == String::from_str(name)
}

/// The symbol of a bluetooth device by the icon name it announces.
pub fn bluetooth_emoji(icon: &Option<String>) -> (r: &'static str)
    ensures
        r@ == bluetooth_emoji_of(match icon {
            Some(i) => Some(i@),
            None => None,
        }),
{
    match icon {
        None => "",
        Some(i) => if is(i, "phone") {
            "📱"
        } else if is(i, "computer") {
            "💻"
        } else if is(i, "video-display") {
            "📼"
        } else if is(i, "multimedia-player") {
            "⏯"
        } else if is(i, "scanner") || is(i, "printer") {
            "🖨️"
        } else if is(i, "input-keyboard") {
            "⌨️"
        } else if is(i, "input-mouse") {
            "🖱️"
        } else if is(i, "input-gaming") {
            "🎮"
        } else if is(i, "input-tablet") {
            "✍️"
        } else if is(i, "modem") || is(i, "network-wireless") {
            "🛜"
        } else if is(i, "audio-headset") || is(i, "audio-headphones") {
            "🎧"
        } else if is(i, "camera-video") {
            "📹"
        } else if is(i, "audio-card") {
            "🎵"
        } else if is(i, "camera-photo") {
            "📷"
        } else {
            ""
        },
    }
}

/// A bluetooth device's icon name and battery percentage.
pub struct BluetoothDevice {
    pub icon: Option<String>,
    pub percentage: u8,
}

/// The label of a bluetooth device: its symbol and percentage.
pub open spec fn bluetooth_label_text(d: BluetoothDevice) -> Seq<char> {
    bluetooth_emoji_of(match d.icon {
        Some(i) => Some(i@),
        None => None,
    }) + decimal(d.percentage as nat) + "%"@
}

/// A part of the entry that is set off from what precedes it by two spaces
/// unless it is empty or nothing precedes it.
pub open spec fn spaced(part: Seq<char>, first: bool) -> Seq<char> {
    if part.len() == 0 || first {
        part
    } else {
        "  "@ + part
    }
}

/// The bluetooth part of the entry.
pub open spec fn bluetooth_part(devices: Seq<BluetoothDevice>) -> Seq<char> {
    spaced(joined(devices.map_values(|d: BluetoothDevice| bluetooth_label_text(d)), "  "@), false)
}

/// The receiver part of the entry.
pub open spec fn receiver_part(devices: Seq<Device>, power: Seq<char>, bluetooth: Seq<char>) -> Seq<char> {
    spaced(
        joined(devices.map_values(|d: Device| device_label_text(d)), "  "@),
        power.len() == 0 && bluetooth.len() == 0,
    )
}

/// Joins the labels of the bluetooth devices.
fn bluetooth_text(devices: &Vec<BluetoothDevice>) -> (r: String)
    ensures
        r@ == bluetooth_part(devices@),
{
    let mut labels: Vec<String> = Vec::new();
    let mut i: usize = 0;
    while i < devices.len()
        invariant
            i <= devices@.len(),
            labels@.len() == i,
            texts(labels@) =~= devices@.subrange(0, i as int).map_values(|d: BluetoothDevice| bluetooth_label_text(d)),
        decreases devices@.len() - i,
    {
        let d = &devices[i];
        let mut s = String::new();
        s.append(bluetooth_emoji(&d.icon));
        push_decimal(&mut s, d.percentage as u64);
        s.append("%");
        assert(s@ =~= bluetooth_label_text(*d));
        let ghost prev = labels@;
        labels.push(s);
        proof {
            let want = devices@.subrange(0, i + 1).map_values(|d: BluetoothDevice| bluetooth_label_text(d));
            let had = devices@.subrange(0, i as int).map_values(|d: BluetoothDevice| bluetooth_label_text(d));
            assert forall|k: int| 0 <= k < i + 1 implies #[trigger] texts(labels@)[k] == want[k] by {
                if k < i {
                    assert(labels@[k] == prev[k]);
                    assert(texts(prev)[k] == had[k]);
                }
            }
            assert(texts(labels@) =~= want);
        }
        i = i + 1;
    }
    assert(devices@.subrange(0, devices@.len() as int) =~= devices@);
    let j = join_strings(&labels, "  ");
    if j.unicode_len() == 0 {
        j
    } else {
        String::from_str("  ").concat(j.as_str())
    }
}

/// Joins the labels of the receiver's devices.
fn receiver_text(devices: &Vec<Device>, first: bool) -> (r: String)
    ensures
        r@ == spaced(joined(devices@.map_values(|d: Device| device_label_text(d)), "  "@), first),
{
    let mut labels: Vec<String> = Vec::new();
    let mut i: usize = 0;
    while i < devices.len()
        invariant
            i <= devices@.len(),
            labels@.len() == i,
            texts(labels@) =~= devices@.subrange(0, i as int).map_values(|d: Device| device_label_text(d)),
        decreases devices@.len() - i,
    {
        let ghost prev = labels@;
        labels.push(device_label(&devices[i]));
        proof {
            let want = devices@.subrange(0, i + 1).map_values(|d: Device| device_label_text(d));
            let had = devices@.subrange(0, i as int).map_values(|d: Device| device_label_text(d));
            assert forall|k: int| 0 <= k < i + 1 implies #[trigger] texts(labels@)[k] == want[k] by {
                if k < i {
                    assert(labels@[k] == prev[k]);
                    assert(texts(prev)[k] == had[k]);
                }
            }
            assert(texts(labels@) =~= want);
        }
        i = i + 1;
    }
    assert(devices@.subrange(0, devices@.len() as int) =~= devices@);
    let j = join_strings(&labels, "  ");
    if j.unicode_len() == 0 || first {
        j
    } else {
        String::from_str("  ").concat(j.as_str())
    }
}

/// The battery entry from the text of the power-supply batteries and the
/// bluetooth and receiver devices, in Pango markup; `None` when all three
/// parts are empty.
pub fn battery_snapshot(power: &String, bluetooth: &Vec<BluetoothDevice>, receiver: &Vec<Device>) -> (r: Option<I3Block>)
    ensures
        ({
            let b = bluetooth_part(bluetooth@);
            let h = receiver_part(receiver@, power@, b);
            if power@.len() == 0 && b.len() == 0 && h.len() == 0 {
                r is None
            } else {
                r matches Some(e) && e.full_text@ == power@ + b + h && e.markup == Some(Markup::Pango)
                    && e.color is None && e.short_text is None && e.tooltip is None
            }
        }),
{
    let b = bluetooth_text(bluetooth);
    let first = power.unicode_len() == 0 && b.unicode_len() == 0;
    let h = receiver_text(receiver, first);
    if first && h.unicode_len() == 0 {
        return None;
    }
    let mut full = power.clone();
    full.append(b.as_str());
    full.append(h.as_str());
    let mut e = I3Block::text(full);
    e.markup = Some(Markup::Pango);
    Some(e)
}

} // verus!
