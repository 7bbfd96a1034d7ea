//! What the individual producers render from the state they have gathered,
//! and what their clicks ask for. Gathering the state (files, devices, the
//! session bus, the audio server, a web service) happens elsewhere.

use vstd::prelude::*;
use crate::snapshot::{I3Block, I3Event, Markup};
use crate::text::{decimal, push_decimal};

verus! {

/// The warning color of the bar.
pub open spec fn red() -> Seq<char> {
    "#ff0202"@
}

fn red_string() -> (r: String)
    ensures
        r@ == red(),
{
    String::from_str("#ff0202")
}

/// A snapshot of `text` in the warning color.
pub open spec fn is_warning(b: I3Block, text: Seq<char>) -> bool {
    &&& b.full_text@ == text
    &&& b.color matches Some(c) && c@ == red()
    &&& b.short_text is None && b.markup is None && b.tooltip is None
    &&& b.name@.len() == 0
}

/// A snapshot of `text` with no other field set.
pub open spec fn is_plain(b: I3Block, text: Seq<char>) -> bool {
    &&& b.full_text@ == text
    &&& b.color is None && b.short_text is None && b.markup is None && b.tooltip is None
    &&& b.name@.len() == 0
}

fn warning(text: &str) -> (r: I3Block)
    ensures
        is_warning(r, text@),
{
    let mut b = I3Block::text(String::from_str(text));
    b.color = Some(red_string());
    b
}

fn plain(text: String) -> (r: I3Block)
    ensures
        is_plain(r, text@),
{
    I3Block::text(text)
}

/// The notification daemon's entry: a warning while notifications are
/// paused, a loudspeaker otherwise.
pub fn dunst_snapshot(paused: bool) -> (r: I3Block)
    ensures
        paused ==> is_warning(r, "paused"@),
        !paused ==> is_plain(r, "📢"@),
{
    if paused {
        warning("paused")
    } else {
        plain(String::from_str("📢"))
    }
}

/// Whether a click toggles the paused state of notifications: a right click.
pub fn dunst_toggles(event: &I3Event) -> (r: bool)
    ensures
        r == (event.button == 3),
{
    event.button == 3
}

/// The volume entry: a warning while muted, else the volume in percent.
pub fn volume_snapshot(volume: u32, muted: bool) -> (r: I3Block)
    ensures
        muted ==> is_warning(r, "muted"@),
        !muted ==> is_plain(r, decimal(volume as nat) + "%"@),
{
    if muted {
        warning("muted")
    } else {
        let mut s = String::new();
        push_decimal(&mut s, volume as u64);
        s.append("%");
        plain(s)
    }
}

/// What a click on the volume entry asks for.
#[derive(Debug, Clone, Copy, PartialEq, Eq)]
pub enum VolumeAction {
    OpenMixer,
    ToggleMute,
    VolumeUp,
    VolumeDown,
}

/// The volume action of a mouse button: left opens the mixer, right mutes,
/// the wheel raises and lowers.
pub open spec fn volume_action_of(button: u8) -> Option<VolumeAction> {
    if button == 1 {
        Some(VolumeAction::OpenMixer)
    } else if button == 3 {
        Some(VolumeAction::ToggleMute)
    } else if button == 4 {
        Some(VolumeAction::VolumeUp)
    } else if button == 5 {
        Some(VolumeAction::VolumeDown)
    } else {
        None
    }
}

/// The volume action of a click, if any.
pub fn volume_action(event: &I3Event) -> (r: Option<VolumeAction>)
    ensures
        r == volume_action_of(event.button),
{
    match event.button {
        1 => Some(VolumeAction::OpenMixer),
        3 => Some(VolumeAction::ToggleMute),
        4 => Some(VolumeAction::VolumeUp),
        5 => Some(VolumeAction::VolumeDown),
        _ => None,
    }
}

/// The temperature entry for a sensor reading in millidegrees (`None` when
/// the sensor could not be read): whole degrees, in the warning color from
/// the sensor's high mark on.
pub fn temperature_snapshot(reading: Option<u32>, high: Option<u32>) -> (r: I3Block)
    ensures
        reading is None ==> is_warning(r, "ERROR"@),
        reading matches Some(t) ==> {
            &&& r.full_text@ == decimal((t / 1000) as nat) + "°C"@
            &&& (high matches Some(h) && t >= h) ==> (r.color matches Some(c) && c@ == red())
            &&& !(high matches Some(h) && t >= h) ==> r.color is None
            &&& r.short_text is None && r.markup is None && r.tooltip is None
        },
{
    match reading {
        None => warning("ERROR"),
        Some(t) => {
            let mut s = String::new();
            push_decimal(&mut s, (t / 1000) as u64);
            s.append("°C");
            let mut b = I3Block::text(s);
            match high {
                Some(h) => if t >= h {
                    b.color = Some(red_string());
                },
                None => {},
            }
            b
        },
    }
}

/// The part of a text before the first `sep`; all of it when there is none.
pub open spec fn before_char(line: Seq<char>, sep: char) -> Seq<char> {
    if exists|i: int| 0 <= i < line.len() && line[i] == sep {
        let i = choose|i: int| 0 <= i < line.len() && line[i] == sep && (forall|j: int| 0 <= j < i ==> line[j] != sep);
        line.subrange(0, i)
    } else {
        line
    }
}

/// The first tab-separated field of a line of the routing table.
pub open spec fn first_field(line: Seq<char>) -> Seq<char> {
    before_char(line, '\t')
}

/// The interface of a routing table line whose destination field is
/// `00000000`, the default route.
pub open spec fn default_route_of(line: Seq<char>) -> Option<Seq<char>> {
    let f = first_field(line);
    if f.len() < line.len() && first_field(line.subrange(f.len() as int + 1, line.len() as int)) == "00000000"@ {
        Some(f)
    } else {
        None
    }
}

/// The index of the first `sep` at or after `from`, or the length.
fn next_char(line: &str, from: usize, sep: char) -> (r: usize)
    requires
        from <= line@.len(),
    ensures
        from <= r <= line@.len(),
        forall|j: int| from <= j < r ==> line@[j] != sep,
        r < line@.len() ==> line@[r as int] == sep,
{
    let n = line.unicode_len();
    let mut i = from;
    while i < n
        invariant
            from <= i <= n,
            n == line@.len(),
            forall|j: int| from <= j < i ==> line@[j] != sep,
        decreases n - i,
    {
        if line.get_char(i) == sep {
            return i;
        }
        i = i + 1;
    }
    i
}

proof fn lemma_before_char(line: Seq<char>, sep: char, i: int)
    requires
        0 <= i <= line.len(),
        forall|j: int| 0 <= j < i ==> line[j] != sep,
        i < line.len() ==> line[i] == sep,
    ensures
        before_char(line, sep) == line.subrange(0, i),
{
    if i < line.len() {
        let k = choose|k: int| 0 <= k < line.len() && line[k] == sep && (forall|j: int| 0 <= j < k ==> line[j] != sep);
        assert(0 <= i < line.len() && line[i] == sep && (forall|j: int| 0 <= j < i ==> line[j] != sep));
        assert(k == i) by {
            if k < i {
                assert(line[k] != sep);
            } else if k > i {
                assert(line[i] != sep);
            }
        }
    } else {
        assert(line.subrange(0, i) =~= line);
    }
}

/// The part of a text before the first `sep`.
pub fn text_before(s: &str, sep: char) -> (r: String)
    ensures
        r@ == before_char(s@, sep),
{
    let i = next_char(s, 0, sep);
    proof {
        lemma_before_char(s@, sep, i as int);
    }
    String::from_str(s.substring_char(0, i))
}

/// The interface of a line of the routing table if it is the default route.
pub fn route_interface(line: &str) -> (r: Option<String>)
    ensures
        match default_route_of(line@) {
            Some(f) => r matches Some(s) && s@ == f,
            None => r is None,
        },
{
    let n = line.unicode_len();
    let t = next_char(line, 0, '\t');
    proof {
        lemma_before_char(line@, '\t', t as int);
    }
    if t == n {
        return None;
    }
    let u = next_char(line, t + 1, '\t');
    let second = line.substring_char(t + 1, n);
    proof {
        let rest = line@.subrange(t + 1, n as int);
        assert(second@ == rest);
        lemma_before_char(rest, '\t', u - t - 1);
        assert(rest.subrange(0, u - t - 1) =~= line@.subrange(t + 1, u as int));
    }
    let field = line.substring_char(t + 1, u);
    let interface = line.substring_char(0, t);
    if String::from_str(field) == String::from_str("00000000") {
        Some(String::from_str(interface))
    } else {
        None
    }
}

/// The default-route entry; it has no state and ignores clicks.
#[derive(Debug, Default)]
pub struct DefaultRouteBlock {}

impl DefaultRouteBlock {
    /// The default-route entry for the lines of the routing table: the interface
    /// of the first default route, or a warning when there is none.
    pub fn snapshot(&self, lines: &Vec<String>) -> (r: I3Block)
        ensures
            (exists|k: int| 0 <= k < lines@.len() && #[trigger] default_route_of(lines@[k]@) is Some) ==> {
                let k = choose|k: int| 0 <= k < lines@.len() && default_route_of(lines@[k]@) is Some && (forall|j: int| 0 <= j < k ==> default_route_of(lines@[j]@) is None);
                is_plain(r, default_route_of(lines@[k]@)->Some_0)
            },
            (forall|k: int| 0 <= k < lines@.len() ==> #[trigger] default_route_of(lines@[k]@) is None) ==> is_warning(r, "No link"@),
    {
        let mut i: usize = 0;
        while i < lines.len()
            invariant
                i <= lines@.len(),
                forall|j: int| 0 <= j < i ==> #[trigger] default_route_of(lines@[j]@) is None,
            decreases lines@.len() - i,
        {
            match route_interface(lines[i].as_str()) {
                Some(name) => {
                    proof {
                        let k = choose|k: int| 0 <= k < lines@.len() && default_route_of(lines@[k]@) is Some && (forall|j: int| 0 <= j < k ==> default_route_of(lines@[j]@) is None);
                        assert(0 <= i < lines@.len() && default_route_of(lines@[i as int]@) is Some && (forall|j: int| 0 <= j < i ==> default_route_of(lines@[j]@) is None));
                        assert(k == i) by {
                            if k < i {
                                assert(default_route_of(lines@[k]@) is None);
                            } else if k > i {
                                assert(default_route_of(lines@[i as int]@) is None);
                            }
                        }
                    }
                    return plain(name);
                },
                None => {},
            }
            i = i + 1;
        }
        warning("No link")
    }
}

/// The text without leading and trailing white space.
pub uninterp spec fn trimmed(s: Seq<char>) -> Seq<char>;

/// Relies on str::trim: the text without its leading and trailing white
/// space, which depends on the text alone.
#[verifier::external_body]
fn trim_str(s: &str) -> (r: &str)
    ensures
        r@ == trimmed(s@),
{
    s.trim()
}

/// Whether two spaces in a row start at `i`.
pub open spec fn two_spaces_at(s: Seq<char>, i: int) -> bool {
    0 <= i && i + 1 < s.len() && s[i] == ' ' && s[i + 1] == ' '
}

/// The part of a text before the first two spaces in a row; all of it when
/// there are none.
pub open spec fn before_two_spaces(s: Seq<char>) -> Seq<char> {
    if exists|i: int| #[trigger] two_spaces_at(s, i) {
        let i = choose|i: int| #[trigger] two_spaces_at(s, i) && (forall|j: int| 0 <= j < i ==> !two_spaces_at(s, j));
        s.subrange(0, i)
    } else {
        s
    }
}

/// The part of a text before the first two spaces in a row.
pub fn text_before_two_spaces(s: &str) -> (r: String)
    ensures
        r@ == before_two_spaces(s@),
{
    let n = s.unicode_len();
    if n < 2 {
        assert forall|j: int| !#[trigger] two_spaces_at(s@, j) by {}
        return String::from_str(s);
    }
    let mut i: usize = 0;
    while i < n - 1
        invariant
            n == s@.len(),
            n >= 2,
            i <= n - 1,
            forall|j: int| 0 <= j < i ==> !#[trigger] two_spaces_at(s@, j),
        decreases n - i,
    {
        if s.get_char(i) == ' ' && s.get_char(i + 1) == ' ' {
            proof {
                let k = choose|k: int| #[trigger] two_spaces_at(s@, k) && (forall|j: int| 0 <= j < k ==> !two_spaces_at(s@, j));
                assert(two_spaces_at(s@, i as int));
                assert(k == i) by {
                    if k < i {
                        assert(!two_spaces_at(s@, k));
                    } else if k > i {
                        assert(!two_spaces_at(s@, i as int));
                    }
                }
            }
            return String::from_str(s.substring_char(0, i));
        }
        i = i + 1;
    }
    proof {
        assert forall|j: int| !#[trigger] two_spaces_at(s@, j) by {
            if 0 <= j < i {
            }
        }
    }
    String::from_str(s)
}

/// A part of the address entry, set off by a dash unless it is blank.
pub open spec fn labelled(part: Seq<char>) -> Seq<char> {
    if trimmed(part).len() == 0 {
        part
    } else {
        " - "@ + part
    }
}

fn push_labelled(s: &mut String, part: &String)
    ensures
        final(s)@ == old(s)@ + labelled(part@),
{
    if trim_str(part.as_str()).unicode_len() != 0 {
        s.append(" - ");
    }
    s.append(part.as_str());
    assert(final(s)@ =~= old(s)@ + labelled(part@));
}

/// The text of the address entry: the interface, the network name (the
/// first column of the network manager's line for it) and the address (the
/// socket address up to its first colon).
pub open spec fn address_text(interface: Seq<char>, nm_line: Seq<char>, address: Seq<char>) -> Seq<char> {
    interface + labelled(before_two_spaces(nm_line)) + labelled(before_char(address, ':'))
}

/// The address entry; it has no state and ignores clicks.
#[derive(Debug, Default)]
pub struct IPBlock {}

impl IPBlock {
    /// The entry for the interface of the default route, if there is one,
    /// with the network manager's line for it and the interface's socket
    /// address (each empty when unknown).
    pub fn snapshot(&self, interface: &Option<String>, nm_line: &str, address: &str) -> (r: I3Block)
        ensures
            interface is None ==> is_warning(r, "No link"@),
            interface matches Some(i) ==> is_plain(r, address_text(i@, nm_line@, address@)),
    {
        match interface {
            None => warning("No link"),
            Some(i) => {
                let mut s = i.clone();
                push_labelled(&mut s, &text_before_two_spaces(nm_line));
                push_labelled(&mut s, &text_before(address, ':'));
                assert(s@ =~= address_text(i@, nm_line@, address@));
                plain(s)
            },
        }
    }
}

} // verus!
