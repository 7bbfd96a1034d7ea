//! Sockets: where a producer's broadcast socket lives, and the producer that
//! shows what another process's broadcast server sends it.

use vstd::prelude::*;
use crate::snapshot::{I3Block, I3Event};
use crate::json::{event_json, event_text};

verus! {

/// The path of `name` under `dir`, as a path push builds it: an absolute
/// name stands alone, an empty directory adds nothing, and a separator is
/// added only where the directory does not end in one.
pub open spec fn pushed_path(dir: Seq<char>, name: Seq<char>) -> Seq<char> {
    if name.len() > 0 && name[0] == '/' {
        name
    } else if dir.len() == 0 {
        name
    } else if dir.last() == '/' {
        dir + name
    } else {
        dir + seq!['/'] + name
    }
}

/// The path of `name` under `dir`.
pub fn push_path(dir: &str, name: &str) -> (r: String)
    ensures
        r@ == pushed_path(dir@, name@),
{
    let nn = name.unicode_len();
    let dn = dir.unicode_len();
    if nn > 0 && name.get_char(0) == '/' {
        String::from_str(name)
    } else if dn == 0 {
        String::from_str(name)
    } else if dir.get_char(dn - 1) == '/' {
        String::from_str(dir).concat(name)
    } else {
        proof {
            reveal_strlit("/");
        }
        String::from_str(dir).concat("/").concat(name)
    }
}

/// The directory of the broadcast sockets under the runtime directory.
pub open spec fn socket_dir_of(runtime_dir: Seq<char>) -> Seq<char> {
    pushed_path(runtime_dir, "statusbar"@)
}

/// The directory of the broadcast sockets under the runtime directory.
pub fn socket_dir(runtime_dir: &str) -> (r: String)
    ensures
        r@ == socket_dir_of(runtime_dir@),
{
    push_path(runtime_dir, "statusbar")
}

/// The socket of the producer `name`: an absolute path as it is, else the
/// name in the socket directory.
pub open spec fn socket_path_of(name: Seq<char>, runtime_dir: Seq<char>) -> Seq<char> {
    pushed_path(socket_dir_of(runtime_dir), name)
}

/// The socket of the producer `name`.
pub fn socket_path(name: &str, runtime_dir: &str) -> (r: String)
    ensures
        r@ == socket_path_of(name@, runtime_dir@),
{
    let dir = socket_dir(runtime_dir);
    push_path(dir.as_str(), name)
}

/// The entry of a socket client: the last snapshot received while the
/// connection stands, nothing while it is down.
pub fn socket_snapshot(connected: bool, content: &I3Block) -> (r: Option<I3Block>)
    ensures
        connected ==> r == Some(*content),
        !connected ==> r is None,
{
    if connected {
        Some(content.copy())
    } else {
        None
    }
}

/// The line that a click sends to the server, while connected: the event's
/// JSON object and a newline.
pub fn socket_click_line(connected: bool, event: &I3Event) -> (r: Option<String>)
    ensures
        connected ==> (r matches Some(l) && l@ == event_text(*event) + "\n"@),
        !connected ==> r is None,
{
    if connected {
        Some(event_json(event).concat("\n"))
    } else {
        None
    }
}

} // verus!
