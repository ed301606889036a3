//! Text-level helpers for a compositor's IPC protocol.
//!
//! A concrete backend talks to its compositor over a socket; the socket
//! work is the host's job.  What the protocol *says* — which dispatch
//! line performs which action, what a successful reply looks like, and
//! how a numeric monitor id resolves to a name — is plain text and data
//! handling, and is verified here.

use vstd::prelude::*;
use vstd::string::StringExecFns;
use crate::text::{append_i64, int_str, str_eq, trim_ascii, trim_spec};

verus! {

/// A dispatch reply signals success as the bare word `ok`, possibly
/// surrounded by whitespace.
pub fn dispatch_reply_ok(reply: &str) -> (r: bool)
    ensures
        r == (trim_spec(reply@) == "ok"@),
{
    str_eq(trim_ascii(reply), "ok")
}

/// First name bound to `id` in a monitor listing, scanning from index `i`.
pub open spec fn id_name_from(s: Seq<(i64, String)>, id: i64, i: int) -> Option<String>
    decreases s.len() - i,
{
    if i < 0 || i >= s.len() {
        None
    } else if s[i].0 == id {
        Some(s[i].1)
    } else {
        id_name_from(s, id, i + 1)
    }
}

/// Resolve a compositor's numeric monitor id to its name in a
/// `(id, name)` listing; the first match wins.
pub fn monitor_name_for_id(monitors: &Vec<(i64, String)>, id: i64) -> (r: Option<String>)
    ensures
        r is Some <==> id_name_from(monitors@, id, 0) is Some,
        r matches Some(name) ==> id_name_from(monitors@, id, 0) matches Some(n) && name@ == n@,
{
    let len = monitors.len();
    let mut i: usize = 0;
    while i < len
        invariant
            len == monitors@.len(),
            i <= len,
            id_name_from(monitors@, id, 0) == id_name_from(monitors@, id, i as int),
        decreases len - i,
    {
        if monitors[i].0 == id {
            return Some(monitors[i].1.clone());
        }
        i = i + 1;
    }
    None
}

/// The dispatch line that focuses a monitor: `focusmonitor <name>`.
pub fn format_focus_monitor(monitor: &str) -> (r: String)
    ensures
        r@ == "focusmonitor "@ + monitor@,
{
    let mut s = String::from_str("focusmonitor ");
    s.append(monitor);
    s
}

/// The dispatch line that switches to a workspace: `workspace <id>`.
pub fn format_switch_workspace(workspace_id: i32) -> (r: String)
    ensures
        r@ == "workspace "@ + int_str(workspace_id as int),
{
    let mut s = String::from_str("workspace ");
    append_i64(&mut s, workspace_id as i64);
    s
}

/// The dispatch line that moves the focused window to a workspace:
/// `movetoworkspace <id>`.
pub fn format_move_to_workspace(workspace_id: i32) -> (r: String)
    ensures
        r@ == "movetoworkspace "@ + int_str(workspace_id as int),
{
    let mut s = String::from_str("movetoworkspace ");
    append_i64(&mut s, workspace_id as i64);
    s
}

/// The dispatch line that moves the focused window to a monitor:
/// `movewindow mon:<name>`.
pub fn format_move_to_monitor(monitor: &str) -> (r: String)
    ensures
        r@ == "movewindow mon:"@ + monitor@,
{
    let mut s = String::from_str("movewindow mon:");
    s.append(monitor);
    s
}

/// An unknown-monitor-id failure: `unknown monitor id: <id>`.
pub fn format_unknown_monitor_id(id: i64) -> (r: String)
    ensures
        r@ == "unknown monitor id: "@ + int_str(id as int),
{
    let mut s = String::from_str("unknown monitor id: ");
    append_i64(&mut s, id);
    s
}

} // verus!
