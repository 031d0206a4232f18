//! The connector core: the client registry, the presence state machine that
//! de-duplicates process-detection reports, the per-producer dispatch
//! transforms, and the best-effort broadcast over the registered clients.
//!
//! The transport itself (accepting websocket connections and pumping their
//! events) lives outside this crate; it hands every event to one of the
//! `on_*` methods here and the registry keeps one send handle per live
//! connection.

use crate::events::{
    Activity, ActivityCmd, ActivityCmdModel, ActivityModel, ProcessDetectedEvent,
    ProcessDetectedEventModel, opt_string_view, strings_view,
};
use crate::payload::{
    cmd_json, empty_activity, payload_json, spec_cmd_json, spec_payload_json, spec_u64_digits,
    u64_to_string,
};
use vstd::prelude::*;
use vstd::string::StringExecFns;

verus! {

/// simple_websockets's per-client send handle, opaque here: the transport
/// creates one for each accepted connection and the registry owns it until
/// the matching disconnect event.
#[verifier::external_type_specification]
#[verifier::external_body]
pub struct ExResponder(simple_websockets::Responder);

/// A simple_websockets frame, opaque here: inbound frames are only ever
/// echoed back unmodified.
#[verifier::external_type_specification]
#[verifier::external_body]
pub struct ExMessage(simple_websockets::Message);

/// Relies on simple_websockets::Responder::send: it enqueues the frame on
/// the client's unbounded outbound channel without blocking or panicking,
/// and reports false when the client is already gone.
pub assume_specification[ simple_websockets::Responder::send ](
    responder: &simple_websockets::Responder,
    message: simple_websockets::Message,
) -> (delivered: bool);

/// Relies on simple_websockets::Responder::send with a Message::Text frame
/// built from `data`: a non-blocking, best-effort enqueue that reports false
/// when the client is already gone.
#[verifier::external_body]
fn send_text(responder: &simple_websockets::Responder, data: &str) -> (delivered: bool) {
    responder.send(simple_websockets::Message::Text(data.to_string()))
}

/// The process id put on the wire when none is known.
pub open spec fn spec_or0(n: Option<u64>) -> u64 {
    match n {
        Some(v) => v,
        None => 0,
    }
}

/// The start timestamp put on the wire when none was reported.
pub open spec fn spec_or_zero_str(t: Option<Seq<char>>) -> Seq<char> {
    match t {
        Some(x) => x,
        None => "0"@,
    }
}

fn or0(n: Option<u64>) -> (r: u64)
    ensures
        r == spec_or0(n),
{
    match n {
        Some(v) => v,
        None => 0,
    }
}

/// Copies an optional owned string.
fn clone_opt_string(o: &Option<String>) -> (r: Option<String>)
    ensures
        r == *o,
{
    match o {
        Some(s) => Some(s.clone()),
        None => None,
    }
}

/// The record that closes a live session: an empty activity for the process
/// id last seen, addressed under the closing session's identifier.
pub open spec fn spec_clear_payload(last_pid: Option<u64>, active: Seq<char>) -> Seq<char> {
    spec_payload_json(None, Some(spec_or0(last_pid)), active)
}

/// The populated record announcing a newly detected process session.
pub open spec fn spec_proc_payload(ev: ProcessDetectedEventModel) -> Seq<char> {
    spec_payload_json(
        Some(
            ActivityModel {
                application_id: ev.id,
                name: ev.name,
                timestamp_start: spec_or_zero_str(ev.timestamp),
            },
        ),
        Some(spec_or0(ev.pid)),
        ev.id,
    )
}

/// The records broadcast for one process-detection report, in order.  The
/// sentinel id `"null"` clears a live session (and is dropped while idle); a
/// repeat of the live session is suppressed; a change of session first
/// closes the old one, then announces the new one.
pub open spec fn spec_proc_outputs(
    last_pid: Option<u64>,
    active: Option<Seq<char>>,
    ev: ProcessDetectedEventModel,
) -> Seq<Seq<char>> {
    if ev.id == "null"@ {
        match active {
            None => Seq::<Seq<char>>::empty(),
            Some(a) => seq![spec_clear_payload(last_pid, a)],
        }
    } else if active == Some(ev.id) {
        Seq::<Seq<char>>::empty()
    } else {
        match active {
            None => seq![spec_proc_payload(ev)],
            Some(a) => seq![spec_clear_payload(last_pid, a), spec_proc_payload(ev)],
        }
    }
}

/// The last-seen process id after one process-detection report.
pub open spec fn spec_proc_next_pid(
    last_pid: Option<u64>,
    active: Option<Seq<char>>,
    ev: ProcessDetectedEventModel,
) -> Option<u64> {
    if ev.id == "null"@ {
        match active {
            None => last_pid,
            Some(_) => None,
        }
    } else if active == Some(ev.id) {
        last_pid
    } else {
        ev.pid
    }
}

/// The live session after one process-detection report.
pub open spec fn spec_proc_next_active(
    last_pid: Option<u64>,
    active: Option<Seq<char>>,
    ev: ProcessDetectedEventModel,
) -> Option<Seq<char>> {
    if ev.id == "null"@ {
        None
    } else if active == Some(ev.id) {
        active
    } else {
        Some(ev.id)
    }
}

/// The record that a SET_ACTIVITY-shaped command produces, if any: none
/// without an argument bundle; the clearing record when the bundle carries
/// no activity body; else the populated record, stamped with the command's
/// application id and addressed under the stringified process id.
pub open spec fn spec_set_activity_payload(c: ActivityCmdModel) -> Option<Seq<char>> {
    match c.args {
        None => None,
        Some(args) => match args.activity {
            None => Some(
                spec_payload_json(
                    None,
                    Some(spec_or0(args.pid)),
                    spec_u64_digits(spec_or0(args.pid) as int),
                ),
            ),
            Some(a) => Some(
                spec_payload_json(
                    Some(
                        ActivityModel {
                            application_id: c.application_id,
                            name: a.name,
                            timestamp_start: a.timestamp_start,
                        },
                    ),
                    args.pid,
                    spec_u64_digits(spec_or0(args.pid) as int),
                ),
            ),
        },
    }
}

/// The records broadcast for one IPC command, in order.
pub open spec fn spec_ipc_outputs(c: ActivityCmdModel) -> Seq<Seq<char>> {
    match spec_set_activity_payload(c) {
        None => Seq::<Seq<char>>::empty(),
        Some(p) => seq![p],
    }
}

/// The records broadcast for one socket-originated command, in order: any
/// tag other than SET_ACTIVITY passes the whole event through serialized
/// as-is.
pub open spec fn spec_ws_outputs(c: ActivityCmdModel) -> Seq<Seq<char>> {
    if c.cmd == "SET_ACTIVITY"@ {
        spec_ipc_outputs(c)
    } else {
        seq![spec_cmd_json(c)]
    }
}

/// One transition of the process-detection state machine: from the current
/// presence state and one report to the next state and the records to
/// broadcast, in order.
pub fn proc_step(
    last_pid: Option<u64>,
    active_socket: &Option<String>,
    event: &ProcessDetectedEvent,
) -> (r: (Option<u64>, Option<String>, Vec<String>))
    ensures
        r.0 == spec_proc_next_pid(last_pid, opt_string_view(*active_socket), event@),
        opt_string_view(r.1) == spec_proc_next_active(
            last_pid,
            opt_string_view(*active_socket),
            event@,
        ),
        strings_view(r.2@) == spec_proc_outputs(
            last_pid,
            opt_string_view(*active_socket),
            event@,
        ),
{
    let mut out: Vec<String> = Vec::new();
    let null_lit = String::from_str("null");
    if event.id == null_lit {
        match active_socket {
            None => {
                proof {
                    assert(strings_view(out@) =~= spec_proc_outputs(
                        last_pid,
                        opt_string_view(*active_socket),
                        event@,
                    ));
                }
                (last_pid, None, out)
            }
            Some(a) => {
                out.push(empty_activity(or0(last_pid), a.clone()));
                proof {
                    assert(strings_view(out@) =~= spec_proc_outputs(
                        last_pid,
                        opt_string_view(*active_socket),
                        event@,
                    ));
                }
                (None, None, out)
            }
        }
    } else {
        let repeat = match active_socket {
            Some(a) => *a == event.id,
            None => false,
        };
        if repeat {
            proof {
                assert(strings_view(out@) =~= spec_proc_outputs(
                    last_pid,
                    opt_string_view(*active_socket),
                    event@,
                ));
            }
            (last_pid, clone_opt_string(active_socket), out)
        } else {
            match active_socket {
                Some(a) => {
                    out.push(empty_activity(or0(last_pid), a.clone()));
                }
                None => {}
            }
            let start = match &event.timestamp {
                Some(t) => t.clone(),
                None => String::from_str("0"),
            };
            let activity = Activity {
                application_id: event.id.clone(),
                name: event.name.clone(),
                timestamp_start: start,
            };
            out.push(payload_json(Some(&activity), Some(or0(event.pid)), event.id.as_str()));
            proof {
                assert(strings_view(out@) =~= spec_proc_outputs(
                    last_pid,
                    opt_string_view(*active_socket),
                    event@,
                ));
            }
            (event.pid, Some(event.id.clone()), out)
        }
    }
}

/// The SET_ACTIVITY transform shared by the IPC and the socket-command
/// producers: normalizes the argument bundle into the one outbound record
/// it calls for, if any.
pub fn set_activity_payload(cmd: ActivityCmd) -> (r: Option<String>)
    ensures
        opt_string_view(r) == spec_set_activity_payload(cmd@),
{
    let args = match cmd.args {
        Some(args) => args,
        None => {
            return None;
        }
    };
    let pid0 = or0(args.pid);
    let sid = u64_to_string(pid0);
    match args.activity {
        None => Some(empty_activity(pid0, sid)),
        Some(a) => {
            let activity = Activity {
                application_id: cmd.application_id,
                name: a.name,
                timestamp_start: a.timestamp_start,
            };
            Some(payload_json(Some(&activity), args.pid, sid.as_str()))
        }
    }
}

/// The connector: the registry of connected clients, the presence state for
/// the process-detection producer, and the payload sent to every client on
/// connect.
pub struct ClientConnector {
    pub port: u16,
    pub data_on_connect: String,
    pub clients: Vec<(u64, simple_websockets::Responder)>,
    pub last_pid: Option<u64>,
    pub active_socket: Option<String>,
}

impl ClientConnector {
    /// Registry sanity: at most one entry per connection id.
    pub open spec fn wf(&self) -> bool {
        forall|i: int, j: int|
            0 <= i < j < self.clients@.len() ==> (#[trigger] self.clients@[i]).0 != (
            #[trigger] self.clients@[j]).0
    }

    /// Whether a connection id is registered.
    pub open spec fn spec_has_client(&self, client_id: u64) -> bool {
        exists|k: int|
            0 <= k < self.clients@.len() && (#[trigger] self.clients@[k]).0 == client_id
    }

    /// A fresh connector: no clients, no live session.
    pub fn new(port: u16, data_on_connect: String) -> (c: ClientConnector)
        ensures
            c.port == port,
            c.data_on_connect == data_on_connect,
            c.clients@.len() == 0,
            c.last_pid is None,
            c.active_socket is None,
            c.wf(),
    {
        ClientConnector {
            port,
            data_on_connect,
            clients: Vec::new(),
            last_pid: None,
            active_socket: None,
        }
    }

    /// Broadcasts `data` to every registered client, best effort: a client
    /// that went away between registration and send is skipped by the
    /// transport and does not stop delivery to the rest.  Returns the
    /// number of attempted sends, one per registered client.
    pub fn send_data(&self, data: String) -> (attempted: usize)
        ensures
            attempted == self.clients@.len(),
    {
        let mut i: usize = 0;
        while i < self.clients.len()
            invariant
                i <= self.clients@.len(),
            decreases self.clients@.len() - i,
        {
            let _ = send_text(&self.clients[i].1, data.as_str());
            i = i + 1;
        }
        i
    }

    /// Handles a transport disconnect: the entry for `client_id` leaves the
    /// registry; no further sends are attempted to it.
    pub fn on_disconnect(&mut self, client_id: u64)
        requires
            old(self).wf(),
        ensures
            final(self).wf(),
            final(self).port == old(self).port,
            final(self).data_on_connect == old(self).data_on_connect,
            final(self).last_pid == old(self).last_pid,
            final(self).active_socket == old(self).active_socket,
            !final(self).spec_has_client(client_id),
            forall|p: (u64, simple_websockets::Responder)|
                old(self).clients@.contains(p) && p.0 != client_id ==> final(self).clients@.contains(p),
            forall|p: (u64, simple_websockets::Responder)|
                final(self).clients@.contains(p) ==> old(self).clients@.contains(p) && p.0
                    != client_id,
            old(self).spec_has_client(client_id) ==> final(self).clients@.len() == old(self).clients@.len() - 1,
            !old(self).spec_has_client(client_id) ==> *final(self) == *old(self),
    {
        let mut i: usize = 0;
        while i < self.clients.len()
            invariant
                old(self).wf(),
                i <= self.clients@.len(),
                *self == *old(self),
                forall|k: int| 0 <= k < i ==> (#[trigger] self.clients@[k]).0 != client_id,
            decreases self.clients@.len() - i,
        {
            if self.clients[i].0 == client_id {
                self.clients.remove(i);
                proof {
                    let pre = old(self).clients@;
                    let post = self.clients@;
                    pre.remove_ensures(i as int);
                    assert(pre[i as int].0 == client_id);
                    assert forall|p: (u64, simple_websockets::Responder)|
                        pre.contains(p) && p.0 != client_id implies post.contains(p) by {
                        let j = choose|j: int| 0 <= j < pre.len() && pre[j] == p;
                        if j < i {
                            assert(post[j] == p);
                        } else {
                            assert(post[j - 1] == p);
                        }
                    };
                    assert forall|p: (u64, simple_websockets::Responder)|
                        post.contains(p) implies pre.contains(p) && p.0 != client_id by {
                        let j = choose|j: int| 0 <= j < post.len() && post[j] == p;
                        if j < i {
                            assert(pre[j] == p);
                        } else {
                            assert(pre[j + 1] == p);
                            assert(pre[i as int].0 != pre[j + 1].0);
                        }
                    };
                    assert forall|a: int, b: int|
                        0 <= a < b < post.len() implies (#[trigger] post[a]).0 != (
                        #[trigger] post[b]).0 by {
                        if b < i {
                            assert(pre[a] == post[a] && pre[b] == post[b]);
                        } else if a < i {
                            assert(pre[a] == post[a] && pre[b + 1] == post[b]);
                        } else {
                            assert(pre[a + 1] == post[a] && pre[b + 1] == post[b]);
                        }
                    };
                    assert forall|k: int|
                        0 <= k < post.len() implies (#[trigger] post[k]).0 != client_id by {
                        if k < i {
                            assert(pre[k] == post[k]);
                        } else {
                            assert(pre[k + 1] == post[k]);
                        }
                    };
                }
                return;
            }
            i = i + 1;
        }
    }

    /// Handles a transport connect: the welcome payload is sent to the new
    /// client first, then its handle is registered (replacing any stale
    /// entry under the same id).
    pub fn on_connect(&mut self, client_id: u64, responder: simple_websockets::Responder)
        requires
            old(self).wf(),
        ensures
            final(self).wf(),
            final(self).port == old(self).port,
            final(self).data_on_connect == old(self).data_on_connect,
            final(self).last_pid == old(self).last_pid,
            final(self).active_socket == old(self).active_socket,
            final(self).clients@.contains((client_id, responder)),
            final(self).spec_has_client(client_id),
            forall|p: (u64, simple_websockets::Responder)|
                old(self).clients@.contains(p) && p.0 != client_id ==> final(self).clients@.contains(p),
            forall|p: (u64, simple_websockets::Responder)|
                final(self).clients@.contains(p) ==> p == (client_id, responder) || (old(self).clients@.contains(p) && p.0 != client_id),
            old(self).spec_has_client(client_id) ==> final(self).clients@.len() == old(self).clients@.len(),
            !old(self).spec_has_client(client_id) ==> final(self).clients@.len() == old(self).clients@.len() + 1,
    {
        let _ = send_text(&responder, self.data_on_connect.as_str());
        self.on_disconnect(client_id);
        let ghost mid = self.clients@;
        self.clients.push((client_id, responder));
        proof {
            let post = self.clients@;
            assert forall|p: (u64, simple_websockets::Responder)|
                mid.contains(p) implies post.contains(p) by {
                let j = choose|j: int| 0 <= j < mid.len() && mid[j] == p;
                assert(post[j] == p);
            };
            assert(post[post.len() - 1] == (client_id, responder));
            assert forall|p: (u64, simple_websockets::Responder)|
                post.contains(p) implies p == (client_id, responder) || mid.contains(p) by {
                let j = choose|j: int| 0 <= j < post.len() && post[j] == p;
                if j < post.len() - 1 {
                    assert(mid[j] == p);
                }
            };
            assert forall|a: int, b: int|
                0 <= a < b < post.len() implies (#[trigger] post[a]).0 != (#[trigger] post[b]).0 by {
                if b < post.len() - 1 {
                    assert(mid[a] == post[a] && mid[b] == post[b]);
                } else {
                    assert(mid[a] == post[a]);
                    assert(mid.contains(mid[a]));
                }
            };
        }
    }

    /// Handles an inbound socket message: it is echoed verbatim back to the
    /// originating connection.  Returns whether the connection id was
    /// found; a miss breaks the registry invariant and is the caller's to
    /// report.
    pub fn on_message(&self, client_id: u64, message: simple_websockets::Message) -> (found: bool)
        ensures
            found == self.spec_has_client(client_id),
    {
        let mut i: usize = 0;
        while i < self.clients.len()
            invariant
                i <= self.clients@.len(),
                forall|k: int| 0 <= k < i ==> (#[trigger] self.clients@[k]).0 != client_id,
            decreases self.clients@.len() - i,
        {
            if self.clients[i].0 == client_id {
                let _ = self.clients[i].1.send(message);
                return true;
            }
            i = i + 1;
        }
        false
    }

    /// Dispatches one process-detection report: with no audience the event
    /// is dropped untouched, otherwise the presence state machine advances
    /// and every record it calls for is broadcast, in order.  Returns the
    /// broadcast records.
    pub fn on_proc_event(&mut self, event: ProcessDetectedEvent) -> (sent: Vec<String>)
        requires
            old(self).wf(),
        ensures
            final(self).wf(),
            final(self).port == old(self).port,
            final(self).data_on_connect == old(self).data_on_connect,
            final(self).clients == old(self).clients,
            old(self).clients@.len() == 0 ==> final(self).last_pid == old(self).last_pid
                && final(self).active_socket == old(self).active_socket && sent@.len() == 0,
            old(self).clients@.len() > 0 ==> ({
                &&& final(self).last_pid == spec_proc_next_pid(
                    old(self).last_pid,
                    opt_string_view(old(self).active_socket),
                    event@,
                )
                &&& opt_string_view(final(self).active_socket) == spec_proc_next_active(
                    old(self).last_pid,
                    opt_string_view(old(self).active_socket),
                    event@,
                )
                &&& strings_view(sent@) == spec_proc_outputs(
                    old(self).last_pid,
                    opt_string_view(old(self).active_socket),
                    event@,
                )
            }),
    {
        if self.clients.len() == 0 {
            return Vec::new();
        }
        let (next_pid, next_active, outs) = proc_step(self.last_pid, &self.active_socket, &event);
        self.last_pid = next_pid;
        self.active_socket = next_active;
        let mut i: usize = 0;
        while i < outs.len()
            invariant
                i <= outs@.len(),
            decreases outs@.len() - i,
        {
            let _ = self.send_data(outs[i].clone());
            i = i + 1;
        }
        outs
    }

    /// Dispatches one IPC command: with no audience the event is dropped
    /// without any transform work, otherwise its SET_ACTIVITY record, if it
    /// has one, is broadcast.  This producer keeps no state.  Returns the
    /// broadcast records.
    pub fn on_ipc_event(&self, cmd: ActivityCmd) -> (sent: Vec<String>)
        ensures
            self.clients@.len() == 0 ==> sent@.len() == 0,
            self.clients@.len() > 0 ==> strings_view(sent@) == spec_ipc_outputs(
                cmd@,
            ),
    {
        let mut out: Vec<String> = Vec::new();
        if self.clients.len() == 0 {
            return out;
        }
        match set_activity_payload(cmd) {
            Some(p) => {
                let _ = self.send_data(p.clone());
                out.push(p);
            }
            None => {}
        }
        proof {
            assert(strings_view(out@) =~= spec_ipc_outputs(cmd@));
        }
        out
    }

    /// Dispatches one socket-originated command: with no audience it is
    /// dropped; a tag other than SET_ACTIVITY is passed through serialized
    /// as-is; a SET_ACTIVITY command goes through the same transform as the
    /// IPC producer.  Returns the broadcast records.
    pub fn on_ws_event(&self, cmd: ActivityCmd) -> (sent: Vec<String>)
        ensures
            self.clients@.len() == 0 ==> sent@.len() == 0,
            self.clients@.len() > 0 ==> strings_view(sent@) == spec_ws_outputs(cmd@),
    {
        let mut out: Vec<String> = Vec::new();
        if self.clients.len() == 0 {
            return out;
        }
        let set_activity_tag = String::from_str("SET_ACTIVITY");
        if cmd.cmd == set_activity_tag {
            match set_activity_payload(cmd) {
                Some(p) => {
                    let _ = self.send_data(p.clone());
                    out.push(p);
                }
                None => {}
            }
            proof {
                assert(strings_view(out@) =~= spec_ws_outputs(cmd@));
            }
            out
        } else {
            let p = cmd_json(&cmd);
            let _ = self.send_data(p.clone());
            out.push(p);
            proof {
                assert(strings_view(out@) =~= spec_ws_outputs(cmd@));
            }
            out
        }
    }
}

/// Law: repeated reports are suppressed.  A non-sentinel report arriving
/// while idle broadcasts exactly one record; once any non-sentinel report
/// has been applied, applying the same report again broadcasts nothing and
/// leaves the presence state unchanged.  A level-triggered producer thus
/// yields edge-triggered notifications.
pub proof fn lemma_proc_repeat_suppressed(
    last_pid: Option<u64>,
    active: Option<Seq<char>>,
    ev: ProcessDetectedEventModel,
)
    requires
        ev.id != "null"@,
    ensures
        active is None ==> spec_proc_outputs(last_pid, active, ev) == seq![spec_proc_payload(ev)],
        ({
            let lp1 = spec_proc_next_pid(last_pid, active, ev);
            let a1 = spec_proc_next_active(last_pid, active, ev);
            &&& spec_proc_outputs(lp1, a1, ev) == Seq::<Seq<char>>::empty()
            &&& spec_proc_next_pid(lp1, a1, ev) == lp1
            &&& spec_proc_next_active(lp1, a1, ev) == a1
        }),
{
    assert(spec_proc_next_active(last_pid, active, ev) == Some(ev.id));
}

/// Law: edge-closing.  A change of live session without an intervening
/// sentinel broadcasts exactly two records, in order: the empty record
/// closing the old session, then the populated record for the new one; the
/// state then holds the new session and its reported process id.
pub proof fn lemma_proc_edge_closing(
    last_pid: Option<u64>,
    active_id: Seq<char>,
    ev: ProcessDetectedEventModel,
)
    requires
        ev.id != "null"@,
        ev.id != active_id,
    ensures
        spec_proc_outputs(last_pid, Some(active_id), ev) == seq![
            spec_clear_payload(last_pid, active_id),
            spec_proc_payload(ev),
        ],
        spec_proc_next_active(last_pid, Some(active_id), ev) == Some(ev.id),
        spec_proc_next_pid(last_pid, Some(active_id), ev) == ev.pid,
{
}

/// Law: clear-on-null.  While a session is live, the sentinel report
/// broadcasts exactly one empty record and resets the state to idle; a
/// further sentinel while idle broadcasts nothing and changes nothing.
pub proof fn lemma_proc_clear_on_null(
    last_pid: Option<u64>,
    active_id: Seq<char>,
    ev: ProcessDetectedEventModel,
)
    requires
        ev.id == "null"@,
    ensures
        spec_proc_outputs(last_pid, Some(active_id), ev) == seq![
            spec_clear_payload(last_pid, active_id),
        ],
        spec_proc_next_active(last_pid, Some(active_id), ev) is None,
        spec_proc_next_pid(last_pid, Some(active_id), ev) is None,
        spec_proc_outputs(None, None, ev) == Seq::<Seq<char>>::empty(),
        spec_proc_next_active(None, None, ev) is None,
        spec_proc_next_pid(None, None, ev) is None,
{
}

} // verus!
