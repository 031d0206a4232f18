//! Construction of the one JSON wire shape that is broadcast to clients.
//!
//! Every outbound frame is either an "empty" record, `{"activity": null,
//! "pid": N, "socketId": "S"}`, telling clients to clear their displayed
//! state, or a "populated" record carrying one activity object.  The
//! builders here are specified against spec-level character sequences, so
//! callers can state exactly which bytes go out on the wire.

use crate::events::{Activity, ActivityArgsModel, ActivityCmd, ActivityCmdModel, ActivityModel};
use vstd::prelude::*;
use vstd::string::StringExecFns;

verus! {

/// The decimal digit character for `d` (any value outside 0..=9 is mapped
/// to '9'; callers only apply it to digits).
pub open spec fn spec_digit_char(d: int) -> char {
    if d == 0 {
        '0'
    } else if d == 1 {
        '1'
    } else if d == 2 {
        '2'
    } else if d == 3 {
        '3'
    } else if d == 4 {
        '4'
    } else if d == 5 {
        '5'
    } else if d == 6 {
        '6'
    } else if d == 7 {
        '7'
    } else if d == 8 {
        '8'
    } else {
        '9'
    }
}

/// The decimal rendering of `n`, most significant digit first.
pub open spec fn spec_u64_digits(n: int) -> Seq<char>
    decreases n,
{
    if n < 10 {
        seq![spec_digit_char(n)]
    } else {
        spec_u64_digits(n / 10).push(spec_digit_char(n % 10))
    }
}

/// The one-character string for a decimal digit.
fn digit_str(d: u64) -> (r: &'static str)
    requires
        d < 10,
    ensures
        r@ == seq![spec_digit_char(d as int)],
{
    proof {
        reveal_strlit("0");
        reveal_strlit("1");
        reveal_strlit("2");
        reveal_strlit("3");
        reveal_strlit("4");
        reveal_strlit("5");
        reveal_strlit("6");
        reveal_strlit("7");
        reveal_strlit("8");
        reveal_strlit("9");
    }
    let r: &'static str = if d == 0 {
        "0"
    } else if d == 1 {
        "1"
    } else if d == 2 {
        "2"
    } else if d == 3 {
        "3"
    } else if d == 4 {
        "4"
    } else if d == 5 {
        "5"
    } else if d == 6 {
        "6"
    } else if d == 7 {
        "7"
    } else {
        "8"
    };
    let r: &'static str = if d == 9 {
        "9"
    } else {
        r
    };
    proof {
        assert(r@ =~= seq![spec_digit_char(d as int)]);
    }
    r
}

/// Appends the decimal rendering of `n` to `out`.
fn push_u64_digits(out: &mut String, n: u64)
    ensures
        final(out)@ == old(out)@ + spec_u64_digits(n as int),
    decreases n,
{
    if n < 10 {
        out.append(digit_str(n));
        proof {
            assert(out@ =~= old(out)@ + spec_u64_digits(n as int));
        }
    } else {
        push_u64_digits(out, n / 10);
        out.append(digit_str(n % 10));
        proof {
            assert(spec_u64_digits(n as int) =~= spec_u64_digits(n as int / 10) + seq![
                spec_digit_char(n as int % 10),
            ]);
            assert(out@ =~= old(out)@ + spec_u64_digits(n as int));
        }
    }
}

/// The decimal string for `n`.
pub fn u64_to_string(n: u64) -> (r: String)
    ensures
        r@ == spec_u64_digits(n as int),
{
    let mut r = String::new();
    push_u64_digits(&mut r, n);
    proof {
        assert(r@ =~= spec_u64_digits(n as int));
    }
    r
}

/// The JSON text for an optional process id: its decimal digits, or `null`.
pub open spec fn spec_opt_u64_json(n: Option<u64>) -> Seq<char> {
    match n {
        Some(v) => spec_u64_digits(v as int),
        None => "null"@,
    }
}

/// The JSON object for one activity body.  String fields are spliced in
/// verbatim; the producers hand over identifiers and names that carry no
/// JSON metacharacters.
pub open spec fn spec_activity_json(a: ActivityModel) -> Seq<char> {
    "{\"application_id\": \""@ + a.application_id + "\", \"name\": \""@ + a.name
        + "\", \"timestamps\": {\"start\": \""@ + a.timestamp_start
        + "\"}, \"type\": 0, \"metadata\": {}, \"flags\": 0}"@
}

/// The JSON record broadcast to every client: an activity object or `null`,
/// a process id or `null`, and a socket identifier string.
pub open spec fn spec_payload_json(
    activity: Option<ActivityModel>,
    pid: Option<u64>,
    socket_id: Seq<char>,
) -> Seq<char> {
    "{\"activity\": "@ + (match activity {
        Some(a) => spec_activity_json(a),
        None => "null"@,
    }) + ", \"pid\": "@ + spec_opt_u64_json(pid) + ", \"socketId\": \""@ + socket_id + "\"}"@
}

/// The JSON object for a command's argument bundle.
pub open spec fn spec_args_json(a: ActivityArgsModel) -> Seq<char> {
    "{\"activity\": "@ + (match a.activity {
        Some(x) => spec_activity_json(x),
        None => "null"@,
    }) + ", \"pid\": "@ + spec_opt_u64_json(a.pid) + "}"@
}

/// The JSON record for a whole command event, used when a socket command is
/// passed through to the clients unchanged.
pub open spec fn spec_cmd_json(c: ActivityCmdModel) -> Seq<char> {
    "{\"cmd\": \""@ + c.cmd + "\", \"application_id\": \""@ + c.application_id + "\", \"args\": "@
        + (match c.args {
        Some(a) => spec_args_json(a),
        None => "null"@,
    }) + "}"@
}

/// The view of an optional borrowed activity body.
pub open spec fn opt_activity_view(a: Option<&Activity>) -> Option<ActivityModel> {
    match a {
        Some(x) => Some(x@),
        None => None,
    }
}

/// Appends the JSON text for an optional process id to `out`.
fn push_opt_u64_json(out: &mut String, n: Option<u64>)
    ensures
        final(out)@ == old(out)@ + spec_opt_u64_json(n),
{
    match n {
        Some(v) => push_u64_digits(out, v),
        None => out.append("null"),
    }
}

/// Appends the JSON object for one activity body to `out`.
fn push_activity_json(out: &mut String, a: &Activity)
    ensures
        final(out)@ == old(out)@ + spec_activity_json(a@),
{
    out.append("{\"application_id\": \"");
    out.append(a.application_id.as_str());
    out.append("\", \"name\": \"");
    out.append(a.name.as_str());
    out.append("\", \"timestamps\": {\"start\": \"");
    out.append(a.timestamp_start.as_str());
    out.append("\"}, \"type\": 0, \"metadata\": {}, \"flags\": 0}");
    proof {
        assert(out@ =~= old(out)@ + spec_activity_json(a@));
    }
}

/// Serializes one outbound record: the given activity body (or `null`), the
/// process id (or `null`), and the socket identifier.
pub fn payload_json(activity: Option<&Activity>, pid: Option<u64>, socket_id: &str) -> (r: String)
    ensures
        r@ == spec_payload_json(opt_activity_view(activity), pid, socket_id@),
{
    let mut r = String::new();
    r.append("{\"activity\": ");
    match activity {
        Some(a) => push_activity_json(&mut r, a),
        None => r.append("null"),
    }
    r.append(", \"pid\": ");
    push_opt_u64_json(&mut r, pid);
    r.append(", \"socketId\": \"");
    r.append(socket_id);
    r.append("\"}");
    proof {
        assert(r@ =~= spec_payload_json(opt_activity_view(activity), pid, socket_id@));
    }
    r
}

/// The sentinel broadcast meaning "no activity is currently active", keyed
/// by the process id it clears and the socket identifier it was shown under.
pub fn empty_activity(pid: u64, socket_id: String) -> (r: String)
    ensures
        r@ == spec_payload_json(None, Some(pid), socket_id@),
{
    payload_json(None, Some(pid), socket_id.as_str())
}

/// Serializes a whole command event, for broadcasting it unchanged.
pub fn cmd_json(c: &ActivityCmd) -> (r: String)
    ensures
        r@ == spec_cmd_json(c@),
{
    let mut r = String::new();
    r.append("{\"cmd\": \"");
    r.append(c.cmd.as_str());
    r.append("\", \"application_id\": \"");
    r.append(c.application_id.as_str());
    r.append("\", \"args\": ");
    match &c.args {
        Some(a) => {
            r.append("{\"activity\": ");
            match &a.activity {
                Some(x) => push_activity_json(&mut r, x),
                None => r.append("null"),
            }
            r.append(", \"pid\": ");
            push_opt_u64_json(&mut r, a.pid);
            r.append("}");
        }
        None => r.append("null"),
    }
    r.append("}");
    proof {
        assert(r@ =~= spec_cmd_json(c@));
    }
    r
}

} // verus!
