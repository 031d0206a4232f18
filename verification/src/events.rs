//! The three producer event shapes that feed the connector.
//!
//! An IPC command and a socket-originated command share one shape,
//! `ActivityCmd`: a free-form command tag, an application identifier, and an
//! optional argument bundle holding an optional activity body and an
//! optional process id.  A process-detection report, `ProcessDetectedEvent`,
//! carries a session identifier (the sentinel `"null"` means "no process
//! currently active"), a display name, and optional start timestamp and
//! process id.

use vstd::prelude::*;

verus! {

/// The activity body carried inside a command's argument bundle, and the
/// fields serialized inside the `"activity"` object on the wire.
pub struct Activity {
    pub application_id: String,
    pub name: String,
    pub timestamp_start: String,
}

/// Spec-level image of an [`Activity`].
pub struct ActivityModel {
    pub application_id: Seq<char>,
    pub name: Seq<char>,
    pub timestamp_start: Seq<char>,
}

impl View for Activity {
    type V = ActivityModel;

    open spec fn view(&self) -> ActivityModel {
        ActivityModel {
            application_id: self.application_id@,
            name: self.name@,
            timestamp_start: self.timestamp_start@,
        }
    }
}

/// The optional argument bundle of an [`ActivityCmd`].
pub struct ActivityArgs {
    pub activity: Option<Activity>,
    pub pid: Option<u64>,
}

/// Spec-level image of an [`ActivityArgs`].
pub struct ActivityArgsModel {
    pub activity: Option<ActivityModel>,
    pub pid: Option<u64>,
}

impl View for ActivityArgs {
    type V = ActivityArgsModel;

    open spec fn view(&self) -> ActivityArgsModel {
        ActivityArgsModel {
            activity: match self.activity {
                Some(a) => Some(a@),
                None => None,
            },
            pid: self.pid,
        }
    }
}

/// A command event, as produced by the inter-process channel and by the
/// socket transport's inbound message stream.
pub struct ActivityCmd {
    pub cmd: String,
    pub application_id: String,
    pub args: Option<ActivityArgs>,
}

/// Spec-level image of an [`ActivityCmd`].
pub struct ActivityCmdModel {
    pub cmd: Seq<char>,
    pub application_id: Seq<char>,
    pub args: Option<ActivityArgsModel>,
}

impl View for ActivityCmd {
    type V = ActivityCmdModel;

    open spec fn view(&self) -> ActivityCmdModel {
        ActivityCmdModel {
            cmd: self.cmd@,
            application_id: self.application_id@,
            args: match self.args {
                Some(a) => Some(a@),
                None => None,
            },
        }
    }
}

/// A report from the OS process-detection watcher.  `id` is the session
/// identifier; the sentinel value `"null"` means no process is currently
/// detected.
pub struct ProcessDetectedEvent {
    pub id: String,
    pub name: String,
    pub timestamp: Option<String>,
    pub pid: Option<u64>,
}

/// Spec-level image of a [`ProcessDetectedEvent`].
pub struct ProcessDetectedEventModel {
    pub id: Seq<char>,
    pub name: Seq<char>,
    pub timestamp: Option<Seq<char>>,
    pub pid: Option<u64>,
}

impl View for ProcessDetectedEvent {
    type V = ProcessDetectedEventModel;

    open spec fn view(&self) -> ProcessDetectedEventModel {
        ProcessDetectedEventModel {
            id: self.id@,
            name: self.name@,
            timestamp: match self.timestamp {
                Some(t) => Some(t@),
                None => None,
            },
            pid: self.pid,
        }
    }
}

/// The views of a sequence of owned strings.
pub open spec fn strings_view(v: Seq<String>) -> Seq<Seq<char>> {
    v.map_values(|s: String| s@)
}

/// The view of an optional owned string.
pub open spec fn opt_string_view(o: Option<String>) -> Option<Seq<char>> {
    match o {
        Some(s) => Some(s@),
        None => None,
    }
}

} // verus!
