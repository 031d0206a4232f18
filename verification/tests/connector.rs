use presence_bridge::connector::{proc_step, set_activity_payload, ClientConnector};
use presence_bridge::events::{Activity, ActivityArgs, ActivityCmd, ProcessDetectedEvent};

fn game_event() -> ProcessDetectedEvent {
    ProcessDetectedEvent {
        id: String::from("123"),
        name: String::from("Game"),
        timestamp: None,
        pid: Some(42),
    }
}

fn null_event() -> ProcessDetectedEvent {
    ProcessDetectedEvent {
        id: String::from("null"),
        name: String::from(""),
        timestamp: None,
        pid: None,
    }
}

const GAME_PAYLOAD: &str = "{\"activity\": {\"application_id\": \"123\", \"name\": \"Game\", \
     \"timestamps\": {\"start\": \"0\"}, \"type\": 0, \"metadata\": {}, \
     \"flags\": 0}, \"pid\": 42, \"socketId\": \"123\"}";

const CLEAR_PAYLOAD: &str = "{\"activity\": null, \"pid\": 42, \"socketId\": \"123\"}";

#[test]
fn process_detection_scenario() {
    // Idle; the sentinel is dropped.
    let (pid, active, sent) = proc_step(None, &None, &null_event());
    assert_eq!(pid, None);
    assert_eq!(active, None);
    assert!(sent.is_empty());

    // A detected process is announced once.
    let (pid, active, sent) = proc_step(pid, &active, &game_event());
    assert_eq!(pid, Some(42));
    assert_eq!(active, Some(String::from("123")));
    assert_eq!(sent, vec![String::from(GAME_PAYLOAD)]);

    // The repeated report is suppressed.
    let (pid, active, sent) = proc_step(pid, &active, &game_event());
    assert_eq!(pid, Some(42));
    assert_eq!(active, Some(String::from("123")));
    assert!(sent.is_empty());

    // The sentinel closes the live session with one empty record.
    let (pid, active, sent) = proc_step(pid, &active, &null_event());
    assert_eq!(pid, None);
    assert_eq!(active, None);
    assert_eq!(sent, vec![String::from(CLEAR_PAYLOAD)]);
}

#[test]
fn repeated_report_broadcasts_once() {
    let (pid, active, first) = proc_step(None, &None, &game_event());
    assert_eq!(first.len(), 1);
    let (_, _, second) = proc_step(pid, &active, &game_event());
    assert_eq!(second.len(), 0);
}

#[test]
fn session_change_closes_old_session_first() {
    let live = Some(String::from("A"));
    let event = ProcessDetectedEvent {
        id: String::from("B"),
        name: String::from("Other"),
        timestamp: Some(String::from("99")),
        pid: Some(9),
    };
    let (pid, active, sent) = proc_step(Some(7), &live, &event);
    assert_eq!(pid, Some(9));
    assert_eq!(active, Some(String::from("B")));
    assert_eq!(
        sent,
        vec![
            String::from("{\"activity\": null, \"pid\": 7, \"socketId\": \"A\"}"),
            String::from(
                "{\"activity\": {\"application_id\": \"B\", \"name\": \"Other\", \
                 \"timestamps\": {\"start\": \"99\"}, \"type\": 0, \"metadata\": {}, \
                 \"flags\": 0}, \"pid\": 9, \"socketId\": \"B\"}"
            ),
        ]
    );
}

#[test]
fn clear_while_idle_is_dropped() {
    let (pid, active, sent) = proc_step(Some(5), &None, &null_event());
    assert_eq!(pid, Some(5));
    assert_eq!(active, None);
    assert!(sent.is_empty());
}

#[test]
fn clear_uses_last_known_pid() {
    let (pid, active, sent) = proc_step(None, &Some(String::from("123")), &null_event());
    assert_eq!(pid, None);
    assert_eq!(active, None);
    assert_eq!(
        sent,
        vec![String::from("{\"activity\": null, \"pid\": 0, \"socketId\": \"123\"}")]
    );
}

#[test]
fn no_audience_drops_process_events() {
    let mut connector = ClientConnector::new(6463, String::from("welcome"));
    let sent = connector.on_proc_event(game_event());
    assert!(sent.is_empty());
    assert_eq!(connector.last_pid, None);
    assert_eq!(connector.active_socket, None);
}

#[test]
fn no_audience_drops_commands() {
    let connector = ClientConnector::new(6463, String::from("welcome"));
    let ipc_sent = connector.on_ipc_event(ActivityCmd {
        cmd: String::from("SET_ACTIVITY"),
        application_id: String::from("app1"),
        args: Some(ActivityArgs { activity: None, pid: Some(3) }),
    });
    assert!(ipc_sent.is_empty());
    let ws_sent = connector.on_ws_event(ActivityCmd {
        cmd: String::from("INVITE_BROWSE"),
        application_id: String::from("app1"),
        args: None,
    });
    assert!(ws_sent.is_empty());
}

#[test]
fn broadcast_attempts_one_send_per_client() {
    let connector = ClientConnector::new(6463, String::from("welcome"));
    // An empty registry broadcasts to nobody.
    assert_eq!(connector.send_data(String::from("payload")), 0);
}

#[test]
fn disconnect_of_unknown_client_is_harmless() {
    let mut connector = ClientConnector::new(6463, String::from("welcome"));
    connector.on_disconnect(11);
    assert_eq!(connector.clients.len(), 0);
}

#[test]
fn set_activity_without_args_is_rejected() {
    let r = set_activity_payload(ActivityCmd {
        cmd: String::from("SET_ACTIVITY"),
        application_id: String::from("app1"),
        args: None,
    });
    assert_eq!(r, None);
}

#[test]
fn set_activity_without_body_clears() {
    let r = set_activity_payload(ActivityCmd {
        cmd: String::from("SET_ACTIVITY"),
        application_id: String::from("app1"),
        args: Some(ActivityArgs { activity: None, pid: Some(5) }),
    });
    assert_eq!(
        r,
        Some(String::from("{\"activity\": null, \"pid\": 5, \"socketId\": \"5\"}"))
    );
}

#[test]
fn set_activity_stamps_application_id() {
    let r = set_activity_payload(ActivityCmd {
        cmd: String::from("SET_ACTIVITY"),
        application_id: String::from("app1"),
        args: Some(ActivityArgs {
            activity: Some(Activity {
                application_id: String::from("stale"),
                name: String::from("Game"),
                timestamp_start: String::from("0"),
            }),
            pid: None,
        }),
    });
    assert_eq!(
        r,
        Some(String::from(
            "{\"activity\": {\"application_id\": \"app1\", \"name\": \"Game\", \
             \"timestamps\": {\"start\": \"0\"}, \"type\": 0, \"metadata\": {}, \
             \"flags\": 0}, \"pid\": null, \"socketId\": \"0\"}"
        ))
    );
}
