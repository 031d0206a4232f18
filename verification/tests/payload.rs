use presence_bridge::events::{Activity, ActivityArgs, ActivityCmd};
use presence_bridge::payload::{cmd_json, empty_activity, payload_json, u64_to_string};

#[test]
fn u64_to_string_renders_decimal() {
    assert_eq!(u64_to_string(0), "0");
    assert_eq!(u64_to_string(7), "7");
    assert_eq!(u64_to_string(42), "42");
    assert_eq!(u64_to_string(1000), "1000");
    assert_eq!(u64_to_string(u64::MAX), "18446744073709551615");
}

#[test]
fn empty_activity_wire_shape() {
    assert_eq!(
        empty_activity(42, String::from("123")),
        "{\"activity\": null, \"pid\": 42, \"socketId\": \"123\"}"
    );
    assert_eq!(
        empty_activity(0, String::from("0")),
        "{\"activity\": null, \"pid\": 0, \"socketId\": \"0\"}"
    );
}

#[test]
fn populated_payload_wire_shape() {
    let activity = Activity {
        application_id: String::from("123"),
        name: String::from("Game"),
        timestamp_start: String::from("0"),
    };
    assert_eq!(
        payload_json(Some(&activity), Some(42), "123"),
        "{\"activity\": {\"application_id\": \"123\", \"name\": \"Game\", \
         \"timestamps\": {\"start\": \"0\"}, \"type\": 0, \"metadata\": {}, \
         \"flags\": 0}, \"pid\": 42, \"socketId\": \"123\"}"
    );
}

#[test]
fn payload_without_pid_writes_null() {
    assert_eq!(
        payload_json(None, None, "9"),
        "{\"activity\": null, \"pid\": null, \"socketId\": \"9\"}"
    );
}

#[test]
fn cmd_json_without_args() {
    let cmd = ActivityCmd {
        cmd: String::from("INVITE_BROWSE"),
        application_id: String::from("app1"),
        args: None,
    };
    assert_eq!(
        cmd_json(&cmd),
        "{\"cmd\": \"INVITE_BROWSE\", \"application_id\": \"app1\", \"args\": null}"
    );
}

#[test]
fn cmd_json_with_full_args() {
    let cmd = ActivityCmd {
        cmd: String::from("SET_ACTIVITY"),
        application_id: String::from("app1"),
        args: Some(ActivityArgs {
            activity: Some(Activity {
                application_id: String::from("ignored"),
                name: String::from("Game"),
                timestamp_start: String::from("5"),
            }),
            pid: Some(7),
        }),
    };
    assert_eq!(
        cmd_json(&cmd),
        "{\"cmd\": \"SET_ACTIVITY\", \"application_id\": \"app1\", \"args\": \
         {\"activity\": {\"application_id\": \"ignored\", \"name\": \"Game\", \
         \"timestamps\": {\"start\": \"5\"}, \"type\": 0, \"metadata\": {}, \
         \"flags\": 0}, \"pid\": 7}}"
    );
}
