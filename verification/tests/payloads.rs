use syncthing_events::syncthing::decode::{FromJson, JsonMap};
use syncthing_events::syncthing::event_structs::{
    ClusterConfigReceived, ConfigSaved, DeviceAdd, DeviceConnected, DeviceDisconnected,
    DevicePaused, DeviceRemove, DeviceResumed, EventTypes, File, FolderAdd, FolderCompletion,
    FolderErrors, FolderPaused, FolderRemove, FolderRemoveNotPending, FolderRemovePending,
    FolderResumed, PendingFoldersChanged,
    FolderScanProgress, FolderSummary, FolderWatchStateChanged, ItemFinished, ItemStarted,
    ListenAddress, ListenAddressChanged, LocalChangeDetected, LocalIndexUpdated, LoginAttempt,
    PayloadKind, PendingDevicesChanged, RemoteChangeDetected, RemoteDownloadProgress,
    RemoteIndexUpdated, Starting, StateChanged, SyncthingInternalError,
};
use syncthing_events::syncthing::json::{Field, JsonNumber, JsonValue};

fn parse(text: &str) -> EventTypes {
    EventTypes::parse(&JsonValue::from_text(text).unwrap())
}

fn s(text: &str) -> String {
    text.to_string()
}

fn empty() -> EventTypes {
    EventTypes::Unknown(JsonMap { entries: vec![] })
}

#[test]
fn device_connected_is_read() {
    let got = parse(
        r#"{"addr":"1.2.3.4:22000","id":"DEV","deviceName":"laptop","clientName":"syncthing","clientVersion":"v1.0","type":"tcp-client"}"#,
    );
    assert_eq!(
        got,
        EventTypes::DeviceConnected(DeviceConnected {
            addr: s("1.2.3.4:22000"),
            id: s("DEV"),
            deviceName: s("laptop"),
            clientName: s("syncthing"),
            clientVersion: s("v1.0"),
            type_: s("tcp-client"),
        })
    );
    assert_eq!(got.payload_kind(), PayloadKind::DeviceConnected);
}

#[test]
fn device_disconnected_is_read() {
    assert_eq!(
        parse(r#"{"error":"EOF","id":"DEV"}"#),
        EventTypes::DeviceDisconnected(DeviceDisconnected { error: s("EOF"), id: s("DEV") })
    );
}

#[test]
fn members_of_other_names_are_passed_over() {
    assert_eq!(
        parse(r#"{"error":"EOF","id":"DEV","extra":[1,2,3]}"#),
        EventTypes::DeviceDisconnected(DeviceDisconnected { error: s("EOF"), id: s("DEV") })
    );
}

#[test]
fn cluster_config_received_is_read() {
    assert_eq!(
        parse(r#"{"device":"DEV"}"#),
        EventTypes::ClusterConfigReceived(ClusterConfigReceived { device: s("DEV") })
    );
}

#[test]
fn config_saved_keeps_its_sections() {
    let got = parse(
        r#"{"version":37,"folders":[{"id":"f"}],"devices":[],"gui":{"theme":"dark"},"ldap":{},"options":{"n":1},"remoteIgnoredDevices":[],"defaults":{}}"#,
    );
    assert_eq!(
        got,
        EventTypes::ConfigSaved(ConfigSaved {
            version: 37,
            folders: vec![JsonMap { entries: vec![(s("id"), JsonValue::String(s("f")))] }],
            devices: vec![],
            gui: JsonMap { entries: vec![(s("theme"), JsonValue::String(s("dark")))] },
            ldap: JsonMap { entries: vec![] },
            options: JsonMap {
                entries: vec![(s("n"), JsonValue::Number(JsonNumber::PosInt(1)))],
            },
            remoteIgnoredDevices: vec![],
            defaults: JsonMap { entries: vec![] },
        })
    );
}

#[test]
fn config_saved_version_is_a_byte() {
    let text = r#"{"version":256,"folders":[],"devices":[],"gui":{},"ldap":{},"options":{},"remoteIgnoredDevices":[],"defaults":{}}"#;
    assert_eq!(parse(text).payload_kind(), PayloadKind::Unknown);
    let text = r#"{"version":255,"folders":[],"devices":[],"gui":{},"ldap":{},"options":{},"remoteIgnoredDevices":[],"defaults":{}}"#;
    assert_eq!(parse(text).payload_kind(), PayloadKind::ConfigSaved);
}

#[test]
fn empty_object_is_download_progress() {
    assert_eq!(parse("{}"), EventTypes::DownloadProgress(JsonMap { entries: vec![] }));
}

#[test]
fn download_progress_holds_files_by_name() {
    let got = parse(
        r#"{"a.txt":{"total":8,"pulling":1,"copiedFromOrigin":2,"reused":3,"copiedFromElsewhere":4,"pulled":5,"bytesTotal":600,"bytesDone":70}}"#,
    );
    assert_eq!(
        got,
        EventTypes::DownloadProgress(JsonMap {
            entries: vec![(
                s("a.txt"),
                File {
                    total: 8,
                    pulling: 1,
                    copiedFromOrigin: 2,
                    reused: 3,
                    copiedFromElsewhere: 4,
                    pulled: 5,
                    bytesTotal: 600,
                    bytesDone: 70,
                }
            )],
        })
    );
}

#[test]
fn a_string_is_a_failure() {
    assert_eq!(parse(r#""disk full""#), EventTypes::Failure(s("disk full")));
    assert_eq!(parse(r#""""#), EventTypes::Failure(s("")));
}

#[test]
fn folder_completion_with_names_is_hidden_by_cluster_config() {
    let got = parse(
        r#"{"completion":100,"device":"DEV","folder":"f","globalBytes":1,"globalItems":2,"needBytes":3,"needDeletes":4,"needItems":5,"remoteState":"valid","sequence":6}"#,
    );
    assert_eq!(got, EventTypes::ClusterConfigReceived(ClusterConfigReceived { device: s("DEV") }));
}

#[test]
fn folder_completion_is_read_from_an_array() {
    assert_eq!(
        parse(r#"[100,"DEV","f",1,2,3,4,5,"valid",6]"#),
        EventTypes::FolderCompletion(FolderCompletion {
            completion: 100,
            device: s("DEV"),
            folder: s("f"),
            globalBytes: 1,
            globalItems: 2,
            needBytes: 3,
            needDeletes: 4,
            needItems: 5,
            remoteState: s("valid"),
            sequence: 6,
        })
    );
}

#[test]
fn folder_errors_is_read() {
    assert_eq!(
        parse(r#"{"errors":[{"error":"denied","path":"a/b"},{"error":"gone","path":"c"}],"folder":"f"}"#),
        EventTypes::FolderErrors(FolderErrors {
            errors: vec![
                SyncthingInternalError { error: s("denied"), path: s("a/b") },
                SyncthingInternalError { error: s("gone"), path: s("c") },
            ],
            folder: s("f"),
        })
    );
}

#[test]
fn folder_paused_is_read_and_hides_folder_resumed() {
    let got = parse(r#"{"id":"f","label":"Photos"}"#);
    assert_eq!(got, EventTypes::FolderPaused(FolderPaused { id: s("f"), label: s("Photos") }));
    assert_eq!(parse(r#"["f","Photos"]"#).payload_kind(), PayloadKind::DeviceDisconnected);
}

#[test]
fn folder_scan_progress_is_read() {
    assert_eq!(
        parse(r#"{"total":10,"rate":5,"current":3,"folder":"f"}"#),
        EventTypes::FolderScanProgress(FolderScanProgress {
            total: 10,
            rate: 5,
            current: 3,
            folder: s("f"),
        })
    );
}

#[test]
fn folder_summary_is_read() {
    let got = parse(
        r#"{"globalBytes":1,"globalDeleted":2,"globalFiles":3,"ignorePatterns":false,"inSyncBytes":4,"inSyncFiles":5,"invalid":"","localBytes":6,"localDeleted":7,"localFiles":8,"needBytes":9,"needFiles":10,"state":"idle","stateChanged":"2022-01-01T00:00:00Z","version":11}"#,
    );
    assert_eq!(
        got,
        EventTypes::FolderSummary(FolderSummary {
            globalBytes: 1,
            globalDeleted: 2,
            globalFiles: 3,
            ignorePatterns: false,
            inSyncBytes: 4,
            inSyncFiles: 5,
            invalid: s(""),
            localBytes: 6,
            localDeleted: 7,
            localFiles: 8,
            needBytes: 9,
            needFiles: 10,
            state: s("idle"),
            stateChanged: s("2022-01-01T00:00:00Z"),
            version: 11,
        })
    );
}

#[test]
fn state_changed_with_names_is_read_as_folder_watch_state_changed() {
    let want = EventTypes::FolderWatchStateChanged(FolderWatchStateChanged {
        folder: s("f"),
        from: s("idle"),
        to: s("scanning"),
    });
    assert_eq!(parse(r#"{"folder":"f","from":"idle","to":"scanning"}"#), want);
    assert_eq!(parse(r#"{"duration":1.5,"folder":"f","from":"idle","to":"scanning"}"#), want);
}

#[test]
fn state_changed_is_read_from_an_array() {
    assert_eq!(
        parse(r#"[1.5,"f","idle","scanning"]"#),
        EventTypes::StateChanged(StateChanged {
            duration: JsonNumber::Float(1.5f64.to_bits()),
            folder: s("f"),
            from: s("idle"),
            to: s("scanning"),
        })
    );
    assert_eq!(
        parse(r#"[2,"f","idle","scanning"]"#),
        EventTypes::StateChanged(StateChanged {
            duration: JsonNumber::PosInt(2),
            folder: s("f"),
            from: s("idle"),
            to: s("scanning"),
        })
    );
}

#[test]
fn item_finished_takes_an_error_or_none() {
    let without = EventTypes::ItemFinished(ItemFinished {
        action: s("update"),
        error: None,
        folder: s("f"),
        item: s("a.txt"),
        type_: s("file"),
    });
    assert_eq!(parse(r#"{"action":"update","folder":"f","item":"a.txt","type":"file"}"#), without);
    assert_eq!(
        parse(r#"{"action":"update","error":null,"folder":"f","item":"a.txt","type":"file"}"#),
        without
    );
    assert_eq!(
        parse(r#"{"action":"update","error":"no space","folder":"f","item":"a.txt","type":"file"}"#),
        EventTypes::ItemFinished(ItemFinished {
            action: s("update"),
            error: Some(s("no space")),
            folder: s("f"),
            item: s("a.txt"),
            type_: s("file"),
        })
    );
    assert_eq!(
        parse(r#"["update",null,"f","a.txt","file"]"#),
        without
    );
}

#[test]
fn item_started_is_read_where_item_finished_is_put_off() {
    let want = EventTypes::ItemStarted(ItemStarted {
        item: s("a.txt"),
        folder: s("f"),
        type_: s("file"),
        action: s("update"),
    });
    assert_eq!(
        parse(r#"{"action":"update","error":5,"folder":"f","item":"a.txt","type":"file"}"#),
        want
    );
    assert_eq!(parse(r#"["a.txt","f","file","update"]"#), want);
}

#[test]
fn listen_address_changed_is_read() {
    let address = r#"{"Fragment":"","RawQuery":"","Scheme":"tcp","Path":"","RawPath":"","User":null,"ForceQuery":false,"Host":":22000","Opaque":""}"#;
    let text = format!(r#"{{"address":{address},"wan":[{address}],"lan":[]}}"#);
    let one = ListenAddress {
        Fragment: s(""),
        RawQuery: s(""),
        Scheme: s("tcp"),
        Path: s(""),
        RawPath: s(""),
        User: None,
        ForceQuery: false,
        Host: s(":22000"),
        Opaque: s(""),
    };
    assert_eq!(
        parse(&text),
        EventTypes::ListenAddressChanged(ListenAddressChanged {
            address: one.clone(),
            wan: vec![one],
            lan: vec![],
        })
    );
}

#[test]
fn remote_change_with_names_is_read_as_local_change() {
    let want = EventTypes::LocalChangeDetected(LocalChangeDetected {
        action: s("modified"),
        folder: s("f"),
        folderID: s("fid"),
        label: s("L"),
        path: s("a/b"),
        type_: s("file"),
    });
    assert_eq!(
        parse(r#"{"action":"modified","folder":"f","folderID":"fid","label":"L","path":"a/b","type":"file"}"#),
        want
    );
    assert_eq!(
        parse(r#"{"type":"file","action":"modified","folder":"f","folderID":"fid","path":"a/b","label":"L","modifiedBy":"DEV"}"#),
        want
    );
}

#[test]
fn remote_change_is_read_from_an_array() {
    assert_eq!(
        parse(r#"["file","modified","f","fid","a/b","L","DEV"]"#),
        EventTypes::RemoteChangeDetected(RemoteChangeDetected {
            type_: s("file"),
            action: s("modified"),
            folder: s("f"),
            folderID: s("fid"),
            path: s("a/b"),
            label: s("L"),
            modifiedBy: s("DEV"),
        })
    );
}

#[test]
fn local_index_updated_is_read() {
    assert_eq!(
        parse(r#"{"folder":"f","items":2,"filenames":["a","b"],"sequence":12,"version":12}"#),
        EventTypes::LocalIndexUpdated(LocalIndexUpdated {
            folder: s("f"),
            items: 2,
            filenames: vec![s("a"), s("b")],
            sequence: 12,
            version: 12,
        })
    );
}

#[test]
fn login_attempt_is_read() {
    assert_eq!(
        parse(r#"{"remoteAddress":"10.0.0.1","username":"me","success":true}"#),
        EventTypes::LoginAttempt(LoginAttempt {
            remoteAddress: s("10.0.0.1"),
            username: s("me"),
            success: true,
        })
    );
}

#[test]
fn pending_devices_changed_is_read() {
    assert_eq!(
        parse(r#"{"added":[{"address":"tcp://h","deviceID":"D1","name":"n"}],"removed":[{"deviceID":"D2"}]}"#),
        EventTypes::PendingDevicesChanged(PendingDevicesChanged {
            added: vec![DeviceAdd { address: s("tcp://h"), deviceID: s("D1"), name: s("n") }],
            removed: vec![DeviceRemove { deviceID: s("D2") }],
        })
    );
}

#[test]
fn pending_folders_are_no_known_shape() {
    let got = parse(
        r#"{"added":[{"deviceID":"D","folderID":"F","folderLabel":"L","receiveEncrypted":"no","remoteEncrypted":"no"}],"removed":[]}"#,
    );
    assert_eq!(got.payload_kind(), PayloadKind::Unknown);
}

#[test]
fn remote_download_progress_is_read_from_an_array() {
    assert_eq!(
        parse(r#"[{"a":1},"DEV","f"]"#),
        EventTypes::RemoteDownloadProgress(RemoteDownloadProgress {
            state: JsonMap { entries: vec![(s("a"), JsonValue::Number(JsonNumber::PosInt(1)))] },
            device: s("DEV"),
            folder: s("f"),
        })
    );
}

#[test]
fn remote_index_updated_is_read_from_an_array() {
    assert_eq!(
        parse(r#"["DEV","f",65535]"#),
        EventTypes::RemoteIndexUpdated(RemoteIndexUpdated {
            device: s("DEV"),
            folder: s("f"),
            items: 65535,
        })
    );
}

#[test]
fn a_count_above_sixteen_bits_fits_no_shape() {
    assert_eq!(parse(r#"["DEV","f",65536]"#), empty());
    assert_eq!(parse(r#"["DEV","f",-1]"#), empty());
    assert_eq!(parse(r#"["DEV","f",1.0]"#), empty());
}

#[test]
fn starting_is_read() {
    assert_eq!(parse(r#"{"home":"/home/me"}"#), EventTypes::Starting(Starting { home: s("/home/me") }));
}

#[test]
fn unknown_payload_keeps_every_member() {
    let got = parse(r#"{"bar":[true,null],"foo":{"deep":{"deeper":-7}},"zed":"x"}"#);
    assert_eq!(
        got,
        EventTypes::Unknown(JsonMap {
            entries: vec![
                (s("bar"), JsonValue::Array(vec![JsonValue::Bool(true), JsonValue::Null])),
                (
                    s("foo"),
                    JsonValue::Object(vec![(
                        s("deep"),
                        JsonValue::Object(vec![(
                            s("deeper"),
                            JsonValue::Number(JsonNumber::NegInt(-7))
                        )])
                    )])
                ),
                (s("zed"), JsonValue::String(s("x"))),
            ],
        })
    );
}

#[test]
fn scalars_and_other_arrays_have_an_empty_unknown_payload() {
    assert_eq!(parse("5"), empty());
    assert_eq!(parse("-5"), empty());
    assert_eq!(parse("2.5"), empty());
    assert_eq!(parse("true"), empty());
    assert_eq!(parse("null"), empty());
    assert_eq!(parse("[]"), empty());
    assert_eq!(parse("[1,2]"), empty());
}

#[test]
fn a_member_that_occurs_twice_fits_no_record() {
    let twice = JsonValue::Object(vec![
        (s("device"), JsonValue::String(s("A"))),
        (s("device"), JsonValue::String(s("B"))),
    ]);
    assert_eq!(
        EventTypes::parse(&twice),
        EventTypes::Unknown(JsonMap {
            entries: vec![
                (s("device"), JsonValue::String(s("A"))),
                (s("device"), JsonValue::String(s("B"))),
            ],
        })
    );
}

#[test]
fn an_integer_kept_as_signed_is_read_by_its_value() {
    let value = JsonValue::Array(vec![
        JsonValue::String(s("DEV")),
        JsonValue::String(s("f")),
        JsonValue::Number(JsonNumber::NegInt(7)),
    ]);
    assert_eq!(
        EventTypes::parse(&value),
        EventTypes::RemoteIndexUpdated(RemoteIndexUpdated {
            device: s("DEV"),
            folder: s("f"),
            items: 7,
        })
    );
}

#[test]
fn pending_folders_are_read_on_their_own() {
    let document = JsonValue::from_text(
        r#"{"added":[{"deviceID":"D","folderID":"F","folderLabel":"L","receiveEncrypted":"no","remoteEncrypted":"no"}],"removed":[{"FolderRemovePending":{"deviceID":"D","folderID":"F"}},{"FolderRemoveNotPending":{"folderID":"G"}}]}"#,
    )
    .unwrap();
    assert_eq!(
        <PendingFoldersChanged>::read(&Field::Found(&document)),
        Some(PendingFoldersChanged {
            added: vec![FolderAdd {
                deviceID: s("D"),
                folderID: s("F"),
                folderLabel: s("L"),
                receiveEncrypted: s("no"),
                remoteEncrypted: s("no"),
            }],
            removed: vec![
                FolderRemove::FolderRemovePending(FolderRemovePending {
                    deviceID: s("D"),
                    folderID: s("F"),
                }),
                FolderRemove::FolderRemoveNotPending(FolderRemoveNotPending { folderID: s("G") }),
            ],
        })
    );
}

#[test]
fn a_removed_folder_is_an_object_with_one_member_named_after_its_kind() {
    let read = |text: &str| <FolderRemove>::read(&Field::Found(&JsonValue::from_text(text).unwrap()));
    assert_eq!(read(r#"{"FolderRemovePending":{"folderID":"F"}}"#), None);
    assert_eq!(read(r#"{"FolderRemoveGone":{"folderID":"F"}}"#), None);
    assert_eq!(read(r#"{"folderID":"F"}"#), None);
    assert_eq!(read(r#""FolderRemoveNotPending""#), None);
    assert_eq!(read(r#"{}"#), None);
    assert_eq!(
        read(r#"{"FolderRemoveNotPending":{"folderID":"F"},"FolderRemovePending":{"deviceID":"D","folderID":"F"}}"#),
        None
    );
    assert_eq!(
        read(r#"{"FolderRemoveNotPending":["F"]}"#),
        Some(FolderRemove::FolderRemoveNotPending(FolderRemoveNotPending { folderID: s("F") }))
    );
}

#[test]
fn shapes_that_are_no_payload_are_read_on_their_own() {
    let device = JsonValue::from_text(r#"{"device":"DEV"}"#).unwrap();
    assert_eq!(
        <DevicePaused>::read(&Field::Found(&device)),
        Some(DevicePaused { device: s("DEV") })
    );
    assert_eq!(
        <DeviceResumed>::read(&Field::Found(&device)),
        Some(DeviceResumed { device: s("DEV") })
    );
    let folder = JsonValue::from_text(r#"{"id":"f","label":"L"}"#).unwrap();
    assert_eq!(
        <FolderResumed>::read(&Field::Found(&folder)),
        Some(FolderResumed { id: s("f"), label: s("L") })
    );
    assert_eq!(<FolderResumed>::read(&Field::Found(&device)), None);
    assert_eq!(<FolderResumed>::read(&Field::Missing), None);
}
