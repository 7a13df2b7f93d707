use syncthing_events::syncthing::decode::JsonMap;
use syncthing_events::syncthing::dispatcher::{dispatch, dispatch_batch, report, DispatchReport, Launch};
use syncthing_events::syncthing::errors::SpawnError;
use syncthing_events::syncthing::event_structs::{EventTypes, SyncthingEvent};
use syncthing_events::syncthing::registry::{RegistryEntry, ScriptInvocation, ScriptRegistry};

fn script(path: &str) -> ScriptInvocation {
    ScriptInvocation { path: path.to_string(), arguments: vec![], working_directory: None }
}

fn launch(path: &str, delay_seconds: u8) -> Launch {
    Launch { invocation: script(path), delay_seconds }
}

fn registry() -> ScriptRegistry {
    ScriptRegistry::load(vec![
        RegistryEntry {
            event_type: "ItemFinished".to_string(),
            invocations: vec![script("/bin/a"), script("/bin/b")],
        },
        RegistryEntry { event_type: "Starting".to_string(), invocations: vec![script("/bin/c")] },
        RegistryEntry { event_type: "Quiet".to_string(), invocations: vec![] },
    ])
    .unwrap()
}

fn event(id: u64, event_type: &str) -> SyncthingEvent {
    SyncthingEvent {
        id,
        globalID: id,
        type_: event_type.to_string(),
        time: "2022-01-01T00:00:00Z".to_string(),
        data: EventTypes::Unknown(JsonMap { entries: vec![] }),
    }
}

#[test]
fn dispatch_gives_one_launch_for_each_script() {
    assert_eq!(dispatch(&registry(), "ItemFinished", 3), vec![launch("/bin/a", 3), launch("/bin/b", 3)]);
    assert_eq!(dispatch(&registry(), "Starting", 0), vec![launch("/bin/c", 0)]);
}

#[test]
fn dispatch_of_a_type_without_scripts_is_empty() {
    assert_eq!(dispatch(&registry(), "StateChanged", 3), vec![]);
    assert_eq!(dispatch(&registry(), "Quiet", 3), vec![]);
}

#[test]
fn batch_launches_follow_the_events() {
    let events = vec![
        event(1, "Starting"),
        event(2, "StateChanged"),
        event(3, "ItemFinished"),
        event(4, "Starting"),
    ];
    assert_eq!(
        dispatch_batch(&registry(), &events, 1),
        vec![launch("/bin/c", 1), launch("/bin/a", 1), launch("/bin/b", 1), launch("/bin/c", 1)]
    );
}

#[test]
fn batch_goes_by_the_type_and_not_by_the_payload() {
    let mut starting = event(1, "Starting");
    starting.data = EventTypes::Failure("x".to_string());
    assert_eq!(dispatch_batch(&registry(), &vec![starting], 1), vec![launch("/bin/c", 1)]);
}

#[test]
fn empty_batch_launches_nothing() {
    assert_eq!(dispatch_batch(&registry(), &vec![], 1), vec![]);
}

#[test]
fn report_counts_started_and_failed() {
    let outcomes = vec![
        Ok(100),
        Err(SpawnError::NotFound),
        Ok(101),
        Err(SpawnError::PermissionDenied),
        Err(SpawnError::Other("too many processes".to_string())),
    ];
    assert_eq!(report(&outcomes), DispatchReport { started: 2, failed: 3 });
    assert_eq!(report(&vec![]), DispatchReport { started: 0, failed: 0 });
}
