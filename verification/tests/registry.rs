use syncthing_events::syncthing::json::JsonValue;
use syncthing_events::syncthing::registry::{
    copy_invocations, copy_texts, RegistryEntry, RegistryError, ScriptInvocation, ScriptRegistry,
};

fn script(path: &str) -> ScriptInvocation {
    ScriptInvocation { path: path.to_string(), arguments: vec![], working_directory: None }
}

fn entry(event_type: &str, paths: &[&str]) -> RegistryEntry {
    RegistryEntry {
        event_type: event_type.to_string(),
        invocations: paths.iter().map(|p| script(p)).collect(),
    }
}

#[test]
fn lookup_gives_the_scripts_in_their_order() {
    let registry = ScriptRegistry::load(vec![
        entry("ItemFinished", &["/bin/a", "/bin/b"]),
        entry("StateChanged", &["/bin/c"]),
    ])
    .unwrap();
    assert_eq!(registry.lookup("ItemFinished"), vec![script("/bin/a"), script("/bin/b")]);
    assert_eq!(registry.lookup("StateChanged"), vec![script("/bin/c")]);
    assert_eq!(registry.count("ItemFinished"), 2);
    assert_eq!(registry.position("StateChanged"), Some(1));
}

#[test]
fn lookup_miss_is_empty() {
    let registry = ScriptRegistry::load(vec![entry("ItemFinished", &["/bin/a"])]).unwrap();
    assert_eq!(registry.lookup("Starting"), vec![]);
    assert_eq!(registry.lookup("itemfinished"), vec![]);
    assert_eq!(registry.lookup(""), vec![]);
    assert_eq!(registry.count("Starting"), 0);
    assert_eq!(registry.position("Starting"), None);
}

#[test]
fn empty_registry_loads() {
    let registry = ScriptRegistry::load(vec![]).unwrap();
    assert_eq!(registry.entries().len(), 0);
    assert_eq!(registry.lookup("ItemFinished"), vec![]);
}

#[test]
fn entry_without_scripts_loads() {
    let registry = ScriptRegistry::load(vec![entry("Starting", &[])]).unwrap();
    assert_eq!(registry.lookup("Starting"), vec![]);
    assert_eq!(registry.position("Starting"), Some(0));
}

#[test]
fn load_keeps_arguments_and_directory() {
    let invocation = ScriptInvocation {
        path: "/bin/sh".to_string(),
        arguments: vec!["-c".to_string(), "echo hi".to_string()],
        working_directory: Some("/tmp".to_string()),
    };
    let registry = ScriptRegistry::load(vec![RegistryEntry {
        event_type: "Starting".to_string(),
        invocations: vec![invocation.clone()],
    }])
    .unwrap();
    assert_eq!(registry.lookup("Starting"), vec![invocation]);
}

#[test]
fn load_refuses_an_entry_without_type() {
    let r = ScriptRegistry::load(vec![entry("A", &["/a"]), entry("", &["/b"])]);
    assert_eq!(r, Err(RegistryError::MissingEventType { entry: 1 }));
}

#[test]
fn load_refuses_a_repeated_type() {
    let r = ScriptRegistry::load(vec![entry("A", &["/a"]), entry("B", &[]), entry("A", &["/c"])]);
    assert_eq!(r, Err(RegistryError::DuplicateEventType { entry: 2 }));
}

#[test]
fn load_refuses_a_script_without_path() {
    let r = ScriptRegistry::load(vec![entry("A", &["/a"]), entry("B", &["/b", "", ""])]);
    assert_eq!(r, Err(RegistryError::MissingPath { entry: 1, invocation: 1 }));
}

#[test]
fn load_names_the_first_fault() {
    let r = ScriptRegistry::load(vec![entry("A", &[""]), entry("", &[]), entry("A", &[])]);
    assert_eq!(r, Err(RegistryError::MissingPath { entry: 0, invocation: 0 }));
    let r = ScriptRegistry::load(vec![entry("A", &[]), entry("A", &[""])]);
    assert_eq!(r, Err(RegistryError::DuplicateEventType { entry: 1 }));
}

#[test]
fn load_json_reads_a_list_of_entries() {
    let document = JsonValue::from_text(
        r#"[{"eventType":"ItemFinished","invocations":[{"path":"/bin/a","arguments":["x","y"],"workingDirectory":"/tmp"},{"path":"/bin/b","arguments":[]}]}]"#,
    )
    .unwrap();
    let registry = ScriptRegistry::load_json(&document).unwrap();
    assert_eq!(
        registry.lookup("ItemFinished"),
        vec![
            ScriptInvocation {
                path: "/bin/a".to_string(),
                arguments: vec!["x".to_string(), "y".to_string()],
                working_directory: Some("/tmp".to_string()),
            },
            ScriptInvocation {
                path: "/bin/b".to_string(),
                arguments: vec![],
                working_directory: None,
            },
        ]
    );
}

#[test]
fn load_json_refuses_what_is_no_list_of_entries() {
    let no_list = JsonValue::from_text(r#"{"eventType":"A","invocations":[]}"#).unwrap();
    assert_eq!(ScriptRegistry::load_json(&no_list), Err(RegistryError::Malformed));
    let no_path = JsonValue::from_text(r#"[{"eventType":"A","invocations":[{"arguments":[]}]}]"#).unwrap();
    assert_eq!(ScriptRegistry::load_json(&no_path), Err(RegistryError::Malformed));
    let repeated = JsonValue::from_text(
        r#"[{"eventType":"A","invocations":[]},{"eventType":"A","invocations":[]}]"#,
    )
    .unwrap();
    assert_eq!(
        ScriptRegistry::load_json(&repeated),
        Err(RegistryError::DuplicateEventType { entry: 1 })
    );
}

#[test]
fn copies_are_equal_to_what_they_copy() {
    let texts = vec!["a".to_string(), "".to_string(), "c d".to_string()];
    assert_eq!(copy_texts(&texts), texts);
    let invocations = vec![script("/a"), script("/b")];
    assert_eq!(copy_invocations(&invocations), invocations);
    assert_eq!(invocations[0].clone(), script("/a"));
}
