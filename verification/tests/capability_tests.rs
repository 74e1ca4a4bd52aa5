use codex_agent_core::capability::{Capability, CapabilityParameter, CapabilitySet, ParameterType};
use codex_agent_core::task::{ParamValue, Priority, Task, TaskResult, TaskStatus};
use codex_agent_core::text_map::TextMap;

fn names(set: &CapabilitySet) -> Vec<String> {
    set.iter().iter().map(|c| c.name.clone()).collect()
}

#[test]
fn new_capability_has_default_version() {
    let c = Capability::new("search");
    assert_eq!(c.name, "search");
    assert_eq!(c.version, "1.0.0");
    assert!(c.description.is_none());
    assert!(c.parameters.is_empty());

    let c = c
        .with_version("2.1.0")
        .with_description("finds things")
        .with_parameter(CapabilityParameter {
            name: "query".to_string(),
            param_type: ParameterType::Array(Box::new(ParameterType::String)),
            required: true,
            description: None,
        });
    assert_eq!(c.version, "2.1.0");
    assert_eq!(c.description.as_deref(), Some("finds things"));
    assert_eq!(c.parameters.len(), 1);
    assert_eq!(c.parameters[0].param_type, ParameterType::Array(Box::new(ParameterType::String)));
}

#[test]
fn added_capability_is_found() {
    let mut set = CapabilitySet::new();
    assert!(!set.has("lint"));
    assert!(set.get("lint").is_none());
    set.add(Capability::new("lint").with_description("checks style"));
    assert!(set.has("lint"));
    assert_eq!(set.get("lint").unwrap().description.as_deref(), Some("checks style"));
    assert_eq!(set.len(), 1);
}

#[test]
fn adding_equal_capability_twice_keeps_one() {
    let mut set = CapabilitySet::new();
    set.add(Capability::new("a"));
    set.add(Capability::new("a"));
    assert_eq!(set.len(), 1);
    // A capability of the same name that differs in another field is a
    // different member.
    set.add(Capability::new("a").with_version("2.0.0"));
    assert_eq!(set.len(), 2);
    assert_eq!(set.get("a").unwrap().version, "1.0.0");
}

#[test]
fn requirements_are_met_by_name() {
    let mut set = CapabilitySet::new();
    set.add(Capability::new("a"));
    set.add(Capability::new("b"));
    assert!(set.matches_requirements(&[]));
    assert!(set.matches_requirements(&["a".to_string()]));
    assert!(set.matches_requirements(&["b".to_string(), "a".to_string()]));
    assert!(!set.matches_requirements(&["a".to_string(), "c".to_string()]));
    set.add(Capability::new("c"));
    assert!(set.matches_requirements(&["a".to_string(), "c".to_string()]));
    assert!(CapabilitySet::new().matches_requirements(&[]));
}

#[test]
fn set_from_list_drops_equal_duplicates() {
    let set = CapabilitySet::from(vec![
        Capability::new("x"),
        Capability::new("y"),
        Capability::new("x"),
    ]);
    assert_eq!(names(&set), vec!["x".to_string(), "y".to_string()]);
    let copy = set.clone();
    assert_eq!(names(&copy), names(&set));
}

#[test]
fn parameter_types_compare_structurally() {
    let a = ParameterType::Array(Box::new(ParameterType::Integer));
    assert!(a.same_as(&ParameterType::Array(Box::new(ParameterType::Integer))));
    assert!(!a.same_as(&ParameterType::Array(Box::new(ParameterType::Float))));
    assert!(!ParameterType::Boolean.same_as(&ParameterType::Object));
    assert_eq!(a.clone(), a);
}

#[test]
fn task_builders_record_their_arguments() {
    let t = Task::new("review", "review files");
    assert_eq!(t.task_type, "review");
    assert_eq!(t.description, "review files");
    assert_eq!(t.priority, Priority::Normal);
    assert!(t.parameters.is_empty());
    assert!(t.required_capabilities.is_empty());
    assert!(t.dependencies.is_empty());
    assert!(t.metadata.is_empty());
    assert_ne!(t.id, 0);

    let t = t
        .with_parameter("files", ParamValue::Text("a.rs".to_string()))
        .with_parameter("files", ParamValue::Text("b.rs".to_string()))
        .with_capability("code_review")
        .with_priority(Priority::Critical)
        .with_dependency(12)
        .with_metadata("owner", "me")
        .with_metadata("owner", "you");
    assert_eq!(t.parameters.len(), 1);
    assert!(matches!(t.parameters.get("files"), Some(ParamValue::Text(f)) if f == "b.rs"));
    assert_eq!(t.required_capabilities, vec!["code_review".to_string()]);
    assert_eq!(t.priority, Priority::Critical);
    assert_eq!(t.dependencies, vec![12]);
    assert_eq!(t.metadata.get("owner").map(|s| s.as_str()), Some("you"));
    assert_eq!(t.metadata.len(), 1);

    let c = t.clone();
    assert_eq!(c.id, t.id);
    assert!(matches!(c.parameters.get("files"), Some(ParamValue::Text(f)) if f == "b.rs"));
}

#[test]
fn distinct_tasks_get_distinct_ids() {
    let a = Task::new("a", "a");
    let b = Task::new("a", "a");
    assert_ne!(a.id, b.id);
}

#[test]
fn task_results_report_their_outcome() {
    let ok = TaskResult::success(5, Some(serde_json::Value::Bool(true))).with_execution_time(12);
    assert!(ok.is_success());
    assert!(!ok.is_failure());
    assert_eq!(ok.task_id, 5);
    assert_eq!(ok.output, Some(serde_json::Value::Bool(true)));
    assert!(ok.error.is_none());
    assert_eq!(ok.execution_time_ms, Some(12));

    let bad = TaskResult::failure(6, "it broke");
    assert!(bad.is_failure());
    assert!(!bad.is_success());
    assert!(matches!(&bad.status, TaskStatus::Failed(m) if m == "it broke"));
    assert_eq!(bad.error.as_deref(), Some("it broke"));
    assert!(bad.output.is_none());
    assert!(bad.execution_time_ms.is_none());
}

#[test]
fn text_map_insert_replaces() {
    let mut m: TextMap<u32> = TextMap::new();
    assert!(m.is_empty());
    m.insert("k".to_string(), 1);
    m.insert("j".to_string(), 2);
    m.insert("k".to_string(), 3);
    assert_eq!(m.len(), 2);
    assert_eq!(m.get("k"), Some(&3));
    assert_eq!(m.get("j"), Some(&2));
    assert!(m.contains_key("j"));
    assert!(!m.contains_key("x"));
    let keys: Vec<&str> = m.entries().iter().map(|(k, _)| k.as_str()).collect();
    assert_eq!(keys, vec!["k", "j"]);
    let c = m.clone();
    assert_eq!(c.get("k"), Some(&3));
}

#[test]
fn parameter_clone_reads_the_same() {
    let v = ParamValue::List(vec![
        ParamValue::Text("a".to_string()),
        ParamValue::Other(serde_json::Value::Null),
        ParamValue::List(vec![]),
    ]);
    match v.clone() {
        ParamValue::List(items) => {
            assert_eq!(items.len(), 3);
            assert!(matches!(&items[0], ParamValue::Text(t) if t == "a"));
            assert!(matches!(&items[1], ParamValue::Other(serde_json::Value::Null)));
            assert!(matches!(&items[2], ParamValue::List(x) if x.is_empty()));
        }
        other => panic!("unexpected: {:?}", other),
    }
}
