use cwb::environments::{EnvironmentConfig, EnvironmentStore};
use cwb::error::CwbError;
use cwb::gate::GateDecision;

fn region(r: &str) -> EnvironmentConfig {
    EnvironmentConfig::from_answers(r, "")
}

#[test]
fn first_created_environment_becomes_current() {
    let mut s = EnvironmentStore::new();
    assert!(s.insert("dev", region("us-east-1")));
    assert!(!s.insert("prod", region("eu-west-1")));
    assert_eq!(s.current(), Some("dev"));
    assert_eq!(s.names(), vec!["dev".to_string(), "prod".to_string()]);
}

#[test]
fn overwrite_keeps_position() {
    let mut s = EnvironmentStore::new();
    s.insert("dev", region("us-east-1"));
    s.insert("qa", region("us-east-2"));
    s.insert("dev", region("ap-south-1"));
    assert_eq!(s.names(), vec!["dev".to_string(), "qa".to_string()]);
    assert_eq!(s.get("dev").ok().unwrap().aws_region, "ap-south-1");
}

#[test]
fn answers_without_profile() {
    let c = EnvironmentConfig::from_answers("us-west-2", "");
    assert_eq!(c.aws_profile, None);
    let d = EnvironmentConfig::from_answers("us-west-2", "ops");
    assert_eq!(d.aws_profile.as_deref(), Some("ops"));
    let copy = d.duplicate();
    assert_eq!(copy.aws_region, "us-west-2");
    assert_eq!(copy.aws_profile.as_deref(), Some("ops"));
}

#[test]
fn switch_requires_existing_environment() {
    let mut s = EnvironmentStore::new();
    s.insert("dev", region("r"));
    s.insert("prod", region("r"));
    assert_eq!(s.switch("prod").ok().unwrap(), Some("dev".to_string()));
    assert_eq!(s.current(), Some("prod"));
    match s.switch("staging") {
        Err(CwbError::UnknownEnvironment { requested, valid }) => {
            assert_eq!(requested, "staging");
            assert_eq!(valid, vec!["dev".to_string(), "prod".to_string()]);
        }
        _ => panic!("expected UnknownEnvironment"),
    }
    assert_eq!(s.current(), Some("prod"));
}

#[test]
fn current_environment_cannot_be_deleted() {
    let mut s = EnvironmentStore::new();
    s.insert("dev", region("r"));
    s.insert("qa", region("r"));
    assert!(matches!(s.check_deletable("dev"), Err(CwbError::CurrentEnvironmentDeletion { .. })));
    assert!(matches!(s.delete("dev", GateDecision::Allowed), Err(CwbError::CurrentEnvironmentDeletion { .. })));
    assert!(matches!(s.delete("nope", GateDecision::Allowed), Err(CwbError::UnknownEnvironment { .. })));
    assert!(s.check_deletable("qa").is_ok());
}

#[test]
fn denied_deletion_keeps_environment() {
    let mut s = EnvironmentStore::new();
    s.insert("dev", region("r"));
    s.insert("qa", region("r"));
    assert!(matches!(s.delete("qa", GateDecision::Denied), Err(CwbError::ConfirmationDenied)));
    assert!(s.contains("qa"));
    assert!(s.delete("qa", GateDecision::Allowed).is_ok());
    assert!(!s.contains("qa"));
    assert_eq!(s.names(), vec!["dev".to_string()]);
}

#[test]
fn shown_environment_defaults_to_current() {
    let mut s = EnvironmentStore::new();
    assert!(matches!(s.shown_name(None), Err(CwbError::NoCurrentEnvironment)));
    s.insert("dev", region("r"));
    assert_eq!(s.shown_name(None).ok().unwrap(), "dev");
    assert_eq!(s.shown_name(Some("qa")).ok().unwrap(), "qa");
}

#[test]
fn loaded_store_keeps_saved_current() {
    let entries = vec![("a".to_string(), region("r1")), ("b".to_string(), region("r2"))];
    let s = EnvironmentStore::load(None, entries);
    assert_eq!(s.current(), None);
    assert_eq!(s.names(), vec!["a".to_string(), "b".to_string()]);
    let t = EnvironmentStore::load(Some("b".to_string()), vec![("b".to_string(), region("r"))]);
    assert_eq!(t.current(), Some("b"));
}

#[test]
fn loaded_store_later_entry_wins() {
    let entries = vec![
        ("a".to_string(), region("r1")),
        ("b".to_string(), region("r2")),
        ("a".to_string(), region("r3")),
    ];
    let s = EnvironmentStore::load(None, entries);
    assert_eq!(s.names(), vec!["a".to_string(), "b".to_string()]);
    assert_eq!(s.get("a").ok().unwrap().aws_region, "r3");
}
