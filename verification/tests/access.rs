use deskmsg::acl::{AclHandler, AclVerdict, HookEvent, PriorVerdict};
use deskmsg::text::{contains, has_prefix};

fn auth(id: &str) -> HookEvent {
    HookEvent::ClientAuthenticate { client_id: id.to_string() }
}

#[test]
fn prefix_and_contains() {
    assert!(has_prefix("ac_device", "ac_"));
    assert!(!has_prefix("ac", "ac_"));
    assert!(!has_prefix("xac_", "ac_"));
    assert!(has_prefix("anything", ""));
    assert!(contains("0000180a-0000-1000-8000-00805f9b34fb", "180a"));
    assert!(!contains("0000180a", "180b"));
    assert!(contains("abc", ""));
    assert!(!contains("", "a"));
    assert!(contains("aaab", "aab"));
}

#[test]
fn ac_clients_are_allowed() {
    let a = AclHandler {}.hook(&auth("ac_1234"), PriorVerdict::NotRefused);
    assert!(!a.proceed);
    assert!(a.verdict == AclVerdict::Allow);
}

#[test]
fn other_clients_are_refused() {
    let a = AclHandler {}.hook(&auth("device_1"), PriorVerdict::NotRefused);
    assert!(!a.proceed);
    assert!(a.verdict == AclVerdict::NotAuthorized);
    let a = AclHandler {}.hook(&auth("AC_1"), PriorVerdict::NotRefused);
    assert!(a.verdict == AclVerdict::NotAuthorized);
}

#[test]
fn earlier_refusal_stands() {
    let a = AclHandler {}.hook(&auth("ac_1234"), PriorVerdict::Refused);
    assert!(!a.proceed);
    assert!(a.verdict == AclVerdict::Unchanged);
}

#[test]
fn other_events_pass_through() {
    let a = AclHandler {}.hook(&HookEvent::Other, PriorVerdict::Refused);
    assert!(a.proceed);
    assert!(a.verdict == AclVerdict::Unchanged);
}
