use repsheet_rules::engine::apply_ruleset;
use repsheet_rules::engine::blacklist;
use repsheet_rules::engine::blacklist_key;
use repsheet_rules::profile::Profile;
use repsheet_rules::store::Store;

fn profile(address: &str) -> Profile {
    Profile::new(String::from(address))
}

#[test]
fn blacklist_key_scheme() {
    assert_eq!(blacklist_key("1.2.3.4"), "1.2.3.4:repsheet:ip:blacklisted");
}

#[test]
fn blacklist_records_one_write() {
    let mut store = Store::new();
    blacklist(&mut store, "1.2.3.4", "X");
    let writes = store.writes();
    assert_eq!(writes.len(), 1);
    assert_eq!(writes[0].0, "1.2.3.4:repsheet:ip:blacklisted");
    assert_eq!(writes[0].1, "X");
}

#[test]
fn blacklist_twice_leaves_same_contents_as_once() {
    let mut once = Store::new();
    blacklist(&mut once, "1.2.3.4", "X");
    let mut twice = Store::new();
    blacklist(&mut twice, "1.2.3.4", "X");
    blacklist(&mut twice, "1.2.3.4", "X");
    let key = "1.2.3.4:repsheet:ip:blacklisted";
    assert_eq!(once.get(key), Some(String::from("X")));
    assert_eq!(twice.get(key), Some(String::from("X")));
    assert_eq!(once.get("5.6.7.8:repsheet:ip:blacklisted"), None);
    assert_eq!(twice.get("5.6.7.8:repsheet:ip:blacklisted"), None);
}

#[test]
fn blacklist_overwrites_earlier_reason() {
    let mut store = Store::new();
    blacklist(&mut store, "1.2.3.4", "X");
    blacklist(&mut store, "1.2.3.4", "Y");
    let key = "1.2.3.4:repsheet:ip:blacklisted";
    assert_eq!(store.get(key), Some(String::from("Y")));
}

#[test]
fn scenario_excessive_404_alone() {
    let mut p = profile("10.0.0.1");
    p.responses.put("404", 11);
    let mut store = Store::new();
    apply_ruleset(&mut store, &vec![p]);
    let writes = store.writes();
    assert_eq!(writes.len(), 1);
    assert_eq!(writes[0].0, "10.0.0.1:repsheet:ip:blacklisted");
    assert_eq!(writes[0].1, "404 violations");
}

#[test]
fn scenario_disallowed_method_alone() {
    let mut p = profile("10.0.0.2");
    p.responses.put("404", 3);
    p.methods.put("PUT", 1);
    let mut store = Store::new();
    apply_ruleset(&mut store, &vec![p]);
    let writes = store.writes();
    assert_eq!(writes.len(), 1);
    assert_eq!(writes[0].0, "10.0.0.2:repsheet:ip:blacklisted");
    assert_eq!(writes[0].1, "Unallowed methods");
}

#[test]
fn scenario_quiet_actor_issues_no_write() {
    let p = profile("10.0.0.3");
    let mut store = Store::new();
    apply_ruleset(&mut store, &vec![p]);
    assert_eq!(store.writes().len(), 0);
    assert_eq!(store.get("10.0.0.3:repsheet:ip:blacklisted"), None);
}

#[test]
fn scenario_two_rules_last_write_wins() {
    let mut p = profile("10.0.0.4");
    p.responses.put("404", 20);
    p.invalid_request_count = 2;
    let mut store = Store::new();
    apply_ruleset(&mut store, &vec![p]);
    let writes = store.writes();
    assert_eq!(writes.len(), 2);
    assert_eq!(writes[0].1, "404 violations");
    assert_eq!(writes[1].1, "Invalid request");
    // Rules are issued in the fixed order excessive-404, disallowed-method,
    // invalid-request, so the invalid-request reason is the stored value.
    assert_eq!(
        store.get("10.0.0.4:repsheet:ip:blacklisted"),
        Some(String::from("Invalid request"))
    );
}

#[test]
fn batch_visits_every_actor_in_input_order() {
    let mut a = profile("10.0.0.1");
    a.responses.put("404", 11);
    let quiet = profile("10.0.0.3");
    let mut b = profile("10.0.0.2");
    b.methods.put("DELETE", 4);
    let mut store = Store::new();
    apply_ruleset(&mut store, &vec![a, quiet, b]);
    let writes = store.writes();
    assert_eq!(writes.len(), 2);
    assert_eq!(writes[0].0, "10.0.0.1:repsheet:ip:blacklisted");
    assert_eq!(writes[0].1, "404 violations");
    assert_eq!(writes[1].0, "10.0.0.2:repsheet:ip:blacklisted");
    assert_eq!(writes[1].1, "Unallowed methods");
}

#[test]
fn batch_keeps_earlier_writes() {
    let mut store = Store::new();
    blacklist(&mut store, "9.9.9.9", "Z");
    let mut p = profile("10.0.0.1");
    p.responses.put("404", 11);
    apply_ruleset(&mut store, &vec![p]);
    assert_eq!(store.writes().len(), 2);
    assert_eq!(store.get("9.9.9.9:repsheet:ip:blacklisted"), Some(String::from("Z")));
}
