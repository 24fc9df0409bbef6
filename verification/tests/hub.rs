use broadcast_hub::hub::Hub;
use broadcast_hub::registry::Registry;

#[test]
fn update_envelope_fans_out_to_all_peers() {
    let mut hub = Hub::new();
    let a = hub.connect().unwrap();
    let b = hub.connect().unwrap();
    let c = hub.connect().unwrap();
    assert_eq!(hub.peer_count(), 3);

    let text = "{\"type\":\"update\",\"payload\":\"x\"}";
    let fanout = hub.handle_frame(text).expect("an update envelope must fan out");
    assert_eq!(fanout.payload, text);
    assert_eq!(fanout.targets.len(), 3);
    for id in [a, b, c] {
        assert_eq!(fanout.targets.iter().filter(|t| **t == id).count(), 1);
    }
}

#[test]
fn non_update_envelope_triggers_no_sends() {
    let mut hub = Hub::new();
    hub.connect().unwrap();
    hub.connect().unwrap();

    assert!(hub.handle_frame("{\"type\":\"chat\",\"payload\":\"x\"}").is_none());
    assert!(hub.handle_frame("{\"payload\":\"x\"}").is_none());
    assert!(hub.handle_frame("{\"type\":42}").is_none());
    assert!(hub.handle_frame("not structured data").is_none());
    assert!(hub.handle_frame("").is_none());
}

#[test]
fn envelope_classification_parses_the_text() {
    // A bare word and a JSON string are not envelopes with a "type" field:
    // classification must go through real parsing, not through the text itself.
    assert!(!broadcast_hub::envelope::should_fan_out("update"));
    assert!(!broadcast_hub::envelope::should_fan_out("\"update\""));
    assert!(broadcast_hub::envelope::should_fan_out("{\"type\":\"update\"}"));
    assert!(broadcast_hub::envelope::should_fan_out(
        "{\"other\":1,\"type\":\"update\",\"payload\":{\"nested\":true}}"
    ));
    assert!(!broadcast_hub::envelope::should_fan_out("{\"type\":\"UPDATE\"}"));
}

#[test]
fn scenario_three_peers_then_one_disconnects() {
    let mut hub = Hub::new();
    let a = hub.connect().unwrap();
    let b = hub.connect().unwrap();
    let c = hub.connect().unwrap();

    let text = "{\"type\":\"update\",\"payload\":\"x\"}";
    let first = hub.handle_frame(text).expect("an update envelope must fan out");
    assert_eq!(first.payload, "{\"type\":\"update\",\"payload\":\"x\"}");
    for id in [a, b, c] {
        assert!(first.targets.contains(&id));
    }

    hub.disconnect(b);
    assert!(!hub.is_registered(b));

    let second = hub.handle_frame(text).expect("an update envelope must fan out");
    assert!(second.targets.contains(&a));
    assert!(second.targets.contains(&c));
    assert!(!second.targets.contains(&b));
}

#[test]
fn connect_hands_out_distinct_ids() {
    let mut hub = Hub::new();
    let mut ids: Vec<u64> = Vec::new();
    for _ in 0..16 {
        let id = hub.connect().unwrap();
        assert!(!ids.contains(&id));
        ids.push(id);
    }
    assert_eq!(hub.peer_count(), 16);
}

#[test]
fn registry_keeps_set_semantics() {
    let mut reg = Registry::new();
    assert_eq!(reg.len(), 0);
    reg.insert(3);
    reg.insert(5);
    reg.insert(3);
    assert_eq!(reg.len(), 2);
    assert!(reg.contains(3));
    assert!(reg.contains(5));
    assert!(!reg.contains(7));

    reg.remove(3);
    assert_eq!(reg.len(), 1);
    assert!(!reg.contains(3));
    assert!(reg.contains(5));

    reg.remove(7);
    assert_eq!(reg.len(), 1);

    let snap = reg.snapshot();
    assert_eq!(snap, vec![5]);
}
