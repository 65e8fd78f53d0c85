use plugin_core::store::{store_slot, ScopedStoreKey, StoreKey};
use std::collections::hash_map::DefaultHasher;
use std::collections::HashMap;
use std::hash::{Hash, Hasher};

fn hash_of(k: &StoreKey) -> u64 {
    let mut h = DefaultHasher::new();
    k.hash(&mut h);
    h.finish()
}

#[test]
fn keys_compare_by_variant() {
    let a = StoreKey::EventNotification;
    let b = StoreKey::DetectNotification;
    assert!(a == a);
    assert!(a != b);
    assert_eq!(hash_of(&a), hash_of(&a));
    assert_eq!(hash_of(&b), hash_of(&b));
}

#[test]
fn keys_work_as_map_keys() {
    let mut m = HashMap::new();
    m.insert(StoreKey::EventNotification, 1u32);
    m.insert(StoreKey::DetectNotification, 2u32);
    m.insert(StoreKey::EventNotification, 3u32);
    assert_eq!(m.len(), 2);
    assert_eq!(m.get(&StoreKey::EventNotification), Some(&3));
}

#[test]
fn wire_names_are_the_variant_names() {
    assert_eq!(StoreKey::EventNotification.wire_name(), "EventNotification");
    assert_eq!(StoreKey::DetectNotification.wire_name(), "DetectNotification");
    assert_eq!(
        StoreKey::EventNotification.wire_name(),
        StoreKey::EventNotification.wire_name()
    );
}

#[test]
fn wire_names_read_back() {
    for k in [StoreKey::EventNotification, StoreKey::DetectNotification] {
        assert_eq!(StoreKey::from_wire_name(&k.wire_name()), Some(k));
    }
}

#[test]
fn wire_names_read_back_through_json() {
    for k in [StoreKey::EventNotification, StoreKey::DetectNotification] {
        let persisted = serde_json::to_string(&k.wire_name()).unwrap();
        let name: String = serde_json::from_str(&persisted).unwrap();
        assert_eq!(StoreKey::from_wire_name(&name), Some(k));
    }
}

#[test]
fn unknown_names_are_rejected() {
    for name in ["", "Event", "EventNotificationX", "eventNotification", "DetectNotificatioN"] {
        assert_eq!(StoreKey::from_wire_name(name), None);
    }
}

#[test]
fn slot_holds_scope_and_wire_name() {
    let slot = store_slot("notification", &StoreKey::DetectNotification);
    assert_eq!(slot.scope, "notification");
    assert_eq!(slot.key, "DetectNotification");
}

#[test]
fn different_scopes_never_collide() {
    let a = store_slot("notification", &StoreKey::EventNotification);
    let b = store_slot("calendar", &StoreKey::EventNotification);
    assert_eq!(a.key, b.key);
    assert!((a.scope.as_str(), a.key.as_str()) != (b.scope.as_str(), b.key.as_str()));
}

#[test]
fn same_scope_different_keys_differ() {
    let a = store_slot("notification", &StoreKey::EventNotification);
    let b = store_slot("notification", &StoreKey::DetectNotification);
    assert!((a.scope.as_str(), a.key.as_str()) != (b.scope.as_str(), b.key.as_str()));
}
