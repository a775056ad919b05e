use ig_client::models::{Subscription, SubscriptionType};
use ig_client::registry::SubscriptionRegistry;

fn sub(id: &str, kind: SubscriptionType, item: &str) -> Subscription {
    Subscription { id: id.to_string(), subscription_type: kind, item: item.to_string() }
}

#[test]
fn insert_replaces_an_equal_id() {
    let mut reg = SubscriptionRegistry::new();
    reg.insert(sub("S1", SubscriptionType::Market, "EPIC-A"));
    reg.insert(sub("S1", SubscriptionType::Market, "EPIC-B"));
    assert_eq!(reg.len(), 1);
    assert!(reg.ids_unique());
    let found = reg.lookup("S1").unwrap();
    assert_eq!(found.item, "EPIC-B");
}

#[test]
fn remove_is_exact_and_idempotent() {
    let mut reg = SubscriptionRegistry::new();
    reg.insert(sub("S1", SubscriptionType::Market, "EPIC-A"));
    reg.insert(sub("S2", SubscriptionType::Account, "ACCOUNT"));
    assert_eq!(reg.len(), 2);

    let removed = reg.remove("S1").unwrap();
    assert_eq!(removed.id, "S1");
    assert!(reg.lookup("S1").is_none());
    assert!(reg.lookup("S2").is_some());
    assert!(reg.remove("S1").is_none());
    assert_eq!(reg.len(), 1);
}

#[test]
fn contains_and_empty() {
    let mut reg = SubscriptionRegistry::new();
    assert_eq!(reg.len(), 0);
    assert!(!reg.contains("S1"));
    reg.insert(sub("S1", SubscriptionType::Trade, "T"));
    assert!(reg.contains("S1"));
}
