use muchat::registry::CorrelationRegistry;

fn id(text: &str) -> String {
    text.to_string()
}

#[test]
fn new_registry_is_empty() {
    let registry: CorrelationRegistry<u32> = CorrelationRegistry::new();
    assert!(registry.is_empty());
    assert!(!registry.contains(&id("1")));
}

#[test]
fn register_then_resolve_gives_the_sink_once() {
    let mut registry: CorrelationRegistry<u32> = CorrelationRegistry::new();
    registry.register(id("1"), 10);
    assert!(registry.contains(&id("1")));
    assert!(!registry.is_empty());
    assert_eq!(registry.resolve(&id("1")), Some(10));
    assert!(!registry.contains(&id("1")));
    assert_eq!(registry.resolve(&id("1")), None);
    assert!(registry.is_empty());
}

#[test]
fn resolve_of_unknown_id_changes_nothing() {
    let mut registry: CorrelationRegistry<u32> = CorrelationRegistry::new();
    registry.register(id("1"), 10);
    assert_eq!(registry.resolve(&id("2")), None);
    assert_eq!(registry.resolve(&id("")), None);
    assert!(registry.contains(&id("1")));
    assert_eq!(registry.resolve(&id("1")), Some(10));
}

#[test]
fn distinct_ids_resolve_independently() {
    let mut registry: CorrelationRegistry<&'static str> = CorrelationRegistry::new();
    registry.register(id("a"), "first");
    registry.register(id("b"), "second");
    registry.register(id("c"), "third");
    assert_eq!(registry.resolve(&id("b")), Some("second"));
    assert_eq!(registry.resolve(&id("c")), Some("third"));
    assert_eq!(registry.resolve(&id("a")), Some("first"));
    assert!(registry.is_empty());
}

#[test]
fn expire_says_whether_a_sink_was_pending() {
    let mut registry: CorrelationRegistry<u32> = CorrelationRegistry::new();
    registry.register(id("1"), 10);
    assert!(registry.expire(&id("1")));
    assert!(!registry.expire(&id("1")));
    assert_eq!(registry.resolve(&id("1")), None);
}

#[test]
fn expire_after_resolve_finds_nothing() {
    let mut registry: CorrelationRegistry<u32> = CorrelationRegistry::new();
    registry.register(id("1"), 10);
    assert_eq!(registry.resolve(&id("1")), Some(10));
    assert!(!registry.expire(&id("1")));
}

#[test]
fn replace_hands_back_the_displaced_sink() {
    let mut registry: CorrelationRegistry<u32> = CorrelationRegistry::new();
    assert_eq!(registry.replace(id("1"), 10), None);
    assert_eq!(registry.replace(id("1"), 11), Some(10));
    assert_eq!(registry.replace(id("2"), 20), None);
    assert_eq!(registry.resolve(&id("1")), Some(11));
    assert_eq!(registry.resolve(&id("2")), Some(20));
}

#[test]
fn drain_hands_every_entry_back() {
    let mut registry: CorrelationRegistry<u32> = CorrelationRegistry::new();
    registry.register(id("1"), 10);
    registry.register(id("2"), 20);
    registry.register(id("3"), 30);
    assert_eq!(registry.resolve(&id("2")), Some(20));
    let mut abandoned = registry.drain();
    abandoned.sort();
    assert_eq!(abandoned, vec![(id("1"), 10), (id("3"), 30)]);
    assert!(registry.is_empty());
    assert!(!registry.contains(&id("1")));
    assert!(registry.drain().is_empty());
}

#[test]
fn an_id_can_be_registered_again_after_it_left() {
    let mut registry: CorrelationRegistry<u32> = CorrelationRegistry::new();
    registry.register(id("1"), 10);
    assert_eq!(registry.resolve(&id("1")), Some(10));
    registry.register(id("1"), 11);
    assert_eq!(registry.resolve(&id("1")), Some(11));
}
