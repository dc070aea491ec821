use face_recognition::registry::{LabelRegistry, MAX_LABELS};

#[test]
fn new_registry_is_empty() {
    let reg = LabelRegistry::new();
    assert_eq!(reg.len(), 0);
    assert!(reg.is_empty());
    assert_eq!(reg.resolve(0), None);
    assert_eq!(reg.label_of("alice"), None);
}

#[test]
fn labels_count_up_from_zero_in_order_of_registration() {
    let mut reg = LabelRegistry::new();
    assert_eq!(reg.register("alice"), Some(0));
    assert_eq!(reg.register("bob"), Some(1));
    assert_eq!(reg.register("carol"), Some(2));
    assert_eq!(reg.len(), 3);
    assert!(!reg.is_empty());
}

#[test]
fn registering_again_gives_the_same_label() {
    let mut reg = LabelRegistry::new();
    assert_eq!(reg.register("alice"), Some(0));
    assert_eq!(reg.register("bob"), Some(1));
    assert_eq!(reg.register("alice"), Some(0));
    assert_eq!(reg.register("bob"), Some(1));
    assert_eq!(reg.len(), 2);
}

#[test]
fn resolve_gives_the_identity_of_a_label() {
    let mut reg = LabelRegistry::new();
    reg.register("alice");
    reg.register("bob");
    assert_eq!(reg.resolve(0), Some("alice".to_string()));
    assert_eq!(reg.resolve(1), Some("bob".to_string()));
}

#[test]
fn resolve_of_an_unknown_label_is_none() {
    let mut reg = LabelRegistry::new();
    reg.register("alice");
    assert_eq!(reg.resolve(1), None);
    assert_eq!(reg.resolve(-1), None);
    assert_eq!(reg.resolve(i32::MAX), None);
    assert_eq!(reg.resolve(i32::MIN), None);
}

#[test]
fn label_of_is_the_inverse_of_resolve() {
    let mut reg = LabelRegistry::new();
    let names = ["alice", "bob", "carol", "dave"];
    for name in names {
        reg.register(name);
    }
    for (i, name) in names.iter().enumerate() {
        assert_eq!(reg.label_of(name), Some(i as i32));
        assert_eq!(reg.resolve(i as i32), Some(name.to_string()));
    }
    assert_eq!(reg.label_of("erin"), None);
}

#[test]
fn identities_are_compared_exactly() {
    let mut reg = LabelRegistry::new();
    assert_eq!(reg.register("alice"), Some(0));
    assert_eq!(reg.register("Alice"), Some(1));
    assert_eq!(reg.register("alice "), Some(2));
    assert_eq!(reg.register(""), Some(3));
    assert_eq!(reg.label_of(""), Some(3));
}

#[test]
fn label_limit_is_the_largest_i32() {
    assert_eq!(MAX_LABELS, i32::MAX as usize);
}
