use face_recognition::error::FaceError;
use face_recognition::training::{plan_rebuild, Extraction, RebuildPlan, TrainingSet};

fn ok(identity: &str, sample: u32) -> Extraction<u32> {
    Extraction { identity: identity.to_string(), outcome: Ok(sample) }
}

fn failed(identity: &str, error: FaceError) -> Extraction<u32> {
    Extraction { identity: identity.to_string(), outcome: Err(error) }
}

fn training_set(scan: Vec<Extraction<u32>>) -> TrainingSet<u32> {
    match plan_rebuild(scan) {
        Ok(RebuildPlan::Train(set)) => set,
        Ok(RebuildPlan::KeepCurrent) => panic!("nothing planned"),
        Err(e) => panic!("plan failed: {:?}", e),
    }
}

#[test]
fn an_empty_scan_plans_nothing() {
    let plan = plan_rebuild(Vec::<Extraction<u32>>::new());
    assert!(matches!(plan, Ok(RebuildPlan::KeepCurrent)));
}

#[test]
fn a_scan_of_failures_plans_nothing() {
    let scan = vec![
        failed("alice", FaceError::ImageLoad),
        failed("alice", FaceError::NoFaceDetected),
        failed("bob", FaceError::NoFaceDetected),
    ];
    assert!(matches!(plan_rebuild(scan), Ok(RebuildPlan::KeepCurrent)));
}

#[test]
fn alice_with_three_photos_and_bob_with_one_and_a_corrupt_file() {
    let scan = vec![
        ok("alice", 10),
        ok("alice", 11),
        ok("alice", 12),
        ok("bob", 20),
        failed("bob", FaceError::ImageLoad),
    ];
    let set = training_set(scan);
    assert_eq!(set.samples, vec![10, 11, 12, 20]);
    assert_eq!(set.labels, vec![0, 0, 0, 1]);
    assert_eq!(set.registry.len(), 2);
    assert_eq!(set.registry.resolve(0), Some("alice".to_string()));
    assert_eq!(set.registry.resolve(1), Some("bob".to_string()));
}

#[test]
fn an_identity_without_a_sample_gets_no_label() {
    let scan = vec![
        failed("zed", FaceError::NoFaceDetected),
        ok("alice", 1),
        failed("mallory", FaceError::ImageLoad),
        failed("mallory", FaceError::NoFaceDetected),
        ok("bob", 2),
    ];
    let set = training_set(scan);
    assert_eq!(set.registry.len(), 2);
    assert_eq!(set.registry.label_of("zed"), None);
    assert_eq!(set.registry.label_of("mallory"), None);
    assert_eq!(set.registry.label_of("alice"), Some(0));
    assert_eq!(set.registry.label_of("bob"), Some(1));
    assert_eq!(set.labels, vec![0, 1]);
    assert_eq!(set.samples, vec![1, 2]);
}

#[test]
fn labels_follow_the_first_successful_sample_not_the_first_attempt() {
    let scan = vec![
        failed("alice", FaceError::NoFaceDetected),
        ok("bob", 7),
        ok("alice", 8),
    ];
    let set = training_set(scan);
    assert_eq!(set.registry.resolve(0), Some("bob".to_string()));
    assert_eq!(set.registry.resolve(1), Some("alice".to_string()));
    assert_eq!(set.labels, vec![0, 1]);
}

#[test]
fn an_identity_met_again_keeps_its_label() {
    let scan = vec![ok("alice", 1), ok("bob", 2), ok("alice", 3), ok("bob", 4), ok("carol", 5)];
    let set = training_set(scan);
    assert_eq!(set.labels, vec![0, 1, 0, 1, 2]);
    assert_eq!(set.samples, vec![1, 2, 3, 4, 5]);
    assert_eq!(set.registry.len(), 3);
}

#[test]
fn every_label_resolves_to_the_owner_of_its_sample() {
    let owners = ["dave", "alice", "dave", "carol", "alice", "bob"];
    let scan: Vec<Extraction<u32>> =
        owners.iter().enumerate().map(|(i, o)| ok(o, i as u32)).collect();
    let set = training_set(scan);
    assert_eq!(set.samples.len(), set.labels.len());
    for (k, label) in set.labels.iter().enumerate() {
        assert_eq!(set.registry.resolve(*label), Some(owners[k].to_string()));
        assert_eq!(set.samples[k], k as u32);
    }
}

#[test]
fn labels_are_dense() {
    let scan = vec![ok("c", 1), failed("x", FaceError::ImageLoad), ok("a", 2), ok("b", 3), ok("a", 4)];
    let set = training_set(scan);
    let n = set.registry.len() as i32;
    assert_eq!(n, 3);
    for label in &set.labels {
        assert!(0 <= *label && *label < n);
    }
    for wanted in 0..n {
        assert!(set.labels.contains(&wanted));
    }
}

#[test]
fn another_scan_order_renumbers_but_names_the_same_owners() {
    let first = training_set(vec![ok("alice", 1), ok("alice", 2), ok("bob", 3)]);
    let second = training_set(vec![ok("bob", 3), ok("alice", 1), ok("alice", 2)]);
    assert_eq!(first.registry.label_of("alice"), Some(0));
    assert_eq!(second.registry.label_of("alice"), Some(1));
    let mut named_first: Vec<(String, u32)> = first
        .labels
        .iter()
        .zip(first.samples.iter())
        .map(|(l, s)| (first.registry.resolve(*l).unwrap(), *s))
        .collect();
    let mut named_second: Vec<(String, u32)> = second
        .labels
        .iter()
        .zip(second.samples.iter())
        .map(|(l, s)| (second.registry.resolve(*l).unwrap(), *s))
        .collect();
    named_first.sort();
    named_second.sort();
    assert_eq!(named_first, named_second);
}

#[test]
fn the_same_scan_gives_the_same_plan() {
    let make = || vec![ok("alice", 1), failed("bob", FaceError::ImageLoad), ok("carol", 2)];
    let a = training_set(make());
    let b = training_set(make());
    assert_eq!(a.samples, b.samples);
    assert_eq!(a.labels, b.labels);
    assert_eq!(a.registry.len(), b.registry.len());
    for label in 0..a.registry.len() as i32 {
        assert_eq!(a.registry.resolve(label), b.registry.resolve(label));
    }
}
