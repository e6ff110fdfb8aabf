use textual::registry::ExternalRegistry;

fn names_of(r: &ExternalRegistry) -> Vec<String> {
    r.enumerate().clone()
}

#[test]
fn new_registry_is_empty() {
    let r = ExternalRegistry::new();
    assert_eq!(r.len(), 0);
    assert!(r.enumerate().is_empty());
    assert!(!r.contains(&"foo".to_string()));
}

#[test]
fn register_adds_an_absent_name() {
    let mut r = ExternalRegistry::new();
    r.register("foo".to_string());
    assert_eq!(names_of(&r), vec!["foo".to_string()]);
    assert_eq!(r.len(), 1);
    assert!(r.contains(&"foo".to_string()));
    assert!(!r.contains(&"fo".to_string()));
}

#[test]
fn register_is_idempotent() {
    let mut once = ExternalRegistry::new();
    once.register("foo".to_string());
    let mut often = ExternalRegistry::new();
    for _ in 0..5 {
        often.register("foo".to_string());
    }
    assert_eq!(names_of(&once), names_of(&often));
    assert_eq!(often.len(), 1);
}

#[test]
fn enumerate_is_in_first_seen_order() {
    let mut r = ExternalRegistry::new();
    for name in ["zeta", "alpha", "zeta", "mid", "alpha", "beta"] {
        r.register(name.to_string());
    }
    assert_eq!(
        names_of(&r),
        vec!["zeta".to_string(), "alpha".to_string(), "mid".to_string(), "beta".to_string()]
    );
}

#[test]
fn enumerate_holds_every_name_exactly_once() {
    let mut r = ExternalRegistry::new();
    let input = ["a", "b", "a", "c", "b", "a", "d", "d"];
    for name in input {
        r.register(name.to_string());
    }
    let names = names_of(&r);
    for name in input {
        assert_eq!(names.iter().filter(|n| n.as_str() == name).count(), 1);
    }
    assert_eq!(names.len(), 4);
    assert_eq!(r.len(), 4);
}

#[test]
fn names_differ_by_case_and_space() {
    let mut r = ExternalRegistry::new();
    r.register("Foo".to_string());
    r.register("foo".to_string());
    r.register("foo ".to_string());
    r.register(String::new());
    r.register(String::new());
    assert_eq!(
        names_of(&r),
        vec!["Foo".to_string(), "foo".to_string(), "foo ".to_string(), String::new()]
    );
}

#[test]
fn earlier_enumeration_is_a_prefix_of_a_later_one() {
    let mut r = ExternalRegistry::new();
    r.register("a".to_string());
    r.register("b".to_string());
    let early = names_of(&r);
    r.register("a".to_string());
    r.register("c".to_string());
    let late = names_of(&r);
    assert_eq!(&late[..early.len()], &early[..]);
    assert_eq!(late.len(), 3);
}
