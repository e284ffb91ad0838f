use pid_supervisor::registry::PidRegistry;

#[test]
fn new_registry_is_empty() {
    let reg = PidRegistry::new();
    assert_eq!(reg.get(), None);
}

#[test]
fn get_twice_returns_same_value() {
    let mut reg = PidRegistry::new();
    assert_eq!(reg.get(), reg.get());
    reg.set(4242);
    let first = reg.get();
    let second = reg.get();
    assert_eq!(first, Some(4242));
    assert_eq!(first, second);
}

#[test]
fn set_overwrites_previous_value() {
    let mut reg = PidRegistry::new();
    reg.set(17);
    reg.set(99);
    assert_eq!(reg.get(), Some(99));
    assert_ne!(reg.get(), Some(17));
}

#[test]
fn clear_empties_the_registry() {
    let mut reg = PidRegistry::new();
    reg.set(5);
    reg.clear();
    assert_eq!(reg.get(), None);
}

#[test]
fn series_of_sets_observes_one_written_value() {
    let mut reg = PidRegistry::new();
    let writes: Vec<u32> = vec![3, 1, 4, 1, 5, 9, 2, 6];
    for w in &writes {
        reg.set(*w);
    }
    let observed = reg.get().unwrap();
    assert!(writes.contains(&observed));
    assert_eq!(observed, 6);
}
