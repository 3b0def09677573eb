use code_management_backend::locks::MutationLocks;

#[test]
fn one_mutation_at_a_time_in_a_repository() {
    let mut locks = MutationLocks::new();
    assert!(!locks.busy("/srv/alice/proj"));
    assert!(locks.try_lock("/srv/alice/proj"));
    assert!(locks.busy("/srv/alice/proj"));
    assert!(!locks.try_lock("/srv/alice/proj"));
    assert!(!locks.try_lock("/srv/alice/proj"));
    locks.unlock("/srv/alice/proj");
    assert!(!locks.busy("/srv/alice/proj"));
    assert!(locks.try_lock("/srv/alice/proj"));
}

#[test]
fn repositories_do_not_block_each_other() {
    let mut locks = MutationLocks::new();
    assert!(locks.try_lock("/srv/alice/a"));
    assert!(locks.try_lock("/srv/alice/b"));
    assert!(locks.try_lock("/srv/bob/a"));
    locks.unlock("/srv/alice/b");
    assert!(locks.busy("/srv/alice/a"));
    assert!(!locks.busy("/srv/alice/b"));
    assert!(locks.busy("/srv/bob/a"));
    assert!(!locks.try_lock("/srv/alice/a"));
    assert!(locks.try_lock("/srv/alice/b"));
}

#[test]
fn unlocking_what_was_not_locked_changes_nothing() {
    let mut locks = MutationLocks::new();
    locks.unlock("/srv/alice/a");
    assert!(locks.try_lock("/srv/alice/a"));
    locks.unlock("/srv/alice/b");
    assert!(locks.busy("/srv/alice/a"));
}
