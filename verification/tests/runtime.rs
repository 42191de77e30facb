use sly_static::registry::Registry;

#[test]
fn counter_scenario_returns_42() {
    // COUNTER is a deferred static of integer type whose initializer is
    // `41 + 1`; the wrapped entry point drains the collection and then
    // reads the handle.
    let mut registry: Registry<u64> = Registry::new();
    let counter = registry.declare(41 + 1);
    let run = |r: &mut Registry<u64>| -> u64 {
        r.run_entry_point();
        r.read(counter)
    };
    assert_eq!(run(&mut registry), 42);
}

#[test]
fn declaration_is_lazy() {
    let mut registry: Registry<u64> = Registry::new();
    let h = registry.declare(7);
    // Before the entry point runs, the initializer has not run and the
    // backing storage is still empty.
    assert!(!registry.is_drained());
    assert_eq!(registry.eval_count(h), 0);
    assert!(!registry.is_initialized(h));
}

#[test]
fn repeated_reads_yield_identical_value_without_reevaluation() {
    let mut registry: Registry<u64> = Registry::new();
    let h = registry.declare(42);
    registry.run_entry_point();
    let first = registry.read(h);
    let second = registry.read(h);
    let third = registry.read(h);
    assert_eq!(first, 42);
    assert_eq!(second, first);
    assert_eq!(third, first);
    assert_eq!(registry.eval_count(h), 1);
}

#[test]
fn each_of_n_initializers_runs_exactly_once() {
    let mut registry: Registry<i64> = Registry::new();
    let handles = vec![
        registry.declare(10),
        registry.declare(-3),
        registry.declare(0),
    ];
    for &h in &handles {
        assert_eq!(registry.eval_count(h), 0);
    }
    registry.run_entry_point();
    assert_eq!(registry.len(), 3);
    for &h in &handles {
        assert_eq!(registry.eval_count(h), 1);
        assert!(registry.is_initialized(h));
    }
    // The drain invoked the initializers in registration order.
    assert_eq!(registry.run_log, vec![0, 1, 2]);
    assert_eq!(registry.read(handles[0]), 10);
    assert_eq!(registry.read(handles[1]), -3);
    assert_eq!(registry.read(handles[2]), 0);
}

#[test]
fn two_independent_statics_both_initialize() {
    // A and B have no inter-dependency; after one entry-point invocation
    // both dereference successfully and independently.
    let mut registry: Registry<&'static str> = Registry::new();
    let a = registry.declare("x");
    let b = registry.declare("y");
    registry.run_entry_point();
    assert_eq!(registry.read(a), "x");
    assert_eq!(registry.read(b), "y");
    assert_eq!(registry.eval_count(a), 1);
    assert_eq!(registry.eval_count(b), 1);
}

#[test]
fn empty_collection_drains_to_nothing() {
    let mut registry: Registry<u8> = Registry::new();
    registry.run_entry_point();
    assert!(registry.is_drained());
    assert_eq!(registry.len(), 0);
}
