use cage_runtime::cage::{CageIdAllocator, CageManager, ThreadRegistry};
use cage_runtime::module::Val;
use cage_runtime::runtime::settle_main_exit;

#[test]
fn manager_counts_cages() {
    let mut mgr = CageManager::new(0);
    assert_eq!(mgr.live(), 0);
    mgr.increment();
    mgr.increment();
    assert_eq!(mgr.live(), 2);
    mgr.decrement();
    assert_eq!(mgr.live(), 1);
}

#[test]
fn allocator_identities_unique() {
    // One shared allocator serving an arbitrary interleaving of fork and
    // exec operations: every identity it hands out is fresh.
    let mut alloc = CageIdAllocator::new(1);
    let mut seen = vec![1u64];
    for _ in 0..100 {
        let id = alloc.allocate();
        assert!(!seen.contains(&id), "identity {id} was issued twice");
        seen.push(id);
    }
}

#[test]
fn allocator_two_forks_differ() {
    let mut alloc = CageIdAllocator::new(1);
    let child_a = alloc.allocate();
    let child_b = alloc.allocate();
    assert_ne!(child_a, child_b);
    assert_ne!(child_a, 1);
    assert_ne!(child_b, 1);
}

#[test]
fn last_thread_exit_decrements_once() {
    // A cage with three threads: the manager counter moves only at the
    // third (last) exit, and by exactly one.
    let results = vec![Val::I32(9)];
    let mut threads = ThreadRegistry::new(3);
    let mut mgr = CageManager::new(5);

    let first = settle_main_exit(&results, &mut threads, &mut mgr);
    assert!(first.is_none());
    assert_eq!(mgr.live(), 5);
    assert_eq!(threads.live(), 2);

    let second = settle_main_exit(&results, &mut threads, &mut mgr);
    assert!(second.is_none());
    assert_eq!(mgr.live(), 5);
    assert_eq!(threads.live(), 1);

    let third = settle_main_exit(&results, &mut threads, &mut mgr);
    let exit = third.expect("the last thread must exit the cage");
    assert_eq!(exit.code, 9);
    assert_eq!(mgr.live(), 4);
    assert_eq!(threads.live(), 0);
}

#[test]
fn spawn_raises_thread_count() {
    let mut threads = ThreadRegistry::new(1);
    threads.spawn();
    threads.spawn();
    assert_eq!(threads.live(), 3);
    assert!(!threads.exit_thread());
    assert!(!threads.exit_thread());
    assert!(threads.exit_thread());
}
