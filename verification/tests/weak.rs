use refcount::weak::Arc;
use refcount::weak::ControlBlock;
use refcount::weak::UpgradeOutcome;

fn promoted(outcome: UpgradeOutcome) -> Arc {
    match outcome {
        UpgradeOutcome::Promoted(handle) => handle,
        UpgradeOutcome::Dead => panic!("upgrade found the payload dead"),
        UpgradeOutcome::Saturated => panic!("upgrade hit the overflow guard"),
    }
}

fn still_shared<T>(parts: (Option<T>, Option<ControlBlock<T>>)) -> ControlBlock<T> {
    match parts {
        (None, Some(block)) => block,
        (Some(_), _) => panic!("drop destroyed the payload early"),
        (None, None) => panic!("drop freed the block early"),
    }
}

#[test]
fn s2_weak_test_not_loom() {
    // How many times the shared payload has been destroyed: a strong drop
    // that hands the payload back is the destructor running.
    let mut num_drops: usize = 0;

    // Create one owning handle with two weak observers.
    let (x, mut block) = Arc::new(("hello", ()));
    let y = Arc::downgrade(&x, &mut block).unwrap();
    let z = Arc::downgrade(&x, &mut block).unwrap();

    // Elsewhere, the weak handle must be upgradable at this point, the
    // payload must read back, and both handles are dropped there.
    let y_strong = promoted(y.upgrade(&mut block));
    assert_eq!(y_strong.deref(&block).0, "hello");
    assert_eq!(x.deref(&block).0, "hello");
    let block = still_shared(y_strong.drop(block));
    let mut block = y.drop(block).unwrap();

    // The payload must not be dropped yet, and the other weak handle must
    // still be upgradable (the upgraded handle is given up at once).
    assert_eq!(num_drops, 0);
    let probe = promoted(z.upgrade(&mut block));
    let mut block = still_shared(probe.drop(block));

    // Drop the last owning handle: now the payload must be dropped, and the
    // weak handle must no longer be upgradable.
    let mut block = match x.drop(block) {
        (Some(_payload), Some(b)) => {
            num_drops += 1;
            b
        }
        _ => unreachable!(),
    };
    assert_eq!(num_drops, 1);
    assert!(matches!(z.upgrade(&mut block), UpgradeOutcome::Dead));

    // Giving up the last weak handle frees the block.
    assert!(z.drop(block).is_none());
}

#[test]
fn lifecycle_scenario() {
    // Create, clone, downgrade twice; one owning handle is read and dropped
    // elsewhere, then the last owning handle is dropped here: the destructor
    // count must become exactly one, a weak handle upgraded before the final
    // strong drop must have succeeded, and one upgraded after must find
    // nothing.
    let mut destructor_runs: usize = 0;
    let (x, mut block) = Arc::new(("hello", 7u32));
    let c = x.clone(&mut block).unwrap();
    let w1 = Arc::downgrade(&x, &mut block).unwrap();
    let w2 = Arc::downgrade(&x, &mut block).unwrap();
    assert_eq!(block.strong_count(), 2);
    assert_eq!(block.total_count(), 4);

    // Elsewhere: read through the moved handle, upgrade w1 before any final
    // drop — it must succeed — and give both temporary handles up.
    assert_eq!(c.deref(&block).0, "hello");
    let early = promoted(w1.upgrade(&mut block));
    let block = still_shared(early.drop(block));
    let block = still_shared(c.drop(block));

    // The last owning handle goes: destruction, exactly once.
    let mut block = match x.drop(block) {
        (Some(payload), Some(b)) => {
            destructor_runs += 1;
            assert_eq!(payload, ("hello", 7));
            b
        }
        _ => unreachable!(),
    };
    assert_eq!(destructor_runs, 1);
    assert_eq!(block.strong_count(), 0);

    // Any still-held weak handle finds nothing now.
    assert!(matches!(w1.upgrade(&mut block), UpgradeOutcome::Dead));
    assert!(matches!(w2.upgrade(&mut block), UpgradeOutcome::Dead));

    // The block is freed by the last weak drop, and not before.
    let block = w1.drop(block).unwrap();
    assert!(w2.drop(block).is_none());
}

#[test]
fn contended_clone_churn_restores_baseline() {
    // Two handles race cloning and dropping immediately, 10,000 times each;
    // their steps interleave. Both counts must return to the pre-test
    // baseline with no double destruction.
    let (x, mut block) = Arc::new(0u64);
    let y = x.clone(&mut block).unwrap();
    let strong_baseline = block.strong_count();
    let total_baseline = block.total_count();

    for _ in 0..10_000 {
        let a = x.clone(&mut block).unwrap();
        let b = y.clone(&mut block).unwrap();
        let rest = still_shared(a.drop(block));
        block = still_shared(b.drop(rest));
    }
    assert_eq!(block.strong_count(), strong_baseline);
    assert_eq!(block.total_count(), total_baseline);

    let rest = still_shared(y.drop(block));
    match x.drop(rest) {
        (Some(payload), None) => assert_eq!(payload, 0),
        _ => unreachable!(),
    }
}

#[test]
fn get_mut_grants_exclusive_access_only_alone() {
    let (x, mut block) = Arc::new(10i32);

    // Sole handle of any kind: exclusive access is granted and usable.
    *Arc::get_mut(&x, &mut block).unwrap() = 11;
    assert_eq!(*x.deref(&block), 11);

    // A second owning handle forbids it.
    let y = x.clone(&mut block).unwrap();
    assert!(Arc::get_mut(&x, &mut block).is_none());
    let mut block = still_shared(y.drop(block));

    // A weak handle forbids it too, even though it owns nothing.
    let w = Arc::downgrade(&x, &mut block).unwrap();
    assert!(Arc::get_mut(&x, &mut block).is_none());

    // Once it is gone, exclusivity returns.
    let mut block = w.drop(block).unwrap();
    *Arc::get_mut(&x, &mut block).unwrap() = 12;

    match x.drop(block) {
        (Some(payload), None) => assert_eq!(payload, 12),
        _ => unreachable!(),
    }
}

#[test]
fn upgrade_tracks_strong_count_exactly() {
    let (x, mut block) = Arc::new(5u8);
    let w = Arc::downgrade(&x, &mut block).unwrap();

    // While an owning handle lives, every attempt succeeds.
    let a = promoted(w.upgrade(&mut block));
    let b = promoted(w.upgrade(&mut block));
    assert_eq!(block.strong_count(), 3);
    assert_eq!(block.total_count(), 4);

    let block = still_shared(a.drop(block));
    let block = still_shared(b.drop(block));
    let mut block = match x.drop(block) {
        (Some(payload), Some(rest)) => {
            assert_eq!(payload, 5);
            rest
        }
        _ => unreachable!(),
    };

    // Once the strong count reached zero it stays there: attempt after
    // attempt finds the payload dead.
    assert!(matches!(w.upgrade(&mut block), UpgradeOutcome::Dead));
    assert!(matches!(w.upgrade(&mut block), UpgradeOutcome::Dead));
    assert!(w.drop(block).is_none());
}

#[test]
fn weak_clones_keep_the_block_alive() {
    let (x, mut block) = Arc::new(vec![1u8, 2, 3]);
    let w = Arc::downgrade(&x, &mut block).unwrap();
    let w2 = w.clone(&mut block).unwrap();
    assert_eq!(block.total_count(), 3);

    // Destruction happens at the strong drop, deallocation only after every
    // weak handle is gone: destruction at or before deallocation, never
    // after.
    let mut block = match x.drop(block) {
        (Some(payload), Some(rest)) => {
            assert_eq!(payload, vec![1, 2, 3]);
            rest
        }
        _ => unreachable!(),
    };
    assert_eq!(block.total_count(), 2);
    assert!(matches!(w2.upgrade(&mut block), UpgradeOutcome::Dead));
    let block = w2.drop(block).unwrap();
    assert!(w.drop(block).is_none());
}
