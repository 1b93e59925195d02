use raii_counter_futures::{Counter, WaitAction, WeakCounter};
use std::time::{Duration, Instant};

async fn wait_until_empty(weak: &WeakCounter) {
    while weak.wait_step() == WaitAction::Suspend {
        weak.signal().event.wait().await;
    }
}

#[test]
fn it_works() {
    let counter = Counter::new();
    assert_eq!(counter.count(), 1);

    let weak = counter.downgrade();
    assert_eq!(weak.count(), 0);

    {
        let _counter1 = weak.spawn_upgrade();
        assert_eq!(weak.count(), 1);
        let _counter2 = weak.spawn_upgrade();
        assert_eq!(weak.count(), 2);
    }

    assert_eq!(weak.count(), 0);
}

#[test]
fn different_sizes_work() {
    let weak = WeakCounter::new();
    assert_eq!(weak.count(), 0);

    let counter = weak.spawn_upgrade_with_size(5);
    assert_eq!(weak.count(), 5);

    {
        let _counter1 = counter.clone();
        assert_eq!(weak.count(), 10);
        let _counter2 = weak.spawn_upgrade();
        assert_eq!(weak.count(), 11);
    }

    assert_eq!(weak.count(), 5);
}

#[test]
fn test_wait_for_empty_works() {
    let runtime = tokio::runtime::Runtime::new().unwrap();
    runtime.block_on(async {
        let start = Instant::now();
        let weak = WeakCounter::new();

        let counter1 = weak.spawn_upgrade();
        let counter2 = counter1.clone();
        let counter3 = counter2.clone();
        tokio::spawn(async move {
            tokio::time::sleep(Duration::from_millis(250)).await;
            drop(counter1);

            tokio::time::sleep(Duration::from_millis(500)).await;
            drop(counter2);

            tokio::time::sleep(Duration::from_millis(100)).await;
            drop(counter3);
        });

        wait_until_empty(&weak).await;
        let elapsed = start.elapsed();

        assert!(elapsed >= Duration::from_millis(850));
        assert!(elapsed < Duration::from_millis(900));
    });
}

#[test]
fn new_with_size_counts_its_weight() {
    let counter = Counter::new_with_size(7);
    assert_eq!(counter.count(), 7);
    let other = counter.clone();
    assert_eq!(other.count(), 14);
    drop(counter);
    assert_eq!(other.count(), 7);
    let weak = other.downgrade();
    assert_eq!(weak.count(), 0);
}

#[test]
fn scenario_downgrade_of_only_handle_drains() {
    let counter = Counter::new();
    assert_eq!(counter.count(), 1);
    let weak = counter.downgrade();
    assert_eq!(weak.count(), 0);
    assert!(weak.signal().event.is_set());
}

#[test]
fn scenario_mint_duplicate_release() {
    let weak = WeakCounter::new();
    let five = weak.spawn_upgrade_with_size(5);
    assert_eq!(weak.count(), 5);
    let five_again = five.clone();
    assert_eq!(weak.count(), 10);
    let one = weak.spawn_upgrade();
    assert_eq!(weak.count(), 11);
    drop(five);
    drop(five_again);
    drop(one);
    assert_eq!(weak.count(), 0);
    assert!(weak.signal().event.is_set());
}

#[test]
fn duplicate_then_release_leaves_count() {
    let weak = WeakCounter::new();
    let a = weak.spawn_upgrade_with_size(3);
    let b = weak.spawn_upgrade_with_size(4);
    assert_eq!(weak.count(), 7);
    {
        let _c = b.clone();
        assert_eq!(weak.count(), 11);
    }
    assert_eq!(weak.count(), 7);
    drop(a);
    assert_eq!(weak.count(), 4);
}

#[test]
fn downgrade_then_mint_adds_weight_once() {
    let counter = Counter::new_with_size(4);
    let weak = counter.downgrade();
    assert_eq!(weak.count(), 0);
    let minted = weak.spawn_upgrade_with_size(6);
    assert_eq!(weak.count(), 6);
    drop(minted);
    assert_eq!(weak.count(), 0);
}

#[test]
fn upgrade_makes_weight_one_handle() {
    let weak = WeakCounter::new();
    let observer = weak.clone();
    let strong = weak.upgrade();
    assert_eq!(observer.count(), 1);
    drop(strong);
    assert_eq!(observer.count(), 0);
}

#[test]
fn weak_clone_does_not_change_count() {
    let weak = WeakCounter::new();
    let strong = weak.spawn_upgrade_with_size(2);
    let copy = weak.clone();
    assert_eq!(copy.count(), 2);
    drop(strong);
    assert_eq!(copy.count(), 0);
}

#[test]
fn signal_follows_count() {
    let weak = WeakCounter::new();
    assert!(weak.signal().event.is_set());
    let strong = weak.spawn_upgrade();
    assert!(!weak.signal().event.is_set());
    assert!(!strong.signal().event.is_set());
    drop(strong);
    assert!(weak.signal().event.is_set());
}

#[test]
fn wait_step_on_empty_count_resumes() {
    let weak = WeakCounter::new();
    assert_eq!(weak.wait_step(), WaitAction::Resume);
    let strong = weak.spawn_upgrade();
    assert_eq!(weak.wait_step(), WaitAction::Suspend);
    assert_eq!(strong.wait_step(), WaitAction::Suspend);
    drop(strong);
    assert_eq!(weak.wait_step(), WaitAction::Resume);
}

#[test]
fn wait_on_empty_count_returns_at_once() {
    let runtime = tokio::runtime::Runtime::new().unwrap();
    runtime.block_on(async {
        let start = Instant::now();
        let weak = WeakCounter::new();
        wait_until_empty(&weak).await;
        assert!(start.elapsed() < Duration::from_millis(50));
    });
}

#[test]
fn every_waiter_resumes() {
    let runtime = tokio::runtime::Runtime::new().unwrap();
    runtime.block_on(async {
        let weak = WeakCounter::new();
        let strong = weak.spawn_upgrade_with_size(2);
        let mut waiters = Vec::new();
        for _ in 0..4 {
            let w = weak.clone();
            waiters.push(tokio::spawn(async move {
                wait_until_empty(&w).await;
                w.count()
            }));
        }
        tokio::time::sleep(Duration::from_millis(50)).await;
        drop(strong);
        for waiter in waiters {
            let seen = tokio::time::timeout(Duration::from_secs(2), waiter)
                .await
                .unwrap()
                .unwrap();
            assert_eq!(seen, 0);
        }
    });
}
