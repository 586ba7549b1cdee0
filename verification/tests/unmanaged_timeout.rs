use deadpool::runtime::{Runtime, WaitDirective};
use deadpool::unmanaged::errors::PoolError;
use deadpool::unmanaged::{GetOutcome, Pool, PoolConfig};

#[test]
fn no_runtime() {
    let mut pool = Pool::<()>::default();
    assert!(matches!(
        pool.timeout_get(Some(1)),
        GetOutcome::Fail(PoolError::NoRuntimeSpecified)
    ));
    assert!(matches!(
        pool.timeout_get(Some(0)),
        GetOutcome::Fail(PoolError::Timeout)
    ));
}

#[test]
fn no_runtime_from_config() {
    let cfg = PoolConfig {
        max_size: 16,
        timeout: Some(1),
        runtime: None,
    };
    let mut pool = Pool::<()>::from_config(&cfg);
    assert!(matches!(
        pool.get(),
        GetOutcome::Fail(PoolError::NoRuntimeSpecified)
    ));
}

fn test_get(runtime: Runtime) {
    let cfg = PoolConfig {
        max_size: 16,
        timeout: None,
        runtime: Some(runtime),
    };
    let mut pool = Pool::<()>::from_config(&cfg);
    // Nothing is available: the checkout asks for a bounded wait under
    // the configured runtime, for the whole 1 ms deadline.
    match pool.timeout_get(Some(1)) {
        GetOutcome::Wait(WaitDirective::Bounded {
            runtime: rt,
            remaining_ms,
        }) => {
            assert_eq!(rt, runtime);
            assert_eq!(remaining_ms, 1);
        }
        _ => panic!("expected a bounded wait"),
    }
    // The deadline elapses with nothing returned: the retry re-enters
    // with no deadline remaining and times out.
    assert_eq!(deadpool::util::remaining_deadline(0, 1, 1), None);
    assert!(matches!(
        pool.timeout_get(Some(0)),
        GetOutcome::Fail(PoolError::Timeout)
    ));
}

fn test_config(runtime: Runtime) {
    let cfg = PoolConfig {
        max_size: 16,
        timeout: Some(1),
        runtime: Some(runtime),
    };
    let mut pool = Pool::<()>::from_config(&cfg);
    assert!(matches!(
        pool.get(),
        GetOutcome::Wait(WaitDirective::Bounded { remaining_ms: 1, .. })
    ));
    assert!(matches!(
        pool.timeout_get(Some(0)),
        GetOutcome::Fail(PoolError::Timeout)
    ));
}

#[test]
fn rt_tokio_1() {
    test_get(Runtime::Tokio1);
    test_config(Runtime::Tokio1);
}

#[test]
fn rt_async_std_1() {
    test_get(Runtime::AsyncStd1);
    test_config(Runtime::AsyncStd1);
}

#[test]
fn rt_smol_2() {
    test_get(Runtime::Smol2);
    test_config(Runtime::Smol2);
}

#[test]
fn unbounded_wait_resolves_after_release() {
    // An unbounded checkout on an exhausted pool asks the caller to wait —
    // it never times out — and succeeds right after another task returns an
    // object.
    let cfg = PoolConfig {
        max_size: 1,
        timeout: None,
        runtime: None,
    };
    let mut pool = Pool::<u32>::from_config(&cfg);
    pool.try_add(7).unwrap();
    let obj = match pool.timeout_get(None) {
        GetOutcome::Ready(obj) => obj,
        _ => panic!("expected an object"),
    };
    assert!(matches!(
        pool.timeout_get(None),
        GetOutcome::Wait(WaitDirective::Unbounded)
    ));
    pool.put_back(obj);
    assert!(matches!(pool.timeout_get(None), GetOutcome::Ready(7)));
}

#[test]
fn capacity_is_never_exceeded() {
    let cfg = PoolConfig {
        max_size: 2,
        timeout: None,
        runtime: None,
    };
    let mut pool = Pool::<u32>::from_config(&cfg);
    assert!(pool.try_add(1).is_ok());
    assert!(pool.try_add(2).is_ok());
    assert_eq!(pool.try_add(3), Err(3));
    assert_eq!(pool.size(), 2);
    // Checked-out objects still count against the capacity.
    let obj = match pool.get() {
        GetOutcome::Ready(obj) => obj,
        _ => panic!("expected an object"),
    };
    assert_eq!(pool.try_add(3), Err(3));
    assert_eq!(pool.size(), 2);
    pool.put_back(obj);
}

#[test]
fn idle_store_is_lifo() {
    let mut pool = Pool::<u32>::from_config(&PoolConfig::new(3));
    pool.try_add(1).unwrap();
    pool.try_add(2).unwrap();
    pool.try_add(3).unwrap();
    assert!(matches!(pool.timeout_get(Some(0)), GetOutcome::Ready(3)));
    assert!(matches!(pool.timeout_get(Some(0)), GetOutcome::Ready(2)));
    // A returned object is the next one handed out.
    pool.put_back(9);
    assert!(matches!(pool.timeout_get(Some(0)), GetOutcome::Ready(9)));
    assert!(matches!(pool.timeout_get(Some(0)), GetOutcome::Ready(1)));
}

#[test]
fn close_is_idempotent_and_observable() {
    let mut pool = Pool::<u32>::from_config(&PoolConfig::new(4));
    pool.try_add(1).unwrap();
    pool.try_add(2).unwrap();
    pool.close();
    assert!(pool.is_closed());
    assert_eq!(pool.available(), 0);
    assert_eq!(pool.size(), 0);
    assert!(matches!(pool.get(), GetOutcome::Fail(PoolError::Closed)));
    // A second close changes nothing observable.
    pool.close();
    assert!(pool.is_closed());
    assert_eq!(pool.available(), 0);
    assert_eq!(pool.size(), 0);
    assert!(matches!(pool.get(), GetOutcome::Fail(PoolError::Closed)));
    // Additions are refused, and a returned object is destroyed.
    assert_eq!(pool.try_add(5), Err(5));
}

#[test]
fn checkout_return_cycles_do_not_starve() {
    let mut pool = Pool::<u32>::from_config(&PoolConfig::new(1));
    pool.try_add(42).unwrap();
    for _ in 0..1000 {
        let obj = match pool.get() {
            GetOutcome::Ready(obj) => obj,
            _ => panic!("expected an object"),
        };
        pool.put_back(obj);
    }
    assert_eq!(pool.size(), 1);
    assert_eq!(pool.available(), 1);
}

#[test]
fn default_pool_has_default_capacity() {
    let pool = Pool::<()>::default();
    assert!(pool.max_size() >= 2);
    assert_eq!(pool.max_size(), deadpool::util::get_default_pool_max_size());
    assert_eq!(pool.max_size(), num_cpus::get() * 2);
    assert_eq!(pool.size(), 0);
    assert!(!pool.is_closed());
}

#[test]
fn remaining_deadline_formula() {
    let remaining_deadline = deadpool::util::remaining_deadline;
    assert_eq!(remaining_deadline(100, 100, 30), Some(30));
    assert_eq!(remaining_deadline(100, 110, 30), Some(20));
    assert_eq!(remaining_deadline(100, 130, 30), None);
    assert_eq!(remaining_deadline(100, 500, 30), None);
    // A clock reading before the start counts as no elapsed time.
    assert_eq!(remaining_deadline(100, 90, 30), Some(30));
    // A zero deadline has always elapsed.
    assert_eq!(remaining_deadline(100, 100, 0), None);
}

#[test]
fn default_capacity_formula() {
    assert_eq!(deadpool::util::default_max_size_for(4), 8);
    assert_eq!(deadpool::util::default_max_size_for(1), 2);
    // A degenerate CPU count is floored, and a huge one saturates.
    assert_eq!(deadpool::util::default_max_size_for(0), 2);
    assert_eq!(deadpool::util::default_max_size_for(usize::MAX), usize::MAX);
}

#[test]
fn pool_error_describe() {
    assert_eq!(
        PoolError::Timeout.describe(),
        "Timeout occurred while waiting for an object to become available"
    );
    assert_eq!(PoolError::Closed.describe(), "Pool has been closed");
    assert_eq!(
        PoolError::NoRuntimeSpecified.describe(),
        "No runtime specified"
    );
}
