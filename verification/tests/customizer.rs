use deadpool::managed::config::PoolConfig;
use deadpool::managed::customizer::ObjectCustomizer;
use deadpool::managed::errors::RecycleResult;
use deadpool::managed::object::Metrics;
use deadpool::managed::{GetOutcome, Manager, Pool};

/// Creates the integers 1, 3, 5, ... and records every value its recycle
/// step observes.
struct OddManager {
    next: u64,
    recycled_values: Vec<u64>,
}

impl Manager for OddManager {
    type Type = u64;
    type Error = String;

    fn create(&mut self) -> Result<u64, String> {
        let n = self.next;
        self.next += 2;
        Ok(n)
    }

    fn recycle(&mut self, obj: &mut u64, _metrics: &Metrics) -> RecycleResult<String> {
        self.recycled_values.push(*obj);
        Ok(())
    }
}

/// Doubles every created value.
struct Doubling;

impl ObjectCustomizer<u64> for Doubling {
    type Output = u64;

    // The specification-level transform and inner view; under
    // verification these are the ghost functions the executable methods
    // are held to, and outside it they are erased stubs.
    fn spec_customize(&self, obj: u64) -> u64 {
        obj * 2
    }

    fn spec_inner(out: u64) -> u64 {
        out
    }

    fn customize(&self, obj: u64) -> u64 {
        obj * 2
    }

    fn as_inner_mut(out: &mut u64) -> &mut u64 {
        out
    }
}

#[test]
fn customized_objects_are_transformed() {
    // A customizer doubling the created integers yields checked-out
    // objects whose inner value is always even.
    let manager = OddManager {
        next: 1,
        recycled_values: Vec::new(),
    };
    let wrapped = Doubling.wrap_manager(manager);
    let mut pool = Pool::builder(wrapped)
        .config(PoolConfig::new(4))
        .build()
        .unwrap();
    let mut seen = Vec::new();
    for _ in 0..4 {
        let obj = match pool.get() {
            GetOutcome::Ready(obj) => obj,
            _ => panic!("expected an object"),
        };
        assert_eq!(*obj.inner() % 2, 0);
        seen.push(*obj.inner());
        pool.detach(obj);
    }
    assert_eq!(seen, vec![2, 6, 10, 14]);
}

#[test]
fn recycle_is_delegated_through_the_wrapper() {
    // Recycle goes to the inner manager, which sees the handed-out value
    // through the customizer's view of the inner instance.
    let manager = OddManager {
        next: 1,
        recycled_values: Vec::new(),
    };
    let wrapped = Doubling.wrap_manager(manager);
    let mut pool = Pool::builder(wrapped)
        .config(PoolConfig::new(1))
        .build()
        .unwrap();
    let obj = match pool.get() {
        GetOutcome::Ready(obj) => obj,
        _ => panic!("expected an object"),
    };
    assert_eq!(*obj.inner(), 2);
    pool.put_back(obj);
    let again = match pool.get() {
        GetOutcome::Ready(obj) => obj,
        _ => panic!("expected an object"),
    };
    assert_eq!(again.metrics().recycle_count, 1);
    assert_eq!(pool.manager().manager.recycled_values, vec![2]);
    pool.put_back(again);
}
