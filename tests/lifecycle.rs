use naptime::lifecycle::{Listener, LoopStep};
use naptime::Error;

/// Counts the references that a sequence of steps takes and gives back on a
/// loop.
fn balance(steps: &[LoopStep], run_loop: usize) -> (usize, usize) {
    let retains = steps.iter().filter(|s| **s == LoopStep::Retain(run_loop)).count();
    let releases = steps.iter().filter(|s| **s == LoopStep::Release(run_loop)).count();
    (retains, releases)
}

#[test]
fn start_retains_then_meets_the_worker() {
    let (built, steps, worker) = Listener::start(Ok(0x7000), 1u32);
    assert_eq!(steps, vec![LoopStep::Retain(0x7000), LoopStep::Rendezvous]);
    assert_eq!(worker, None);
    match built {
        Ok(listener) => {
            assert_eq!(listener.run_loop(), Some(0x7000));
            assert!(listener.has_worker());
        }
        Err(_) => panic!("a reported loop must start the listener"),
    }
}

#[test]
fn failed_start_returns_the_error_and_owes_nothing() {
    let (built, steps, worker) = Listener::start(Err(Error::registration_failed(0)), 1u32);
    assert_eq!(steps, vec![LoopStep::Join]);
    assert_eq!(worker, Some(1));
    match built {
        Ok(_) => panic!("a failed registration must not build a listener"),
        Err(e) => assert_eq!(e.message(), "IORegisterForSystemPower failed. code=00000000"),
    }
}

#[test]
fn teardown_stops_releases_and_joins() {
    let (built, _, _) = Listener::start(Ok(0x7000), 5u32);
    let mut listener = match built {
        Ok(listener) => listener,
        Err(_) => panic!("a reported loop must start the listener"),
    };
    let (steps, worker) = listener.teardown();
    assert_eq!(
        steps,
        vec![LoopStep::Stop(0x7000), LoopStep::Release(0x7000), LoopStep::Join]
    );
    assert_eq!(worker, Some(5));
    assert_eq!(listener.run_loop(), None);
    assert!(!listener.has_worker());
}

#[test]
fn retain_and_release_balance_over_a_lifetime() {
    let (built, mut steps, _) = Listener::start(Ok(0x7000), 5u32);
    let mut listener = match built {
        Ok(listener) => listener,
        Err(_) => panic!("a reported loop must start the listener"),
    };
    let (more, _) = listener.teardown();
    steps.extend(more);
    let (again, _) = listener.teardown();
    steps.extend(again);
    assert_eq!(balance(&steps, 0x7000), (1, 1));
    let retain = steps.iter().position(|s| *s == LoopStep::Retain(0x7000));
    let release = steps.iter().position(|s| *s == LoopStep::Release(0x7000));
    assert!(retain < release);
}

#[test]
fn second_teardown_owes_nothing() {
    let (built, _, _) = Listener::start(Ok(0x10), 2u32);
    let mut listener = match built {
        Ok(listener) => listener,
        Err(_) => panic!("a reported loop must start the listener"),
    };
    let (first, worker) = listener.teardown();
    assert_eq!(first.len(), 3);
    assert_eq!(worker, Some(2));
    let (second, worker) = listener.teardown();
    assert!(second.is_empty());
    assert_eq!(worker, None);
}
