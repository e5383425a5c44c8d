use desim_benchmark::protocol::{Action, Passivated, Role};
use desim_benchmark::scenario::Scenario;

/// Runs the scenario under a small event queue ordered by time, first in
/// first out among events of the same time, until the time reaches `end`.
/// Returns the scenario and the count after each resumption.
fn run(end: u64) -> (Scenario, Vec<u64>) {
    let mut scenario = Scenario::new();
    scenario.register(0, 1);
    let mut queue: Vec<(u64, usize)> = vec![(0, 0), (0, 1)];
    let mut time: u64 = 0;
    let mut seen = Vec::new();
    while time < end && !queue.is_empty() {
        let mut best = 0;
        for i in 1..queue.len() {
            if queue[i].0 < queue[best].0 {
                best = i;
            }
        }
        let (t, process) = queue.remove(best);
        time = t;
        let role = if process == 0 { Role::Producer } else { Role::Consumer };
        match scenario.resume(role) {
            Action::TimeOut(d) => queue.push((time + d, process)),
            Action::Activate(other) => queue.push((time, other)),
            Action::Wait => {}
        }
        seen.push(scenario.count());
    }
    (scenario, seen)
}

#[test]
fn initial_state() {
    let scenario = Scenario::new();
    assert_eq!(scenario.count(), 0);
    assert_eq!(scenario.flags(), (Passivated::False, Passivated::False));
}

#[test]
fn first_resumptions() {
    let mut scenario = Scenario::new();
    scenario.register(0, 1);
    assert_eq!(scenario.resume(Role::Producer), Action::TimeOut(1));
    assert_eq!(scenario.count(), 1);
    assert_eq!(scenario.resume(Role::Consumer), Action::Wait);
    assert_eq!(scenario.flags(), (Passivated::False, Passivated::True));
    assert_eq!(scenario.resume(Role::Producer), Action::Activate(1));
    assert_eq!(scenario.flags(), (Passivated::True, Passivated::Warned));
}

#[test]
fn produces_and_consumes_within_23_units() {
    let (_, seen) = run(23);
    let mut produced = false;
    let mut consumed = false;
    let mut last = 0u64;
    for &c in &seen {
        if c > last {
            produced = true;
        }
        if c < last {
            consumed = true;
        }
        last = c;
    }
    assert!(produced);
    assert!(consumed);
}

#[test]
fn two_runs_agree() {
    let (a, seen_a) = run(1002);
    let (b, seen_b) = run(1002);
    assert_eq!(a.count(), b.count());
    assert_eq!(a.flags(), b.flags());
    assert_eq!(seen_a, seen_b);
}

#[test]
fn run_to_1002_stays_in_bounds() {
    let (scenario, seen) = run(1002);
    assert!(!seen.is_empty());
    for &c in &seen {
        assert!(c <= 15);
    }
    println!("final count {}", scenario.count());
    assert!(scenario.count() <= 15);
}
