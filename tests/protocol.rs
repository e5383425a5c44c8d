use desim_benchmark::protocol::{step, Action, Passivated, Phase, Role};

#[test]
fn producer_produces_below_threshold() {
    let o = step(Role::Producer, Phase::Looping, 14, Passivated::False, 1);
    assert_eq!(o.count, 15);
    assert_eq!(o.action, Action::TimeOut(1));
    assert_eq!(o.own, Passivated::False);
    assert_eq!(o.phase, Phase::Looping);
}

#[test]
fn producer_waits_at_threshold() {
    let o = step(Role::Producer, Phase::Looping, 15, Passivated::False, 1);
    assert_eq!(o.count, 15);
    assert_eq!(o.own, Passivated::True);
    assert_eq!(o.action, Action::Wait);
}

#[test]
fn consumer_consumes_a_batch() {
    let o = step(Role::Consumer, Phase::Looping, 8, Passivated::False, 0);
    assert_eq!(o.count, 0);
    assert_eq!(o.action, Action::TimeOut(8));
    let o = step(Role::Consumer, Phase::Woken, 13, Passivated::Warned, 0);
    assert_eq!(o.count, 5);
    assert_eq!(o.peer, Passivated::Warned);
}

#[test]
fn consumer_waits_below_batch() {
    let o = step(Role::Consumer, Phase::Start, 7, Passivated::False, 0);
    assert_eq!(o.count, 7);
    assert_eq!(o.own, Passivated::True);
    assert_eq!(o.action, Action::Wait);
}

#[test]
fn handshake_warns_a_passivated_peer() {
    let o = step(Role::Producer, Phase::Looping, 3, Passivated::True, 1);
    assert_eq!(o.peer, Passivated::Warned);
    assert_eq!(o.own, Passivated::True);
    assert_eq!(o.action, Action::Activate(1));
    assert_eq!(o.phase, Phase::Woken);
    assert_eq!(o.count, 3);
}

#[test]
fn mutual_passivation_wakes_peer() {
    let o = step(Role::Consumer, Phase::Woken, 2, Passivated::True, 0);
    assert_eq!(o.own, Passivated::True);
    assert_eq!(o.action, Action::Activate(0));
    let o = step(Role::Producer, Phase::Woken, 15, Passivated::True, 1);
    assert_eq!(o.own, Passivated::True);
    assert_eq!(o.action, Action::Activate(1));
}

#[test]
fn warned_peer_gets_no_second_wake() {
    for role in [Role::Producer, Role::Consumer] {
        for phase in [Phase::Start, Phase::Looping, Phase::Woken] {
            for count in 0..16u64 {
                let o = step(role, phase, count, Passivated::Warned, 9);
                assert!(!matches!(o.action, Action::Activate(_)));
                assert_eq!(o.peer, Passivated::Warned);
            }
        }
    }
}

#[test]
fn count_stays_within_threshold() {
    for role in [Role::Producer, Role::Consumer] {
        for phase in [Phase::Start, Phase::Looping, Phase::Woken] {
            for peer in [Passivated::True, Passivated::False, Passivated::Warned] {
                for count in 0..16u64 {
                    let o = step(role, phase, count, peer, 0);
                    assert!(o.count <= 15);
                    if o.own == Passivated::True && peer == Passivated::True {
                        assert_eq!(o.action, Action::Activate(0));
                    }
                }
            }
        }
    }
}
