use natlink::connection::{ConnectionManager, ConnectionStatus};
use natlink::orchestrator::{
    best_candidate, finish, scheme_name, start_connection, Attempt, CandidateReply,
    ConnectionOutcome, Scheme, StrategyResult,
};

fn fresh_attempt() -> Attempt {
    let mut mgr = ConnectionManager::new();
    start_connection(&mut mgr).expect("fresh session must accept an attempt")
}

#[test]
fn strategies_run_in_priority_order() {
    let mut attempt = fresh_attempt();
    assert_eq!(attempt.current, Scheme::HolePunch);

    attempt.begin_strategy();
    let after_first = attempt.resolve_strategy(StrategyResult::TimedOut);
    assert!(after_first.is_none());
    assert_eq!(attempt.current, Scheme::DynamicIp);
    assert_eq!(attempt.attempted, vec![Scheme::HolePunch]);

    attempt.begin_strategy();
    let after_second = attempt.resolve_strategy(StrategyResult::Failed {
        error: "handshake refused".to_string(),
    });
    assert!(after_second.is_none());
    assert_eq!(attempt.current, Scheme::Relay);
    assert_eq!(attempt.attempted, vec![Scheme::HolePunch, Scheme::DynamicIp]);
}

#[test]
fn first_success_wins_and_keeps_its_configuration() {
    let mut attempt = fresh_attempt();
    attempt.begin_strategy();
    let outcome = attempt
        .resolve_strategy(StrategyResult::Succeeded {
            endpoint: "198.51.100.7:51820".to_string(),
        })
        .expect("success must end the attempt");
    match outcome {
        ConnectionOutcome::Connected { scheme, negotiated_endpoint, high_latency } => {
            assert_eq!(scheme, Scheme::HolePunch);
            assert_eq!(negotiated_endpoint, "198.51.100.7:51820");
            assert!(!high_latency);
        }
        ConnectionOutcome::Failed { .. } => panic!("expected a connected outcome"),
    }
    // Only the winner's configuration is applied; nothing from an earlier
    // strategy lingers.
    assert_eq!(attempt.applied, Some(Scheme::HolePunch));
    assert!(attempt.attempted.is_empty());
}

#[test]
fn failed_strategy_reverts_its_configuration_before_the_next() {
    let mut attempt = fresh_attempt();
    attempt.begin_strategy();
    assert_eq!(attempt.applied, Some(Scheme::HolePunch));
    attempt.resolve_strategy(StrategyResult::TimedOut);
    assert_eq!(attempt.applied, None);
}

#[test]
fn exhausting_all_strategies_names_them_and_the_last_cause() {
    let mut attempt = fresh_attempt();
    attempt.begin_strategy();
    assert!(attempt.resolve_strategy(StrategyResult::TimedOut).is_none());
    attempt.begin_strategy();
    assert!(attempt
        .resolve_strategy(StrategyResult::Failed { error: "no reported endpoint".to_string() })
        .is_none());
    attempt.begin_strategy();
    let outcome = attempt
        .resolve_strategy(StrategyResult::Failed { error: "relay unreachable".to_string() })
        .expect("a failed relay ends the attempt");
    match outcome {
        ConnectionOutcome::Failed { attempted, last_error } => {
            assert_eq!(attempted, vec![Scheme::HolePunch, Scheme::DynamicIp, Scheme::Relay]);
            assert_eq!(last_error, "relay unreachable");
        }
        ConnectionOutcome::Connected { .. } => panic!("expected a failed outcome"),
    }
    assert_eq!(attempt.applied, None);
}

#[test]
fn relay_success_is_flagged_high_latency() {
    let mut attempt = fresh_attempt();
    attempt.begin_strategy();
    attempt.resolve_strategy(StrategyResult::TimedOut);
    attempt.begin_strategy();
    attempt.resolve_strategy(StrategyResult::TimedOut);
    attempt.begin_strategy();
    let outcome = attempt
        .resolve_strategy(StrategyResult::Succeeded { endpoint: "relay-9".to_string() })
        .expect("relay success must end the attempt");
    match outcome {
        ConnectionOutcome::Connected { scheme, high_latency, .. } => {
            assert_eq!(scheme, Scheme::Relay);
            assert!(high_latency);
        }
        ConnectionOutcome::Failed { .. } => panic!("expected a connected outcome"),
    }
}

#[test]
fn finish_publishes_the_outcome_to_the_status_cell() {
    let mut mgr = ConnectionManager::new();
    let _ = start_connection(&mut mgr).unwrap();
    finish(
        &mut mgr,
        &ConnectionOutcome::Connected {
            scheme: Scheme::DynamicIp,
            negotiated_endpoint: "203.0.113.4:51820".to_string(),
            high_latency: false,
        },
    );
    assert_eq!(mgr.status, ConnectionStatus::Connected("DynamicIP".to_string()));

    let mut mgr = ConnectionManager::new();
    let _ = start_connection(&mut mgr).unwrap();
    finish(
        &mut mgr,
        &ConnectionOutcome::Failed {
            attempted: vec![Scheme::HolePunch, Scheme::DynamicIp, Scheme::Relay],
            last_error: "relay unreachable".to_string(),
        },
    );
    assert_eq!(mgr.status, ConnectionStatus::Failed("relay unreachable".to_string()));
}

#[test]
fn scheme_names_are_stable() {
    assert_eq!(scheme_name(Scheme::HolePunch), "HolePunch");
    assert_eq!(scheme_name(Scheme::DynamicIp), "DynamicIP");
    assert_eq!(scheme_name(Scheme::Relay), "Relay");
}

#[test]
fn best_candidate_prefers_lowest_latency_not_first_reply() {
    let replies = vec![
        CandidateReply { candidate: 0, rtt_ms: 80 },
        CandidateReply { candidate: 2, rtt_ms: 12 },
        CandidateReply { candidate: 1, rtt_ms: 45 },
    ];
    assert_eq!(best_candidate(&replies), Some(1));
    assert_eq!(replies[1].candidate, 2);
}

#[test]
fn best_candidate_breaks_ties_toward_the_earlier_reply() {
    let replies = vec![
        CandidateReply { candidate: 3, rtt_ms: 20 },
        CandidateReply { candidate: 1, rtt_ms: 20 },
    ];
    assert_eq!(best_candidate(&replies), Some(0));
}

#[test]
fn best_candidate_of_no_replies_is_none() {
    assert_eq!(best_candidate(&Vec::new()), None);
}
