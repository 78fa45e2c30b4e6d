use fsmonitor_bridge::HookVersion;
use fsmonitor_bridge::classify::ClockOutcome;
use fsmonitor_bridge::classify::QueryClassification;
use fsmonitor_bridge::classify::QueryOutcome;
use fsmonitor_bridge::classify::RecoveryStep;
use fsmonitor_bridge::classify::WatchOutcome;
use fsmonitor_bridge::classify::after_clock;
use fsmonitor_bridge::classify::after_watch;
use fsmonitor_bridge::classify::classify_query;
use fsmonitor_bridge::classify::message_means_unwatched;
use fsmonitor_bridge::errors::BridgeError;
use fsmonitor_bridge::output::ChangedSet;
use fsmonitor_bridge::output::render;

fn reply(files: Option<Vec<&str>>, clock: Option<&str>) -> QueryOutcome {
    QueryOutcome::Reply {
        files: files.map(|fs| fs.into_iter().map(|f| f.to_string()).collect()),
        clock: clock.map(|c| c.to_string()),
    }
}

#[test]
fn unwatched_root_recovers_v1() {
    let r = classify_query(
        HookVersion::V1,
        QueryOutcome::ServiceError {
            message: "root is not watched".to_string(),
        },
    );
    assert_eq!(r, QueryClassification::EstablishWatch);
    let step = after_watch(HookVersion::V1, WatchOutcome::Established);
    let set = match step {
        RecoveryStep::Output { set } => set,
        other => panic!("expected output, got {:?}", other),
    };
    assert_eq!(set, ChangedSet::V1Everything);
    assert_eq!(render(&set), "\0");
}

#[test]
fn unwatched_root_recovers_v2_with_fresh_clock() {
    let r = classify_query(
        HookVersion::V2,
        QueryOutcome::ServiceError {
            message: "unable to resolve root /home/user/repo".to_string(),
        },
    );
    assert_eq!(r, QueryClassification::EstablishWatch);
    let step = after_watch(HookVersion::V2, WatchOutcome::Established);
    assert_eq!(step, RecoveryStep::RequestClock);
    let step = after_clock(ClockOutcome::Clock {
        token: Some("c:99".to_string()),
    });
    let set = match step {
        RecoveryStep::Output { set } => set,
        other => panic!("expected output, got {:?}", other),
    };
    assert_eq!(set, ChangedSet::V2Everything { token: "c:99".to_string() });
    assert_eq!(render(&set), "c:99\0/\0");
}

#[test]
fn unrelated_error_is_fatal_verbatim() {
    for version in [HookVersion::V1, HookVersion::V2] {
        let r = classify_query(
            version,
            QueryOutcome::ServiceError {
                message: "permission denied".to_string(),
            },
        );
        assert_eq!(
            r,
            QueryClassification::Fail {
                error: BridgeError::UnexpectedServiceError {
                    message: "permission denied".to_string(),
                },
            }
        );
    }
}

#[test]
fn missing_files_is_malformed_for_both_versions() {
    for version in [HookVersion::V1, HookVersion::V2] {
        let r = classify_query(version, reply(None, Some("c:123")));
        assert_eq!(
            r,
            QueryClassification::Fail {
                error: BridgeError::MalformedResponse,
            }
        );
    }
}

#[test]
fn transport_failure_is_service_unavailable() {
    let r = classify_query(
        HookVersion::V1,
        QueryOutcome::TransportFailure {
            message: "connection refused".to_string(),
        },
    );
    assert_eq!(
        r,
        QueryClassification::Fail {
            error: BridgeError::ServiceUnavailable {
                message: "connection refused".to_string(),
            },
        }
    );
}

#[test]
fn successful_reply_classifies_v1() {
    let r = classify_query(HookVersion::V1, reply(Some(vec!["a.txt", "b/c.txt"]), None));
    assert_eq!(
        r,
        QueryClassification::Output {
            set: ChangedSet::V1 {
                paths: vec!["a.txt".to_string(), "b/c.txt".to_string()],
            },
        }
    );
}

#[test]
fn successful_reply_classifies_v2() {
    let r = classify_query(
        HookVersion::V2,
        reply(Some(vec!["a.txt", "b/c.txt"]), Some("c:123")),
    );
    assert_eq!(
        r,
        QueryClassification::Output {
            set: ChangedSet::V2 {
                token: "c:123".to_string(),
                paths: vec!["a.txt".to_string(), "b/c.txt".to_string()],
            },
        }
    );
}

#[test]
fn v2_missing_clock_degrades_to_empty_token() {
    let r = classify_query(HookVersion::V2, reply(Some(vec!["a.txt"]), None));
    assert_eq!(
        r,
        QueryClassification::Output {
            set: ChangedSet::V2 {
                token: String::new(),
                paths: vec!["a.txt".to_string()],
            },
        }
    );
}

#[test]
fn reply_to_returned_clock_does_not_re_recover() {
    // First invocation recovered and handed back a fresh clock.
    let step = after_clock(ClockOutcome::Clock {
        token: Some("c:123".to_string()),
    });
    let token = match step {
        RecoveryStep::Output { set: ChangedSet::V2Everything { token } } => token,
        other => panic!("expected full invalidation, got {:?}", other),
    };
    // The second invocation queries with that clock, passed through verbatim.
    let plan = fsmonitor_bridge::token::build_query(HookVersion::V2, &token).unwrap();
    assert_eq!(
        plan.since,
        fsmonitor_bridge::token::SinceCriterion::Clock { clock: token.clone() }
    );
    // The watch persists, so the service answers; whatever the answer holds,
    // the bridge never re-enters the recovery path on a reply.
    let r = classify_query(
        HookVersion::V2,
        QueryOutcome::Reply {
            files: Some(Vec::new()),
            clock: Some(format!("{}4", token)),
        },
    );
    assert!(!matches!(r, QueryClassification::EstablishWatch));
    assert!(matches!(r, QueryClassification::Output { .. }));
}

#[test]
fn failed_watch_is_fatal() {
    let step = after_watch(HookVersion::V2, WatchOutcome::Failed { message: "spawn failed".to_string() });
    assert_eq!(
        step,
        RecoveryStep::Fail {
            error: BridgeError::WatchFailed { message: "spawn failed".to_string() },
        }
    );
}

#[test]
fn failed_clock_is_fatal() {
    let step = after_clock(ClockOutcome::Failed { message: "timed out".to_string() });
    assert_eq!(
        step,
        RecoveryStep::Fail {
            error: BridgeError::ClockFailed { message: "timed out".to_string() },
        }
    );
}

#[test]
fn clock_without_string_form_degrades_to_empty_token() {
    let step = after_clock(ClockOutcome::Clock { token: None });
    assert_eq!(
        step,
        RecoveryStep::Output {
            set: ChangedSet::V2Everything { token: String::new() },
        }
    );
}

#[test]
fn unwatched_phrases_are_matched_anywhere_in_the_message() {
    assert!(message_means_unwatched("unable to resolve root /repo"));
    assert!(message_means_unwatched("the path /repo is not watched by the server"));
    assert!(message_means_unwatched("is not watched"));
    assert!(!message_means_unwatched("permission denied"));
    assert!(!message_means_unwatched("is not watche"));
    assert!(!message_means_unwatched(""));
    assert!(!message_means_unwatched("unable to resolve roo"));
}
