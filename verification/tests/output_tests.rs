use fsmonitor_bridge::errors::BridgeError;
use fsmonitor_bridge::output::ChangedSet;
use fsmonitor_bridge::output::render;

#[test]
fn v1_output_is_nul_terminated_paths() {
    let set = ChangedSet::V1 {
        paths: vec!["a.txt".to_string(), "b/c.txt".to_string()],
    };
    assert_eq!(render(&set), "a.txt\0b/c.txt\0");
}

#[test]
fn v2_output_leads_with_the_clock() {
    let set = ChangedSet::V2 {
        token: "c:123".to_string(),
        paths: vec!["a.txt".to_string(), "b/c.txt".to_string()],
    };
    assert_eq!(render(&set), "c:123\0a.txt\0b/c.txt\0");
}

#[test]
fn empty_sets_render_without_sentinel() {
    assert_eq!(render(&ChangedSet::V1 { paths: Vec::new() }), "");
    assert_eq!(
        render(&ChangedSet::V2 { token: "c:1".to_string(), paths: Vec::new() }),
        "c:1\0"
    );
}

#[test]
fn full_invalidation_sentinels() {
    assert_eq!(render(&ChangedSet::V1Everything), "\0");
    assert_eq!(
        render(&ChangedSet::V2Everything { token: "c:9".to_string() }),
        "c:9\0/\0"
    );
    // A degraded empty token still precedes the sentinel segment.
    assert_eq!(
        render(&ChangedSet::V2Everything { token: String::new() }),
        "\0/\0"
    );
}

#[test]
fn single_path_round() {
    let set = ChangedSet::V1 { paths: vec!["only".to_string()] };
    assert_eq!(render(&set), "only\0");
}

#[test]
fn error_diagnostics_carry_the_cause() {
    assert_eq!(
        BridgeError::InvalidArgument.describe(),
        "since token is not an unsigned nanosecond timestamp"
    );
    assert_eq!(
        BridgeError::ServiceUnavailable { message: "no socket".to_string() }.describe(),
        "cannot reach the file-watching service: no socket"
    );
    assert_eq!(
        BridgeError::UnexpectedServiceError { message: "permission denied".to_string() }
            .describe(),
        "the file-watching service failed for an unexpected reason: permission denied"
    );
    assert_eq!(
        BridgeError::MalformedResponse.describe(),
        "missing file data in the file-watching service's response"
    );
    assert_eq!(
        BridgeError::WatchFailed { message: "spawn failed".to_string() }.describe(),
        "establishing a watch failed: spawn failed"
    );
    assert_eq!(
        BridgeError::ClockFailed { message: "timed out".to_string() }.describe(),
        "requesting a fresh clock failed: timed out"
    );
}
