use repo_fetch::outcome::FetchOutcome;
use repo_fetch::report::{render, u64_to_decimal};

#[test]
fn decimal_zero() {
    assert_eq!(u64_to_decimal(0), "0".to_string());
}

#[test]
fn decimal_single_digit() {
    assert_eq!(u64_to_decimal(7), "7".to_string());
}

#[test]
fn decimal_two_digits() {
    assert_eq!(u64_to_decimal(10), "10".to_string());
}

#[test]
fn decimal_many_digits() {
    assert_eq!(u64_to_decimal(120345), "120345".to_string());
}

#[test]
fn decimal_max() {
    assert_eq!(u64_to_decimal(u64::MAX), "18446744073709551615".to_string());
}

#[test]
fn render_success() {
    let o = FetchOutcome::Success { name: "alpha".to_string(), ref_count: 42 };
    assert_eq!(render(&o), "alpha: fetch completed, 42 remote refs".to_string());
}

#[test]
fn render_success_zero_refs() {
    let o = FetchOutcome::Success { name: "alpha".to_string(), ref_count: 0 };
    assert_eq!(render(&o), "alpha: fetch completed, 0 remote refs".to_string());
}

#[test]
fn render_not_a_repository() {
    let o = FetchOutcome::NotARepository {
        name: "beta".to_string(),
        detail: "could not find a git directory".to_string(),
    };
    assert_eq!(
        render(&o),
        "beta: error: not a git repository: could not find a git directory".to_string()
    );
}

#[test]
fn render_no_remote_configured() {
    let o = FetchOutcome::NoRemoteConfigured { name: "gamma".to_string() };
    assert_eq!(render(&o), "gamma: error: no remote configured".to_string());
}

#[test]
fn render_remote_resolution_failed() {
    let o = FetchOutcome::RemoteResolutionFailed {
        name: "delta".to_string(),
        detail: "malformed url".to_string(),
    };
    assert_eq!(
        render(&o),
        "delta: error: remote resolution failed: malformed url".to_string()
    );
}

#[test]
fn render_fetch_failed() {
    let o = FetchOutcome::FetchFailed {
        name: "epsilon".to_string(),
        detail: "connection reset".to_string(),
    };
    assert_eq!(render(&o), "epsilon: fetch failed: connection reset".to_string());
}

#[test]
fn render_cancelled() {
    let o = FetchOutcome::Cancelled { name: "zeta".to_string() };
    assert_eq!(render(&o), "zeta: cancelled".to_string());
}

#[test]
fn render_empty_detail_still_yields_line() {
    let o = FetchOutcome::FetchFailed { name: "eta".to_string(), detail: String::new() };
    assert_eq!(render(&o), "eta: fetch failed: ".to_string());
}

#[test]
fn render_empty_name_still_yields_line() {
    let o = FetchOutcome::NoRemoteConfigured { name: String::new() };
    assert_eq!(render(&o), ": error: no remote configured".to_string());
}
