//! Fan-out completion tracking, extraction planning, and the
//! collaborator lifecycle machine.

use uniq::fanout::{dedup_ids, plan_extraction, FanOutTracker};
use uniq::manager::{
    poll_decision,
    shutdown_step,
    HealthPoll,
    LifecycleState,
    PollDecision,
    ShutdownStage,
    ShutdownStep,
    SidecarManager,
    HEALTH_POLL_INTERVAL_MS,
    STARTUP_TIMEOUT_SECS,
};
use uniq::research::{PaperMeta, PaperSource};

fn paper(id: &str, title: &str, pdf: Option<&str>, doi: Option<&str>) -> PaperMeta {
    PaperMeta {
        id: id.to_string(),
        title: title.to_string(),
        authors: vec!["A. Author".to_string()],
        year: Some(2023),
        published_day: None,
        abstract_text: "an abstract".to_string(),
        citation_count: Some(10),
        url: format!("https://papers.example/{}", id),
        pdf_url: pdf.map(|s| s.to_string()),
        doi: doi.map(|s| s.to_string()),
        source: PaperSource::ArXiv,
        fields: vec!["ML".to_string()],
        relevance_score: Some(9000),
    }
}

#[test]
fn tracker_fires_once_in_arrival_order() {
    let ids = vec!["p1".to_string(), "p2".to_string(), "p3".to_string()];
    let mut t = FanOutTracker::new(ids);
    assert!(!t.record(&"p1".to_string(), true));
    assert!(!t.record(&"p2".to_string(), false));
    assert!(t.record(&"p3".to_string(), true));
    assert!(t.is_completed());
    assert_eq!(t.successes(), 2);
    assert_eq!(t.failures(), 1);
}

#[test]
fn tracker_fires_once_in_reverse_order() {
    let ids = vec!["p1".to_string(), "p2".to_string(), "p3".to_string()];
    let mut t = FanOutTracker::new(ids);
    let mut fired = 0;
    for id in ["p3", "p2", "p1"] {
        if t.record(&id.to_string(), true) {
            fired += 1;
        }
    }
    assert_eq!(fired, 1);
    assert_eq!(t.progress(), (3, 3));
}

#[test]
fn tracker_never_fires_twice_on_duplicate_reports() {
    let ids = vec!["p1".to_string(), "p2".to_string()];
    let mut t = FanOutTracker::new(ids);
    assert!(!t.record(&"p1".to_string(), true));
    assert!(!t.record(&"p1".to_string(), true));
    assert!(t.record(&"p2".to_string(), true));
    assert!(!t.record(&"p2".to_string(), true));
    assert!(!t.record(&"p1".to_string(), false));
    assert_eq!(t.successes(), 2);
    assert_eq!(t.failures(), 0);
}

#[test]
fn tracker_ignores_unknown_units() {
    let ids = vec!["p1".to_string()];
    let mut t = FanOutTracker::new(ids);
    assert!(!t.record(&"stranger".to_string(), true));
    assert!(!t.is_completed());
    assert!(t.record(&"p1".to_string(), true));
}

#[test]
fn extraction_plan_splits_sourceless_papers() {
    // 3 papers; paper #2 has neither a PDF URL nor a DOI.
    let papers = vec![
        paper("p1", "first", Some("https://pdf.example/1"), None),
        paper("p2", "second", None, None),
        paper("p3", "third", None, Some("10.1000/3")),
    ];
    let plan = plan_extraction(
        &papers,
        &"a summary".to_string(),
        &"add retrieval".to_string(),
    );
    assert_eq!(plan.calls.len(), 2);
    assert_eq!(plan.calls[0].paper_id, "p1");
    assert_eq!(plan.calls[0].pdf_url, "https://pdf.example/1");
    assert_eq!(plan.calls[1].paper_id, "p3");
    assert_eq!(plan.calls[1].pdf_url, "10.1000/3");
    assert_eq!(plan.calls[0].project_summary, "a summary");
    assert_eq!(plan.calls[0].user_request, "add retrieval");
    assert_eq!(
        plan.precondition_failures,
        vec![("p2".to_string(), "No PDF URL or DOI available".to_string())]
    );
    assert_eq!(
        plan.unit_ids,
        vec!["p1".to_string(), "p2".to_string(), "p3".to_string()]
    );
}

#[test]
fn extraction_fanout_completes_once_with_two_successes_one_failure() {
    let papers = vec![
        paper("p1", "first", Some("https://pdf.example/1"), None),
        paper("p2", "second", None, None),
        paper("p3", "third", None, Some("10.1000/3")),
    ];
    let plan = plan_extraction(&papers, &"s".to_string(), &"r".to_string());
    // Paper #2 fails immediately, with zero remote calls made for it.
    assert!(plan.calls.iter().all(|c| c.paper_id != "p2"));
    // Whatever order the three terminal reports arrive in, job-complete
    // fires exactly once, with 2 successes and 1 failure counted.
    let orders: Vec<Vec<(&str, bool)>> = vec![
        vec![("p2", false), ("p1", true), ("p3", true)],
        vec![("p1", true), ("p3", true), ("p2", false)],
        vec![("p3", true), ("p2", false), ("p1", true)],
    ];
    for order in orders {
        let mut t = FanOutTracker::new(plan.unit_ids.clone());
        let mut fired = 0;
        for (id, ok) in order {
            if t.record(&id.to_string(), ok) {
                fired += 1;
            }
        }
        assert_eq!(fired, 1);
        assert!(t.is_completed());
        assert_eq!(t.successes(), 2);
        assert_eq!(t.failures(), 1);
    }
}

#[test]
fn dedup_keeps_first_occurrences() {
    let ids = vec![
        "a".to_string(),
        "b".to_string(),
        "a".to_string(),
        "c".to_string(),
        "b".to_string(),
    ];
    assert_eq!(
        dedup_ids(&ids),
        vec!["a".to_string(), "b".to_string(), "c".to_string()]
    );
}

#[test]
fn poll_decision_keeps_waiting_before_the_deadline() {
    assert_eq!(
        poll_decision(0, 60_000, HealthPoll::ConnectionRefused),
        PollDecision::KeepWaiting
    );
    assert_eq!(
        poll_decision(59_999, 60_000, HealthPoll::NotReady),
        PollDecision::KeepWaiting
    );
}

#[test]
fn poll_decision_is_ready_exactly_on_success_within_deadline() {
    assert_eq!(
        poll_decision(60_000, 60_000, HealthPoll::Success),
        PollDecision::Ready
    );
    assert_eq!(
        poll_decision(60_001, 60_000, HealthPoll::Success),
        PollDecision::FailTimeout
    );
}

#[test]
fn startup_succeeds_at_the_first_healthy_poll() {
    // A fake collaborator that starts answering healthy at poll step 7,
    // well before the deadline: the loop reaches Ready exactly there.
    let deadline_ms = STARTUP_TIMEOUT_SECS * 1000;
    let healthy_from = 7;
    let mut mgr = SidecarManager::new();
    mgr.begin_start(4321).unwrap();
    let mut step = 0u64;
    loop {
        let observed = if step >= healthy_from {
            HealthPoll::Success
        } else {
            HealthPoll::ConnectionRefused
        };
        let d = mgr.absorb_poll(step * HEALTH_POLL_INTERVAL_MS, deadline_ms, observed);
        match d {
            PollDecision::Ready => break,
            PollDecision::KeepWaiting => step += 1,
            PollDecision::FailTimeout => panic!("failed before the deadline"),
        }
    }
    assert_eq!(step, healthy_from);
    assert_eq!(mgr.state, LifecycleState::Healthy);
    assert!(mgr.is_running());
}

#[test]
fn startup_fails_at_exactly_the_deadline_when_never_healthy() {
    // A fake collaborator that never answers: the loop fails at the
    // first poll past the deadline — not earlier, at most one poll
    // interval later.
    let deadline_ms = STARTUP_TIMEOUT_SECS * 1000;
    let mut mgr = SidecarManager::new();
    mgr.begin_start(4321).unwrap();
    let mut now = 0u64;
    loop {
        match mgr.absorb_poll(now, deadline_ms, HealthPoll::ConnectionRefused) {
            PollDecision::FailTimeout => break,
            PollDecision::KeepWaiting => now += HEALTH_POLL_INTERVAL_MS,
            PollDecision::Ready => panic!("never healthy"),
        }
    }
    assert!(now > deadline_ms);
    assert!(now <= deadline_ms + HEALTH_POLL_INTERVAL_MS);
    assert_eq!(mgr.state, LifecycleState::Failed);
}

#[test]
fn start_fails_immediately_when_already_live() {
    let mut mgr = SidecarManager::new();
    assert!(mgr.begin_start(1000).is_ok());
    let second = mgr.begin_start(2000);
    assert!(second.is_err());
    assert_eq!(mgr.port(), 1000);
}

#[test]
fn base_url_carries_the_port() {
    let mut mgr = SidecarManager::new();
    mgr.begin_start(8080).unwrap();
    assert_eq!(mgr.base_url(), "http://127.0.0.1:8080");
}

/// Walk the whole shutdown sequence on a fake process, counting what
/// it was asked, for every combination of outcomes.
fn run_shutdown(graceful_ok: bool, still_alive: bool) -> (u32, u32, u32, u32) {
    let mut stage = ShutdownStage::SendGraceful;
    let (mut requests, mut delays, mut checks, mut kills) = (0, 0, 0, 0);
    loop {
        let (next, step) = shutdown_step(stage, graceful_ok, still_alive);
        match step {
            Some(ShutdownStep::GracefulRequest) => requests += 1,
            Some(ShutdownStep::GraceDelay) => delays += 1,
            Some(ShutdownStep::StatusCheck) => checks += 1,
            Some(ShutdownStep::ForceKill) => kills += 1,
            None => {}
        }
        if next == ShutdownStage::Done && step.is_none() {
            break;
        }
        if next == ShutdownStage::Done && stage == ShutdownStage::Done {
            break;
        }
        stage = next;
    }
    (requests, delays, checks, kills)
}

#[test]
fn shutdown_always_walks_request_delay_and_check() {
    // Even when the graceful request itself errors, the grace delay and
    // the status/kill check still happen.
    for graceful_ok in [true, false] {
        for still_alive in [true, false] {
            let (requests, delays, checks, kills) = run_shutdown(graceful_ok, still_alive);
            assert_eq!(requests, 1);
            assert_eq!(delays, 1);
            assert_eq!(checks, 1);
            assert_eq!(kills, if still_alive { 1 } else { 0 });
        }
    }
}

#[test]
fn lifecycle_walks_to_stopped() {
    let mut mgr = SidecarManager::new();
    assert!(!mgr.is_running());
    mgr.begin_start(5000).unwrap();
    let _ = mgr.absorb_poll(0, 1000, HealthPoll::Success);
    assert_eq!(mgr.state, LifecycleState::Healthy);
    mgr.begin_shutdown();
    assert_eq!(mgr.state, LifecycleState::ShuttingDown);
    mgr.finish_shutdown();
    assert_eq!(mgr.state, LifecycleState::Stopped);
    assert!(!mgr.is_running());
}
