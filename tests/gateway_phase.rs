use imagi::error::PipelineError;
use imagi::gateway::{
    create_feedback_json, feedback_file_name, find_member_text, health_url, parse_verdict,
    verdict_from_members, Backend, GatewayAction, PhaseStep, SubmissionPhase, HEALTH_ATTEMPTS,
};

#[test]
fn backend_that_never_becomes_ready_posts_nothing() {
    let mut phase = SubmissionPhase::new(3);
    let mut action = GatewayAction::Probe;
    let mut probes = 0;
    while action == GatewayAction::Probe || action == GatewayAction::WaitThenProbe {
        probes += 1;
        action = phase.on_probe(false);
    }
    assert_eq!(probes, 30);
    assert_eq!(HEALTH_ATTEMPTS, 30);
    assert_eq!(action, GatewayAction::StopBackend);
    assert_eq!(phase.next, 0);
    assert!(phase.accepted.is_empty());
    assert!(phase.rejected.is_empty());
    assert_eq!(phase.on_stopped(), GatewayAction::Finish);
    assert_eq!(phase.outcome(), Err(PipelineError::ServiceUnavailable));
}

#[test]
fn rejected_record_is_reported_and_the_next_one_is_posted() {
    let mut phase = SubmissionPhase::new(2);
    assert_eq!(phase.on_probe(false), GatewayAction::WaitThenProbe);
    assert_eq!(phase.on_probe(true), GatewayAction::Post(0));
    assert_eq!(phase.on_response(Some(500)), GatewayAction::Post(1));
    assert_eq!(phase.rejected, vec![(0, Some(500))]);
    assert_eq!(phase.on_response(Some(200)), GatewayAction::StopBackend);
    assert_eq!(phase.accepted, vec![1]);
    assert_eq!(phase.step, PhaseStep::Stopping);
    assert_eq!(phase.on_stopped(), GatewayAction::Finish);
    assert_eq!(phase.outcome(), Ok(2));
}

#[test]
fn single_rejected_record_still_stops_the_backend() {
    let mut phase = SubmissionPhase::new(1);
    assert_eq!(phase.on_probe(true), GatewayAction::Post(0));
    assert_eq!(phase.on_response(Some(500)), GatewayAction::StopBackend);
    assert_eq!(phase.rejected, vec![(0, Some(500))]);
    assert!(phase.accepted.is_empty());
    assert_eq!(phase.on_stopped(), GatewayAction::Finish);
    assert_eq!(phase.step, PhaseStep::Finished);
}

#[test]
fn no_answer_counts_as_rejected() {
    let mut phase = SubmissionPhase::new(1);
    phase.on_probe(true);
    assert_eq!(phase.on_response(None), GatewayAction::StopBackend);
    assert_eq!(phase.rejected, vec![(0, None)]);
}

#[test]
fn empty_batch_stops_at_once_when_ready() {
    let mut phase = SubmissionPhase::new(0);
    assert_eq!(phase.on_probe(true), GatewayAction::StopBackend);
    assert_eq!(phase.on_stopped(), GatewayAction::Finish);
    assert_eq!(phase.outcome(), Ok(0));
}

#[test]
fn success_statuses_are_the_2xx_range() {
    let mut phase = SubmissionPhase::new(3);
    phase.on_probe(true);
    phase.on_response(Some(299));
    phase.on_response(Some(300));
    phase.on_response(Some(199));
    assert_eq!(phase.accepted, vec![0]);
    assert_eq!(phase.rejected, vec![(1, Some(300)), (2, Some(199))]);
}

#[test]
fn backend_by_model_name() {
    assert_eq!(Backend::from_model("gemini"), Backend::Gemini);
    assert_eq!(Backend::from_model("openai"), Backend::Gpt);
    assert_eq!(Backend::from_model("other"), Backend::Gpt);
    assert_eq!(Backend::Gemini.grade_url(), "http://127.0.0.1:8000/imagi_gemini");
    assert_eq!(Backend::Gpt.grade_url(), "http://127.0.0.1:8000/imagi_gpt");
    assert_eq!(Backend::Gpt.server_module(), "AI_api.gptAPI:app");
    assert_eq!(Backend::Gemini.server_module(), "AI_api.geminiAPI:app");
    assert_eq!(health_url(), "http://127.0.0.1:8000/docs");
}

#[test]
fn verdict_fields_are_read_and_missing_ones_are_empty() {
    let v = parse_verdict("{\"student_id\":\"alice\",\"task\":\"task-5\",\"status\":\"PASS\",\"feedback\":\"Good\\nwork\"}")
        .unwrap();
    assert_eq!(v.student_id, "alice");
    assert_eq!(v.task, "task-5");
    assert_eq!(v.status, "PASS");
    assert_eq!(v.feedback, "Good\nwork");
    let partial = parse_verdict("{\"student_id\":\"bob\",\"status\":3}").unwrap();
    assert_eq!(partial.student_id, "bob");
    assert_eq!(partial.status, "");
    assert_eq!(partial.task, "");
    assert_eq!(partial.feedback, "");
}

#[test]
fn verdict_that_is_not_a_json_object_is_a_submission_error() {
    assert_eq!(parse_verdict("Internal Server Error").err(), Some(PipelineError::Submission(None)));
    assert_eq!(parse_verdict("[1, 2]").err(), Some(PipelineError::Submission(None)));
}

#[test]
fn verdict_from_members_reads_string_fields() {
    let members = vec![
        ("feedback".to_string(), Some("ok".to_string())),
        ("status".to_string(), None),
        ("student_id".to_string(), Some("carol".to_string())),
    ];
    let v = verdict_from_members(&members);
    assert_eq!(v.student_id, "carol");
    assert_eq!(v.feedback, "ok");
    assert_eq!(v.status, "");
    assert_eq!(v.task, "");
    assert_eq!(find_member_text(&members, "student_id"), Some("carol".to_string()));
    assert_eq!(find_member_text(&members, "status"), None);
    assert_eq!(find_member_text(&members, "grade"), None);
}

#[test]
fn stored_verdict_json_and_file_name() {
    assert_eq!(
        create_feedback_json("alice".to_string(), "FAIL".to_string(), "Fix \"x\"".to_string()),
        "{\"student_id\":\"alice\",\"status\":\"FAIL\",\"feedback\":\"Fix \\\"x\\\"\"}"
    );
    assert_eq!(feedback_file_name("alice"), "alice_feedback.json");
}
