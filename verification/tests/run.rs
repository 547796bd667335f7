use axum_health::response::check_response;
use axum_health::{Action, Answer, Check, CheckError, Health, HealthPayload, Kind, Run, Status};
use serde_json::Value;

fn three_checks() -> Run<u8> {
    Health::builder()
        .liveness("first", 10u8)
        .readiness("second", 20)
        .startup("third", 30)
        .build()
        .run(None)
}

/// Starts every check, in the order of registration.
fn launch(run: &mut Run<u8>) {
    let mut action = run.begin_round();
    for place in 0..run.len() {
        assert_eq!(action, Action::Start(place));
        action = run.check_started();
    }
}

fn json(text: &str) -> Value {
    serde_json::from_str(text).expect("the text should be JSON")
}

#[test]
fn a_run_hands_out_the_procedures_in_order() {
    let run = three_checks();
    assert_eq!(run.len(), 3);
    assert_eq!(**run.check(0), 10);
    assert_eq!(**run.check(1), 20);
    assert_eq!(**run.check(2), 30);
}

#[test]
fn every_check_is_started_once_before_any_is_polled() {
    let mut run = three_checks();
    assert_eq!(run.begin_round(), Action::Start(0));
    assert_eq!(run.check_started(), Action::Start(1));
    assert_eq!(run.begin_round(), Action::Start(1));
    assert_eq!(run.check_started(), Action::Start(2));
    assert_eq!(run.check_started(), Action::Poll(0));
    assert_eq!(run.begin_round(), Action::Poll(0));
    assert_eq!(run.answer(Answer::Ready(Ok(Check::up()))), Action::Poll(1));
}

#[test]
fn a_run_covers_the_wanted_kind_only() {
    let health = Health::builder()
        .liveness("a", 1u8)
        .readiness("b", 2)
        .liveness("c", 3)
        .build();
    let run = health.run(Some(Kind::Liveness));
    assert_eq!(run.len(), 2);
    assert_eq!(**run.check(0), 1);
    assert_eq!(**run.check(1), 3);
}

#[test]
fn responses_follow_registration_whatever_finishes_first() {
    let mut run = three_checks();
    launch(&mut run);
    assert_eq!(run.begin_round(), Action::Poll(0));
    assert_eq!(run.answer(Answer::Pending), Action::Poll(1));
    assert_eq!(run.answer(Answer::Pending), Action::Poll(2));
    assert_eq!(run.answer(Answer::Ready(Ok(Check::up()))), Action::Wait);
    assert_eq!(run.begin_round(), Action::Poll(0));
    assert_eq!(run.answer(Answer::Pending), Action::Poll(1));
    assert_eq!(
        run.answer(Answer::Ready(Err(CheckError::new("unreachable")))),
        Action::Wait
    );
    assert_eq!(run.begin_round(), Action::Poll(0));
    assert_eq!(run.answer(Answer::Ready(Ok(Check::up()))), Action::Done);
    assert_eq!(
        run.finish().into_json(),
        json(
            r#"{
                "status": "DOWN",
                "checks": [
                    {"name": "first", "status": "UP"},
                    {"name": "second", "status": "DOWN", "data": {"error": "unreachable"}},
                    {"name": "third", "status": "UP"}
                ]
            }"#
        )
    );
}

#[test]
fn a_finished_check_is_not_polled_again() {
    let mut run = three_checks();
    launch(&mut run);
    assert_eq!(run.begin_round(), Action::Poll(0));
    assert_eq!(run.answer(Answer::Ready(Ok(Check::up()))), Action::Poll(1));
    assert_eq!(run.answer(Answer::Pending), Action::Poll(2));
    assert_eq!(run.answer(Answer::Ready(Ok(Check::up()))), Action::Wait);
    assert_eq!(run.begin_round(), Action::Poll(1));
    assert_eq!(run.answer(Answer::Ready(Ok(Check::up()))), Action::Done);
    assert_eq!(run.begin_round(), Action::Done);
}

#[test]
fn a_run_without_checks_is_done() {
    let mut run = Health::<u8>::builder().build().run(None);
    launch(&mut run);
    assert_eq!(run.begin_round(), Action::Done);
    let payload = run.finish();
    assert_eq!(payload.status, Status::Up);
    assert_eq!(payload.checks.len(), 0);
}

#[test]
fn an_unfinished_check_counts_as_failed() {
    let mut run = Health::builder().startup("slow", 1u8).build().run(None);
    launch(&mut run);
    assert_eq!(run.begin_round(), Action::Poll(0));
    assert_eq!(run.answer(Answer::Pending), Action::Wait);
    assert_eq!(
        run.finish().into_json(),
        json(
            r#"{
                "status": "DOWN",
                "checks": [
                    {
                        "name": "slow",
                        "status": "DOWN",
                        "data": {"error": "health check did not complete"}
                    }
                ]
            }"#
        )
    );
}

#[test]
fn a_response_takes_over_status_and_data() {
    let check = Check::down().with_data("reason", serde_json::to_value("connection unavailable"));
    let response = check_response("database", Ok(check));
    assert_eq!(response.name, "database");
    assert_eq!(response.status, Status::Down);
    assert_eq!(
        response.into_json(),
        json(
            r#"{
                "name": "database",
                "status": "DOWN",
                "data": {"reason": "connection unavailable"}
            }"#
        )
    );
}

#[test]
fn one_check_that_is_down_makes_the_aggregate_down() {
    let up = || check_response("up", Ok(Check::up()));
    let down = || check_response("down", Ok(Check::down()));
    assert_eq!(HealthPayload::new(vec![up(), up()]).status, Status::Up);
    assert_eq!(HealthPayload::new(vec![down(), up()]).status, Status::Down);
    assert_eq!(HealthPayload::new(vec![up(), down(), up()]).status, Status::Down);
    assert_eq!(HealthPayload::new(vec![up(), down()]).status, Status::Down);
}

#[test]
fn statuses_have_their_codes_and_texts() {
    assert_eq!(Status::Up.http_status(), 200);
    assert_eq!(Status::Down.http_status(), 503);
    assert_eq!(Status::Up.as_str(), "UP");
    assert_eq!(Status::Down.as_str(), "DOWN");
}

#[test]
fn an_error_takes_over_the_text_of_another() {
    let error = "x".parse::<u8>().expect_err("x is no number");
    assert_eq!(CheckError::from_error(&error).message(), error.to_string());
    let boxed: Box<dyn std::error::Error + Send + Sync> = "connection refused".into();
    assert_eq!(CheckError::from_error(&boxed).message(), "connection refused");
}

#[test]
fn responses_that_differ_differ_on_the_wire() {
    let up = || check_response("a", Ok(Check::up()));
    let renamed = check_response("b", Ok(Check::up()));
    let down = check_response("a", Ok(Check::down()));
    let data = Check::up().with_data("pool", serde_json::to_value("available"));
    let with_data = check_response("a", Ok(data));
    let wire = up().into_json();
    assert_eq!(wire, up().into_json());
    assert_ne!(wire, renamed.into_json());
    assert_ne!(wire, down.into_json());
    assert_ne!(wire, with_data.into_json());
    assert_ne!(
        HealthPayload::new(vec![up()]).into_json(),
        HealthPayload::new(vec![up(), up()]).into_json()
    );
}
