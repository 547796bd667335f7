use axum_health::{
    health_response, Action, Answer, Check, CheckError, Health, HealthResponse, Kind, Router, Status,
};
use serde::ser::{SerializeStruct, Serializer};
use serde::Serialize;
use serde_json::Value;
use std::sync::atomic::{AtomicUsize, Ordering};
use std::sync::Arc;

type Outcome = Result<Check, CheckError>;
type Poller = Box<dyn FnMut() -> Option<Outcome>>;
type Probe = Box<dyn Fn() -> Poller + Send + Sync>;

/// A check that finishes when it is first polled.
fn probe(check: fn() -> Outcome) -> Probe {
    Box::new(move || Box::new(move || Some(check())))
}

/// Runs the checks of the endpoint at `path` and returns its response.
fn request(router: &Router<Probe>, path: &str) -> HealthResponse {
    let endpoint = router
        .endpoints
        .iter()
        .find(|endpoint| endpoint.path == path)
        .expect("health route should respond");
    let mut run = router.health.run(endpoint.kind);
    let mut pollers: Vec<Poller> = Vec::new();
    let mut action = run.begin_round();
    loop {
        action = match action {
            Action::Start(place) => {
                pollers.push((run.check(place))());
                run.check_started()
            }
            Action::Poll(place) => match (pollers[place])() {
                Some(outcome) => run.answer(Answer::Ready(outcome)),
                None => run.answer(Answer::Pending),
            },
            Action::Wait => run.begin_round(),
            Action::Done => return health_response(run.finish()),
        };
    }
}

fn body(text: &str) -> Value {
    serde_json::from_str(text).expect("response body should be JSON")
}

#[test]
fn empty_health_is_up() {
    let response = request(&Health::builder().build().router(), "/health/ready");

    assert_eq!(response.code, 200);
    assert_eq!(response.body, body(r#"{"status": "UP", "checks": []}"#));
}

#[test]
fn readiness_runs_only_readiness_checks() {
    let router = Health::builder()
        .liveness("process", probe(|| Ok(Check::down())))
        .readiness(
            "database",
            probe(|| Ok(Check::up().with_data("pool", serde_json::to_value("available")))),
        )
        .build()
        .router();
    let response = request(&router, "/health/ready");

    assert_eq!(response.code, 200);
    assert_eq!(
        response.body,
        body(
            r#"{
                "status": "UP",
                "checks": [
                    {
                        "name": "database",
                        "status": "UP",
                        "data": {
                            "pool": "available"
                        }
                    }
                ]
            }"#
        )
    );
}

#[test]
fn aggregate_health_runs_all_kinds() {
    let router = Health::builder()
        .liveness("process", probe(|| Ok(Check::up())))
        .readiness("database", probe(|| Ok(Check::down())))
        .startup("migrations", probe(|| Ok(Check::up())))
        .build()
        .router();
    let response = request(&router, "/health");

    assert_eq!(response.code, 503);
    assert_eq!(
        response.body,
        body(
            r#"{
                "status": "DOWN",
                "checks": [
                    {"name": "process", "status": "UP"},
                    {"name": "database", "status": "DOWN"},
                    {"name": "migrations", "status": "UP"}
                ]
            }"#
        )
    );
}

#[test]
fn failed_check_becomes_down_response() {
    let router = Health::builder()
        .startup(
            "bootstrap",
            probe(|| Err(CheckError::new("connection pool unavailable"))),
        )
        .build()
        .router();
    let response = request(&router, "/health/started");

    assert_eq!(response.code, 503);
    assert_eq!(
        response.body,
        body(
            r#"{
                "status": "DOWN",
                "checks": [
                    {
                        "name": "bootstrap",
                        "status": "DOWN",
                        "data": {
                            "error": "connection pool unavailable"
                        }
                    }
                ]
            }"#
        )
    );
}

#[test]
fn same_check_can_apply_to_multiple_kinds() {
    let router = Health::builder()
        .check_for(
            &[Kind::Liveness, Kind::Readiness],
            "shared",
            probe(|| Ok(Check::up())),
        )
        .build()
        .router();
    let response = request(&router, "/health");

    assert_eq!(response.code, 200);
    assert_eq!(
        response.body,
        body(
            r#"{
                "status": "UP",
                "checks": [
                    {"name": "shared", "status": "UP"},
                    {"name": "shared", "status": "UP"}
                ]
            }"#
        )
    );
}

#[test]
fn shared_check_is_run_by_the_endpoint_of_each_kind() {
    let router = Health::builder()
        .check_for(
            &[Kind::Liveness, Kind::Readiness],
            "ldap-directory",
            probe(|| Ok(Check::up())),
        )
        .build()
        .router();
    let one = body(
        r#"{"status": "UP", "checks": [{"name": "ldap-directory", "status": "UP"}]}"#,
    );
    assert_eq!(request(&router, "/health/live").body, one);
    assert_eq!(request(&router, "/health/ready").body, one);
    assert_eq!(
        request(&router, "/health/started").body,
        body(r#"{"status": "UP", "checks": []}"#)
    );
}

#[test]
fn shared_check_is_the_same_procedure() {
    let health = Health::builder()
        .check_for(&[Kind::Liveness, Kind::Startup], "shared", 7u8)
        .build();
    let checks = health.select(None);
    assert_eq!(checks.len(), 2);
    assert!(Arc::ptr_eq(&checks[0].check, &checks[1].check));
    assert_eq!(*checks[0].check, 7);
    assert_eq!(checks[0].kind, Kind::Liveness);
    assert_eq!(checks[1].kind, Kind::Startup);
}

#[test]
fn no_kinds_register_nothing() {
    let health = Health::builder().check_for(&[], "unused", 1u8).build();
    assert_eq!(health.select(None).len(), 0);
}

#[test]
fn try_with_data_returns_serialization_errors() {
    let error = Check::up()
        .try_with_data("broken", serde_json::to_value(FailingData))
        .expect_err("failing serializer should return an error");

    assert_eq!(error.message(), "health data failed to serialize");
}

#[test]
fn try_with_data_keeps_serialized_values() {
    let (_, data) = Check::up()
        .try_with_data("open_connections", serde_json::to_value(4))
        .expect("a number can be serialized")
        .into_parts();
    assert_eq!(Value::Object(data), body(r#"{"open_connections": 4}"#));
}

#[test]
fn with_data_keeps_the_serialization_error_as_text() {
    let (_, data) = Check::down()
        .with_data("broken", serde_json::to_value(FailingData))
        .into_parts();
    assert_eq!(
        Value::Object(data),
        body(r#"{"broken": "failed to serialize health data: health data failed to serialize"}"#)
    );
}

#[test]
fn with_data_replaces_an_earlier_value() {
    let (_, data) = Check::up()
        .with_data("pool", serde_json::to_value("available"))
        .with_data("open_connections", serde_json::to_value(4))
        .with_data("replica", serde_json::to_value(true))
        .with_data("pool", serde_json::to_value("busy"))
        .into_parts();
    assert_eq!(
        Value::Object(data),
        body(r#"{"pool": "busy", "open_connections": 4, "replica": true}"#)
    );
}

#[test]
fn a_cloned_check_says_the_same() {
    let check = Check::down().with_data("reason", serde_json::to_value("connection unavailable"));
    let copy = check.clone();
    assert_eq!(copy, check);
    assert_ne!(copy, Check::down());
}

#[test]
fn selected_checks_run_concurrently() {
    let running = Arc::new(AtomicUsize::new(0));
    let max_running = Arc::new(AtomicUsize::new(0));

    let router = Health::builder()
        .readiness("first", concurrent_check(running.clone(), max_running.clone()))
        .readiness("second", concurrent_check(running.clone(), max_running.clone()))
        .build()
        .router();
    let response = request(&router, "/health/ready");

    assert_eq!(response.code, 200);
    assert_eq!(
        response.body,
        body(
            r#"{
                "status": "UP",
                "checks": [
                    {"name": "first", "status": "UP"},
                    {"name": "second", "status": "UP"}
                ]
            }"#
        )
    );
    assert_eq!(max_running.load(Ordering::SeqCst), 2);
}

#[test]
fn the_body_has_its_members_in_the_documented_order() {
    let router = Health::builder()
        .readiness(
            "database",
            probe(|| Ok(Check::up().with_data("pool", serde_json::to_value("available")))),
        )
        .build()
        .router();
    assert_eq!(
        request(&router, "/health/ready").body.to_string(),
        r#"{"status":"UP","checks":[{"name":"database","status":"UP","data":{"pool":"available"}}]}"#
    );
}

#[test]
fn a_check_on_the_wire_has_its_status_and_its_data() {
    assert_eq!(Check::up().into_json().to_string(), r#"{"status":"UP"}"#);
    assert_eq!(
        Check::down()
            .with_data("reason", serde_json::to_value("connection unavailable"))
            .into_json()
            .to_string(),
        r#"{"status":"DOWN","data":{"reason":"connection unavailable"}}"#
    );
}

#[test]
fn data_keep_the_order_in_which_their_keys_were_added() {
    let check = Check::up()
        .with_data("pool", serde_json::to_value("available"))
        .with_data("open_connections", serde_json::to_value(4))
        .with_data("pool", serde_json::to_value("busy"));
    assert_eq!(
        check.into_json().to_string(),
        r#"{"status":"UP","data":{"pool":"busy","open_connections":4}}"#
    );
}

#[test]
fn the_error_that_is_kept_is_the_one_that_is_returned() {
    let returned = Check::up()
        .try_with_data("broken", serde_json::to_value(FailingData))
        .expect_err("failing serializer should return an error");
    let (status, data) = Check::up()
        .with_data("broken", serde_json::to_value(FailingData))
        .into_parts();
    assert_eq!(status, Status::Up);
    assert_eq!(
        data["broken"],
        Value::String(format!("failed to serialize health data: {}", returned.message()))
    );
}

#[test]
fn the_error_of_a_stream_is_kept_as_text() {
    let error = serde_json::from_reader::<_, Value>(BrokenStream)
        .expect_err("a broken stream cannot be read");
    assert!(error.is_io());
    assert_eq!(
        Check::up().with_data("stream", Err(error)).into_json().to_string(),
        r#"{"status":"UP","data":{"stream":"failed to serialize health data: stream is broken"}}"#
    );
    let error = serde_json::from_reader::<_, Value>(BrokenStream)
        .expect_err("a broken stream cannot be read");
    let returned = Check::up()
        .try_with_data("stream", Err(error))
        .expect_err("the error should be returned");
    assert_eq!(returned.message(), "stream is broken");
    let source = returned.into_source().expect("the error comes from a serialization");
    assert!(source.is_io());
}

#[test]
fn an_error_gives_back_the_serialization_error_that_it_comes_from() {
    let error = Check::up()
        .try_with_data("broken", serde_json::to_value(FailingData))
        .expect_err("failing serializer should return an error");
    let message = error.message().to_string();
    let source = error.into_source().expect("the error comes from a serialization");
    assert_eq!(source.to_string(), message);
    assert!(source.is_data());
    assert!(CheckError::new("connection refused").into_source().is_none());
    assert!(CheckError::from_error(&"connection refused").into_source().is_none());
    assert!(CheckError::from_serialization(source).into_source().is_some());
}

#[test]
fn the_place_of_a_syntax_error_is_part_of_its_text() {
    let error = serde_json::from_str::<Value>("[1,").expect_err("the array is not closed");
    let returned = Check::down()
        .try_with_data("broken", Err(error))
        .expect_err("the error should be returned");
    assert_eq!(returned.message(), "EOF while parsing a value at line 1 column 3");
}

#[test]
fn a_registry_can_be_cloned_and_defaults_to_empty() {
    let health = Health::builder().liveness("process", 1u8).build();
    let copy = health.clone();
    assert_eq!(copy.select(Some(Kind::Liveness)).len(), 1);
    assert_eq!(health.select(Some(Kind::Liveness)).len(), 1);
    let empty: Health<u8> = Health::default();
    assert_eq!(empty.select(None).len(), 0);
}

/// A check that starts when it is first polled and finishes when it is polled
/// again.
fn concurrent_check(running: Arc<AtomicUsize>, max_running: Arc<AtomicUsize>) -> Probe {
    Box::new(move || {
        let running = running.clone();
        let max_running = max_running.clone();
        let mut started = false;
        Box::new(move || {
            if started {
                running.fetch_sub(1, Ordering::SeqCst);
                return Some(Ok(Check::up()));
            }
            started = true;
            let current = running.fetch_add(1, Ordering::SeqCst) + 1;
            max_running.fetch_max(current, Ordering::SeqCst);
            None
        })
    })
}

struct BrokenStream;

impl std::io::Read for BrokenStream {
    fn read(&mut self, _buffer: &mut [u8]) -> std::io::Result<usize> {
        Err(std::io::Error::new(std::io::ErrorKind::Other, "stream is broken"))
    }
}

struct FailingData;

impl Serialize for FailingData {
    fn serialize<S>(&self, serializer: S) -> Result<S::Ok, S::Error>
    where
        S: Serializer,
    {
        let mut data = serializer.serialize_struct("FailingData", 1)?;
        data.serialize_field("broken", &BrokenField("health data failed to serialize"))?;
        data.end()
    }
}

struct BrokenField(&'static str);

impl Serialize for BrokenField {
    fn serialize<S>(&self, _serializer: S) -> Result<S::Ok, S::Error>
    where
        S: Serializer,
    {
        Err(serde::ser::Error::custom(self.0))
    }
}
