use payments_api::application::http::http::{HttpMethod, HttpResponse, Status};
use payments_api::infrastructure::health_checker::{
    probe_request, select_active_server, ActiveServer, HealthCheckAction, HealthCheckConfig,
    HealthCheckEvent, HealthCheckResponse, HealthCheckRound, HealthCheckStage,
};
use payments_api::infrastructure::result::Error;
use std::collections::HashMap;
use std::time::Duration;

fn report(failing: bool) -> Option<HealthCheckResponse> {
    Some(HealthCheckResponse { failing, min_response_time: 10 })
}

fn config(name: &str, ttl: u64) -> HealthCheckConfig {
    HealthCheckConfig {
        url: format!("http://{}/payments/service-health", name),
        method: HttpMethod::GET,
        cache_key_name: format!("{}_health", name),
        cache_ttl_seconds: ttl,
    }
}

fn answer(failing: bool, min_response_time: u64) -> HttpResponse<HealthCheckResponse> {
    HttpResponse::new(
        Status::new(200),
        HashMap::new(),
        Some(HealthCheckResponse { failing, min_response_time }),
    )
}

#[test]
fn active_server_table() {
    assert_eq!(select_active_server(&report(false), &report(false)), ActiveServer::Default);
    assert_eq!(select_active_server(&report(false), &report(true)), ActiveServer::Default);
    assert_eq!(select_active_server(&report(true), &report(false)), ActiveServer::Fallback);
    assert_eq!(select_active_server(&report(true), &report(true)), ActiveServer::Unavailable);
    assert_eq!(select_active_server(&None, &report(false)), ActiveServer::Unavailable);
    assert_eq!(select_active_server(&report(false), &None), ActiveServer::Unavailable);
    assert_eq!(select_active_server(&None, &None), ActiveServer::Unavailable);
}

#[test]
fn selected_server_is_never_failing() {
    for d in [None, report(false), report(true)] {
        for f in [None, report(false), report(true)] {
            match select_active_server(&d, &f) {
                ActiveServer::Default => assert!(!d.unwrap().failing),
                ActiveServer::Fallback => assert!(!f.unwrap().failing),
                ActiveServer::Unavailable => {},
            }
        }
    }
}

#[test]
fn probe_is_a_get_of_the_health_url_given_ten_seconds() {
    let probe = probe_request(&config("default", 5));
    assert_eq!(probe.method, HttpMethod::GET);
    assert_eq!(probe.url, "http://default/payments/service-health");
    assert!(probe.headers.is_none() && probe.params.is_none() && probe.body.is_none());
    assert_eq!(probe.timeout, Some(Duration::from_secs(10)));
}

#[test]
fn round_probes_and_caches_default_then_fallback() {
    let (round, action) = HealthCheckRound::start(config("default", 5), config("fallback", 7));
    assert_eq!(round.stage, HealthCheckStage::ProbingDefault);
    match action {
        HealthCheckAction::Probe(request) => assert_eq!(request.url, "http://default/payments/service-health"),
        _ => panic!("expected a probe of the default processor"),
    }
    let (round, action) = round.step(HealthCheckEvent::Probed(Ok(answer(true, 120))));
    assert_eq!(round.stage, HealthCheckStage::CachingDefault);
    match action {
        HealthCheckAction::Cache(write) => {
            assert_eq!(write.key, "default_health");
            assert_eq!(write.value, Some(HealthCheckResponse { failing: true, min_response_time: 120 }));
            assert_eq!(write.ttl, Duration::from_secs(5));
        },
        _ => panic!("expected the default report to be cached"),
    }
    let (round, action) = round.step(HealthCheckEvent::Cached(Ok(())));
    assert_eq!(round.stage, HealthCheckStage::ProbingFallback);
    match action {
        HealthCheckAction::Probe(request) => {
            assert_eq!(request.url, "http://fallback/payments/service-health");
            assert_eq!(request.timeout, Some(Duration::from_secs(10)));
        },
        _ => panic!("expected a probe of the fallback processor"),
    }
    let (round, action) = round.step(HealthCheckEvent::Probed(Ok(answer(false, 3))));
    match action {
        HealthCheckAction::Cache(write) => {
            assert_eq!(write.key, "fallback_health");
            assert_eq!(write.value, Some(HealthCheckResponse { failing: false, min_response_time: 3 }));
            assert_eq!(write.ttl, Duration::from_secs(7));
        },
        _ => panic!("expected the fallback report to be cached"),
    }
    let (round, action) = round.step(HealthCheckEvent::Cached(Ok(())));
    assert_eq!(round.stage, HealthCheckStage::Finished);
    assert!(matches!(action, HealthCheckAction::Finish(Ok(()))));
}

#[test]
fn round_stops_at_the_first_failure() {
    let (round, _) = HealthCheckRound::start(config("default", 5), config("fallback", 5));
    let (round, action) = round.step(HealthCheckEvent::Probed(Err(Error::new("connection refused"))));
    assert_eq!(round.stage, HealthCheckStage::Finished);
    match action {
        HealthCheckAction::Finish(Err(e)) => assert_eq!(e.message(), "connection refused"),
        _ => panic!("expected the probe failure to end the round"),
    }

    let (round, _) = HealthCheckRound::start(config("default", 5), config("fallback", 5));
    let (round, _) = round.step(HealthCheckEvent::Probed(Ok(answer(false, 1))));
    let (round, action) = round.step(HealthCheckEvent::Cached(Err(Error::new("cache down"))));
    assert_eq!(round.stage, HealthCheckStage::Finished);
    match action {
        HealthCheckAction::Finish(Err(e)) => assert_eq!(e.message(), "cache down"),
        _ => panic!("expected the cache failure to end the round"),
    }
}

#[test]
fn round_results_read_back_from_cache_choose_the_processor() {
    for (default_failing, fallback_failing, expected) in [
        (false, false, ActiveServer::Default),
        (false, true, ActiveServer::Default),
        (true, false, ActiveServer::Fallback),
        (true, true, ActiveServer::Unavailable),
    ] {
        let mut cache: HashMap<String, Option<HealthCheckResponse>> = HashMap::new();
        let mut answers = vec![answer(fallback_failing, 2), answer(default_failing, 1)];
        let (mut round, mut action) = HealthCheckRound::start(config("default", 5), config("fallback", 5));
        loop {
            let event = match action {
                HealthCheckAction::Finish(outcome) => {
                    assert!(outcome.is_ok());
                    break;
                },
                HealthCheckAction::Probe(_) => HealthCheckEvent::Probed(Ok(answers.pop().unwrap())),
                HealthCheckAction::Cache(write) => {
                    cache.insert(write.key, write.value);
                    HealthCheckEvent::Cached(Ok(()))
                },
            };
            (round, action) = round.step(event);
        }
        let default_report = cache.get("default_health").cloned().flatten();
        let fallback_report = cache.get("fallback_health").cloned().flatten();
        assert_eq!(select_active_server(&default_report, &fallback_report), expected);
    }
}
