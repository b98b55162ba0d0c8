//! Health of the two payment processors: which one to use, judged from the
//! last reports kept in the cache, and the round that refreshes those
//! reports by probing each processor and caching what it answered.
use crate::application::http::http::{HttpMethod, HttpRequest, HttpResponse};
use crate::infrastructure::result::Error;
use crate::infrastructure::time::{duration_from_secs, duration_of_secs};
use std::time::Duration;
use vstd::prelude::*;

verus! {

/// How one processor is probed and where its report is cached.
#[derive(Clone, Debug)]
pub struct HealthCheckConfig {
    pub url: String,
    pub method: HttpMethod,
    pub cache_key_name: String,
    pub cache_ttl_seconds: u64,
}

/// The processor that payments go to.
#[derive(Clone, Copy, Debug, PartialEq, Eq, Structural)]
pub enum ActiveServer {
    Default,
    Fallback,
    Unavailable,
}

/// A processor's answer to a health probe.
#[derive(Clone, Copy, Debug, PartialEq, Eq, Structural)]
pub struct HealthCheckResponse {
    pub failing: bool,
    pub min_response_time: u64,
}

/// The processor to use given the cached reports of both: none unless both
/// reports are known; the default one unless it is failing; the fallback one
/// when only the default one is failing.
pub open spec fn active_server_for(
    default: Option<HealthCheckResponse>,
    fallback: Option<HealthCheckResponse>,
) -> ActiveServer {
    match (default, fallback) {
        (Some(d), Some(f)) => {
            if d.failing && f.failing {
                ActiveServer::Unavailable
            } else if d.failing {
                ActiveServer::Fallback
            } else {
                ActiveServer::Default
            }
        },
        _ => ActiveServer::Unavailable,
    }
}

/// Chooses the processor from the cached reports of the default and the
/// fallback processor.
pub fn select_active_server(
    default: &Option<HealthCheckResponse>,
    fallback: &Option<HealthCheckResponse>,
) -> (server: ActiveServer)
    ensures
        server == active_server_for(*default, *fallback),
{
    match (default, fallback) {
        (Some(default), Some(fallback)) => {
            if default.failing && fallback.failing {
                ActiveServer::Unavailable
            } else if default.failing {
                ActiveServer::Fallback
            } else if fallback.failing {
                ActiveServer::Default
            } else {
                ActiveServer::Default
            }
        },
        _ => ActiveServer::Unavailable,
    }
}

/// The chosen processor is never one whose report is missing or failing.
pub proof fn lemma_selected_server_is_healthy(
    default: Option<HealthCheckResponse>,
    fallback: Option<HealthCheckResponse>,
)
    ensures
        active_server_for(default, fallback) == ActiveServer::Default ==> default is Some
            && !default->0.failing,
        active_server_for(default, fallback) == ActiveServer::Fallback ==> fallback is Some
            && !fallback->0.failing,
{
}

/// With both reports known, the default processor is chosen whenever it is
/// healthy, and none is chosen only when both are failing.
pub proof fn lemma_default_preferred(default: HealthCheckResponse, fallback: HealthCheckResponse)
    ensures
        !default.failing ==> active_server_for(Some(default), Some(fallback))
            == ActiveServer::Default,
        active_server_for(Some(default), Some(fallback)) == ActiveServer::Unavailable <==> (
        default.failing && fallback.failing),
{
}

/// The probe sent to a processor: a GET of its health URL, with no headers,
/// parameters or body, given ten seconds.
pub open spec fn probe_request_for(config: HealthCheckConfig) -> HttpRequest<()> {
    HttpRequest {
        method: HttpMethod::GET,
        url: config.url,
        params: None,
        headers: None,
        body: None,
        timeout: Some(duration_of_secs(10)),
    }
}

/// Builds the probe for a processor.
pub fn probe_request(config: &HealthCheckConfig) -> (request: HttpRequest<()>)
    ensures
        request == probe_request_for(*config),
{
    HttpRequest::new(
        HttpMethod::GET,
        config.url.clone(),
        None,
        None,
        None,
        Some(duration_from_secs(10)),
    )
}

/// A report to keep in the cache under `key` for `ttl`.
pub struct CacheWrite {
    pub key: String,
    pub value: Option<HealthCheckResponse>,
    pub ttl: Duration,
}

/// The cache write that keeps a processor's answer: its body, under the
/// processor's key, for the processor's time to live.
pub open spec fn cache_write_for(
    config: HealthCheckConfig,
    response: HttpResponse<HealthCheckResponse>,
) -> CacheWrite {
    CacheWrite {
        key: config.cache_key_name,
        value: response.body,
        ttl: duration_of_secs(config.cache_ttl_seconds),
    }
}

/// Where a health round stands.
#[derive(Clone, Copy, Debug, PartialEq, Eq, Structural)]
pub enum HealthCheckStage {
    ProbingDefault,
    CachingDefault,
    ProbingFallback,
    CachingFallback,
    Finished,
}

/// What the driver of a round reports back.
pub enum HealthCheckEvent {
    /// The probe was answered, or sending it failed.
    Probed(Result<HttpResponse<HealthCheckResponse>, Error>),
    /// The cache write went through, or failed.
    Cached(Result<(), Error>),
}

/// What a round asks its driver to do next.
pub enum HealthCheckAction {
    Probe(HttpRequest<()>),
    Cache(CacheWrite),
    Finish(Result<(), Error>),
}

/// A health round: probe the default processor and cache its answer, then
/// the same for the fallback processor; the first failure ends the round.
pub struct HealthCheckRound {
    pub default_config: HealthCheckConfig,
    pub fallback_config: HealthCheckConfig,
    pub stage: HealthCheckStage,
}

/// The order of the stages; every step of a round moves it forward.
pub open spec fn health_stage_rank(stage: HealthCheckStage) -> int {
    match stage {
        HealthCheckStage::ProbingDefault => 0,
        HealthCheckStage::CachingDefault => 1,
        HealthCheckStage::ProbingFallback => 2,
        HealthCheckStage::CachingFallback => 3,
        HealthCheckStage::Finished => 4,
    }
}

impl HealthCheckRound {
    /// Whether the round is waiting for this kind of event.
    pub open spec fn awaits(self, event: HealthCheckEvent) -> bool {
        match self.stage {
            HealthCheckStage::ProbingDefault | HealthCheckStage::ProbingFallback => event is Probed,
            HealthCheckStage::CachingDefault | HealthCheckStage::CachingFallback => event is Cached,
            HealthCheckStage::Finished => false,
        }
    }

    /// The round with its stage replaced.
    pub open spec fn at(self, stage: HealthCheckStage) -> HealthCheckRound {
        HealthCheckRound { stage, ..self }
    }

    /// The next round and action after `event`.
    pub open spec fn transition(self, event: HealthCheckEvent) -> (HealthCheckRound, HealthCheckAction) {
        match event {
            HealthCheckEvent::Probed(Err(e)) => (
                self.at(HealthCheckStage::Finished),
                HealthCheckAction::Finish(Err(e)),
            ),
            HealthCheckEvent::Cached(Err(e)) => (
                self.at(HealthCheckStage::Finished),
                HealthCheckAction::Finish(Err(e)),
            ),
            HealthCheckEvent::Probed(Ok(response)) => {
                if self.stage == HealthCheckStage::ProbingDefault {
                    (
                        self.at(HealthCheckStage::CachingDefault),
                        HealthCheckAction::Cache(cache_write_for(self.default_config, response)),
                    )
                } else {
                    (
                        self.at(HealthCheckStage::CachingFallback),
                        HealthCheckAction::Cache(cache_write_for(self.fallback_config, response)),
                    )
                }
            },
            HealthCheckEvent::Cached(Ok(())) => {
                if self.stage == HealthCheckStage::CachingDefault {
                    (
                        self.at(HealthCheckStage::ProbingFallback),
                        HealthCheckAction::Probe(probe_request_for(self.fallback_config)),
                    )
                } else {
                    (self.at(HealthCheckStage::Finished), HealthCheckAction::Finish(Ok(())))
                }
            },
        }
    }

    /// Starts a round: the default processor is probed first.
    pub fn start(default_config: HealthCheckConfig, fallback_config: HealthCheckConfig) -> (started: (
        HealthCheckRound,
        HealthCheckAction,
    ))
        ensures
            started.0.default_config == default_config,
            started.0.fallback_config == fallback_config,
            started.0.stage == HealthCheckStage::ProbingDefault,
            started.1 == HealthCheckAction::Probe(probe_request_for(default_config)),
            started.1 matches HealthCheckAction::Probe(request) && request.url == default_config.url
                && request.method == HttpMethod::GET && request.timeout == Some(duration_of_secs(10)),
    {
        let probe = probe_request(&default_config);
        (
            HealthCheckRound { default_config, fallback_config, stage: HealthCheckStage::ProbingDefault },
            HealthCheckAction::Probe(probe),
        )
    }

    /// Advances the round by the event its driver reports.
    pub fn step(self, event: HealthCheckEvent) -> (next: (HealthCheckRound, HealthCheckAction))
        requires
            self.awaits(event),
        ensures
            next == self.transition(event),
    {
        let HealthCheckRound { default_config, fallback_config, stage } = self;
        match event {
            HealthCheckEvent::Probed(Err(e)) => (
                HealthCheckRound { default_config, fallback_config, stage: HealthCheckStage::Finished },
                HealthCheckAction::Finish(Err(e)),
            ),
            HealthCheckEvent::Cached(Err(e)) => (
                HealthCheckRound { default_config, fallback_config, stage: HealthCheckStage::Finished },
                HealthCheckAction::Finish(Err(e)),
            ),
            HealthCheckEvent::Probed(Ok(response)) => {
                let (config, next_stage) = match stage {
                    HealthCheckStage::ProbingDefault => (&default_config, HealthCheckStage::CachingDefault),
                    _ => (&fallback_config, HealthCheckStage::CachingFallback),
                };
                let write = CacheWrite {
                    key: config.cache_key_name.clone(),
                    value: response.body,
                    ttl: duration_from_secs(config.cache_ttl_seconds),
                };
                (
                    HealthCheckRound { default_config, fallback_config, stage: next_stage },
                    HealthCheckAction::Cache(write),
                )
            },
            HealthCheckEvent::Cached(Ok(())) => {
                match stage {
                    HealthCheckStage::CachingDefault => {
                        let probe = probe_request(&fallback_config);
                        (
                            HealthCheckRound {
                                default_config,
                                fallback_config,
                                stage: HealthCheckStage::ProbingFallback,
                            },
                            HealthCheckAction::Probe(probe),
                        )
                    },
                    _ => (
                        HealthCheckRound {
                            default_config,
                            fallback_config,
                            stage: HealthCheckStage::Finished,
                        },
                        HealthCheckAction::Finish(Ok(())),
                    ),
                }
            },
        }
    }
}

/// The fallback processor is probed only after the default processor's
/// report has been cached, and the probe is the fallback processor's.
pub proof fn lemma_fallback_probed_after_default_cached(round: HealthCheckRound, event: HealthCheckEvent)
    requires
        round.awaits(event),
        round.transition(event).1 is Probe,
    ensures
        round.stage == HealthCheckStage::CachingDefault,
        event matches HealthCheckEvent::Cached(Ok(_)),
        round.transition(event).1 == HealthCheckAction::Probe(
            probe_request_for(round.fallback_config),
        ),
{
}

/// What a round caches is exactly the body a probe answered with, under the
/// probed processor's key and for its time to live.
pub proof fn lemma_cached_report_is_probe_body(round: HealthCheckRound, event: HealthCheckEvent)
    requires
        round.awaits(event),
        round.transition(event).1 is Cache,
    ensures
        event matches HealthCheckEvent::Probed(Ok(response)) && round.transition(event).1
            == HealthCheckAction::Cache(
            cache_write_for(
                if round.stage == HealthCheckStage::ProbingDefault {
                    round.default_config
                } else {
                    round.fallback_config
                },
                response,
            ),
        ),
{
}

/// The first failure ends a round, and the round reports that failure.
pub proof fn lemma_failure_ends_round(round: HealthCheckRound, error: Error)
    ensures
        round.transition(HealthCheckEvent::Probed(Err(error))) == (
            round.at(HealthCheckStage::Finished),
            HealthCheckAction::Finish(Err(error)),
        ),
        round.transition(HealthCheckEvent::Cached(Err(error))) == (
            round.at(HealthCheckStage::Finished),
            HealthCheckAction::Finish(Err(error)),
        ),
{
}

/// Every step moves a round to a later stage and keeps its configuration;
/// it reaches the finished stage exactly when it reports an outcome, so a
/// round ends after at most four steps.
pub proof fn lemma_round_progresses(round: HealthCheckRound, event: HealthCheckEvent)
    requires
        round.awaits(event),
    ensures
        health_stage_rank(round.stage) < health_stage_rank(round.transition(event).0.stage),
        round.transition(event).0.default_config == round.default_config,
        round.transition(event).0.fallback_config == round.fallback_config,
        round.transition(event).0.stage == HealthCheckStage::Finished
            <==> round.transition(event).1 is Finish,
{
}

/// Every report a round caches goes under the key, and for the time to
/// live, of the processor probed in that stage, and it is that processor's
/// answer body unchanged; every probe after the first is a GET of the
/// fallback processor's URL given ten seconds.
pub proof fn lemma_cache_write_targets_probed_processor(round: HealthCheckRound, event: HealthCheckEvent)
    requires
        round.awaits(event),
    ensures
        round.transition(event).1 matches HealthCheckAction::Cache(write) ==> {
            &&& event matches HealthCheckEvent::Probed(Ok(response))
            &&& write.value == response.body
            &&& round.stage == HealthCheckStage::ProbingDefault ==> write.key
                == round.default_config.cache_key_name && write.ttl == duration_of_secs(
                round.default_config.cache_ttl_seconds,
            )
            &&& round.stage == HealthCheckStage::ProbingFallback ==> write.key
                == round.fallback_config.cache_key_name && write.ttl == duration_of_secs(
                round.fallback_config.cache_ttl_seconds,
            )
        },
        round.transition(event).1 matches HealthCheckAction::Probe(request) ==> request.url
            == round.fallback_config.url && request.method == HttpMethod::GET && request.timeout
            == Some(duration_of_secs(10)),
{
}

/// Whether `rounds`, `events` and `actions` record a run of a health round:
/// the i-th event was awaited by the i-th round and took it to the next one
/// with the i-th action.
pub open spec fn is_round_run(
    rounds: Seq<HealthCheckRound>,
    events: Seq<HealthCheckEvent>,
    actions: Seq<HealthCheckAction>,
) -> bool {
    &&& rounds.len() == events.len() + 1
    &&& actions.len() == events.len()
    &&& forall|i: int|
        #![trigger events[i]]
        0 <= i < events.len() ==> rounds[i].awaits(events[i]) && rounds[i].transition(events[i])
            == (rounds[i + 1], actions[i])
}

/// The report the cache gives back for `key`: the last one written there,
/// none where nothing was written.
pub open spec fn read_report(cache: Map<Seq<char>, Option<HealthCheckResponse>>, key: Seq<char>) -> Option<
    HealthCheckResponse,
> {
    if cache.contains_key(key) {
        cache[key]
    } else {
        None
    }
}

/// The cache after `write` went through.
pub open spec fn apply_write(
    cache: Map<Seq<char>, Option<HealthCheckResponse>>,
    write: CacheWrite,
) -> Map<Seq<char>, Option<HealthCheckResponse>> {
    cache.insert(write.key@, write.value)
}

/// In a run that ends in success, every step before the last one kept the
/// round going, and the k-th round is at the k-th stage.
proof fn lemma_successful_round_stages(
    rounds: Seq<HealthCheckRound>,
    events: Seq<HealthCheckEvent>,
    actions: Seq<HealthCheckAction>,
    k: int,
)
    requires
        is_round_run(rounds, events, actions),
        rounds[0].stage == HealthCheckStage::ProbingDefault,
        events.len() > 0,
        actions[events.len() - 1] matches HealthCheckAction::Finish(Ok(_)),
        0 <= k < events.len(),
    ensures
        health_stage_rank(rounds[k].stage) == k,
        rounds[k].default_config == rounds[0].default_config,
        rounds[k].fallback_config == rounds[0].fallback_config,
    decreases k,
{
    if k > 0 {
        let i = k - 1;
        lemma_successful_round_stages(rounds, events, actions, i);
        assert(rounds[i].awaits(events[i]) && rounds[i].transition(events[i]) == (
            rounds[i + 1],
            actions[i],
        ));
        assert(rounds[k].awaits(events[k]));
        assert(rounds[i + 1] == rounds[k]);
    }
}

/// A health round that ends in success has made exactly four steps: it
/// probed the default processor and cached its answer, then did the same for
/// the fallback processor. With the two processors under different keys, the
/// cache then gives back exactly the two answers, so the processor chosen
/// from it is the one the two answers call for.
pub proof fn lemma_round_then_selection(
    rounds: Seq<HealthCheckRound>,
    events: Seq<HealthCheckEvent>,
    actions: Seq<HealthCheckAction>,
    cache: Map<Seq<char>, Option<HealthCheckResponse>>,
)
    requires
        is_round_run(rounds, events, actions),
        rounds[0].stage == HealthCheckStage::ProbingDefault,
        events.len() > 0,
        actions[events.len() - 1] matches HealthCheckAction::Finish(Ok(_)),
        rounds[0].default_config.cache_key_name@ != rounds[0].fallback_config.cache_key_name@,
    ensures
        events.len() == 4,
        ({
            &&& events[0] matches HealthCheckEvent::Probed(Ok(default_answer))
            &&& events[2] matches HealthCheckEvent::Probed(Ok(fallback_answer))
            &&& actions[0] == HealthCheckAction::Cache(
                cache_write_for(rounds[0].default_config, default_answer),
            )
            &&& actions[2] == HealthCheckAction::Cache(
                cache_write_for(rounds[0].fallback_config, fallback_answer),
            )
            &&& {
                let after = apply_write(apply_write(cache, actions[0]->Cache_0), actions[2]->Cache_0);
                &&& read_report(after, rounds[0].default_config.cache_key_name@) == default_answer.body
                &&& read_report(after, rounds[0].fallback_config.cache_key_name@) == fallback_answer.body
                &&& active_server_for(
                    read_report(after, rounds[0].default_config.cache_key_name@),
                    read_report(after, rounds[0].fallback_config.cache_key_name@),
                ) == active_server_for(default_answer.body, fallback_answer.body)
            }
        }),
{
    let n = events.len() - 1;
    lemma_successful_round_stages(rounds, events, actions, n);
    assert(rounds[n].awaits(events[n]) && rounds[n].transition(events[n]) == (
        rounds[n + 1],
        actions[n],
    ));
    assert(n == 3);
    lemma_successful_round_stages(rounds, events, actions, 0);
    lemma_successful_round_stages(rounds, events, actions, 1);
    lemma_successful_round_stages(rounds, events, actions, 2);
    assert(rounds[0].awaits(events[0]) && rounds[0].transition(events[0]) == (rounds[1], actions[0]));
    assert(rounds[1].awaits(events[1]) && rounds[1].transition(events[1]) == (rounds[2], actions[1]));
    assert(rounds[2].awaits(events[2]) && rounds[2].transition(events[2]) == (rounds[3], actions[2]));
}

} // verus!
