//! The flag-based health checker: each processor's health is cached as the
//! integer 1 (answered 200) or 0, and the processor to use is read back
//! from those flags.
use crate::infrastructure::health_checker::{health_stage_rank, HealthCheckStage};
use crate::infrastructure::result::Error;
use crate::infrastructure::time::{duration_from_millis, duration_of_millis};
use std::time::Duration;
use vstd::prelude::*;

verus! {

/// How one processor is probed and where its flag is cached.
#[derive(Clone, Debug)]
pub struct HealthCheckConfig {
    pub url: String,
    pub cache_key_name: String,
    pub cache_ttl_seconds: u64,
}

/// The processor that payments go to.
#[derive(Clone, Copy, Debug, PartialEq, Eq, Structural)]
pub enum ActiveServer {
    Default,
    Fallback,
    Unavailable,
}

/// The flag cached for a processor that answered with `status`.
pub open spec fn flag_for_status(status: u16) -> i32 {
    if status == 200 {
        1
    } else {
        0
    }
}

/// The flag to cache for a processor that answered with `status`: 1 for
/// 200, 0 for anything else.
pub fn health_flag(status: u16) -> (flag: i32)
    ensures
        flag == flag_for_status(status),
        flag == 1 <==> status == 200,
        flag == 0 <==> status != 200,
{
    if status == 200 {
        1
    } else {
        0
    }
}

/// The processor to use given the flags read back for each (none where the
/// read failed): the default one when its flag is 1, else the fallback one
/// when its flag is 1, else none.
pub open spec fn active_server_for_flags(default: Option<i32>, fallback: Option<i32>) -> ActiveServer {
    if default == Some(1i32) {
        ActiveServer::Default
    } else if fallback == Some(1i32) {
        ActiveServer::Fallback
    } else {
        ActiveServer::Unavailable
    }
}

/// Chooses the processor from the flags read back for each.
pub fn active_server_from_flags(default: Option<i32>, fallback: Option<i32>) -> (server: ActiveServer)
    ensures
        server == active_server_for_flags(default, fallback),
        server == ActiveServer::Default <==> default == Some(1i32),
        server == ActiveServer::Fallback <==> default != Some(1i32) && fallback == Some(1i32),
        server == ActiveServer::Unavailable <==> default != Some(1i32) && fallback != Some(1i32),
{
    if let Some(flag) = default {
        if flag == 1 {
            return ActiveServer::Default;
        }
    }
    if let Some(flag) = fallback {
        if flag == 1 {
            return ActiveServer::Fallback;
        }
    }
    ActiveServer::Unavailable
}

/// The processor chosen from the flags is never one whose flag does not read
/// back as 1: the default one exactly when its flag reads 1, the fallback one
/// exactly when the default's does not and the fallback's does, and none
/// when neither reads 1 (a flag that cannot be read counts as not 1).
pub proof fn lemma_flags_choose_only_healthy(default: Option<i32>, fallback: Option<i32>)
    ensures
        active_server_for_flags(default, fallback) == ActiveServer::Default <==> default == Some(
            1i32,
        ),
        active_server_for_flags(default, fallback) == ActiveServer::Fallback <==> default != Some(
            1i32,
        ) && fallback == Some(1i32),
        active_server_for_flags(default, fallback) == ActiveServer::Unavailable <==> default
            != Some(1i32) && fallback != Some(1i32),
{
}

/// Reading back the flags that a round cached picks the default processor
/// exactly when it answered 200, else the fallback processor exactly when
/// that one answered 200, else none.
pub proof fn lemma_flags_round_trip(default_status: u16, fallback_status: u16)
    ensures
        active_server_for_flags(
            Some(flag_for_status(default_status)),
            Some(flag_for_status(fallback_status)),
        ) == (if default_status == 200 {
            ActiveServer::Default
        } else if fallback_status == 200 {
            ActiveServer::Fallback
        } else {
            ActiveServer::Unavailable
        }),
{
}

/// A probe of a processor: a GET of `url` given `timeout`.
pub struct ProbeTarget {
    pub url: String,
    pub timeout: Duration,
}

/// A flag to keep in the cache under `key` for `ttl_seconds`.
pub struct FlagWrite {
    pub key: String,
    pub value: i32,
    pub ttl_seconds: u64,
}

/// The probe of a processor: its health URL, given five seconds.
pub open spec fn probe_target_for(config: HealthCheckConfig) -> ProbeTarget {
    ProbeTarget { url: config.url, timeout: duration_of_millis(5000) }
}

/// The flag write for a processor that answered with `status`.
pub open spec fn flag_write_for(config: HealthCheckConfig, status: u16) -> FlagWrite {
    FlagWrite {
        key: config.cache_key_name,
        value: flag_for_status(status),
        ttl_seconds: config.cache_ttl_seconds,
    }
}

/// What the driver of a flag round reports back.
pub enum FlagCheckEvent {
    /// The processor answered with this status, or the probe failed.
    Probed(Result<u16, Error>),
    /// The flag was cached, or caching it failed.
    Stored(Result<(), Error>),
}

/// What a flag round asks its driver to do next.
pub enum FlagCheckAction {
    Probe(ProbeTarget),
    Store(FlagWrite),
    Finish(Result<(), Error>),
}

/// A flag round: probe the default processor and cache its flag, then the
/// same for the fallback processor; the first failure ends the round.
pub struct FlagCheckRound {
    pub default_config: HealthCheckConfig,
    pub fallback_config: HealthCheckConfig,
    pub stage: HealthCheckStage,
}

impl FlagCheckRound {
    /// Whether the round is waiting for this kind of event.
    pub open spec fn awaits(self, event: FlagCheckEvent) -> bool {
        match self.stage {
            HealthCheckStage::ProbingDefault | HealthCheckStage::ProbingFallback => event is Probed,
            HealthCheckStage::CachingDefault | HealthCheckStage::CachingFallback => event is Stored,
            HealthCheckStage::Finished => false,
        }
    }

    /// The round with its stage replaced.
    pub open spec fn at(self, stage: HealthCheckStage) -> FlagCheckRound {
        FlagCheckRound { stage, ..self }
    }

    /// The next round and action after `event`.
    pub open spec fn transition(self, event: FlagCheckEvent) -> (FlagCheckRound, FlagCheckAction) {
        match event {
            FlagCheckEvent::Probed(Err(e)) => (
                self.at(HealthCheckStage::Finished),
                FlagCheckAction::Finish(Err(e)),
            ),
            FlagCheckEvent::Stored(Err(e)) => (
                self.at(HealthCheckStage::Finished),
                FlagCheckAction::Finish(Err(e)),
            ),
            FlagCheckEvent::Probed(Ok(status)) => {
                if self.stage == HealthCheckStage::ProbingDefault {
                    (
                        self.at(HealthCheckStage::CachingDefault),
                        FlagCheckAction::Store(flag_write_for(self.default_config, status)),
                    )
                } else {
                    (
                        self.at(HealthCheckStage::CachingFallback),
                        FlagCheckAction::Store(flag_write_for(self.fallback_config, status)),
                    )
                }
            },
            FlagCheckEvent::Stored(Ok(())) => {
                if self.stage == HealthCheckStage::CachingDefault {
                    (
                        self.at(HealthCheckStage::ProbingFallback),
                        FlagCheckAction::Probe(probe_target_for(self.fallback_config)),
                    )
                } else {
                    (self.at(HealthCheckStage::Finished), FlagCheckAction::Finish(Ok(())))
                }
            },
        }
    }

    /// Starts a round: the default processor is probed first.
    pub fn start(default_config: HealthCheckConfig, fallback_config: HealthCheckConfig) -> (started: (
        FlagCheckRound,
        FlagCheckAction,
    ))
        ensures
            started.0.default_config == default_config,
            started.0.fallback_config == fallback_config,
            started.0.stage == HealthCheckStage::ProbingDefault,
            started.1 == FlagCheckAction::Probe(probe_target_for(default_config)),
            started.1 matches FlagCheckAction::Probe(target) && target.url == default_config.url
                && target.timeout == duration_of_millis(5000),
    {
        let probe = ProbeTarget { url: default_config.url.clone(), timeout: duration_from_millis(5000) };
        (
            FlagCheckRound { default_config, fallback_config, stage: HealthCheckStage::ProbingDefault },
            FlagCheckAction::Probe(probe),
        )
    }

    /// Advances the round by the event its driver reports.
    pub fn step(self, event: FlagCheckEvent) -> (next: (FlagCheckRound, FlagCheckAction))
        requires
            self.awaits(event),
        ensures
            next == self.transition(event),
    {
        let FlagCheckRound { default_config, fallback_config, stage } = self;
        match event {
            FlagCheckEvent::Probed(Err(e)) => (
                FlagCheckRound { default_config, fallback_config, stage: HealthCheckStage::Finished },
                FlagCheckAction::Finish(Err(e)),
            ),
            FlagCheckEvent::Stored(Err(e)) => (
                FlagCheckRound { default_config, fallback_config, stage: HealthCheckStage::Finished },
                FlagCheckAction::Finish(Err(e)),
            ),
            FlagCheckEvent::Probed(Ok(status)) => {
                let (config, next_stage) = match stage {
                    HealthCheckStage::ProbingDefault => (&default_config, HealthCheckStage::CachingDefault),
                    _ => (&fallback_config, HealthCheckStage::CachingFallback),
                };
                let write = FlagWrite {
                    key: config.cache_key_name.clone(),
                    value: health_flag(status),
                    ttl_seconds: config.cache_ttl_seconds,
                };
                (
                    FlagCheckRound { default_config, fallback_config, stage: next_stage },
                    FlagCheckAction::Store(write),
                )
            },
            FlagCheckEvent::Stored(Ok(())) => {
                match stage {
                    HealthCheckStage::CachingDefault => {
                        let probe = ProbeTarget {
                            url: fallback_config.url.clone(),
                            timeout: duration_from_millis(5000),
                        };
                        (
                            FlagCheckRound {
                                default_config,
                                fallback_config,
                                stage: HealthCheckStage::ProbingFallback,
                            },
                            FlagCheckAction::Probe(probe),
                        )
                    },
                    _ => (
                        FlagCheckRound {
                            default_config,
                            fallback_config,
                            stage: HealthCheckStage::Finished,
                        },
                        FlagCheckAction::Finish(Ok(())),
                    ),
                }
            },
        }
    }
}

/// The flag a round caches for a processor is 1 exactly when the processor
/// answered 200, and the default processor's flag is written before the
/// fallback processor is probed.
pub proof fn lemma_flag_reflects_status(round: FlagCheckRound, event: FlagCheckEvent)
    requires
        round.awaits(event),
    ensures
        round.transition(event).1 matches FlagCheckAction::Store(write) ==> (event matches FlagCheckEvent::Probed(Ok(status))
            && (write.value == 1 <==> status == 200)),
        round.transition(event).1 is Probe ==> round.stage == HealthCheckStage::CachingDefault
            && round.transition(event).1 == FlagCheckAction::Probe(
            probe_target_for(round.fallback_config),
        ),
{
}

/// Every step moves a flag round to a later stage; the first failure ends it
/// with that failure.
pub proof fn lemma_flag_round_progresses(round: FlagCheckRound, event: FlagCheckEvent)
    requires
        round.awaits(event),
    ensures
        health_stage_rank(round.stage) < health_stage_rank(round.transition(event).0.stage),
        event matches FlagCheckEvent::Probed(Err(e)) ==> round.transition(event).1
            == FlagCheckAction::Finish(Err(e)),
        event matches FlagCheckEvent::Stored(Err(e)) ==> round.transition(event).1
            == FlagCheckAction::Finish(Err(e)),
{
}

/// Every flag a round writes goes under the key, and for the time to live,
/// of the processor probed in that stage, whatever status it answered: the
/// default processor's from the default probe, the fallback processor's from
/// the fallback probe; the flag is 1 exactly when that status was 200. Every
/// probe the round sends after the first is of the fallback processor's URL.
pub proof fn lemma_flag_write_targets_probed_processor(round: FlagCheckRound, event: FlagCheckEvent)
    requires
        round.awaits(event),
    ensures
        round.transition(event).1 matches FlagCheckAction::Store(write) ==> {
            &&& event matches FlagCheckEvent::Probed(Ok(status))
            &&& (write.value == 1 <==> status == 200)
            &&& (write.value == 0 <==> status != 200)
            &&& round.stage == HealthCheckStage::ProbingDefault ==> write.key
                == round.default_config.cache_key_name && write.ttl_seconds
                == round.default_config.cache_ttl_seconds
            &&& round.stage == HealthCheckStage::ProbingFallback ==> write.key
                == round.fallback_config.cache_key_name && write.ttl_seconds
                == round.fallback_config.cache_ttl_seconds
        },
        round.transition(event).1 matches FlagCheckAction::Probe(target) ==> target.url
            == round.fallback_config.url,
        round.transition(event).0.default_config == round.default_config,
        round.transition(event).0.fallback_config == round.fallback_config,
{
}

} // verus!
