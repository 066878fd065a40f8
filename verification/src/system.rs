//! The context that every actor shares, and the control of the engine's
//! background thread: how it is started and how it is shut down.

use vstd::prelude::*;
use crate::actors::Delivery;
use crate::config::ControlConfig;
use crate::error::ArchiveError;

verus! {

/// Declares `url::ParseError`, the error of `url::Url::parse`. Nothing is
/// said of what it holds: it is told apart from success and dropped.
#[verifier::external_type_specification]
#[verifier::external_body]
pub struct ExUrlParseError(url::ParseError);

/// What parsing `input` as an absolute URL gives: the URL written out in its
/// normal form, or nothing where `input` is no such URL.
pub uninterp spec fn url_parse_of(input: Seq<char>) -> Option<Seq<char>>;

/// Calls `url::Url::parse`, and on success writes the URL out again: the
/// result is the normal form of `input`, or the parser's error where `input`
/// is not an absolute URL.
#[verifier::external_body]
pub(crate) fn parse_url(input: &str) -> (parsed: Result<String, url::ParseError>)
    ensures
        parsed is Ok ==> url_parse_of(input@) == Some(parsed->Ok_0@),
        parsed is Err ==> url_parse_of(input@) is None,
{
    url::Url::parse(input).map(String::from)
}

/// What the user passes in, and what every actor may use: the chain backend
/// `B` (read-only, shared), the address of the relational store, the runtime
/// metadata handle `M`, the limits, and the trace targets of the executor.
#[derive(Debug, Clone, PartialEq, Eq)]
pub struct SystemConfig<B, M> {
    pub backend: B,
    pub pg_url: String,
    pub meta: M,
    pub control: ControlConfig,
    pub tracing_targets: Option<String>,
}

impl<B, M> SystemConfig<B, M> {
    /// Puts the parts of the context together.
    pub fn new(
        backend: B,
        pg_url: String,
        meta: M,
        control: ControlConfig,
        tracing_targets: Option<String>,
    ) -> (config: Self)
        ensures
            config.backend == backend,
            config.pg_url == pg_url,
            config.meta == meta,
            config.control == control,
            config.tracing_targets == tracing_targets,
    {
        Self { backend, pg_url, meta, control, tracing_targets }
    }

    /// The chain backend.
    pub fn backend(&self) -> (backend: &B)
        ensures
            *backend == self.backend,
    {
        &self.backend
    }

    /// The address of the relational store.
    pub fn pg_url(&self) -> (url: &str)
        ensures
            url@ == self.pg_url@,
    {
        self.pg_url.as_str()
    }

    /// The runtime metadata handle.
    pub fn meta(&self) -> (meta: &M)
        ensures
            *meta == self.meta,
    {
        &self.meta
    }

    /// Whether an engine started with this context can make progress: the
    /// limits are valid and the address of the relational store is a URL.
    pub open spec fn can_start(&self) -> bool {
        self.control.spec_is_valid() && url_parse_of(self.pg_url@) is Some
    }

    /// Checks the context, given whether the address of the relational
    /// store parses as a URL: a context with which the engine could make no
    /// progress is a configuration error.
    pub fn validate_with(&self, pg_url_parses: bool) -> (checked: Result<(), ArchiveError>)
        ensures
            self.control.spec_is_valid() && pg_url_parses ==> checked == Ok::<(), ArchiveError>(
                (),
            ),
            !(self.control.spec_is_valid() && pg_url_parses) ==> checked == Err::<
                (),
                ArchiveError,
            >(ArchiveError::Config),
    {
        match self.control.validate() {
            Err(error) => Err(error),
            Ok(_) => {
                if pg_url_parses {
                    Ok(())
                } else {
                    Err(ArchiveError::Config)
                }
            },
        }
    }

    /// Checks the context before an engine is started with it. Nothing
    /// obliges a caller to ask: a system can be made for any context.
    pub fn validate(&self) -> (checked: Result<(), ArchiveError>)
        ensures
            self.can_start() ==> checked == Ok::<(), ArchiveError>(()),
            !self.can_start() ==> checked == Err::<(), ArchiveError>(ArchiveError::Config),
    {
        let parses = parse_url(self.pg_url()).is_ok();
        self.validate_with(parses)
    }
}

/// The channels and threads that the background thread of the engine is
/// started with.
#[derive(Debug, PartialEq, Eq, Structural, Clone, Copy)]
pub struct StartPlan {
    /// Capacity of the channel that carries the signal to start.
    pub start_capacity: usize,
    /// Capacity of the channel that carries the signal to stop.
    pub kill_capacity: usize,
    /// Threads that run the actors' executor beside the main loop.
    pub executor_threads: usize,
}

/// How the background thread of the engine ended.
#[derive(Debug, Clone, Copy, PartialEq, Eq)]
pub struct ThreadOutcome {
    /// Whether an executor thread found the kill channel without senders,
    /// which is worth a warning.
    pub senders_dropped: bool,
    /// What the thread returns: what the main loop returned.
    pub result: Result<(), ArchiveError>,
}

/// What to do after one attempt to send the signal to stop.
#[derive(Debug, PartialEq, Eq, Structural, Clone, Copy)]
pub enum ShutdownStep {
    /// Every receiver is gone: join the background thread.
    Join,
    /// A receiver took the signal, so others may still be alive: sleep for
    /// `pause_millis`, then send again, as attempt number `attempt`.
    /// `announce` says whether this attempt is worth a log line.
    Retry { announce: bool, pause_millis: u64, attempt: u64 },
}

/// Milliseconds between two attempts to send the signal to stop.
pub const SHUTDOWN_RETRY_MILLIS: u64 = 20;

/// Controls the execution of the indexing engine.
#[derive(Debug)]
pub struct System<B, M> {
    config: SystemConfig<B, M>,
    plan: StartPlan,
}

impl<B, M> System<B, M> {
    /// The context that the system was made with.
    pub closed spec fn spec_context(&self) -> SystemConfig<B, M> {
        self.config
    }

    /// The plan that the background thread is started with.
    pub closed spec fn spec_plan(&self) -> StartPlan {
        self.plan
    }

    /// The plan for a context: both channels hold one signal, and there is
    /// one executor thread for each task worker.
    pub open spec fn plan_for(conf: &SystemConfig<B, M>) -> StartPlan {
        StartPlan {
            start_capacity: 1,
            kill_capacity: 1,
            executor_threads: conf.control.task_workers,
        }
    }

    /// Makes the system for a context. Every context is taken as it is
    /// given; the system holds it, and the plan that follows from it.
    pub fn new(config: SystemConfig<B, M>) -> (system: Result<Self, ArchiveError>)
        ensures
            system is Ok,
            system->Ok_0.spec_context() == config,
            system->Ok_0.spec_plan() == Self::plan_for(&config),
    {
        let plan = Self::start(&config);
        Ok(Self { config, plan })
    }

    /// Plans the start of the background thread for a context.
    pub fn start(conf: &SystemConfig<B, M>) -> (plan: StartPlan)
        ensures
            plan == Self::plan_for(conf),
    {
        StartPlan { start_capacity: 1, kill_capacity: 1, executor_threads: conf.control.task_workers }
    }

    /// The context that the system was made with.
    pub fn context(&self) -> (config: &SystemConfig<B, M>)
        ensures
            *config == self.spec_context(),
    {
        &self.config
    }

    /// The plan that the background thread is started with.
    pub fn plan(&self) -> (plan: StartPlan)
        ensures
            plan == self.spec_plan(),
    {
        self.plan
    }
}

/// Sums up how the background thread ended, from what each executor thread
/// got from the kill channel and what the main loop returned.
pub fn thread_outcome(workers: &Vec<Delivery>, main: Result<(), ArchiveError>) -> (outcome:
    ThreadOutcome)
    ensures
        outcome.senders_dropped == workers@.contains(Delivery::Disconnected),
        outcome.result == main,
{
    let mut dropped = false;
    let mut i: usize = 0;
    while i < workers.len()
        invariant
            i <= workers.len(),
            dropped == workers@.take(i as int).contains(Delivery::Disconnected),
        decreases workers.len() - i,
    {
        let found = match workers[i] {
            Delivery::Disconnected => true,
            Delivery::Delivered => false,
        };
        proof {
            let before = workers@.take(i as int);
            let after = workers@.take(i as int + 1);
            assert(after == before.push(workers@[i as int]));
            if before.contains(Delivery::Disconnected) {
                let k = choose|k: int| 0 <= k < before.len() && before[k] == Delivery::Disconnected;
                assert(after[k] == Delivery::Disconnected);
            }
            if found {
                assert(after[i as int] == Delivery::Disconnected);
            }
        }
        dropped = dropped || found;
        i = i + 1;
    }
    proof {
        assert(workers@.take(workers.len() as int) == workers@);
    }
    ThreadOutcome { senders_dropped: dropped, result: main }
}

/// The number of the attempt after attempt `attempt`; the count starts
/// again at zero when it has run through all of `u64`.
pub open spec fn next_attempt(attempt: u64) -> u64 {
    if attempt == u64::MAX {
        0
    } else {
        (attempt + 1) as u64
    }
}

/// Decides what follows attempt number `attempt` (counted from zero) to send
/// the signal to stop. When the signal could not be sent, every receiver has
/// gone and the thread is joined. When it was taken, the sender waits and
/// tries again; every second attempt, starting with the first, is announced.
pub fn shutdown_step(attempt: u64, sent: bool) -> (step: ShutdownStep)
    ensures
        !sent ==> step == ShutdownStep::Join,
        sent ==> step == (ShutdownStep::Retry {
            announce: attempt % 2 == 0,
            pause_millis: SHUTDOWN_RETRY_MILLIS,
            attempt: next_attempt(attempt),
        }),
{
    if !sent {
        ShutdownStep::Join
    } else {
        let following: u64 = if attempt == u64::MAX {
            0
        } else {
            attempt + 1
        };
        ShutdownStep::Retry {
            announce: attempt % 2 == 0,
            pause_millis: SHUTDOWN_RETRY_MILLIS,
            attempt: following,
        }
    }
}

} // verus!
