//! Stream-ingestion unit: consumer configuration and the decisions of its
//! run loop. The loop itself (waiting on the pipeline, running the consume
//! task, sleeping between retries) hands each event to `KafkaInRunner::step`
//! and carries out the action it returns.
use crate::retry::RetryPolicy;
use std::collections::HashMap;
use vstd::prelude::*;

verus! {

/// Configuration of a stream consumer unit.
#[derive(Clone, Debug)]
pub struct KafkaIn {
    /// Broker addresses.
    pub brokers: Vec<String>,
    /// Topic to consume from.
    pub topic: String,
    /// Consumer group identifier.
    pub group_id: String,
    pub format: MessageFormat,
    pub consumer_config: KafkaConsumerConfig,
    pub retry_config: RetryConfig,
    /// Optional filter for messages.
    pub message_filter: Option<String>,
}

impl KafkaIn {
    pub fn default_format() -> (r: MessageFormat)
        ensures
            r == MessageFormat::Json,
    {
        MessageFormat::Json
    }
}

/// Format of the messages on the stream.
#[derive(Clone, Debug)]
pub enum MessageFormat {
    Json,
    /// MRT, binary.
    Mrt,
    /// BGP UPDATE messages.
    BgpUpdate,
    /// A format read by the named parser.
    Custom(String),
}

/// Options handed to the stream consumer.
#[derive(Clone, Debug)]
pub struct KafkaConsumerConfig {
    pub auto_offset_reset: String,
    pub enable_auto_commit: bool,
    pub auto_commit_interval_ms: u64,
    pub session_timeout_ms: u64,
    pub fetch_min_bytes: i32,
    pub fetch_max_wait_ms: i32,
    pub additional_properties: HashMap<String, String>,
}

impl KafkaConsumerConfig {
    pub fn default_auto_offset_reset() -> (r: String)
        ensures
            r@ == "latest"@,
    {
        String::from_str("latest")
    }

    pub fn default_enable_auto_commit() -> (r: bool)
        ensures
            r,
    {
        true
    }

    pub fn default_auto_commit_interval_ms() -> (r: u64)
        ensures
            r == 5000,
    {
        5000
    }

    pub fn default_session_timeout_ms() -> (r: u64)
        ensures
            r == 30000,
    {
        30000
    }

    pub fn default_fetch_min_bytes() -> (r: i32)
        ensures
            r == 1,
    {
        1
    }

    pub fn default_fetch_max_wait_ms() -> (r: i32)
        ensures
            r == 500,
    {
        500
    }
}

impl Default for KafkaConsumerConfig {
    fn default() -> (r: Self)
        ensures
            r.auto_offset_reset@ == "latest"@,
            r.enable_auto_commit,
            r.auto_commit_interval_ms == 5000,
            r.session_timeout_ms == 30000,
            r.fetch_min_bytes == 1,
            r.fetch_max_wait_ms == 500,
            r.additional_properties@ == Map::<String, String>::empty(),
    {
        KafkaConsumerConfig {
            auto_offset_reset: Self::default_auto_offset_reset(),
            enable_auto_commit: Self::default_enable_auto_commit(),
            auto_commit_interval_ms: Self::default_auto_commit_interval_ms(),
            session_timeout_ms: Self::default_session_timeout_ms(),
            fetch_min_bytes: Self::default_fetch_min_bytes(),
            fetch_max_wait_ms: Self::default_fetch_max_wait_ms(),
            additional_properties: HashMap::new(),
        }
    }
}

/// Backoff for restarts of the consume task.
#[derive(Clone, Copy, Debug, PartialEq, Eq, Structural)]
pub struct RetryConfig {
    pub max_retries: u32,
    pub initial_delay_ms: u64,
    pub max_delay_ms: u64,
    /// Whole-number factor applied to the delay after each retry.
    pub backoff_multiplier: u64,
}

impl RetryConfig {
    pub open spec fn default_spec() -> RetryConfig {
        RetryConfig { max_retries: 5, initial_delay_ms: 1000, max_delay_ms: 30000, backoff_multiplier: 2 }
    }

    pub fn default_max_retries() -> (r: u32)
        ensures
            r == 5,
    {
        5
    }

    pub fn default_initial_delay_ms() -> (r: u64)
        ensures
            r == 1000,
    {
        1000
    }

    pub fn default_max_delay_ms() -> (r: u64)
        ensures
            r == 30000,
    {
        30000
    }

    pub fn default_backoff_multiplier() -> (r: u64)
        ensures
            r == 2,
    {
        2
    }

    /// The backoff policy these settings describe.
    pub fn policy(&self) -> (r: RetryPolicy)
        ensures
            r == self.policy_spec(),
    {
        RetryPolicy {
            max_retries: self.max_retries,
            initial_delay_ms: self.initial_delay_ms,
            max_delay_ms: self.max_delay_ms,
            backoff_multiplier: self.backoff_multiplier,
        }
    }

    pub open spec fn policy_spec(&self) -> RetryPolicy {
        RetryPolicy {
            max_retries: self.max_retries,
            initial_delay_ms: self.initial_delay_ms,
            max_delay_ms: self.max_delay_ms,
            backoff_multiplier: self.backoff_multiplier,
        }
    }
}

impl Default for RetryConfig {
    fn default() -> (r: Self)
        ensures
            r == RetryConfig::default_spec(),
    {
        RetryConfig {
            max_retries: Self::default_max_retries(),
            initial_delay_ms: Self::default_initial_delay_ms(),
            max_delay_ms: Self::default_max_delay_ms(),
            backoff_multiplier: Self::default_backoff_multiplier(),
        }
    }
}

/// Where the unit stands in its lifecycle.
#[derive(Clone, Copy, Debug, PartialEq, Eq, Structural)]
pub enum RunnerPhase {
    /// Waiting for the pipeline to be ready; control events are served.
    AwaitingReady,
    /// The consume task runs under supervision.
    Running,
    Terminated,
}

/// A signal from the pipeline's control plane.
#[derive(Clone, Copy, Debug, PartialEq, Eq, Structural)]
pub enum ControlEvent {
    /// A new configuration; `same_kind` tells whether it is for a unit of
    /// this kind.
    Reconfigure { same_kind: bool },
    /// A request for the unit's link status.
    ReportStatus,
    Terminate,
}

/// What the run loop observed.
#[derive(Clone, Copy, Debug, PartialEq, Eq, Structural)]
pub enum RunnerEvent {
    /// The pipeline as a whole is ready.
    Ready,
    Control(ControlEvent),
    /// The consume cycle delivered messages without error.
    ConsumeSucceeded,
    /// The consume cycle failed.
    ConsumeFailed,
    /// The consume task ended on its own.
    ConsumeEnded,
}

/// What the run loop does next.
#[derive(Clone, Copy, Debug, PartialEq, Eq, Structural)]
pub enum RunnerAction {
    /// Nothing: keep waiting for events.
    Wait,
    /// Announce the unit as running and start the consume task.
    StartConsumer,
    /// Restart the consume cycle after the delay.
    RestartConsumer { delay_ms: u64 },
    /// Expose the unit's metrics to the requester.
    ReportStatus,
    /// Log that applying a new configuration is not supported, and go on
    /// with the current one.
    ReconfigureUnsupported,
    /// Stop the consume task and leave the loop; `fatal` when the retry
    /// budget ran out.
    Terminate { fatal: bool },
}

/// The state after an event, the retry counter after it, and the action.
pub open spec fn runner_next(
    phase: RunnerPhase,
    attempt: u32,
    policy: RetryPolicy,
    event: RunnerEvent,
) -> (RunnerPhase, u32, RunnerAction) {
    match phase {
        RunnerPhase::Terminated => (phase, attempt, RunnerAction::Wait),
        _ => match event {
            RunnerEvent::Control(ControlEvent::Terminate) => (
                RunnerPhase::Terminated,
                attempt,
                RunnerAction::Terminate { fatal: false },
            ),
            RunnerEvent::Control(ControlEvent::ReportStatus) => (
                phase,
                attempt,
                RunnerAction::ReportStatus,
            ),
            RunnerEvent::Control(ControlEvent::Reconfigure { same_kind }) => (
                phase,
                attempt,
                if same_kind {
                    RunnerAction::ReconfigureUnsupported
                } else {
                    RunnerAction::Wait
                },
            ),
            RunnerEvent::Ready => if phase == RunnerPhase::AwaitingReady {
                (RunnerPhase::Running, 0, RunnerAction::StartConsumer)
            } else {
                (phase, attempt, RunnerAction::Wait)
            },
            RunnerEvent::ConsumeSucceeded => if phase == RunnerPhase::Running {
                (phase, 0, RunnerAction::Wait)
            } else {
                (phase, attempt, RunnerAction::Wait)
            },
            RunnerEvent::ConsumeFailed => if phase != RunnerPhase::Running {
                (phase, attempt, RunnerAction::Wait)
            } else if attempt < policy.max_retries {
                (
                    phase,
                    (attempt + 1) as u32,
                    RunnerAction::RestartConsumer {
                        delay_ms: policy.delay_spec(attempt as nat) as u64,
                    },
                )
            } else {
                (RunnerPhase::Terminated, attempt, RunnerAction::Terminate { fatal: true })
            },
            RunnerEvent::ConsumeEnded => if phase == RunnerPhase::Running {
                (RunnerPhase::Terminated, attempt, RunnerAction::Terminate { fatal: false })
            } else {
                (phase, attempt, RunnerAction::Wait)
            },
        },
    }
}

/// The state after `n` consume failures in a row, and the last action.
pub open spec fn after_failures(
    phase: RunnerPhase,
    attempt: u32,
    policy: RetryPolicy,
    n: nat,
) -> (RunnerPhase, u32, RunnerAction)
    decreases n,
{
    if n == 0 {
        (phase, attempt, RunnerAction::Wait)
    } else {
        let prev = after_failures(phase, attempt, policy, (n - 1) as nat);
        runner_next(prev.0, prev.1, policy, RunnerEvent::ConsumeFailed)
    }
}

/// A running unit whose consume cycle fails every time restarts it after
/// each of the first `max_retries` failures, with the backoff delay of that
/// retry, and terminates with a fatal outcome at the failure after them: one
/// first attempt and `max_retries` retries, none more.
pub proof fn lemma_retry_budget(policy: RetryPolicy, n: nat)
    ensures
        n <= policy.max_retries ==> {
            &&& after_failures(RunnerPhase::Running, 0, policy, n).0 == RunnerPhase::Running
            &&& after_failures(RunnerPhase::Running, 0, policy, n).1 == n
        },
        1 <= n <= policy.max_retries ==> after_failures(RunnerPhase::Running, 0, policy, n).2
            == (RunnerAction::RestartConsumer { delay_ms: policy.delay_spec((n - 1) as nat) as u64 }),
        n == policy.max_retries + 1 ==> {
            &&& after_failures(RunnerPhase::Running, 0, policy, n).0 == RunnerPhase::Terminated
            &&& after_failures(RunnerPhase::Running, 0, policy, n).1 == policy.max_retries
            &&& after_failures(RunnerPhase::Running, 0, policy, n).2 == (RunnerAction::Terminate {
                fatal: true,
            })
        },
    decreases n,
{
    if n > 0 {
        lemma_retry_budget(policy, (n - 1) as nat);
    }
}

/// Drives one stream-ingestion unit through its lifecycle.
pub struct KafkaInRunner {
    config: KafkaIn,
    policy: RetryPolicy,
    phase: RunnerPhase,
    attempt: u32,
}

impl KafkaInRunner {
    pub closed spec fn phase_spec(&self) -> RunnerPhase {
        self.phase
    }

    /// Retries made since the last clean consume cycle.
    pub closed spec fn attempt_spec(&self) -> u32 {
        self.attempt
    }

    pub closed spec fn policy_spec(&self) -> RetryPolicy {
        self.policy
    }

    pub closed spec fn wf(&self) -> bool {
        self.attempt <= self.policy.max_retries
    }

    /// A runner waiting for the pipeline to be ready.
    pub fn new(config: KafkaIn) -> (r: Self)
        ensures
            r.wf(),
            r.phase_spec() == RunnerPhase::AwaitingReady,
            r.attempt_spec() == 0,
            r.policy_spec() == config.retry_config.policy_spec(),
    {
        let policy = config.retry_config.policy();
        KafkaInRunner { config, policy, phase: RunnerPhase::AwaitingReady, attempt: 0 }
    }

    pub closed spec fn config_spec(&self) -> KafkaIn {
        self.config
    }

    pub fn config(&self) -> (r: &KafkaIn)
        ensures
            *r == self.config_spec(),
    {
        &self.config
    }

    pub fn phase(&self) -> (r: RunnerPhase)
        ensures
            r == self.phase_spec(),
    {
        self.phase
    }

    pub fn attempt(&self) -> (r: u32)
        ensures
            r == self.attempt_spec(),
    {
        self.attempt
    }

    /// Takes one event and returns what to do about it.
    pub fn step(&mut self, event: RunnerEvent) -> (r: RunnerAction)
        requires
            old(self).wf(),
        ensures
            final(self).wf(),
            final(self).policy_spec() == old(self).policy_spec(),
            final(self).config_spec() == old(self).config_spec(),
            (final(self).phase_spec(), final(self).attempt_spec(), r) == runner_next(
                old(self).phase_spec(),
                old(self).attempt_spec(),
                old(self).policy_spec(),
                event,
            ),
    {
        if self.phase == RunnerPhase::Terminated {
            return RunnerAction::Wait;
        }
        match event {
            RunnerEvent::Control(ControlEvent::Terminate) => {
                self.phase = RunnerPhase::Terminated;
                RunnerAction::Terminate { fatal: false }
            },
            RunnerEvent::Control(ControlEvent::ReportStatus) => RunnerAction::ReportStatus,
            RunnerEvent::Control(ControlEvent::Reconfigure { same_kind }) => {
                if same_kind {
                    RunnerAction::ReconfigureUnsupported
                } else {
                    RunnerAction::Wait
                }
            },
            RunnerEvent::Ready => {
                if self.phase == RunnerPhase::AwaitingReady {
                    self.phase = RunnerPhase::Running;
                    self.attempt = 0;
                    RunnerAction::StartConsumer
                } else {
                    RunnerAction::Wait
                }
            },
            RunnerEvent::ConsumeSucceeded => {
                if self.phase == RunnerPhase::Running {
                    self.attempt = 0;
                }
                RunnerAction::Wait
            },
            RunnerEvent::ConsumeFailed => {
                if self.phase != RunnerPhase::Running {
                    RunnerAction::Wait
                } else if self.policy.should_retry(self.attempt) {
                    let delay_ms = self.policy.next_delay(self.attempt);
                    self.attempt = self.attempt + 1;
                    RunnerAction::RestartConsumer { delay_ms }
                } else {
                    self.phase = RunnerPhase::Terminated;
                    RunnerAction::Terminate { fatal: true }
                }
            },
            RunnerEvent::ConsumeEnded => {
                if self.phase == RunnerPhase::Running {
                    self.phase = RunnerPhase::Terminated;
                    RunnerAction::Terminate { fatal: false }
                } else {
                    RunnerAction::Wait
                }
            },
        }
    }
}

} // verus!
