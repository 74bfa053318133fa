use rotonda_ingest::kafka_in::{
    ControlEvent, KafkaConsumerConfig, KafkaIn, KafkaInRunner, MessageFormat, RetryConfig,
    RunnerAction, RunnerEvent, RunnerPhase,
};
use rotonda_ingest::retry::RetryPolicy;

fn unit(max_retries: u32) -> KafkaIn {
    let mut retry_config = RetryConfig::default();
    retry_config.max_retries = max_retries;
    KafkaIn {
        brokers: vec!["localhost:9092".to_string()],
        topic: "bgp-updates".to_string(),
        group_id: "rotonda-consumer".to_string(),
        format: KafkaIn::default_format(),
        consumer_config: KafkaConsumerConfig::default(),
        retry_config,
        message_filter: None,
    }
}

#[test]
fn test_default_kafka_config() {
    let config = KafkaConsumerConfig::default();
    assert_eq!(config.auto_offset_reset, "latest");
    assert!(config.enable_auto_commit);
    assert_eq!(config.auto_commit_interval_ms, 5000);
}

#[test]
fn test_retry_config_defaults() {
    let config = RetryConfig::default();
    assert_eq!(config.max_retries, 5);
    assert_eq!(config.initial_delay_ms, 1000);
    assert_eq!(config.max_delay_ms, 30000);
    assert_eq!(config.backoff_multiplier, 2);
}

#[test]
fn consumer_option_defaults() {
    let c = KafkaConsumerConfig::default();
    assert_eq!(c.session_timeout_ms, 30000);
    assert_eq!(c.fetch_min_bytes, 1);
    assert_eq!(c.fetch_max_wait_ms, 500);
    assert!(c.additional_properties.is_empty());
    assert!(matches!(KafkaIn::default_format(), MessageFormat::Json));
}

#[test]
fn backoff_delays() {
    let p = RetryPolicy { max_retries: 5, initial_delay_ms: 1000, max_delay_ms: 30000, backoff_multiplier: 2 };
    let delays: Vec<u64> = (0..7).map(|n| p.next_delay(n)).collect();
    assert_eq!(delays, vec![1000, 2000, 4000, 8000, 16000, 30000, 30000]);
    assert!(p.should_retry(4));
    assert!(!p.should_retry(5));
    let huge = RetryPolicy { max_retries: 1, initial_delay_ms: u64::MAX / 2, max_delay_ms: u64::MAX, backoff_multiplier: 3 };
    assert_eq!(huge.next_delay(1), u64::MAX);
    let capped = RetryPolicy { max_retries: 1, initial_delay_ms: 50, max_delay_ms: 10, backoff_multiplier: 1 };
    assert_eq!(capped.next_delay(0), 10);
    assert_eq!(capped.next_delay(4), 10);
}

#[test]
fn backoff_never_decreases() {
    let p = RetryPolicy { max_retries: 10, initial_delay_ms: 300, max_delay_ms: 5000, backoff_multiplier: 3 };
    let mut last = 0;
    for n in 0..20 {
        let d = p.next_delay(n);
        assert!(d >= last);
        assert!(d <= 5000);
        last = d;
    }
}

#[test]
fn exhausted_retries_terminate_the_unit() {
    let mut r = KafkaInRunner::new(unit(3));
    assert_eq!(r.phase(), RunnerPhase::AwaitingReady);
    assert_eq!(r.step(RunnerEvent::Ready), RunnerAction::StartConsumer);
    let mut attempts = 1;
    let mut delays = vec![];
    loop {
        match r.step(RunnerEvent::ConsumeFailed) {
            RunnerAction::RestartConsumer { delay_ms } => {
                delays.push(delay_ms);
                attempts += 1;
            }
            RunnerAction::Terminate { fatal } => {
                assert!(fatal);
                break;
            }
            other => panic!("unexpected action {:?}", other),
        }
    }
    assert_eq!(attempts, 4);
    assert_eq!(delays, vec![1000, 2000, 4000]);
    assert_eq!(r.phase(), RunnerPhase::Terminated);
    assert_eq!(r.step(RunnerEvent::ConsumeFailed), RunnerAction::Wait);
}

#[test]
fn success_resets_retry_counter() {
    let mut r = KafkaInRunner::new(unit(1));
    r.step(RunnerEvent::Ready);
    assert_eq!(r.step(RunnerEvent::ConsumeFailed), RunnerAction::RestartConsumer { delay_ms: 1000 });
    assert_eq!(r.attempt(), 1);
    assert_eq!(r.step(RunnerEvent::ConsumeSucceeded), RunnerAction::Wait);
    assert_eq!(r.attempt(), 0);
    assert_eq!(r.step(RunnerEvent::ConsumeFailed), RunnerAction::RestartConsumer { delay_ms: 1000 });
    assert_eq!(r.step(RunnerEvent::ConsumeFailed), RunnerAction::Terminate { fatal: true });
}

#[test]
fn control_events() {
    let mut r = KafkaInRunner::new(unit(3));
    assert_eq!(r.step(RunnerEvent::Control(ControlEvent::ReportStatus)), RunnerAction::ReportStatus);
    assert_eq!(r.step(RunnerEvent::ConsumeFailed), RunnerAction::Wait);
    r.step(RunnerEvent::Ready);
    assert_eq!(r.phase(), RunnerPhase::Running);
    assert_eq!(
        r.step(RunnerEvent::Control(ControlEvent::Reconfigure { same_kind: true })),
        RunnerAction::ReconfigureUnsupported
    );
    assert_eq!(
        r.step(RunnerEvent::Control(ControlEvent::Reconfigure { same_kind: false })),
        RunnerAction::Wait
    );
    assert_eq!(
        r.step(RunnerEvent::Control(ControlEvent::Terminate)),
        RunnerAction::Terminate { fatal: false }
    );
    assert_eq!(r.phase(), RunnerPhase::Terminated);
    assert_eq!(r.config().topic, "bgp-updates");
}

#[test]
fn terminate_before_ready() {
    let mut r = KafkaInRunner::new(unit(3));
    assert_eq!(
        r.step(RunnerEvent::Control(ControlEvent::Terminate)),
        RunnerAction::Terminate { fatal: false }
    );
    assert_eq!(r.step(RunnerEvent::Ready), RunnerAction::Wait);
    assert_eq!(r.phase(), RunnerPhase::Terminated);
}

#[test]
fn consume_task_ending_terminates() {
    let mut r = KafkaInRunner::new(unit(3));
    r.step(RunnerEvent::Ready);
    assert_eq!(r.step(RunnerEvent::ConsumeEnded), RunnerAction::Terminate { fatal: false });
}
