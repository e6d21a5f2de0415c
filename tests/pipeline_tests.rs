use input_monitor::batching::Batcher;
use input_monitor::config::Config;
use input_monitor::delivery::{Delivery, DeliveryOutcome, DeliveryPolicy, DeliveryStep, Phase};

/// Drives one delivery against scripted channels; returns the outcome, the
/// broker attempts, the HTTP attempts and the delays asked for.
fn drive(policy: DeliveryPolicy, broker: &[bool], http: &[bool]) -> (DeliveryOutcome, usize, usize, Vec<u64>) {
    let (mut d, mut step) = Delivery::start(policy);
    let (mut nb, mut nh) = (0usize, 0usize);
    let mut delays = Vec::new();
    loop {
        match step {
            DeliveryStep::TryBroker => {
                let ok = broker[nb];
                nb += 1;
                step = d.record(if ok { Ok(()) } else { Err(format!("broker down {}", nb)) });
            }
            DeliveryStep::TryHttp { delay_ms } => {
                delays.push(delay_ms);
                let ok = http[nh];
                nh += 1;
                step = d.record(if ok { Ok(()) } else { Err(format!("status 503 on attempt {}", nh)) });
            }
            DeliveryStep::Done(outcome) => return (outcome, nb, nh, delays),
        }
    }
}

fn policy(broker_live: bool, http_live: bool) -> DeliveryPolicy {
    DeliveryPolicy::from_config(&Config::default(), broker_live, http_live)
}

#[test]
fn fallback_to_http_second_attempt() {
    let (outcome, nb, nh, delays) = drive(policy(true, true), &[false], &[false, true, true]);
    assert!(matches!(outcome, DeliveryOutcome::Delivered));
    assert_eq!(nb, 1);
    assert_eq!(nh, 2);
    assert_eq!(delays, vec![0, 1000]);
}

#[test]
fn exhaustion_reports_last_http_reason() {
    let (outcome, nb, nh, delays) = drive(policy(true, true), &[false], &[false; 10]);
    match outcome {
        DeliveryOutcome::Failed(reason) => assert_eq!(reason, "status 503 on attempt 3"),
        _ => panic!("Expected Failed outcome"),
    }
    assert_eq!(nb, 1);
    assert_eq!(nh, 3);
    assert_eq!(delays, vec![0, 1000, 1000]);
}

#[test]
fn no_channel_is_unsent_success() {
    let (outcome, nb, nh, _) = drive(policy(false, false), &[], &[]);
    assert!(matches!(outcome, DeliveryOutcome::Unsent));
    assert_eq!((nb, nh), (0, 0));
}

#[test]
fn broker_success_needs_no_http() {
    let (outcome, nb, nh, _) = drive(policy(true, true), &[true], &[]);
    assert!(matches!(outcome, DeliveryOutcome::Delivered));
    assert_eq!((nb, nh), (1, 0));
}

#[test]
fn broker_only_failure_reports_broker_reason() {
    let (outcome, nb, nh, _) = drive(policy(true, false), &[false], &[]);
    match outcome {
        DeliveryOutcome::Failed(reason) => assert_eq!(reason, "broker down 1"),
        _ => panic!("Expected Failed outcome"),
    }
    assert_eq!((nb, nh), (1, 0));
}

#[test]
fn http_with_no_attempts_allowed_fails() {
    let mut config = Config::default();
    config.max_retries = 0;
    let (d, step) = Delivery::start(DeliveryPolicy::from_config(&config, false, true));
    assert!(d.phase == Phase::Failed);
    match step {
        DeliveryStep::Done(DeliveryOutcome::Failed(reason)) => assert_eq!(reason, "All output methods failed"),
        _ => panic!("Expected Failed outcome"),
    }
}

#[test]
fn full_batch_flushes_once_in_order() {
    let mut b: Batcher<u32> = Batcher::new(100);
    let mut flushes = Vec::new();
    for i in 0..100u32 {
        if let Some(f) = b.on_event(i) {
            flushes.push(f);
        }
    }
    assert_eq!(flushes.len(), 1);
    assert_eq!(flushes[0], (0..100u32).collect::<Vec<u32>>());
    assert_eq!(b.len(), 0);
    assert!(b.on_idle().is_none());
}

#[test]
fn idle_flushes_partial_batch() {
    let mut b: Batcher<u32> = Batcher::new(100);
    for i in 0..99u32 {
        assert!(b.on_event(i).is_none());
    }
    assert_eq!(b.len(), 99);
    let f = b.on_idle().expect("a flush");
    assert_eq!(f, (0..99u32).collect::<Vec<u32>>());
    assert_eq!(b.len(), 0);
}

#[test]
fn flush_keeps_enqueue_order() {
    let mut b: Batcher<&str> = Batcher::new(3);
    assert!(b.on_event("A").is_none());
    assert!(b.on_event("B").is_none());
    let flushed = b.on_event("C").expect("a flush");
    let mut sink = Vec::new();
    for e in flushed {
        sink.push(e);
    }
    assert_eq!(sink, vec!["A", "B", "C"]);
}

#[test]
fn closing_flushes_remainder() {
    let mut b: Batcher<u8> = Batcher::new(2);
    assert_eq!(b.on_event(1), None);
    assert_eq!(b.on_event(2), Some(vec![1, 2]));
    assert_eq!(b.on_event(3), None);
    assert_eq!(b.batch_size(), 2);
    assert_eq!(b.finish(), Some(vec![3]));
    let empty: Batcher<u8> = Batcher::new(2);
    assert_eq!(empty.finish(), None);
}

#[test]
fn zero_size_flushes_every_event() {
    let mut b: Batcher<u8> = Batcher::new(0);
    assert_eq!(b.on_event(7), Some(vec![7]));
    assert_eq!(b.on_idle(), None);
}
