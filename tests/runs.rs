use pulsar_loadgen::consumer::{ConsumerReaction, ConsumerRun};
use pulsar_loadgen::destination::Destination;
use pulsar_loadgen::message::TestData;
use pulsar_loadgen::producer::{ProducerAction, ProducerRun};

fn topic() -> Destination {
    Destination::Topic { topic: String::from("t") }
}

fn endpoint() -> Destination {
    Destination::Http { endpoint: String::from("http://h/"), auth_token: None }
}

#[test]
fn count_three_size_one_sends_three_in_order() {
    let mut run = ProducerRun::new(3, 1, &topic());
    let mut payloads: Vec<String> = Vec::new();
    let mut lines: Vec<String> = Vec::new();
    loop {
        match run.next_action() {
            ProducerAction::Deliver { index } => {
                assert_eq!(index, payloads.len());
                let m = run.message(index);
                payloads.push(m.data);
                lines.push(run.record_delivery(true).unwrap());
            }
            ProducerAction::Finish => break,
            ProducerAction::Abort => panic!("no delivery failed"),
        }
    }
    assert_eq!(payloads.len(), 3);
    for p in &payloads {
        // a whole number of templates, within one template of 1024 bytes
        assert!(p.len() <= 1024 && p.len() + 25 > 1024);
    }
    assert_ne!(payloads[0], payloads[1]);
    assert_ne!(payloads[1], payloads[2]);
    assert_ne!(payloads[0], payloads[2]);
    assert_eq!(
        lines,
        vec![
            "Sent message 1 of 3 (size: 1KB) to Pulsar topic",
            "Sent message 2 of 3 (size: 1KB) to Pulsar topic",
            "Sent message 3 of 3 (size: 1KB) to Pulsar topic",
        ]
    );
    assert_eq!(run.summary_line(), "Finished sending 3 messages");
}

#[test]
fn zero_count_finishes_at_once() {
    let run = ProducerRun::new(0, 1, &topic());
    assert_eq!(run.next_action(), ProducerAction::Finish);
    assert_eq!(run.summary_line(), "Finished sending 0 messages");
}

#[test]
fn failed_http_delivery_aborts() {
    let mut run = ProducerRun::new(5, 2, &endpoint());
    assert_eq!(run.next_action(), ProducerAction::Deliver { index: 0 });
    assert_eq!(
        run.record_delivery(true).as_deref(),
        Some("Sent message 1 of 5 (size: 2KB) to HTTP endpoint")
    );
    assert_eq!(run.next_action(), ProducerAction::Deliver { index: 1 });
    assert_eq!(run.record_delivery(false), None);
    assert_eq!(run.next_action(), ProducerAction::Abort);
    assert_eq!(run.sent, 1);
}

#[test]
fn consumer_counts_decoded_messages() {
    let mut run = ConsumerRun::new();
    match run.on_message(Some(TestData::new(String::from("a")))) {
        ConsumerReaction::Counted { data, line } => {
            assert_eq!(data, "a");
            assert_eq!(line, "got 1 messages");
        }
        ConsumerReaction::Stop => panic!("message decoded"),
    }
    match run.on_message(Some(TestData::new(String::from("b")))) {
        ConsumerReaction::Counted { line, .. } => assert_eq!(line, "got 2 messages"),
        ConsumerReaction::Stop => panic!("message decoded"),
    }
    assert_eq!(run.received, 2);
}

#[test]
fn consumer_stops_on_malformed_message() {
    let mut run = ConsumerRun::new();
    let _ = run.on_message(Some(TestData::new(String::from("a"))));
    assert!(matches!(run.on_message(None), ConsumerReaction::Stop));
    assert!(run.stopped);
    assert_eq!(run.received, 1);
    assert_eq!(run.count_line(), "got 1 messages");
}
