use metrics_relay::collector::{cycle_step, DeliveryOutcome};
use metrics_relay::config::{acknowledgment, server_endpoint, BUFFER_CAPACITY, INTERVAL_SECS};
use metrics_relay::decimal::u64_to_string;
use metrics_relay::sample::MetricSample;
use metrics_relay::sink::{sink_step, ConnectionBuffer, SinkAction, SinkEvent};

#[test]
fn fixed_configuration() {
    assert_eq!(server_endpoint(), "127.0.0.1:8080");
    assert_eq!(acknowledgment(), "Data received\n");
    assert_eq!(BUFFER_CAPACITY, 1024);
    assert_eq!(INTERVAL_SECS, 5);
}

#[test]
fn renders_small_numbers() {
    assert_eq!(u64_to_string(0), "0");
    assert_eq!(u64_to_string(7), "7");
    assert_eq!(u64_to_string(10), "10");
    assert_eq!(u64_to_string(1024), "1024");
}

#[test]
fn renders_largest_number() {
    assert_eq!(u64_to_string(u64::MAX), "18446744073709551615");
}

#[test]
fn payload_matches_template() {
    let s = MetricSample {
        total_memory_kb: 16384256,
        available_memory_kb: 8204812,
        cpu_load_centi_percent: 1275,
    };
    assert_eq!(
        s.format(),
        "Total memory: 16384256 KB\nAvailable memory: 8204812 KB\nCPU load: 12.75%\n"
    );
}

#[test]
fn payload_has_exactly_three_lines() {
    let s = MetricSample {
        total_memory_kb: 1,
        available_memory_kb: 0,
        cpu_load_centi_percent: 10000,
    };
    let text = s.format();
    assert_eq!(text.matches('\n').count(), 3);
    assert!(text.ends_with('\n'));
    let lines: Vec<&str> = text.lines().collect();
    assert_eq!(lines.len(), 3);
    assert!(lines[0].starts_with("Total memory: ") && lines[0].ends_with(" KB"));
    assert!(lines[1].starts_with("Available memory: ") && lines[1].ends_with(" KB"));
    assert!(lines[2].starts_with("CPU load: ") && lines[2].ends_with('%'));
}

#[test]
fn cpu_value_keeps_two_decimals() {
    let zero = MetricSample {
        total_memory_kb: 1,
        available_memory_kb: 1,
        cpu_load_centi_percent: 0,
    };
    assert!(zero.format().contains("CPU load: 0.00%\n"));
    let low = MetricSample {
        total_memory_kb: 1,
        available_memory_kb: 1,
        cpu_load_centi_percent: 3,
    };
    assert!(low.format().contains("CPU load: 0.03%\n"));
    let full = MetricSample {
        total_memory_kb: 1,
        available_memory_kb: 1,
        cpu_load_centi_percent: 10000,
    };
    assert!(full.format().contains("CPU load: 100.00%\n"));
}

#[test]
fn cpu_value_is_not_clamped() {
    let above = MetricSample {
        total_memory_kb: 1,
        available_memory_kb: 1,
        cpu_load_centi_percent: 12345,
    };
    assert!(above.format().contains("CPU load: 123.45%\n"));
}

#[test]
fn short_payload_is_kept_whole() {
    let payload: Vec<u8> = b"hello".to_vec();
    let buf = ConnectionBuffer::from_payload(&payload);
    assert_eq!(buf.len(), 5);
    assert_eq!(buf.decode(), "hello");
}

#[test]
fn payload_at_capacity_is_kept_whole() {
    let payload: Vec<u8> = vec![b'x'; 1024];
    let buf = ConnectionBuffer::from_payload(&payload);
    assert_eq!(buf.len(), 1024);
}

#[test]
fn long_payload_is_truncated() {
    let mut payload: Vec<u8> = Vec::new();
    for i in 0..1500usize {
        payload.push((i % 251) as u8);
    }
    let buf = ConnectionBuffer::from_payload(&payload);
    assert_eq!(buf.len(), 1024);
    let kept = ConnectionBuffer::from_payload(&payload[..1024].to_vec());
    assert_eq!(kept.decode(), buf.decode());
}

#[test]
fn invalid_bytes_decode_lossily() {
    let payload: Vec<u8> = vec![0xff, b'h', b'i'];
    let buf = ConnectionBuffer::from_payload(&payload);
    assert_eq!(buf.decode(), "\u{fffd}hi");
}

#[test]
fn received_payload_is_logged_and_acknowledged() {
    let payload: Vec<u8> = b"hello".to_vec();
    let buf = ConnectionBuffer::from_payload(&payload);
    match sink_step(SinkEvent::Received(buf)) {
        SinkAction::Respond { log_text, reply } => {
            assert_eq!(log_text, "hello");
            assert_eq!(reply, "Data received\n");
        }
        SinkAction::Abandon => panic!("a received payload must be acknowledged"),
    }
}

#[test]
fn empty_read_is_logged_and_acknowledged() {
    let payload: Vec<u8> = Vec::new();
    let buf = ConnectionBuffer::from_payload(&payload);
    assert_eq!(buf.len(), 0);
    match sink_step(SinkEvent::Received(buf)) {
        SinkAction::Respond { log_text, reply } => {
            assert_eq!(log_text, "");
            assert_eq!(reply, "Data received\n");
        }
        SinkAction::Abandon => panic!("an empty read must still be acknowledged"),
    }
}

#[test]
fn failures_abandon_the_connection_only() {
    assert!(matches!(sink_step(SinkEvent::AcceptFailed), SinkAction::Abandon));
    assert!(matches!(sink_step(SinkEvent::ReadFailed), SinkAction::Abandon));
    assert!(matches!(sink_step(SinkEvent::AckWriteFailed), SinkAction::Abandon));
}

#[test]
fn failed_delivery_still_sleeps_and_continues() {
    let after_failure = cycle_step(&DeliveryOutcome::ConnectFailed);
    assert_eq!(after_failure.sleep_secs, 5);
}

#[test]
fn every_outcome_prescribes_the_same_next_cycle() {
    let delivered = cycle_step(&DeliveryOutcome::Delivered);
    let connect_failed = cycle_step(&DeliveryOutcome::ConnectFailed);
    let write_failed = cycle_step(&DeliveryOutcome::WriteFailed);
    assert_eq!(delivered.sleep_secs, connect_failed.sleep_secs);
    assert_eq!(connect_failed.sleep_secs, write_failed.sleep_secs);
    assert_eq!(delivered.sleep_secs, INTERVAL_SECS);
}
