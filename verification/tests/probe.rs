use netprobe::ipv4::ipv4_string;
use netprobe::record::BenchmarkInfo;
use netprobe::stats::aggregate;
use netprobe::stats::sum_turnaround_times;
use netprobe::stats::RunConfig;
use netprobe::stats::RunError;
use netprobe::stats::Summary;

fn record(client: &str, bytes: [u8; 4], tat: u64) -> BenchmarkInfo {
    BenchmarkInfo::new(client.to_string(), bytes, tat)
}

#[test]
fn renders_loopback() {
    assert_eq!(ipv4_string(&[127, 0, 0, 1]), "127.0.0.1");
}

#[test]
fn renders_all_zero() {
    assert_eq!(ipv4_string(&[0, 0, 0, 0]), "0.0.0.0");
}

#[test]
fn renders_all_max() {
    assert_eq!(ipv4_string(&[255, 255, 255, 255]), "255.255.255.255");
}

#[test]
fn renders_mixed_widths() {
    assert_eq!(ipv4_string(&[192, 168, 4, 77]), "192.168.4.77");
    assert_eq!(ipv4_string(&[10, 0, 0, 1]), "10.0.0.1");
    assert_eq!(ipv4_string(&[8, 65, 100, 254]), "8.65.100.254");
}

#[test]
fn record_holds_inputs() {
    let r = record("192.168.0.7:50001", [127, 0, 0, 1], 50);
    assert_eq!(r.client, "192.168.0.7:50001");
    assert_eq!(r.server, "127.0.0.1");
    assert_eq!(r.turnaround_time, 50);
}

#[test]
fn echoed_bytes_give_equal_server_identifiers() {
    let v: [u8; 4] = [203, 0, 113, 9];
    let records: Vec<BenchmarkInfo> = (0..4)
        .map(|i| record(&format!("client-{}", i), v, i as u64))
        .collect();
    for r in &records {
        assert_eq!(r.server, "203.0.113.9");
    }
}

#[test]
fn sum_of_turnarounds_is_exact() {
    let v = vec![
        record("a", [10, 0, 0, 1], 3),
        record("b", [10, 0, 0, 1], 4),
        record("c", [10, 0, 0, 1], 0),
    ];
    assert_eq!(sum_turnaround_times(&v), 7);
}

#[test]
fn aggregate_uses_truncating_division() {
    let v = vec![record("a", [10, 0, 0, 1], 3), record("b", [10, 0, 0, 1], 4)];
    let s = aggregate(2, 9, &v).unwrap();
    assert_eq!(
        s,
        Summary { total_time_ms: 9, throughput: 4, average_turnaround_ms: 3 }
    );
}

#[test]
fn aggregate_rejects_zero_clients() {
    let v: Vec<BenchmarkInfo> = Vec::new();
    assert_eq!(aggregate(0, 12, &v), Err(RunError::ZeroClients));
}

#[test]
fn aggregate_rejects_missing_records() {
    let v = vec![record("a", [10, 0, 0, 1], 3), record("b", [10, 0, 0, 1], 4)];
    assert_eq!(aggregate(3, 9, &v), Err(RunError::RecordCountMismatch));
}

#[test]
fn config_rejects_zero_clients() {
    assert!(matches!(
        RunConfig::new("127.0.0.1:8085".to_string(), 0, 40),
        Err(RunError::ZeroClients)
    ));
}

#[test]
fn config_keeps_inputs() {
    let c = RunConfig::new("127.0.0.1:8085".to_string(), 5, 40).unwrap();
    assert_eq!(c.host, "127.0.0.1:8085");
    assert_eq!(c.clients, 5);
    assert_eq!(c.probe_byte, 40);
}

#[test]
fn single_delayed_client_scenario() {
    let r = record("127.0.0.1:51044", [127, 0, 0, 1], 53);
    assert_eq!(r.server, "127.0.0.1");
    assert!(r.turnaround_time >= 50);
    let v = vec![r];
    let s = aggregate(1, 55, &v).unwrap();
    assert_eq!(s.total_time_ms, 55);
    assert_eq!(s.throughput, 55);
    assert_eq!(s.average_turnaround_ms, 53);
}

#[test]
fn five_immediate_clients_scenario() {
    let records: Vec<BenchmarkInfo> = (0..5)
        .map(|i| record(&format!("127.0.0.1:{}", 51000 + i), [10, 0, 0, 1], 0))
        .collect();
    for r in &records {
        assert_eq!(r.server, "10.0.0.1");
    }
    for i in 0..records.len() {
        for j in 0..i {
            assert_ne!(records[i].client, records[j].client);
        }
    }
    let s = aggregate(5, 2, &records).unwrap();
    assert_eq!(s.average_turnaround_ms, 0);
    assert_eq!(s.throughput, 0);
    assert_eq!(s.total_time_ms, 2);
}

#[test]
fn average_is_integer_divided_sum_for_each_count() {
    for n in 1..8usize {
        let records: Vec<BenchmarkInfo> = (0..n)
            .map(|i| record(&format!("c{}", i), [10, 0, 0, 1], (7 * i + 2) as u64))
            .collect();
        assert_eq!(records.len(), n);
        let sum: u64 = records.iter().map(|r| r.turnaround_time).sum();
        let s = aggregate(n, 1000, &records).unwrap();
        assert_eq!(s.average_turnaround_ms, sum / n as u64);
        assert_eq!(s.throughput, 1000 / n as u64);
    }
}
