use iperf3_rust::error::Error;
use iperf3_rust::message::{Direction, Parameters};
use iperf3_rust::stream_workers::{
    check_start_signal, socket_buffer_size, SignalOutcome, StreamWorker, TcpSample, TransferMeter,
    WorkerMessage, WorkerPhase,
};

fn params(duration: u64, max_length: Option<usize>) -> Parameters {
    Parameters {
        prefer_ipv6: false,
        direction: Direction::ClientToServer,
        duration,
        parallel: 1,
        client_version: "0.1.0".to_string(),
        block_size: 1024,
        no_delay: false,
        socket_buffers: None,
        mss: None,
        interval: 1,
        max_length,
    }
}

#[test]
fn worker_starts_only_on_start_load() {
    assert!(check_start_signal(WorkerMessage::StartLoad).is_ok());
    assert!(matches!(check_start_signal(WorkerMessage::Terminate), Err(Error::WorkerTerminated)));
}

#[test]
fn stream_worker_new_keeps_its_parts() {
    let w = StreamWorker::new(4, "stream", params(1, None), true, 'S', 'R');
    assert_eq!(w.id, 4);
    assert_eq!(w.stream, "stream");
    assert!(w.is_sending);
    assert_eq!(w.sender, 'S');
    assert_eq!(w.receiver, 'R');
}

#[test]
fn socket_buffer_size_clamps_to_u32() {
    assert_eq!(socket_buffer_size(65536), 65536);
    assert_eq!(socket_buffer_size(u32::MAX as usize), u32::MAX);
    assert_eq!(socket_buffer_size(u32::MAX as usize + 1), u32::MAX);
}

/// Runs one round up to the transfer with nothing said by the controller.
fn round(m: &mut TransferMeter, p: &Parameters, elapsed_nanos: u128, moved: Option<usize>) -> bool {
    if !m.check_limits(elapsed_nanos, p) {
        return false;
    }
    assert_eq!(m.on_signal(None), SignalOutcome::Proceed);
    m.record_transfer(moved)
}

#[test]
fn limits_after_duration() {
    let p = params(2, None);
    let mut m = TransferMeter::new(0);
    assert!(m.check_limits(2_000_000_000, &p));
    assert_eq!(m.current_phase(), WorkerPhase::PollSignal);
    let mut m = TransferMeter::new(0);
    assert!(!m.check_limits(2_000_000_001, &p));
    assert_eq!(m.current_phase(), WorkerPhase::Done);
}

#[test]
fn byte_budget_stops_once_reached() {
    let p = params(100, Some(10));
    let mut m = TransferMeter::new(0);
    assert!(round(&mut m, &p, 0, Some(4)));
    assert!(!m.check_interval(0, 1));
    assert!(round(&mut m, &p, 0, Some(5)));
    assert!(!m.check_interval(0, 1));
    // 9 bytes moved: one more round.
    assert!(round(&mut m, &p, 0, Some(1)));
    assert!(!m.check_interval(0, 1));
    // 10 bytes moved: the budget is reached.
    assert!(!m.check_limits(0, &p));
}

#[test]
fn byte_budget_counts_reported_bytes() {
    let p = params(100, Some(10));
    let mut m = TransferMeter::new(0);
    assert!(round(&mut m, &p, 0, Some(10)));
    assert!(m.check_interval(1_000_000_000, 1));
    m.interval_report(None);
    assert_eq!(m.current_phase(), WorkerPhase::CheckLimits);
    assert!(!m.check_limits(0, &p));
}

#[test]
fn terminate_signal_stops_worker() {
    let p = params(100, None);
    let mut m = TransferMeter::new(0);
    assert!(m.check_limits(0, &p));
    assert_eq!(m.on_signal(Some(WorkerMessage::Terminate)), SignalOutcome::Stop);
    assert_eq!(m.current_phase(), WorkerPhase::Done);
    let mut m = TransferMeter::new(0);
    assert!(m.check_limits(0, &p));
    assert_eq!(m.on_signal(Some(WorkerMessage::StartLoad)), SignalOutcome::UnexpectedStart);
    assert_eq!(m.current_phase(), WorkerPhase::Transfer);
}

#[test]
fn closed_connection_stops_and_slow_transfer_continues() {
    let p = params(100, None);
    let mut m = TransferMeter::new(0);
    assert!(round(&mut m, &p, 0, None));
    assert_eq!(m.pending(), 0);
    assert_eq!(m.current_phase(), WorkerPhase::CheckInterval);
    assert!(!m.check_interval(0, 1));
    assert!(!round(&mut m, &p, 0, Some(0)));
    assert_eq!(m.current_phase(), WorkerPhase::Done);
}

#[test]
fn interval_report_moves_pending_bytes() {
    let p = params(100, None);
    let mut m = TransferMeter::new(9);
    assert!(round(&mut m, &p, 0, Some(100)));
    assert!(!m.check_interval(0, 1));
    assert!(round(&mut m, &p, 0, Some(50)));
    assert_eq!(m.pending(), 150);
    assert!(m.check_interval(1_001_000_000, 1));
    let tcp = TcpSample { retransmits: 2, snd_cwnd: 10, snd_mss: 1448 };
    let s = m.interval_report(Some(tcp));
    assert_eq!(s.id, 9);
    assert_eq!(s.index, Some(0));
    assert_eq!(s.duration, 1001);
    assert_eq!(s.bytes_transferred, 150);
    assert_eq!(s.retransmits, Some(2));
    assert_eq!(s.cwnd, Some(14480));
    assert!(!s.is_peer && !s.is_summary);
    assert_eq!(m.pending(), 0);
    assert_eq!(m.reported(), 150);
    assert_eq!(m.report_count(), 1);
}

#[test]
fn summary_sums_interval_reports() {
    let p = params(100, None);
    let mut m = TransferMeter::new(1);
    round(&mut m, &p, 0, Some(10));
    assert!(m.check_interval(1_000_000_000, 1));
    let a = m.interval_report(Some(TcpSample { retransmits: 1, snd_cwnd: 5, snd_mss: 100 }));
    round(&mut m, &p, 0, Some(20));
    assert!(!m.check_interval(0, 1));
    round(&mut m, &p, 0, Some(5));
    assert!(m.check_interval(1_000_000_000, 1));
    let b = m.interval_report(Some(TcpSample { retransmits: 3, snd_cwnd: 7, snd_mss: 100 }));
    round(&mut m, &p, 0, Some(99));
    let total = m.summary(2500);
    assert_eq!(b.index, Some(1));
    assert_eq!(total.bytes_transferred, a.bytes_transferred + b.bytes_transferred);
    assert_eq!(total.bytes_transferred, 35);
    assert_eq!(total.retransmits, Some(4));
    assert_eq!(total.cwnd, Some(12));
    assert_eq!(total.index, None);
    assert_eq!(total.duration, 2500);
    assert!(total.is_summary);
}

#[test]
fn interval_report_without_tcp_info() {
    let p = params(100, None);
    let mut m = TransferMeter::new(2);
    round(&mut m, &p, 0, Some(1));
    assert!(m.check_interval(5_000_000, 0));
    let s = m.interval_report(None);
    assert_eq!(s.retransmits, None);
    assert_eq!(s.cwnd, None);
    assert_eq!(m.summary(5).retransmits, Some(0));
}

#[test]
fn interval_due_at_interval() {
    let p = params(100, None);
    let mut m = TransferMeter::new(0);
    round(&mut m, &p, 0, None);
    assert!(!m.check_interval(999_999_999, 1));
    assert_eq!(m.current_phase(), WorkerPhase::CheckLimits);
    round(&mut m, &p, 0, None);
    assert!(m.check_interval(1_000_000_000, 1));
    assert_eq!(m.current_phase(), WorkerPhase::Report);
}

#[test]
fn interval_report_lasts_as_long_as_checked() {
    let p = params(100, None);
    let mut m = TransferMeter::new(3);
    round(&mut m, &p, 0, Some(8));
    assert!(m.check_interval(2_500_999_999, 2));
    let s = m.interval_report(None);
    assert_eq!(s.duration, 2500);
    assert!(s.duration >= 2 * 1000);
}
