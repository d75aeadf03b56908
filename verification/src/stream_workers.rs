//! Decisions and measurements of a data-stream worker.
//!
//! A worker waits for the controller's signal, then moves data on its stream
//! until the test time or byte budget is used up, reporting what it moved once
//! per interval and a summary at the end. This module holds the worker's
//! counters and every decision it takes; the caller moves the data.

use vstd::prelude::*;

use crate::error::Error;
use crate::message::{Parameters, StreamStats};

verus! {

/// What the controller tells its workers.
#[derive(Debug, Clone, Copy, PartialEq, Eq, Structural)]
pub enum WorkerMessage {
    StartLoad,
    Terminate,
}

/// One data stream and the channels of its worker.
pub struct StreamWorker<Stream, StatsSender, SignalReceiver> {
    pub id: usize,
    pub stream: Stream,
    pub is_sending: bool,
    pub params: Parameters,
    pub sender: StatsSender,
    pub receiver: SignalReceiver,
}

impl<Stream, StatsSender, SignalReceiver> StreamWorker<Stream, StatsSender, SignalReceiver> {
    /// A worker for data stream `id`.
    pub fn new(
        id: usize,
        stream: Stream,
        params: Parameters,
        is_sending: bool,
        sender: StatsSender,
        receiver: SignalReceiver,
    ) -> (w: Self)
        ensures
            w.id == id,
            w.stream == stream,
            w.params == params,
            w.is_sending == is_sending,
            w.sender == sender,
            w.receiver == receiver,
    {
        StreamWorker { id, stream, is_sending, params, sender, receiver }
    }
}

/// A worker only starts on `StartLoad`; any other first signal ends it.
pub fn check_start_signal(signal: WorkerMessage) -> (res: Result<(), Error>)
    ensures
        signal == WorkerMessage::StartLoad ==> res is Ok,
        signal != WorkerMessage::StartLoad ==> res == Err::<(), Error>(Error::WorkerTerminated),
{
    match signal {
        WorkerMessage::StartLoad => Ok(()),
        WorkerMessage::Terminate => Err(Error::WorkerTerminated),
    }
}

/// Nanoseconds in `secs` seconds.
pub open spec fn secs_as_nanos(secs: u64) -> int {
    secs * 1_000_000_000
}

/// The socket buffer size to ask for: the requested size, or `u32::MAX` when it
/// does not fit in 32 bits.
pub fn socket_buffer_size(requested: usize) -> (size: u32)
    ensures
        requested <= u32::MAX ==> size == requested,
        requested > u32::MAX ==> size == u32::MAX,
{
    if requested <= u32::MAX as usize {
        requested as u32
    } else {
        u32::MAX
    }
}

/// What the kernel reports of a TCP connection, as far as the stats use it.
#[derive(Debug, Clone, Copy)]
pub struct TcpSample {
    /// Retransmits of the current segment.
    pub retransmits: u8,
    /// Congestion window, in segments.
    pub snd_cwnd: u32,
    /// Maximum segment size, in bytes.
    pub snd_mss: u32,
}

/// The steps of one round of a worker's loop, in order.
#[derive(Debug, Clone, Copy, PartialEq, Eq, Structural)]
pub enum WorkerPhase {
    /// Check the test time and the byte budget.
    CheckLimits,
    /// See whether the controller said something.
    PollSignal,
    /// Read or write one block.
    Transfer,
    /// See whether an interval report is due.
    CheckInterval,
    /// Make the interval report.
    Report,
    /// The worker has stopped moving data.
    Done,
}

/// What a worker does about the controller's signal.
#[derive(Debug, Clone, Copy, PartialEq, Eq, Structural)]
pub enum SignalOutcome {
    /// Nothing was said: move data.
    Proceed,
    /// A second `StartLoad`: warn, then move data.
    UnexpectedStart,
    /// `Terminate`: stop moving data.
    Stop,
}

/// Whether a worker's test is over after `elapsed_nanos`: the test time of
/// `duration_secs` has passed, or the bytes moved reach the byte budget.
pub open spec fn limits_reached(
    elapsed_nanos: u128,
    duration_secs: u64,
    max_length: Option<usize>,
    moved: int,
) -> bool {
    elapsed_nanos > secs_as_nanos(duration_secs) || match max_length {
        Some(max) => max <= moved,
        None => false,
    }
}

/// Within the test time, a worker with a byte budget keeps moving data exactly
/// while the bytes moved are below the budget.
pub proof fn lemma_byte_budget_ends_load(elapsed_nanos: u128, duration_secs: u64, max: usize, moved: int)
    requires
        elapsed_nanos <= secs_as_nanos(duration_secs),
    ensures
        limits_reached(elapsed_nanos, duration_secs, Some(max), moved) <==> moved >= max,
        limits_reached(elapsed_nanos, duration_secs, None, moved) == false,
{
}

/// Past the test time the limits are reached, whatever the test time, the byte
/// budget and the bytes moved.
pub proof fn lemma_test_time_ends_load(elapsed_nanos: u128, duration_secs: u64, max_length: Option<usize>, moved: int)
    requires
        elapsed_nanos > duration_secs as int * 1_000_000_000,
    ensures
        limits_reached(elapsed_nanos, duration_secs, max_length, moved),
{
}

/// The sum of `amounts`.
pub open spec fn total_of(amounts: Seq<usize>) -> int
    decreases amounts.len(),
{
    if amounts.len() == 0 {
        0
    } else {
        total_of(amounts.drop_last()) + amounts.last()
    }
}

/// Adding an amount adds it to the sum.
pub proof fn lemma_total_of_push(amounts: Seq<usize>, amount: usize)
    ensures
        total_of(amounts.push(amount)) == total_of(amounts) + amount,
{
    assert(amounts.push(amount).drop_last() =~= amounts);
}

/// The counters a worker keeps while it moves data.
pub struct TransferMeter {
    id: usize,
    index: usize,
    bytes_transferred: usize,
    total_bytes_transferred: usize,
    total_retransmits: usize,
    total_cwnd: usize,
    /// The bytes of each interval report made so far.
    reported: Ghost<Seq<usize>>,
    phase: WorkerPhase,
    /// How long the interval had lasted when a report was last found due, in nanoseconds.
    interval_elapsed_nanos: u128,
    /// The report interval that was then checked, in seconds.
    interval_secs: u64,
}

impl TransferMeter {
    /// The reported total is the sum of the interval reports, one per index.
    #[verifier::type_invariant]
    spec fn inv(self) -> bool {
        &&& self.index == self.reported@.len()
        &&& self.total_bytes_transferred == total_of(self.reported@)
        &&& self.phase == WorkerPhase::Report ==> self.interval_elapsed_nanos >= secs_as_nanos(self.interval_secs)
    }

    /// How long the interval had lasted when `check_interval` last ran, in nanoseconds.
    pub closed spec fn checked_interval_nanos(&self) -> u128 {
        self.interval_elapsed_nanos
    }

    /// The report interval that `check_interval` last checked against, in seconds.
    pub closed spec fn checked_interval_secs(&self) -> u64 {
        self.interval_secs
    }

    /// The bytes of each interval report made so far, in order.
    pub closed spec fn report_history(&self) -> Seq<usize> {
        self.reported@
    }

    /// The data stream these counters belong to.
    pub closed spec fn stream_id(&self) -> usize {
        self.id
    }

    /// Number of interval reports made so far.
    pub closed spec fn reports(&self) -> usize {
        self.index
    }

    /// Bytes moved since the last interval report.
    pub closed spec fn pending_bytes(&self) -> usize {
        self.bytes_transferred
    }

    /// Bytes covered by the interval reports made so far.
    pub closed spec fn reported_bytes(&self) -> usize {
        self.total_bytes_transferred
    }

    /// Retransmits summed over the interval reports made so far.
    pub closed spec fn reported_retransmits(&self) -> usize {
        self.total_retransmits
    }

    /// Congestion windows (in segments) summed over the interval reports made so far.
    pub closed spec fn reported_cwnd(&self) -> usize {
        self.total_cwnd
    }

    /// Counters for the worker of stream `id`, all zero.
    pub fn new(id: usize) -> (m: Self)
        ensures
            m.stream_id() == id,
            m.reports() == 0,
            m.pending_bytes() == 0,
            m.reported_bytes() == 0,
            m.reported_retransmits() == 0,
            m.reported_cwnd() == 0,
            m.report_history() == Seq::<usize>::empty(),
            m.phase() == WorkerPhase::CheckLimits,
    {
        TransferMeter {
            id,
            index: 0,
            bytes_transferred: 0,
            total_bytes_transferred: 0,
            total_retransmits: 0,
            total_cwnd: 0,
            reported: Ghost(Seq::empty()),
            phase: WorkerPhase::CheckLimits,
            interval_elapsed_nanos: 0,
            interval_secs: 0,
        }
    }

    /// Bytes moved since the last interval report.
    pub fn pending(&self) -> (n: usize)
        ensures
            n == self.pending_bytes(),
    {
        self.bytes_transferred
    }

    /// Bytes covered by the interval reports made so far.
    pub fn reported(&self) -> (n: usize)
        ensures
            n == self.reported_bytes(),
    {
        self.total_bytes_transferred
    }

    /// Number of interval reports made so far.
    pub fn report_count(&self) -> (n: usize)
        ensures
            n == self.reports(),
    {
        self.index
    }

    /// Retransmits summed over the interval reports made so far.
    pub fn retransmits_total(&self) -> (n: usize)
        ensures
            n == self.reported_retransmits(),
    {
        self.total_retransmits
    }

    /// Congestion windows summed over the interval reports made so far.
    pub fn cwnd_total(&self) -> (n: usize)
        ensures
            n == self.reported_cwnd(),
    {
        self.total_cwnd
    }

    /// Where the worker is in one round of its loop.
    pub closed spec fn phase(&self) -> WorkerPhase {
        self.phase
    }

    /// Where the worker is in one round of its loop.
    pub fn current_phase(&self) -> (phase: WorkerPhase)
        ensures
            phase == self.phase(),
    {
        self.phase
    }

    /// First check of a round: the test is over once the test time has passed
    /// or, with a byte budget, once the bytes moved (reported and pending)
    /// reach it. The worker then stops; otherwise it polls the controller.
    pub fn check_limits(&mut self, elapsed_nanos: u128, params: &Parameters) -> (keep_going: bool)
        requires
            old(self).phase() == WorkerPhase::CheckLimits,
        ensures
            keep_going == !limits_reached(
                elapsed_nanos,
                params.duration,
                params.max_length,
                old(self).reported_bytes() + old(self).pending_bytes(),
            ),
            final(self).phase() == (if keep_going {
                WorkerPhase::PollSignal
            } else {
                WorkerPhase::Done
            }),
            final(self).stream_id() == old(self).stream_id(),
            final(self).reports() == old(self).reports(),
            final(self).pending_bytes() == old(self).pending_bytes(),
            final(self).reported_bytes() == old(self).reported_bytes(),
            final(self).reported_retransmits() == old(self).reported_retransmits(),
            final(self).reported_cwnd() == old(self).reported_cwnd(),
            final(self).report_history() == old(self).report_history(),
    {
        proof {
            use_type_invariant(&*self);
        }
        let timeout_nanos = params.duration as u128 * 1_000_000_000;
        let over = if elapsed_nanos > timeout_nanos {
            true
        } else {
            match params.max_length {
                Some(max) => max <= self.total_bytes_transferred || max
                    - self.total_bytes_transferred <= self.bytes_transferred,
                None => false,
            }
        };
        self.phase = if over {
            WorkerPhase::Done
        } else {
            WorkerPhase::PollSignal
        };
        !over
    }

    /// Second step of a round: what the controller said, if anything. `Terminate`
    /// stops the worker; otherwise it moves data next.
    pub fn on_signal(&mut self, signal: Option<WorkerMessage>) -> (outcome: SignalOutcome)
        requires
            old(self).phase() == WorkerPhase::PollSignal,
        ensures
            outcome == (match signal {
                Some(WorkerMessage::Terminate) => SignalOutcome::Stop,
                Some(WorkerMessage::StartLoad) => SignalOutcome::UnexpectedStart,
                None => SignalOutcome::Proceed,
            }),
            final(self).phase() == (if outcome == SignalOutcome::Stop {
                WorkerPhase::Done
            } else {
                WorkerPhase::Transfer
            }),
            final(self).stream_id() == old(self).stream_id(),
            final(self).reports() == old(self).reports(),
            final(self).pending_bytes() == old(self).pending_bytes(),
            final(self).reported_bytes() == old(self).reported_bytes(),
            final(self).reported_retransmits() == old(self).reported_retransmits(),
            final(self).reported_cwnd() == old(self).reported_cwnd(),
            final(self).report_history() == old(self).report_history(),
    {
        proof {
            use_type_invariant(&*self);
        }
        match signal {
            Some(WorkerMessage::Terminate) => {
                self.phase = WorkerPhase::Done;
                SignalOutcome::Stop
            },
            Some(WorkerMessage::StartLoad) => {
                self.phase = WorkerPhase::Transfer;
                SignalOutcome::UnexpectedStart
            },
            None => {
                self.phase = WorkerPhase::Transfer;
                SignalOutcome::Proceed
            },
        }
    }

    /// Third step of a round: counts one read or write that moved `moved` bytes,
    /// `None` when it took too long and moved nothing. A count of zero means
    /// the peer closed the connection and the worker stops.
    pub fn record_transfer(&mut self, moved: Option<usize>) -> (keep_going: bool)
        requires
            old(self).phase() == WorkerPhase::Transfer,
            moved matches Some(n) ==> old(self).pending_bytes() + n <= usize::MAX,
        ensures
            keep_going == !(moved == Some(0usize)),
            final(self).phase() == (if keep_going {
                WorkerPhase::CheckInterval
            } else {
                WorkerPhase::Done
            }),
            final(self).pending_bytes() == old(self).pending_bytes() + match moved {
                Some(n) => n as int,
                None => 0int,
            },
            final(self).stream_id() == old(self).stream_id(),
            final(self).reports() == old(self).reports(),
            final(self).reported_bytes() == old(self).reported_bytes(),
            final(self).reported_retransmits() == old(self).reported_retransmits(),
            final(self).reported_cwnd() == old(self).reported_cwnd(),
            final(self).report_history() == old(self).report_history(),
    {
        proof {
            use_type_invariant(&*self);
        }
        match moved {
            Some(bytes_count) => if bytes_count > 0 {
                self.bytes_transferred = self.bytes_transferred + bytes_count;
                self.phase = WorkerPhase::CheckInterval;
                true
            } else {
                self.phase = WorkerPhase::Done;
                false
            },
            None => {
                self.phase = WorkerPhase::CheckInterval;
                true
            },
        }
    }

    /// Last step of a round: a report is due once the interval has lasted
    /// `interval_secs` seconds; otherwise the next round begins.
    pub fn check_interval(&mut self, elapsed_in_interval_nanos: u128, interval_secs: u64) -> (due: bool)
        requires
            old(self).phase() == WorkerPhase::CheckInterval,
        ensures
            due == (elapsed_in_interval_nanos >= secs_as_nanos(interval_secs)),
            final(self).phase() == (if due {
                WorkerPhase::Report
            } else {
                WorkerPhase::CheckLimits
            }),
            final(self).stream_id() == old(self).stream_id(),
            final(self).reports() == old(self).reports(),
            final(self).pending_bytes() == old(self).pending_bytes(),
            final(self).reported_bytes() == old(self).reported_bytes(),
            final(self).reported_retransmits() == old(self).reported_retransmits(),
            final(self).reported_cwnd() == old(self).reported_cwnd(),
            final(self).report_history() == old(self).report_history(),
            final(self).checked_interval_nanos() == elapsed_in_interval_nanos,
            final(self).checked_interval_secs() == interval_secs,
    {
        proof {
            use_type_invariant(&*self);
        }
        self.interval_elapsed_nanos = elapsed_in_interval_nanos;
        self.interval_secs = interval_secs;
        let due = elapsed_in_interval_nanos >= interval_secs as u128 * 1_000_000_000;
        self.phase = if due {
            WorkerPhase::Report
        } else {
            WorkerPhase::CheckLimits
        };
        due
    }

    /// The report for the interval that just ended, as long as `check_interval`
    /// found it (in whole milliseconds); the bytes moved in it move to the
    /// reported total.
    pub fn interval_report(&mut self, tcp: Option<TcpSample>) -> (stats: StreamStats)
        requires
            old(self).phase() == WorkerPhase::Report,
            old(self).reports() < usize::MAX,
            old(self).reported_bytes() + old(self).pending_bytes() <= usize::MAX,
            tcp matches Some(t) ==> {
                &&& old(self).reported_retransmits() + t.retransmits <= usize::MAX
                &&& old(self).reported_cwnd() + t.snd_cwnd <= usize::MAX
                &&& t.snd_cwnd * t.snd_mss <= usize::MAX
            },
        ensures
            stats.id == old(self).stream_id(),
            stats.index == Some(old(self).reports()),
            stats.duration == (old(self).checked_interval_nanos() / 1_000_000) as u64,
            old(self).checked_interval_nanos() / 1_000_000 <= u64::MAX ==> stats.duration
                >= old(self).checked_interval_secs() * 1000,
            stats.bytes_transferred == old(self).pending_bytes(),
            stats.retransmits == (match tcp {
                Some(t) => Some(t.retransmits as usize),
                None => None::<usize>,
            }),
            stats.cwnd == (match tcp {
                Some(t) => Some((t.snd_cwnd * t.snd_mss) as usize),
                None => None::<usize>,
            }),
            !stats.is_peer,
            !stats.is_summary,
            final(self).stream_id() == old(self).stream_id(),
            final(self).reports() == old(self).reports() + 1,
            final(self).pending_bytes() == 0,
            final(self).reported_bytes() == old(self).reported_bytes() + old(self).pending_bytes(),
            final(self).reported_retransmits() == old(self).reported_retransmits() + match tcp {
                Some(t) => t.retransmits as int,
                None => 0int,
            },
            final(self).reported_cwnd() == old(self).reported_cwnd() + match tcp {
                Some(t) => t.snd_cwnd as int,
                None => 0int,
            },
            final(self).report_history() == old(self).report_history().push(stats.bytes_transferred),
            final(self).phase() == WorkerPhase::CheckLimits,
            final(self).checked_interval_nanos() == old(self).checked_interval_nanos(),
            final(self).checked_interval_secs() == old(self).checked_interval_secs(),
    {
        proof {
            use_type_invariant(&*self);
            lemma_total_of_push(self.reported@, self.bytes_transferred);
            let nanos = self.interval_elapsed_nanos;
            let secs = self.interval_secs;
            assert(nanos / 1_000_000 >= secs * 1000) by (nonlinear_arith)
                requires
                    nanos >= secs * 1_000_000_000,
            ;
        }
        let duration_millis = self.interval_elapsed_nanos / 1_000_000;
        let stats = match tcp {
            Some(t) => {
                self.total_retransmits = self.total_retransmits + t.retransmits as usize;
                self.total_cwnd = self.total_cwnd + t.snd_cwnd as usize;
                StreamStats {
                    id: self.id,
                    index: Some(self.index),
                    duration: #[verifier::truncate] (duration_millis as u64),
                    bytes_transferred: self.bytes_transferred,
                    retransmits: Some(t.retransmits as usize),
                    cwnd: Some(t.snd_cwnd as usize * t.snd_mss as usize),
                    is_peer: false,
                    is_summary: false,
                }
            },
            None => StreamStats {
                id: self.id,
                index: Some(self.index),
                duration: #[verifier::truncate] (duration_millis as u64),
                bytes_transferred: self.bytes_transferred,
                retransmits: None,
                cwnd: None,
                is_peer: false,
                is_summary: false,
            },
        };
        let reported = Ghost(self.reported@.push(self.bytes_transferred));
        *self = TransferMeter {
            id: self.id,
            index: self.index + 1,
            bytes_transferred: 0,
            total_bytes_transferred: self.total_bytes_transferred + self.bytes_transferred,
            total_retransmits: self.total_retransmits,
            total_cwnd: self.total_cwnd,
            reported,
            phase: WorkerPhase::CheckLimits,
            interval_elapsed_nanos: self.interval_elapsed_nanos,
            interval_secs: self.interval_secs,
        };
        stats
    }

    /// The summary of the whole test, `duration_millis` long: the totals of the
    /// interval reports.
    pub fn summary(&self, duration_millis: u128) -> (stats: StreamStats)
        ensures
            stats.id == self.stream_id(),
            stats.index == None::<usize>,
            stats.duration == duration_millis as u64,
            stats.bytes_transferred == self.reported_bytes(),
            stats.bytes_transferred == total_of(self.report_history()),
            stats.retransmits == Some(self.reported_retransmits()),
            stats.cwnd == Some(self.reported_cwnd()),
            !stats.is_peer,
            stats.is_summary,
    {
        proof {
            use_type_invariant(self);
        }
        StreamStats {
            id: self.id,
            index: None,
            duration: #[verifier::truncate] (duration_millis as u64),
            bytes_transferred: self.total_bytes_transferred,
            retransmits: Some(self.total_retransmits),
            cwnd: Some(self.total_cwnd),
            is_peer: false,
            is_summary: true,
        }
    }
}

} // verus!
