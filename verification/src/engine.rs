//! The decision core of the processing loop.
//!
//! The loop itself lives with the process that owns the threads: it
//! blocks on events, makes the network round trips and sleeps the
//! backoffs. Everything it decides is here, verified: which report is
//! submitted next and with which payload, what one outcome does to the
//! queue, when a report is dropped, how long the backoff is, and how
//! the state machine moves between idle, draining, shutdown and
//! stopped.
//!
//! One submission cycle is two calls: [`ReportProcessor::prepare_attempt`]
//! builds the request for the front report's next attempt, and, once
//! the driver has the outcome of the round trip,
//! [`ReportProcessor::handle_outcome`] applies it. The contracts tie
//! each cycle to one step of the specification-level [`run_model`], on
//! which the ordering and retry laws at the end of this module are
//! proved.

use vstd::prelude::*;

use crate::container::{build_replay_container, compress, container_bytes, gzip_of};
use crate::fingerprint::{is_known_desync, is_known_desync_iso, FingerprintCell};
use crate::payload::{build_request_for_attempt, report_request_bytes};
use crate::queue::{queue_wf, GameReporterQueue, MAX_REPORT_ATTEMPTS};
use crate::report::{GameReport, GameReportV, UserInfo, UserInfoV};
use crate::response::{OutcomeV, SubmitOutcome};

verus! {

/// The events the processing loop blocks on.
#[derive(Debug, Clone, Copy, PartialEq, Eq, Structural)]
pub enum ProcessingEvent {
    /// A producer enqueued a report.
    ReportAvailable,
    /// The reporter is going away: drain once, with one attempt each.
    Shutdown,
}

/// The states of the processing loop.
#[derive(Debug, Clone, Copy, PartialEq, Eq, Structural)]
pub enum ProcessingState {
    /// Blocked on the event channel.
    Idle,
    /// Actively popping and sending.
    Draining,
    /// Terminal drain with the attempt ceiling reduced to one.
    ShuttingDown,
    /// Fully drained after shutdown; terminal.
    Stopped,
}

/// What the driver must do after one submission cycle.
#[derive(Debug)]
pub enum CycleAction {
    /// The report stays at the front: sleep this long, then retry it.
    Retry { backoff_ms: u64 },
    /// The report spent its last allowed attempt and was dropped.
    Dropped,
    /// The report was accepted; there is nothing to upload.
    Done,
    /// The report was accepted: put this body to the signed URL.
    Upload { url: String, body: Vec<u8> },
}

/// The attempt ceiling: one attempt during shutdown, else the fixed
/// maximum.
pub open spec fn max_attempts_spec(state: ProcessingState) -> int {
    if state is ShuttingDown {
        1
    } else {
        MAX_REPORT_ATTEMPTS as int
    }
}

/// The backoff before the next retry: none after the last allowed
/// attempt, else 100 ms per attempt already made.
pub open spec fn backoff_ms_spec(attempts_made: int, max: int) -> int {
    if attempts_made >= max {
        0
    } else {
        attempts_made * 100
    }
}

/// One resolution step of the queue: the front report is charged the
/// attempt; success or exhaustion removes it, and a retryable failure
/// leaves it at the front with the raised counter.
pub open spec fn resolve_queue(q: Seq<GameReportV>, max: int, o: OutcomeV) -> Seq<GameReportV>
    recommends
        q.len() > 0,
{
    if o is Success {
        q.drop_first()
    } else if q[0].attempts + 1 >= max {
        q.drop_first()
    } else {
        q.update(0, q[0].bump_attempts())
    }
}

/// The mathematical value of a [`ReportProcessor`].
pub struct ProcessorV {
    pub queue: Seq<GameReportV>,
    pub state: ProcessingState,
    pub identity: UserInfoV,
    pub fingerprint: Option<Seq<char>>,
}

impl ProcessorV {
    /// Every queued report still has attempts left and a replay that
    /// fits the container frame.
    pub open spec fn wf(self) -> bool {
        queue_wf(self.queue)
    }
}

/// The state machine's move on one event.
pub open spec fn event_transition(s: ProcessingState, e: ProcessingEvent) -> ProcessingState {
    match e {
        ProcessingEvent::ReportAvailable => if s is Idle {
            ProcessingState::Draining
        } else {
            s
        },
        ProcessingEvent::Shutdown => if s is Stopped {
            ProcessingState::Stopped
        } else {
            ProcessingState::ShuttingDown
        },
    }
}

/// The state machine's move once the queue has fully drained.
pub open spec fn drained_transition(s: ProcessingState) -> ProcessingState {
    match s {
        ProcessingState::Draining => ProcessingState::Idle,
        ProcessingState::ShuttingDown => ProcessingState::Stopped,
        _ => s,
    }
}

/// The decision core: the pending reports, the loop state, the user
/// identity and the fingerprint gate. The driver around it owns the
/// lock, the event channel, the clock and the network.
#[derive(Debug)]
pub struct ReportProcessor {
    queue: GameReporterQueue,
    state: ProcessingState,
    identity: UserInfo,
    fingerprint: FingerprintCell,
}

impl View for ReportProcessor {
    type V = ProcessorV;

    closed spec fn view(&self) -> ProcessorV {
        ProcessorV {
            queue: self.queue@,
            state: self.state,
            identity: self.identity@,
            fingerprint: self.fingerprint@,
        }
    }
}

impl ReportProcessor {
    /// A fresh processor: idle, nothing queued, fingerprint pending.
    pub fn new(identity: UserInfo) -> (r: Self)
        ensures
            r@.queue == Seq::<GameReportV>::empty(),
            r@.state is Idle,
            r@.identity == identity@,
            r@.fingerprint is None,
            r@.wf(),
    {
        ReportProcessor {
            queue: GameReporterQueue::new(),
            state: ProcessingState::Idle,
            identity,
            fingerprint: FingerprintCell::new(),
        }
    }

    /// Adds a new report to the back of the queue. A report is handed
    /// over before its first attempt, with a replay that fits the
    /// container's four-byte length field.
    pub fn add_report(&mut self, report: GameReport)
        requires
            report@.attempts == 0,
            report@.replay_data.len() <= u32::MAX,
            old(self)@.wf(),
        ensures
            final(self)@ == (ProcessorV { queue: old(self)@.queue.push(report@), ..old(self)@ }),
            final(self)@.wf(),
    {
        self.queue.add_report(report);
    }

    /// Resolves the fingerprint (first write wins) and returns whether
    /// it names a game image known to cause desyncs; the caller raises
    /// the single user-visible warning, and reporting goes on either
    /// way.
    pub fn resolve_fingerprint(&mut self, hash: String) -> (warn: bool)
        ensures
            final(self)@ == (ProcessorV {
                fingerprint: if old(self)@.fingerprint is None {
                    Some(hash@)
                } else {
                    old(self)@.fingerprint
                },
                ..old(self)@
            }),
            warn == is_known_desync(hash@),
    {
        let warn = is_known_desync_iso(hash.as_str());
        let _ = self.fingerprint.set(hash);
        warn
    }

    /// The loop state.
    pub fn state(&self) -> (r: ProcessingState)
        ensures
            r == self@.state,
    {
        self.state
    }

    /// How many reports are pending.
    pub fn pending(&self) -> (r: usize)
        ensures
            r == self@.queue.len(),
    {
        self.queue.len()
    }

    /// Whether the fingerprint has resolved. An unresolved fingerprint
    /// means "not yet ready to submit", never an error.
    pub fn fingerprint_ready(&self) -> (r: bool)
        ensures
            r == (self@.fingerprint is Some),
    {
        self.fingerprint.is_set()
    }

    /// Applies one event from the channel: a report announcement wakes
    /// an idle loop into draining; a shutdown forces the terminal
    /// drain, wherever the loop stood short of stopped.
    pub fn on_event(&mut self, event: ProcessingEvent)
        ensures
            final(self)@ == (ProcessorV {
                state: event_transition(old(self)@.state, event),
                ..old(self)@
            }),
    {
        match event {
            ProcessingEvent::ReportAvailable => {
                if self.state == ProcessingState::Idle {
                    self.state = ProcessingState::Draining;
                }
            },
            ProcessingEvent::Shutdown => {
                if !(self.state == ProcessingState::Stopped) {
                    self.state = ProcessingState::ShuttingDown;
                }
            },
        }
    }

    /// Applies the move for a fully drained queue: draining goes back
    /// to idle, a shutdown drain stops for good.
    pub fn on_drained(&mut self)
        requires
            old(self)@.queue.len() == 0,
        ensures
            final(self)@ == (ProcessorV {
                state: drained_transition(old(self)@.state),
                ..old(self)@
            }),
    {
        if self.state == ProcessingState::Draining {
            self.state = ProcessingState::Idle;
        } else if self.state == ProcessingState::ShuttingDown {
            self.state = ProcessingState::Stopped;
        }
    }

    /// Whether a submission cycle can run now: the loop is draining
    /// (normally or for shutdown), work is pending, and the
    /// fingerprint gate is open.
    pub fn ready_to_submit(&self) -> (r: bool)
        ensures
            r == ((self@.state is Draining || self@.state is ShuttingDown) && self@.queue.len() > 0
                && self@.fingerprint is Some),
    {
        (self.state == ProcessingState::Draining || self.state == ProcessingState::ShuttingDown)
            && self.queue.len() > 0 && self.fingerprint.is_set()
    }

    /// Builds the request body for the front report's next attempt:
    /// the wire names the attempt being made, one more than the
    /// report has been charged so far. Read-only: the report is
    /// charged only when the outcome comes back.
    pub fn prepare_attempt(&self) -> (r: Vec<u8>)
        requires
            self@.queue.len() > 0,
            self@.fingerprint is Some,
            self@.wf(),
        ensures
            r@ == report_request_bytes(
                self@.queue[0].bump_attempts(),
                self@.fingerprint->0,
                self@.identity,
            ),
    {
        let front = self.queue.front();
        let fp = self.fingerprint.get().unwrap();
        build_request_for_attempt(front, front.attempts + 1, fp.as_str(), &self.identity)
    }

    /// Applies the outcome of one round trip for the front report:
    /// charges the attempt, and resolves it as one step of
    /// [`resolve_queue`]. On success the report leaves the queue, and
    /// if a signed URL came back the action orders exactly one upload,
    /// of the report's replay bytes framed and gzipped, to that URL.
    /// On failure the report leaves the queue only when this was its
    /// last allowed attempt; otherwise it stays at the front, and the
    /// action names the linear backoff to sleep before the retry.
    pub fn handle_outcome(&mut self, outcome: SubmitOutcome) -> (a: CycleAction)
        requires
            old(self)@.queue.len() > 0,
            old(self)@.state is Draining || old(self)@.state is ShuttingDown,
            old(self)@.wf(),
        ensures
            final(self)@ == (ProcessorV {
                queue: resolve_queue(
                    old(self)@.queue,
                    max_attempts_spec(old(self)@.state),
                    outcome@,
                ),
                ..old(self)@
            }),
            final(self)@.wf(),
            (outcome@ is Failure ==> {
                let made = old(self)@.queue[0].attempts + 1;
                let max = max_attempts_spec(old(self)@.state);
                if made >= max {
                    a is Dropped
                } else {
                    a matches CycleAction::Retry { backoff_ms } && backoff_ms == backoff_ms_spec(
                        made,
                        max,
                    )
                }
            }),
            (outcome@ matches OutcomeV::Success { upload_url: None } ==> a is Done),
            (outcome@ matches OutcomeV::Success { upload_url: Some(u) } ==> {
                let gz = gzip_of(container_bytes(old(self)@.queue[0].replay_data));
                a matches CycleAction::Upload { url, body } && url@ == u && body@ == gz
                    && body@.len() >= 10 && body@[0] == 0x1f && body@[1] == 0x8b
            }),
    {
        let max: u32 = if self.state == ProcessingState::ShuttingDown {
            1
        } else {
            MAX_REPORT_ATTEMPTS
        };
        match outcome {
            SubmitOutcome::Success { upload_url } => {
                let report = self.queue.drain_front().unwrap();
                match upload_url {
                    Some(url) => {
                        let framed = build_replay_container(&report.replay_data);
                        let body = compress(&framed);
                        CycleAction::Upload { url, body }
                    },
                    None => CycleAction::Done,
                }
            },
            _ => {
                let made = self.queue.front().attempts + 1;
                if made >= max {
                    let _ = self.queue.drain_front();
                    CycleAction::Dropped
                } else {
                    self.queue.bump_front_attempts();
                    CycleAction::Retry { backoff_ms: (made as u64) * 100 }
                }
            },
        }
    }
}

/// What one drain run did: every submission made (each report with the
/// counter it was charged), every report dropped after exhausting its
/// attempts, and what is left queued when the outcomes run out.
pub struct RunTrace {
    pub submissions: Seq<GameReportV>,
    pub dropped: Seq<GameReportV>,
    pub remaining: Seq<GameReportV>,
}

/// The specification-level drain run: starting from queue `q`, one
/// submission cycle per outcome in `outs`, under attempt ceiling
/// `max`, exactly as the contracts of [`ReportProcessor::prepare_attempt`]
/// and [`ReportProcessor::handle_outcome`] step the processor.
pub open spec fn run_model(q: Seq<GameReportV>, outs: Seq<OutcomeV>, max: int) -> RunTrace
    decreases outs.len(),
{
    if q.len() == 0 || outs.len() == 0 {
        RunTrace { submissions: Seq::empty(), dropped: Seq::empty(), remaining: q }
    } else {
        let sub = q[0].bump_attempts();
        let tail = run_model(resolve_queue(q, max, outs[0]), outs.drop_first(), max);
        let dropped_now: Seq<GameReportV> = if !(outs[0] is Success) && q[0].attempts + 1 >= max {
            seq![sub]
        } else {
            Seq::empty()
        };
        RunTrace {
            submissions: seq![sub] + tail.submissions,
            dropped: dropped_now + tail.dropped,
            remaining: tail.remaining,
        }
    }
}

/// Every report of a queue, with the counter its first submission
/// would carry.
pub open spec fn bumped_all(q: Seq<GameReportV>) -> Seq<GameReportV> {
    q.map_values(|r: GameReportV| r.bump_attempts())
}

/// When every submission succeeds on its first attempt, the drain
/// submits the queued reports exactly in queue order, drops none, and
/// empties the queue.
pub proof fn law_fifo_order(q: Seq<GameReportV>, outs: Seq<OutcomeV>, max: int)
    requires
        outs.len() == q.len(),
        forall|i: int| 0 <= i < outs.len() ==> (#[trigger] outs[i]) is Success,
        max >= 1,
    ensures
        run_model(q, outs, max).submissions == bumped_all(q),
        run_model(q, outs, max).dropped == Seq::<GameReportV>::empty(),
        run_model(q, outs, max).remaining == Seq::<GameReportV>::empty(),
    decreases q.len(),
{
    if q.len() == 0 {
        assert(run_model(q, outs, max).submissions =~= bumped_all(q));
    } else {
        assert(outs[0] is Success);
        assert(resolve_queue(q, max, outs[0]) == q.drop_first());
        law_fifo_order(q.drop_first(), outs.drop_first(), max);
        assert(run_model(q, outs, max).submissions =~= bumped_all(q));
        assert(run_model(q, outs, max).dropped =~= Seq::<GameReportV>::empty());
    }
}

/// A report that fails its first attempts and succeeds within the
/// ceiling is never dropped, is charged attempts one past another, and
/// no later-queued report is submitted before its success: the run
/// continues exactly as the run of the rest of the queue.
pub proof fn law_retry_preserves_order(q: Seq<GameReportV>, outs: Seq<OutcomeV>, n: int, max: int)
    requires
        q.len() > 0,
        1 <= n,
        q[0].attempts + n <= max,
        max <= u32::MAX,
        outs.len() >= n,
        forall|i: int| 0 <= i < n - 1 ==> !((#[trigger] outs[i]) is Success),
        outs[n - 1] is Success,
    ensures
        run_model(q, outs, max).submissions == Seq::new(
            n as nat,
            |i: int| GameReportV { attempts: (q[0].attempts + i + 1) as u32, ..q[0] },
        ) + run_model(q.drop_first(), outs.skip(n), max).submissions,
        run_model(q, outs, max).dropped == run_model(q.drop_first(), outs.skip(n), max).dropped,
        run_model(q, outs, max).remaining == run_model(q.drop_first(), outs.skip(n), max).remaining,
    decreases n,
{
    if n == 1 {
        assert(outs[0] is Success);
        assert(resolve_queue(q, max, outs[0]) == q.drop_first());
        assert(outs.drop_first() =~= outs.skip(1));
        assert(run_model(q, outs, max).submissions =~= Seq::new(
            1nat,
            |i: int| GameReportV { attempts: (q[0].attempts + i + 1) as u32, ..q[0] },
        ) + run_model(q.drop_first(), outs.skip(1), max).submissions);
        assert(run_model(q, outs, max).dropped =~= run_model(
            q.drop_first(),
            outs.skip(1),
            max,
        ).dropped);
    } else {
        assert(!(outs[0] is Success));
        assert(q[0].attempts + 1 < max);
        let q2 = q.update(0, q[0].bump_attempts());
        assert(resolve_queue(q, max, outs[0]) == q2);
        assert(q2[0] == q[0].bump_attempts());
        assert(q2[0].attempts + (n - 1) <= max);
        let outs2 = outs.drop_first();
        assert(forall|i: int|
            0 <= i < n - 2 ==> !((#[trigger] outs2[i]) is Success)) by {
            assert(forall|i: int| 0 <= i < n - 2 ==> outs2[i] == outs[i + 1]);
        }
        assert(outs2[n - 2] == outs[n - 1]);
        law_retry_preserves_order(q2, outs2, n - 1, max);
        assert(q2.drop_first() =~= q.drop_first());
        assert(outs2.skip(n - 1) =~= outs.skip(n));
        let tail = run_model(q.drop_first(), outs.skip(n), max);
        assert(run_model(q2, outs2, max).submissions == Seq::new(
            (n - 1) as nat,
            |i: int| GameReportV { attempts: (q2[0].attempts + i + 1) as u32, ..q2[0] },
        ) + tail.submissions);
        let ghost lhs = seq![q[0].bump_attempts()] + Seq::new(
            (n - 1) as nat,
            |j: int| GameReportV { attempts: (q2[0].attempts + j + 1) as u32, ..q2[0] },
        );
        let ghost rhs = Seq::new(
            n as nat,
            |j: int| GameReportV { attempts: (q[0].attempts + j + 1) as u32, ..q[0] },
        );
        assert forall|i: int| 0 <= i < n implies #[trigger] lhs[i] == rhs[i] by {
            if i > 0 {
                assert((GameReportV {
                    attempts: (q2[0].attempts + (i - 1) + 1) as u32,
                    ..q2[0]
                }) == (GameReportV { attempts: (q[0].attempts + i + 1) as u32, ..q[0] }));
            }
        }
        assert(lhs =~= rhs);
        assert(run_model(q, outs, max).submissions =~= rhs + tail.submissions);
        assert(run_model(q, outs, max).dropped =~= tail.dropped);
    }
}

/// A report that fails every attempt up to the ceiling is submitted
/// exactly that many times, then dropped, and the run continues as the
/// run of the rest of the queue: the dropped report is never
/// resubmitted.
pub proof fn law_drop_after_exhaustion(q: Seq<GameReportV>, outs: Seq<OutcomeV>, max: int)
    requires
        q.len() > 0,
        q[0].attempts < max,
        max <= u32::MAX,
        outs.len() >= max - q[0].attempts,
        forall|i: int| 0 <= i < max - q[0].attempts ==> !((#[trigger] outs[i]) is Success),
    ensures
        run_model(q, outs, max).submissions == Seq::new(
            (max - q[0].attempts) as nat,
            |i: int| GameReportV { attempts: (q[0].attempts + i + 1) as u32, ..q[0] },
        ) + run_model(q.drop_first(), outs.skip(max - q[0].attempts), max).submissions,
        run_model(q, outs, max).dropped == seq![
            GameReportV { attempts: max as u32, ..q[0] },
        ] + run_model(q.drop_first(), outs.skip(max - q[0].attempts), max).dropped,
        run_model(q, outs, max).remaining == run_model(
            q.drop_first(),
            outs.skip(max - q[0].attempts),
            max,
        ).remaining,
    decreases max - q[0].attempts,
{
    let n = max - q[0].attempts;
    assert(!(outs[0] is Success));
    if n == 1 {
        assert(q[0].attempts + 1 >= max);
        assert(resolve_queue(q, max, outs[0]) == q.drop_first());
        assert(outs.drop_first() =~= outs.skip(1));
        assert(q[0].bump_attempts() == (GameReportV { attempts: max as u32, ..q[0] }));
        assert(run_model(q, outs, max).submissions =~= Seq::new(
            1nat,
            |i: int| GameReportV { attempts: (q[0].attempts + i + 1) as u32, ..q[0] },
        ) + run_model(q.drop_first(), outs.skip(1), max).submissions);
        assert(run_model(q, outs, max).dropped =~= seq![
            GameReportV { attempts: max as u32, ..q[0] },
        ] + run_model(q.drop_first(), outs.skip(1), max).dropped);
    } else {
        assert(q[0].attempts + 1 < max);
        let q2 = q.update(0, q[0].bump_attempts());
        assert(resolve_queue(q, max, outs[0]) == q2);
        assert(q2[0] == q[0].bump_attempts());
        let outs2 = outs.drop_first();
        assert(forall|i: int|
            0 <= i < max - q2[0].attempts ==> !((#[trigger] outs2[i]) is Success)) by {
            assert(forall|i: int| 0 <= i < n - 1 ==> outs2[i] == outs[i + 1]);
        }
        law_drop_after_exhaustion(q2, outs2, max);
        assert(q2.drop_first() =~= q.drop_first());
        assert(outs2.skip(n - 1) =~= outs.skip(n));
        let tail = run_model(q.drop_first(), outs.skip(n), max);
        let ghost lhs = seq![q[0].bump_attempts()] + Seq::new(
            (n - 1) as nat,
            |j: int| GameReportV { attempts: (q2[0].attempts + j + 1) as u32, ..q2[0] },
        );
        let ghost rhs = Seq::new(
            n as nat,
            |j: int| GameReportV { attempts: (q[0].attempts + j + 1) as u32, ..q[0] },
        );
        assert forall|i: int| 0 <= i < n implies #[trigger] lhs[i] == rhs[i] by {
            if i > 0 {
                assert((GameReportV {
                    attempts: (q2[0].attempts + (i - 1) + 1) as u32,
                    ..q2[0]
                }) == (GameReportV { attempts: (q[0].attempts + i + 1) as u32, ..q[0] }));
            }
        }
        assert(lhs =~= rhs);
        assert((GameReportV { attempts: max as u32, ..q2[0] }) == (GameReportV {
            attempts: max as u32,
            ..q[0]
        }));
        assert(run_model(q, outs, max).submissions =~= rhs + tail.submissions);
        assert(run_model(q, outs, max).dropped =~= seq![
            GameReportV { attempts: max as u32, ..q[0] },
        ] + tail.dropped);
    }
}

/// Every submission of a run is one of the queued reports, told apart
/// from it only by the attempt counter: nothing is ever submitted that
/// was not enqueued.
pub proof fn law_submissions_come_from_queue(q: Seq<GameReportV>, outs: Seq<OutcomeV>, max: int)
    ensures
        forall|i: int|
            0 <= i < run_model(q, outs, max).submissions.len() ==> exists|j: int|
                0 <= j < q.len() && (#[trigger] run_model(q, outs, max).submissions[i]).same_report(
                    q[j],
                ),
    decreases outs.len(),
{
    if q.len() == 0 || outs.len() == 0 {
    } else {
        let q2 = resolve_queue(q, max, outs[0]);
        law_submissions_come_from_queue(q2, outs.drop_first(), max);
        let t = run_model(q, outs, max);
        let tail = run_model(q2, outs.drop_first(), max);
        assert forall|i: int| 0 <= i < t.submissions.len() implies exists|j: int|
            0 <= j < q.len() && (#[trigger] t.submissions[i]).same_report(q[j]) by {
            if i == 0 {
                assert(t.submissions[0] == q[0].bump_attempts());
                assert(t.submissions[0].same_report(q[0]));
            } else {
                assert(t.submissions[i] == tail.submissions[i - 1]);
                let j2 = choose|j2: int|
                    0 <= j2 < q2.len() && tail.submissions[i - 1].same_report(q2[j2]);
                if outs[0] is Success || q[0].attempts + 1 >= max {
                    assert(q2 == q.drop_first());
                    assert(q2[j2] == q[j2 + 1]);
                    assert(t.submissions[i].same_report(q[j2 + 1]));
                } else {
                    assert(q2 == q.update(0, q[0].bump_attempts()));
                    if j2 == 0 {
                        assert(q2[0] == q[0].bump_attempts());
                        assert(q2[0].same_report(q[0]));
                        assert(t.submissions[i].same_report(q[0]));
                    } else {
                        assert(q2[j2] == q[j2]);
                        assert(t.submissions[i].same_report(q[j2]));
                    }
                }
            }
        }
    }
}

/// During shutdown, with the ceiling at one, every remaining queued
/// report is submitted exactly once, whatever each outcome, and the
/// queue fully drains.
pub proof fn law_shutdown_single_attempt(q: Seq<GameReportV>, outs: Seq<OutcomeV>)
    requires
        outs.len() >= q.len(),
    ensures
        run_model(q, outs, 1).submissions == bumped_all(q),
        run_model(q, outs, 1).remaining == Seq::<GameReportV>::empty(),
    decreases q.len(),
{
    if q.len() == 0 {
        assert(run_model(q, outs, 1).submissions =~= bumped_all(q));
    } else {
        assert(q[0].attempts + 1 >= 1);
        assert(resolve_queue(q, 1, outs[0]) == q.drop_first());
        law_shutdown_single_attempt(q.drop_first(), outs.drop_first());
        assert(run_model(q, outs, 1).submissions =~= bumped_all(q));
    }
}

} // verus!
