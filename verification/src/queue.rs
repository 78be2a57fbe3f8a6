//! The FIFO queue of pending game reports.
//!
//! Producers append at the back; the single consumer works on the
//! front and removes a report only once it is terminal (sent, or
//! dropped after its last allowed attempt). The surrounding process
//! guards the queue with its lock; the queue itself is the plain
//! first-in, first-out discipline.

use std::collections::VecDeque;

use vstd::prelude::*;

use crate::report::{GameReport, GameReportV};

verus! {

/// How many times a report should attempt to send.
pub const MAX_REPORT_ATTEMPTS: u32 = 5;

/// Every queued report has attempts left and a replay buffer whose
/// length fits the container's four-byte length field.
pub open spec fn queue_wf(q: Seq<GameReportV>) -> bool {
    forall|i: int|
        0 <= i < q.len() ==> (#[trigger] q[i]).attempts < MAX_REPORT_ATTEMPTS
            && q[i].replay_data.len() <= u32::MAX
}

/// An ordered collection of pending reports: push to back, pop from
/// front.
#[derive(Debug)]
pub struct GameReporterQueue {
    inner: VecDeque<GameReport>,
}

impl View for GameReporterQueue {
    type V = Seq<GameReportV>;

    closed spec fn view(&self) -> Seq<GameReportV> {
        self.inner@.map_values(|r: GameReport| r@)
    }
}

impl GameReporterQueue {
    /// Initializes an empty queue.
    pub fn new() -> (r: Self)
        ensures
            r@ == Seq::<GameReportV>::empty(),
    {
        let r = GameReporterQueue { inner: VecDeque::new() };
        proof {
            assert(r@ =~= Seq::<GameReportV>::empty());
        }
        r
    }

    /// Adds a new report to the back of the queue. A report is handed
    /// over before its first attempt, and its replay buffer must fit
    /// the container's four-byte length field.
    pub fn add_report(&mut self, report: GameReport)
        requires
            report@.attempts == 0,
            report@.replay_data.len() <= u32::MAX,
        ensures
            final(self)@ == old(self)@.push(report@),
    {
        let ghost rv = report@;
        self.inner.push_back(report);
        proof {
            assert(self@ =~= old(self)@.push(rv));
        }
    }

    /// The number of pending reports.
    pub fn len(&self) -> (r: usize)
        ensures
            r == self@.len(),
    {
        self.inner.len()
    }

    /// Whether any report is pending.
    pub fn is_empty(&self) -> (r: bool)
        ensures
            r == (self@.len() == 0),
    {
        self.inner.len() == 0
    }

    /// Read access to the front report, the next one to submit.
    pub fn front(&self) -> (r: &GameReport)
        requires
            self@.len() > 0,
        ensures
            r@ == self@[0],
    {
        &self.inner[0]
    }

    /// Removes and returns the front report, or nothing if the queue
    /// is empty.
    pub fn drain_front(&mut self) -> (r: Option<GameReport>)
        ensures
            (match r {
                Some(rep) => old(self)@.len() > 0 && rep@ == old(self)@[0] && final(self)@ == old(
                    self,
                )@.drop_first(),
                None => old(self)@.len() == 0 && final(self)@ == old(self)@,
            }),
    {
        let r = self.inner.pop_front();
        proof {
            if old(self)@.len() > 0 {
                assert(self@ =~= old(self)@.drop_first());
            } else {
                assert(self@ =~= old(self)@);
            }
        }
        r
    }

    /// Raises the front report's attempt counter by one.
    pub fn bump_front_attempts(&mut self)
        requires
            old(self)@.len() > 0,
            old(self)@[0].attempts < u32::MAX,
        ensures
            final(self)@ == old(self)@.update(0, old(self)@[0].bump_attempts()),
    {
        let mut front = self.inner.pop_front().unwrap();
        front.attempts = front.attempts + 1;
        let ghost fv = front@;
        self.inner.push_front(front);
        proof {
            assert(fv == old(self)@[0].bump_attempts());
            assert(self@ =~= old(self)@.update(0, old(self)@[0].bump_attempts()));
        }
    }
}

} // verus!
