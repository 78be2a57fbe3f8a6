//! Replay data accumulated during gameplay, organized as an ordered
//! list of byte buffers ("takes").
//!
//! Exactly one buffer is the write target at any time: a `Create`
//! action starts a new buffer and makes it current, a `Close` action
//! marks the current buffer complete, and the plain action appends to
//! the current buffer.

use vstd::prelude::*;

verus! {

/// Different actions that can accompany a push of replay data.
#[derive(Debug, Clone, Copy, PartialEq, Eq, Structural)]
pub enum ReplayDataAction {
    /// Just push the data, nothing special.
    Blank,
    /// Start writing a new replay buffer.
    Create,
    /// Finish the current replay buffer.
    Close,
}

/// The mathematical value of a [`ReplayData`].
pub struct ReplayDataV {
    /// The accumulated buffers, oldest first.
    pub takes: Seq<Seq<u8>>,
    /// The index of the buffer currently written to.
    pub write_index: int,
    /// The most recently completed buffer, if any.
    pub last_completed_index: Option<int>,
}

/// Tracks replay data that gets passed over during gameplay.
#[derive(Debug)]
pub struct ReplayData {
    data: Vec<Vec<u8>>,
    write_index: usize,
    last_completed_index: Option<usize>,
}

impl View for ReplayData {
    type V = ReplayDataV;

    closed spec fn view(&self) -> ReplayDataV {
        ReplayDataV {
            takes: self.data.deep_view(),
            write_index: self.write_index as int,
            last_completed_index: match self.last_completed_index {
                Some(i) => Some(i as int),
                None => None,
            },
        }
    }
}

impl ReplayDataV {
    /// There is always a current buffer, and it is the newest one.
    pub open spec fn wf(self) -> bool {
        &&& self.takes.len() >= 1
        &&& self.write_index == self.takes.len() - 1
        &&& match self.last_completed_index {
            Some(i) => 0 <= i < self.takes.len(),
            None => true,
        }
    }
}

impl ReplayData {
    /// Creates a new `ReplayData` instance with one empty buffer as
    /// the write target.
    pub fn new() -> (r: Self)
        ensures
            r@.wf(),
            r@.takes == seq![Seq::<u8>::empty()],
            r@.write_index == 0,
            r@.last_completed_index is None,
    {
        let mut data: Vec<Vec<u8>> = Vec::new();
        data.push(Vec::new());
        let r = ReplayData { data, write_index: 0, last_completed_index: None };
        proof {
            assert(r@.takes =~~= seq![Seq::<u8>::empty()]);
        }
        r
    }

    /// Copies data from the provided slice into the proper buffer:
    /// `Create` first starts a fresh buffer, then the bytes go to the
    /// current buffer, and `Close` marks it complete.
    pub fn push(&mut self, data: &[u8], action: ReplayDataAction)
        requires
            old(self)@.wf(),
        ensures
            final(self)@.wf(),
            final(self)@.takes == (match action {
                ReplayDataAction::Create => old(self)@.takes.push(data@),
                _ => old(self)@.takes.update(
                    old(self)@.write_index,
                    old(self)@.takes[old(self)@.write_index] + data@,
                ),
            }),
            final(self)@.write_index == (match action {
                ReplayDataAction::Create => old(self)@.takes.len() as int,
                _ => old(self)@.write_index,
            }),
            final(self)@.last_completed_index == (match action {
                ReplayDataAction::Close => Some(final(self)@.write_index),
                _ => old(self)@.last_completed_index,
            }),
    {
        if let ReplayDataAction::Create = action {
            let ghost pre = self.data.deep_view();
            self.data.push(Vec::new());
            self.write_index = self.data.len() - 1;
            proof {
                assert(self.data.deep_view() =~~= pre.push(Seq::<u8>::empty()));
            }
        }
        let ghost mid = self.data.deep_view();
        let mut buf = self.data.pop().unwrap();
        let ghost bufpre = buf@;
        buf.extend_from_slice(data);
        self.data.push(buf);
        proof {
            assert(self.data.deep_view() =~~= mid.update(mid.len() - 1, bufpre + data@));
        }
        if let ReplayDataAction::Close = action {
            self.last_completed_index = Some(self.write_index);
        }
        proof {
            match action {
                ReplayDataAction::Create => {
                    assert(self@.takes =~~= old(self)@.takes.push(data@));
                },
                _ => {
                    assert(self@.takes =~~= old(self)@.takes.update(
                        old(self)@.write_index,
                        old(self)@.takes[old(self)@.write_index] + data@,
                    ));
                },
            }
        }
    }

    /// The number of buffers accumulated so far.
    pub fn take_count(&self) -> (r: usize)
        ensures
            r == self@.takes.len(),
    {
        self.data.len()
    }

    /// Read access to one accumulated buffer.
    pub fn buffer(&self, i: usize) -> (r: &Vec<u8>)
        requires
            i < self@.takes.len(),
        ensures
            r@ == self@.takes[i as int],
    {
        &self.data[i]
    }

    /// The index of the buffer currently written to.
    pub fn current_index(&self) -> (r: usize)
        ensures
            r == self@.write_index,
    {
        self.write_index
    }

    /// The most recently completed buffer, if any.
    pub fn completed_index(&self) -> (r: Option<usize>)
        ensures
            (match r {
                Some(i) => self@.last_completed_index == Some(i as int),
                None => self@.last_completed_index is None,
            }),
    {
        self.last_completed_index
    }
}

} // verus!
