//! An asynchronous, retrying game-report pipeline.
//!
//! The library holds the verified core of a match-result reporting
//! subsystem: the value objects describing one finished match, the
//! FIFO queue of pending reports, the wire-format codec for the
//! submission payload and the replay container, the retry/backoff
//! state machine of the processing loop, and the fingerprint gate.
//! The surrounding process supplies the threads and the network.

pub mod container;
pub mod engine;
pub mod fingerprint;
pub mod json;
pub mod numfmt;
pub mod payload;
pub mod queue;
pub mod replay;
pub mod report;
pub mod response;
